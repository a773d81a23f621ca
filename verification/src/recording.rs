//! Recording a new hotkey from keyboard events: which event ends the
//! recording, and the accelerator text that it yields.

use crate::app::Msg;
use vstd::prelude::*;

verus! {

/// The modifier keys that are down.
#[derive(Debug, Clone, Copy, PartialEq, Eq, Structural)]
pub struct Modifiers {
    pub control: bool,
    pub shift: bool,
    pub alt: bool,
    pub logo: bool,
}

/// A key, as far as recording cares.
#[derive(Debug, Clone)]
pub enum Key {
    /// Control, Alt, AltGraph, Shift or Super.
    Modifier,
    /// Another named key; holds its name.
    Named(String),
    /// A key that types the held text.
    Character(String),
    Unidentified,
}

/// A keyboard event while a hotkey is being recorded.
#[derive(Debug, Clone)]
pub enum KeyEvent {
    Pressed { key: Key, modifiers: Modifiers },
    Released { key: Key, modifiers: Modifiers },
    /// Anything else, such as a change of the modifiers alone.
    Other,
}

impl Modifiers {
    /// No modifier key is down.
    pub open spec fn none(self) -> bool {
        !self.control && !self.shift && !self.alt && !self.logo
    }

    /// Whether no modifier key is down.
    pub fn is_empty(&self) -> (r: bool)
        ensures
            r == self.none(),
    {
        !self.control && !self.shift && !self.alt && !self.logo
    }
}

/// `text`, with `name` appended if `held`, after a `+` if `text` is not empty.
pub open spec fn with_modifier(text: Seq<char>, held: bool, name: Seq<char>) -> Seq<char> {
    if !held {
        text
    } else if text.len() == 0 {
        name
    } else {
        text + "+"@ + name
    }
}

/// The names of the modifiers that are down, in the order Control, Shift,
/// Alt, Super, with a `+` between each two.
pub open spec fn modifiers_text(m: Modifiers) -> Seq<char> {
    with_modifier(
        with_modifier(
            with_modifier(with_modifier(Seq::empty(), m.control, "CTRL"@), m.shift, "SHIFT"@),
            m.alt,
            "ALT"@,
        ),
        m.logo,
        "SUPER"@,
    )
}

/// The text of a key: its name, what it types, or nothing.
pub open spec fn key_text(key: Key) -> Seq<char> {
    match key {
        Key::Named(name) => name@,
        Key::Character(c) => c@,
        Key::Modifier | Key::Unidentified => Seq::empty(),
    }
}

/// The message that a keyboard event leads to while a hotkey is recorded.
/// Releasing a modifier key ends the recording with the modifiers that the
/// event reports. Pressing any other key ends it with those modifiers and the
/// key. Nothing else ends it.
pub open spec fn recorded(event: KeyEvent) -> Option<Seq<char>> {
    match event {
        KeyEvent::Released { key, modifiers } => if key is Modifier {
            Some(modifiers_text(modifiers))
        } else {
            None
        },
        KeyEvent::Pressed { key, modifiers } => if key is Modifier {
            None
        } else if modifiers.none() {
            Some(key_text(key))
        } else {
            Some(modifiers_text(modifiers) + "+"@ + key_text(key))
        },
        KeyEvent::Other => None,
    }
}

fn append_modifier(text: &mut String, held: bool, name: &str)
    ensures
        final(text)@ == with_modifier(old(text)@, held, name@),
{
    if held {
        if text.as_str().unicode_len() == 0 {
            text.append(name);
            assert(text@ =~= name@);
        } else {
            text.append("+");
            text.append(name);
        }
    }
}

/// The text of the modifiers that are down.
pub fn mod_to_str(modifiers: Modifiers) -> (text: String)
    ensures
        text@ == modifiers_text(modifiers),
{
    let mut text = String::new();
    append_modifier(&mut text, modifiers.control, "CTRL");
    append_modifier(&mut text, modifiers.shift, "SHIFT");
    append_modifier(&mut text, modifiers.alt, "ALT");
    append_modifier(&mut text, modifiers.logo, "SUPER");
    text
}

/// The text of a key.
pub fn key_to_str(key: &Key) -> (text: String)
    ensures
        text@ == key_text(*key),
{
    match key {
        Key::Named(name) => name.clone(),
        Key::Character(c) => c.clone(),
        Key::Modifier | Key::Unidentified => String::new(),
    }
}

/// Turns a keyboard event into the message that ends the recording, or into
/// `Msg::Nothing` if the recording goes on.
pub fn record_hotkey(event: &KeyEvent) -> (msg: Msg)
    ensures
        match recorded(*event) {
            Some(text) => msg matches Msg::FinishHotKeyRecording(t) && t@ == text,
            None => msg == Msg::Nothing,
        },
{
    match event {
        KeyEvent::Released { key, modifiers } => match key {
            Key::Modifier => Msg::FinishHotKeyRecording(mod_to_str(*modifiers)),
            _ => Msg::Nothing,
        },
        KeyEvent::Pressed { key, modifiers } => match key {
            Key::Modifier => Msg::Nothing,
            _ => {
                if modifiers.is_empty() {
                    Msg::FinishHotKeyRecording(key_to_str(key))
                } else {
                    let mut text = mod_to_str(*modifiers);
                    text.append("+");
                    let key_name = key_to_str(key);
                    text.append(key_name.as_str());
                    Msg::FinishHotKeyRecording(text)
                }
            },
        },
        KeyEvent::Other => Msg::Nothing,
    }
}

} // verus!
