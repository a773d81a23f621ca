//! The stored configuration: the accelerator text of each role, if one was stored.

use crate::hotkey::{
    binding_of, binding_views, stored_texts, BindingView, HotKeyConfig, HotkeyBinding,
    DEFAULT_TOGGLE_ACTIVE, DEFAULT_TRIGGER,
};
use crate::text::text_view;
use vstd::prelude::*;

verus! {

/// Name under which the configuration is stored.
pub const APP_NAME: &'static str = "global-push-to-talk";

/// What is stored between runs: the accelerator text of each role.
#[derive(Clone, Debug, PartialEq, Eq)]
pub struct Config {
    trigger_hotkey: Option<String>,
    toggle_active_hotkey: Option<String>,
}

impl View for Config {
    type V = HotKeyConfig<Option<Seq<char>>>;

    closed spec fn view(&self) -> HotKeyConfig<Option<Seq<char>>> {
        HotKeyConfig {
            trigger: text_view(self.trigger_hotkey),
            toggle_active: text_view(self.toggle_active_hotkey),
        }
    }
}

/// The binding for a stored text: the one it stands for, or the one that
/// `fallback` stands for if nothing is stored or the stored text is no accelerator.
pub open spec fn stored_or_default(stored: Option<Seq<char>>, fallback: Seq<char>) -> Option<
    BindingView,
> {
    match stored {
        Some(text) if binding_of(text) is Some => binding_of(text),
        _ => binding_of(fallback),
    }
}

impl Default for Config {
    /// Nothing stored.
    fn default() -> (config: Self)
        ensures
            config@ == (HotKeyConfig::<Option<Seq<char>>> { trigger: None, toggle_active: None }),
    {
        Config { trigger_hotkey: None, toggle_active_hotkey: None }
    }
}

impl Config {
    /// A configuration with the given stored texts.
    pub fn new(trigger_hotkey: Option<String>, toggle_active_hotkey: Option<String>) -> (config:
        Config)
        ensures
            config@ == (HotKeyConfig {
                trigger: text_view(trigger_hotkey),
                toggle_active: text_view(toggle_active_hotkey),
            }),
    {
        Config { trigger_hotkey, toggle_active_hotkey }
    }

    /// The stored text of the trigger.
    pub fn trigger_hotkey(&self) -> (text: &Option<String>)
        ensures
            text_view(*text) == self@.trigger,
    {
        &self.trigger_hotkey
    }

    /// The stored text of the enable/disable hotkey.
    pub fn toggle_active_hotkey(&self) -> (text: &Option<String>)
        ensures
            text_view(*text) == self@.toggle_active,
    {
        &self.toggle_active_hotkey
    }

    /// The binding of each role: the stored one where it is an accelerator,
    /// the default one where it is not or nothing is stored.
    pub fn hotkeys(&self) -> (hotkeys: HotKeyConfig<HotkeyBinding>)
        ensures
            Some(hotkeys.trigger@) == stored_or_default(self@.trigger, DEFAULT_TRIGGER@),
            Some(hotkeys.toggle_active@) == stored_or_default(
                self@.toggle_active,
                DEFAULT_TOGGLE_ACTIVE@,
            ),
    {
        let HotKeyConfig { trigger, toggle_active } = HotKeyConfig::<HotkeyBinding>::default();
        let trigger = match &self.trigger_hotkey {
            Some(text) => match HotkeyBinding::parse(text.as_str()) {
                Some(binding) => binding,
                None => trigger,
            },
            None => trigger,
        };
        let toggle_active = match &self.toggle_active_hotkey {
            Some(text) => match HotkeyBinding::parse(text.as_str()) {
                Some(binding) => binding,
                None => toggle_active,
            },
            None => toggle_active,
        };
        HotKeyConfig { trigger, toggle_active }
    }

    /// Takes over the canonical texts of `hotkeys` as the stored texts.
    pub fn store_hotkeys(&mut self, hotkeys: &HotKeyConfig<HotkeyBinding>)
        ensures
            final(self)@ == stored_texts(binding_views(*hotkeys)),
    {
        self.trigger_hotkey = Some(hotkeys.trigger.description().to_owned());
        self.toggle_active_hotkey = Some(hotkeys.toggle_active.description().to_owned());
    }
}

} // verus!
