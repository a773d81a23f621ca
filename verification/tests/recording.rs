use global_push_to_talk::app::Msg;
use global_push_to_talk::recording::{key_to_str, mod_to_str, record_hotkey, Key, KeyEvent, Modifiers};

const NONE: Modifiers = Modifiers { control: false, shift: false, alt: false, logo: false };

fn named(name: &str) -> Key {
    Key::Named(name.to_string())
}

#[test]
fn recording_mod_to_str() {
    assert_eq!(mod_to_str(NONE), "");
    assert_eq!(mod_to_str(Modifiers { control: true, ..NONE }), "CTRL");
    assert_eq!(mod_to_str(Modifiers { shift: true, ..NONE }), "SHIFT");
    assert_eq!(mod_to_str(Modifiers { alt: true, ..NONE }), "ALT");
    assert_eq!(mod_to_str(Modifiers { logo: true, ..NONE }), "SUPER");
    assert_eq!(mod_to_str(Modifiers { control: true, logo: true, ..NONE }), "CTRL+SUPER");
    assert_eq!(mod_to_str(Modifiers { shift: true, alt: true, ..NONE }), "SHIFT+ALT");
    assert_eq!(
        mod_to_str(Modifiers { control: true, shift: true, alt: true, logo: true }),
        "CTRL+SHIFT+ALT+SUPER"
    );
}

#[test]
fn recording_modifiers_is_empty() {
    assert!(NONE.is_empty());
    assert!(!Modifiers { alt: true, ..NONE }.is_empty());
    assert!(!Modifiers { logo: true, ..NONE }.is_empty());
}

#[test]
fn recording_key_to_str() {
    assert_eq!(key_to_str(&named("Insert")), "Insert");
    assert_eq!(key_to_str(&Key::Character("p".to_string())), "p");
    assert_eq!(key_to_str(&Key::Unidentified), "");
    assert_eq!(key_to_str(&Key::Modifier), "");
}

#[test]
fn recording_plain_key_press_finishes() {
    let event = KeyEvent::Pressed { key: named("Insert"), modifiers: NONE };
    assert_eq!(record_hotkey(&event), Msg::FinishHotKeyRecording("Insert".to_string()));
}

#[test]
fn recording_key_press_with_modifiers_finishes() {
    let event = KeyEvent::Pressed {
        key: Key::Character("p".to_string()),
        modifiers: Modifiers { control: true, logo: true, ..NONE },
    };
    assert_eq!(record_hotkey(&event), Msg::FinishHotKeyRecording("CTRL+SUPER+p".to_string()));
}

#[test]
fn recording_unidentified_key_press_finishes_with_modifiers_and_nothing() {
    let event = KeyEvent::Pressed { key: Key::Unidentified, modifiers: Modifiers { alt: true, ..NONE } };
    assert_eq!(record_hotkey(&event), Msg::FinishHotKeyRecording("ALT+".to_string()));
    let event = KeyEvent::Pressed { key: Key::Unidentified, modifiers: NONE };
    assert_eq!(record_hotkey(&event), Msg::FinishHotKeyRecording(String::new()));
}

#[test]
fn recording_modifier_press_goes_on() {
    let event = KeyEvent::Pressed { key: Key::Modifier, modifiers: Modifiers { control: true, ..NONE } };
    assert_eq!(record_hotkey(&event), Msg::Nothing);
}

#[test]
fn recording_modifier_release_finishes_with_modifiers() {
    let event = KeyEvent::Released {
        key: Key::Modifier,
        modifiers: Modifiers { control: true, shift: true, ..NONE },
    };
    assert_eq!(record_hotkey(&event), Msg::FinishHotKeyRecording("CTRL+SHIFT".to_string()));
    let event = KeyEvent::Released { key: Key::Modifier, modifiers: NONE };
    assert_eq!(record_hotkey(&event), Msg::FinishHotKeyRecording(String::new()));
}

#[test]
fn recording_other_release_and_other_events_go_on() {
    let event = KeyEvent::Released { key: named("Insert"), modifiers: NONE };
    assert_eq!(record_hotkey(&event), Msg::Nothing);
    assert_eq!(record_hotkey(&KeyEvent::Other), Msg::Nothing);
}
