use global_push_to_talk::engine::{EngineEvent, EngineState};

const INACTIVE: EngineState = EngineState { active: false, muted: false };
const ACTIVE_MUTED: EngineState = EngineState { active: true, muted: true };
const ACTIVE_UNMUTED: EngineState = EngineState { active: true, muted: false };

fn feed(state: &mut EngineState, events: &[EngineEvent]) -> Vec<bool> {
    let mut requests = Vec::new();
    for event in events {
        if let Some(m) = state.step(*event) {
            requests.push(m);
        }
    }
    requests
}

#[test]
fn engine_starts_inactive() {
    assert_eq!(EngineState::new(), INACTIVE);
}

#[test]
fn engine_push_to_talk_cycle() {
    let mut state = EngineState::new();
    let requests = feed(
        &mut state,
        &[
            EngineEvent::ToggleActivePressed,
            EngineEvent::TriggerPressed,
            EngineEvent::TriggerReleased,
            EngineEvent::ToggleActivePressed,
        ],
    );
    assert_eq!(requests, vec![true, false, true, false]);
    assert_eq!(state, INACTIVE);
}

#[test]
fn engine_table_rows() {
    let mut s = INACTIVE;
    assert_eq!(s.step(EngineEvent::ToggleActivePressed), Some(true));
    assert_eq!(s, ACTIVE_MUTED);

    let mut s = ACTIVE_MUTED;
    assert_eq!(s.step(EngineEvent::TriggerPressed), Some(false));
    assert_eq!(s, ACTIVE_UNMUTED);

    let mut s = ACTIVE_UNMUTED;
    assert_eq!(s.step(EngineEvent::TriggerReleased), Some(true));
    assert_eq!(s, ACTIVE_MUTED);

    let mut s = ACTIVE_MUTED;
    assert_eq!(s.step(EngineEvent::ToggleActivePressed), Some(false));
    assert_eq!(s, INACTIVE);

    let mut s = ACTIVE_UNMUTED;
    assert_eq!(s.step(EngineEvent::ToggleActivePressed), Some(false));
    assert_eq!(s, INACTIVE);
}

#[test]
fn engine_inactive_ignores_trigger() {
    let mut s = INACTIVE;
    assert_eq!(s.step(EngineEvent::TriggerPressed), None);
    assert_eq!(s, INACTIVE);
    assert_eq!(s.step(EngineEvent::TriggerReleased), None);
    assert_eq!(s, INACTIVE);
}

#[test]
fn engine_repeated_press_changes_nothing() {
    let mut s = ACTIVE_MUTED;
    assert_eq!(s.step(EngineEvent::TriggerPressed), Some(false));
    let after_first = s;
    assert_eq!(s.step(EngineEvent::TriggerPressed), None);
    assert_eq!(s, after_first);
}

#[test]
fn engine_repeated_release_changes_nothing() {
    let mut s = ACTIVE_UNMUTED;
    assert_eq!(s.step(EngineEvent::TriggerReleased), Some(true));
    let after_first = s;
    assert_eq!(s.step(EngineEvent::TriggerReleased), None);
    assert_eq!(s, after_first);
}

#[test]
fn engine_muted_iff_active_and_trigger_up() {
    // The trigger is never down while the engine is switched on.
    let events = [
        EngineEvent::TriggerPressed,
        EngineEvent::TriggerReleased,
        EngineEvent::ToggleActivePressed,
        EngineEvent::TriggerPressed,
        EngineEvent::TriggerPressed,
        EngineEvent::TriggerReleased,
        EngineEvent::TriggerPressed,
        EngineEvent::ToggleActivePressed,
        EngineEvent::TriggerReleased,
        EngineEvent::ToggleActivePressed,
        EngineEvent::TriggerPressed,
    ];
    let mut state = EngineState::new();
    let mut held = false;
    for event in events {
        state.step(event);
        match event {
            EngineEvent::TriggerPressed => held = true,
            EngineEvent::TriggerReleased => held = false,
            EngineEvent::ToggleActivePressed => {}
        }
        assert_eq!(state.muted, state.active && !held);
    }
}

#[test]
fn engine_switched_on_while_trigger_is_down_starts_muted() {
    let mut state = EngineState::new();
    assert_eq!(state.step(EngineEvent::TriggerPressed), None);
    assert_eq!(state.step(EngineEvent::ToggleActivePressed), Some(true));
    assert_eq!(state, ACTIVE_MUTED);
    assert_eq!(state.step(EngineEvent::TriggerReleased), None);
    assert_eq!(state, ACTIVE_MUTED);
}
