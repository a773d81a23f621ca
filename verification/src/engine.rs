//! The mute engine: a three-state machine over hotkey edges.

use vstd::prelude::*;

verus! {

/// An edge reported by the hotkey backend, already resolved to its role.
#[derive(Clone, Copy, Debug, PartialEq, Eq, Structural)]
pub enum EngineEvent {
    ToggleActivePressed,
    TriggerPressed,
    TriggerReleased,
}

/// Whether push-to-talk is enabled, and whether the virtual microphone is muted.
///
/// Of the four combinations only three occur: a muted engine is always active.
#[derive(Clone, Copy, Debug, PartialEq, Eq, Structural)]
pub struct EngineState {
    pub active: bool,
    pub muted: bool,
}

/// The state that `event` leads to from `s`.
pub open spec fn next_state(s: EngineState, event: EngineEvent) -> EngineState {
    match event {
        EngineEvent::ToggleActivePressed => EngineState { active: !s.active, muted: !s.active },
        EngineEvent::TriggerPressed => EngineState { active: s.active, muted: false },
        EngineEvent::TriggerReleased => EngineState { active: s.active, muted: s.active },
    }
}

/// The mute request that `event` causes in state `s`, if it causes one.
///
/// Toggling always issues a request. A trigger edge issues one only when it
/// changes the state of an active engine.
pub open spec fn mute_request(s: EngineState, event: EngineEvent) -> Option<bool> {
    match event {
        EngineEvent::ToggleActivePressed => Some(!s.active),
        EngineEvent::TriggerPressed => if s.active && s.muted {
            Some(false)
        } else {
            None
        },
        EngineEvent::TriggerReleased => if s.active && !s.muted {
            Some(true)
        } else {
            None
        },
    }
}

/// The state after feeding `events`, in order, to an engine in state `s`.
pub open spec fn run(s: EngineState, events: Seq<EngineEvent>) -> EngineState
    decreases events.len(),
{
    if events.len() == 0 {
        s
    } else {
        next_state(run(s, events.drop_last()), events.last())
    }
}

/// Whether the trigger key is down after `events`: the last trigger edge was a press.
pub open spec fn holding(events: Seq<EngineEvent>) -> bool
    decreases events.len(),
{
    if events.len() == 0 {
        false
    } else {
        match events.last() {
            EngineEvent::TriggerPressed => true,
            EngineEvent::TriggerReleased => false,
            EngineEvent::ToggleActivePressed => holding(events.drop_last()),
        }
    }
}

/// Whether event `i` of `events` switches the engine on while the trigger key is down.
pub open spec fn enabled_while_held(events: Seq<EngineEvent>, i: int) -> bool {
    &&& 0 <= i < events.len()
    &&& events[i] == EngineEvent::ToggleActivePressed
    &&& !run(EngineState::initial(), events.take(i)).active
    &&& holding(events.take(i))
}

impl EngineState {
    /// The state at start: push-to-talk off, microphone open.
    pub open spec fn initial() -> EngineState {
        EngineState { active: false, muted: false }
    }

    /// A muted engine is active.
    pub open spec fn wf(self) -> bool {
        self.muted ==> self.active
    }

    /// Muted exactly when active and the trigger key is up.
    pub open spec fn agrees_with(self, held: bool) -> bool {
        self.muted == (self.active && !held)
    }

    /// An engine in its initial state.
    pub fn new() -> (s: EngineState)
        ensures
            s == EngineState::initial(),
    {
        EngineState { active: false, muted: false }
    }

    /// Consumes one event. Returns the mute request to send to the audio
    /// bridge, if the transition has one. The new state is committed whether or
    /// not that request later succeeds.
    pub fn step(&mut self, event: EngineEvent) -> (request: Option<bool>)
        ensures
            *final(self) == next_state(*old(self), event),
            request == mute_request(*old(self), event),
            old(self).wf() ==> final(self).wf(),
            request matches Some(m) ==> m == final(self).muted,
    {
        let before = *self;
        match event {
            EngineEvent::ToggleActivePressed => {
                self.active = !before.active;
                self.muted = !before.active;
                Some(!before.active)
            },
            EngineEvent::TriggerPressed => {
                self.muted = false;
                if before.active && before.muted {
                    Some(false)
                } else {
                    None
                }
            },
            EngineEvent::TriggerReleased => {
                self.muted = before.active;
                if before.active && !before.muted {
                    Some(true)
                } else {
                    None
                }
            },
        }
    }
}

/// Every state reached from the initial one is well formed.
pub proof fn lemma_run_wf(events: Seq<EngineEvent>)
    ensures
        run(EngineState::initial(), events).wf(),
    decreases events.len(),
{
    if events.len() > 0 {
        lemma_run_wf(events.drop_last());
    }
}

/// In every state reached from the initial one the engine is muted exactly
/// when it is active and the trigger key is up, unless the last event has
/// switched it on while the key was down.
pub proof fn lemma_muted_iff_active_and_released(events: Seq<EngineEvent>)
    requires
        !enabled_while_held(events, events.len() - 1),
    ensures
        run(EngineState::initial(), events).agrees_with(holding(events)),
{
    if events.len() > 0 {
        assert(events.take(events.len() - 1) =~= events.drop_last());
    }
}

/// An engine that is switched on while the trigger key is down starts muted
/// all the same, and stays so until the next event.
pub proof fn lemma_enabled_while_held_starts_muted(events: Seq<EngineEvent>)
    requires
        enabled_while_held(events, events.len() - 1),
    ensures
        run(EngineState::initial(), events) == (EngineState { active: true, muted: true }),
        holding(events),
        !run(EngineState::initial(), events).agrees_with(holding(events)),
{
    assert(events.take(events.len() - 1) =~= events.drop_last());
}

/// A second press of the trigger with no release in between changes nothing
/// and issues no request.
pub proof fn lemma_repeated_press_is_noop(s: EngineState)
    ensures
        next_state(next_state(s, EngineEvent::TriggerPressed), EngineEvent::TriggerPressed)
            == next_state(s, EngineEvent::TriggerPressed),
        mute_request(next_state(s, EngineEvent::TriggerPressed), EngineEvent::TriggerPressed)
            is None,
{
}

/// A second release of the trigger with no press in between changes nothing
/// and issues no request.
pub proof fn lemma_repeated_release_is_noop(s: EngineState)
    ensures
        next_state(next_state(s, EngineEvent::TriggerReleased), EngineEvent::TriggerReleased)
            == next_state(s, EngineEvent::TriggerReleased),
        mute_request(next_state(s, EngineEvent::TriggerReleased), EngineEvent::TriggerReleased)
            is None,
{
}

/// While the engine is off, trigger edges change nothing and issue no request.
pub proof fn lemma_inactive_ignores_trigger(s: EngineState, event: EngineEvent)
    requires
        s.wf(),
        !s.active,
        event != EngineEvent::ToggleActivePressed,
    ensures
        next_state(s, event) == s,
        mute_request(s, event) is None,
{
}

} // verus!
