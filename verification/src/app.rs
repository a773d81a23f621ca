//! The application core: messages, state, and what each message leads to.

use crate::engine::{next_state, EngineEvent, EngineState};
use crate::hotkey::{binding_of, text_views, HotKeyAction, HotKeyConfig, HotkeyBinding};
use crate::pulse::{
    error_text, failure_prefix, failure_report, Error, Operation, PulseAudioState,
};
use crate::text::{same_text, text_view};
use vstd::prelude::*;

verus! {

/// Shown in place of the controls once global hotkeys are lost.
pub const GLOBAL_SHORTCUTS_ERROR: &'static str =
    "Failed to load global shortcuts. Push-to-talk will not work. Make sure you are using a Wayland compositor with a portal implementation that supports global shortcuts.";

/// Width and height of the main window.
pub const MAIN_WINDOW_SIZE: (u32, u32) = (600, 300);

/// Width and height of the window that shows an error in place of the controls.
pub const BACKEND_ERROR_WINDOW_SIZE: (u32, u32) = (280, 180);

/// What the user interface, the tray and the hotkey backends tell the core.
#[derive(Debug, Clone, PartialEq, Eq)]
pub enum Msg {
    GlobalShortcutsFail,
    ChooseMicrophone(String),
    SetActive(bool),
    ToggleActive,
    SetMuted(bool),
    UpdateHotKeyDescriptions(HotKeyConfig<String>),
    ShowWindow,
    Close,
    Exit,
    /// The hotkey backend accepts new bindings from now on.
    InitChangeHotKey,
    StartHotKeyRecording(HotKeyAction),
    FinishHotKeyRecording(String),
    /// Nothing to do.
    Nothing,
}

/// What the surrounding program has to do after a message.
#[derive(Debug, Clone, PartialEq, Eq)]
pub enum Effect {
    Nothing,
    /// Ask the audio bridge to mute or unmute the virtual microphone.
    SetMute(bool),
    /// Show the flag on the tray icon, then ask the audio bridge to mute
    /// (flag set) or unmute (flag cleared) the virtual microphone.
    SetActive(bool),
    /// Create the virtual microphone on top of `source`. If `first_time` is
    /// set, send `Msg::SetActive(true)` afterwards.
    SetVirtualMic { source: String, first_time: bool },
    /// Ask the hotkey registry to bind `role` to `accelerator`.
    Rebind { role: HotKeyAction, accelerator: String },
    /// Bring the window to the front, or open one of this size.
    ShowWindow { width: u32, height: u32 },
    /// Tell the user that the program keeps running, and close the window.
    CloseWindow,
    /// Remove the virtual microphone if asked to, then end the program.
    Exit { remove_virtual_mic: bool },
    /// Write this line to the log.
    Report(String),
}

/// An effect, with its texts as sequences of characters.
pub enum EffectView {
    Nothing,
    SetMute(bool),
    SetActive(bool),
    SetVirtualMic { source: Seq<char>, first_time: bool },
    Rebind { role: HotKeyAction, accelerator: Seq<char> },
    ShowWindow { width: u32, height: u32 },
    CloseWindow,
    Exit { remove_virtual_mic: bool },
    Report(Seq<char>),
}

impl View for Effect {
    type V = EffectView;

    open spec fn view(&self) -> EffectView {
        match *self {
            Effect::Nothing => EffectView::Nothing,
            Effect::SetMute(m) => EffectView::SetMute(m),
            Effect::SetActive(a) => EffectView::SetActive(a),
            Effect::SetVirtualMic { source, first_time } => EffectView::SetVirtualMic {
                source: source@,
                first_time,
            },
            Effect::Rebind { role, accelerator } => EffectView::Rebind {
                role,
                accelerator: accelerator@,
            },
            Effect::ShowWindow { width, height } => EffectView::ShowWindow { width, height },
            Effect::CloseWindow => EffectView::CloseWindow,
            Effect::Exit { remove_virtual_mic } => EffectView::Exit { remove_virtual_mic },
            Effect::Report(line) => EffectView::Report(line@),
        }
    }
}

/// The state of the application core.
#[derive(Debug, Clone)]
pub struct App {
    engine: EngineState,
    hk_descriptions: HotKeyConfig<String>,
    /// The audio bridge's record, if the bridge is up.
    pa_state: Option<PulseAudioState>,
    /// What is shown in place of the controls, once the program cannot go on.
    error: Option<String>,
    can_change_hotkeys: bool,
    recording_hotkey: Option<HotKeyAction>,
}

/// The core's state, with its texts as sequences of characters.
pub struct AppView {
    pub engine: EngineState,
    pub hk_descriptions: HotKeyConfig<Seq<char>>,
    /// Whether the audio bridge is up and, if it is, the physical source
    /// under the virtual microphone.
    pub pa_state: Option<Option<Seq<char>>>,
    pub error: Option<Seq<char>>,
    pub can_change_hotkeys: bool,
    pub recording_hotkey: Option<HotKeyAction>,
}

impl AppView {
    /// The audio bridge is up and no error has replaced the controls.
    pub open spec fn operational(self) -> bool {
        self.pa_state is Some && self.error is None
    }
}

/// The view of the audio bridge's record, if there is one.
pub open spec fn bridge_view(pa_state: Option<PulseAudioState>) -> Option<Option<Seq<char>>> {
    match pa_state {
        Some(state) => Some(state@),
        None => None,
    }
}

impl View for App {
    type V = AppView;

    closed spec fn view(&self) -> AppView {
        AppView {
            engine: self.engine,
            hk_descriptions: text_views(self.hk_descriptions),
            pa_state: bridge_view(self.pa_state),
            error: text_view(self.error),
            can_change_hotkeys: self.can_change_hotkeys,
            recording_hotkey: self.recording_hotkey,
        }
    }
}

/// The state at start, given how setting up the audio bridge ended.
pub open spec fn initial_app(init: Result<PulseAudioState, Error>) -> AppView {
    AppView {
        engine: EngineState::initial(),
        hk_descriptions: HotKeyConfig { trigger: Seq::empty(), toggle_active: Seq::empty() },
        pa_state: match init {
            Ok(pa_state) => Some(pa_state@),
            Err(_) => None,
        },
        error: match init {
            Ok(_) => None,
            Err(e) => Some(error_text(e)),
        },
        can_change_hotkeys: false,
        recording_hotkey: None,
    }
}

/// The trigger edge that a mute message stands for.
pub open spec fn trigger_edge(muted: bool) -> EngineEvent {
    if muted {
        EngineEvent::TriggerReleased
    } else {
        EngineEvent::TriggerPressed
    }
}

/// The state after `msg`. The loss of the hotkeys replaces the controls by
/// an error and leaves the audio bridge as it is.
pub open spec fn updated(app: AppView, msg: Msg) -> AppView {
    match msg {
        Msg::GlobalShortcutsFail => AppView { error: Some(GLOBAL_SHORTCUTS_ERROR@), ..app },
        Msg::SetActive(active) => if app.operational() {
            AppView { engine: EngineState { active, muted: active }, ..app }
        } else {
            app
        },
        Msg::ToggleActive => if app.operational() {
            AppView { engine: next_state(app.engine, EngineEvent::ToggleActivePressed), ..app }
        } else {
            app
        },
        Msg::SetMuted(muted) => if app.operational() {
            AppView { engine: next_state(app.engine, trigger_edge(muted)), ..app }
        } else {
            app
        },
        Msg::UpdateHotKeyDescriptions(descriptions) => AppView {
            hk_descriptions: text_views(descriptions),
            ..app
        },
        Msg::InitChangeHotKey => AppView { can_change_hotkeys: true, ..app },
        Msg::StartHotKeyRecording(role) => AppView { recording_hotkey: Some(role), ..app },
        Msg::FinishHotKeyRecording(_) => AppView { recording_hotkey: None, ..app },
        Msg::ChooseMicrophone(_) | Msg::ShowWindow | Msg::Close | Msg::Exit | Msg::Nothing => app,
    }
}

/// What `msg` asks of the surrounding program in state `app`. Whenever the
/// audio bridge is up, leaving the program asks for the removal of the
/// virtual microphone first.
pub open spec fn effect_of(app: AppView, msg: Msg) -> EffectView {
    match msg {
        Msg::ChooseMicrophone(mic) => if app.operational() {
            EffectView::SetVirtualMic { source: mic@, first_time: app.pa_state == Some(None::<Seq<char>>) }
        } else {
            EffectView::Nothing
        },
        Msg::SetActive(active) => if app.operational() {
            EffectView::SetActive(active)
        } else {
            EffectView::Nothing
        },
        Msg::ToggleActive => if app.operational() {
            EffectView::SetActive(!app.engine.active)
        } else {
            EffectView::Nothing
        },
        Msg::SetMuted(muted) => if app.operational() {
            match crate::engine::mute_request(app.engine, trigger_edge(muted)) {
                Some(m) => EffectView::SetMute(m),
                None => EffectView::Nothing,
            }
        } else {
            EffectView::Nothing
        },
        Msg::ShowWindow => if app.error is None {
            EffectView::ShowWindow { width: MAIN_WINDOW_SIZE.0, height: MAIN_WINDOW_SIZE.1 }
        } else {
            EffectView::ShowWindow {
                width: BACKEND_ERROR_WINDOW_SIZE.0,
                height: BACKEND_ERROR_WINDOW_SIZE.1,
            }
        },
        Msg::Close => EffectView::CloseWindow,
        Msg::Exit => EffectView::Exit { remove_virtual_mic: app.pa_state is Some },
        Msg::FinishHotKeyRecording(text) => match app.recording_hotkey {
            Some(role) if app.can_change_hotkeys && binding_of(text@) is Some => EffectView::Rebind {
                role,
                accelerator: text@,
            },
            _ => EffectView::Nothing,
        },
        Msg::GlobalShortcutsFail
        | Msg::UpdateHotKeyDescriptions(_)
        | Msg::InitChangeHotKey
        | Msg::StartHotKeyRecording(_)
        | Msg::Nothing => EffectView::Nothing,
    }
}

/// What follows from how `operation` ended: a failure is reported, with one
/// line; success asks for nothing.
pub open spec fn report_of(operation: Operation, result: Result<(), Error>) -> EffectView {
    match result {
        Ok(_) => EffectView::Nothing,
        Err(e) => EffectView::Report(failure_prefix(operation) + error_text(e)),
    }
}

/// What a second instance of the program writes to the first one's socket.
pub const IPC_OPEN: &'static str = "open";

/// The message for what another instance wrote to the socket: a request
/// to show the window if it is the word for that, nothing otherwise.
pub fn ipc_message(received: &str) -> (msg: Msg)
    ensures
        msg == if received@ == IPC_OPEN@ {
            Msg::ShowWindow
        } else {
            Msg::Nothing
        },
{
    if same_text(received, IPC_OPEN) {
        Msg::ShowWindow
    } else {
        Msg::Nothing
    }
}

/// Decides what to do about the end of a request to the audio bridge: a
/// failure is reported once, and changes nothing else.
pub fn operation_result(operation: Operation, result: Result<(), Error>) -> (effect: Effect)
    ensures
        effect@ == report_of(operation, result),
{
    match result {
        Ok(_) => Effect::Nothing,
        Err(e) => Effect::Report(failure_report(operation, &e)),
    }
}

/// No message leads to an engine that is muted without being active.
pub proof fn lemma_update_keeps_engine_well_formed(app: AppView, msg: Msg)
    requires
        app.engine.wf(),
    ensures
        updated(app, msg).engine.wf(),
{
}

/// No message takes the audio bridge away, so a program whose bridge is up
/// is asked to remove the virtual microphone when it leaves, whatever
/// happened in between.
pub proof fn lemma_exit_removes_virtual_mic(app: AppView, msg: Msg)
    requires
        app.pa_state is Some,
    ensures
        updated(app, msg).pa_state == app.pa_state,
        effect_of(updated(app, msg), Msg::Exit) == (EffectView::Exit { remove_virtual_mic: true }),
{
}

impl App {
    /// The core at start: push-to-talk off, nothing recorded, and the audio
    /// bridge as `init` left it.
    pub fn new(init: Result<PulseAudioState, Error>) -> (app: App)
        ensures
            app@ == initial_app(init),
    {
        let (pa_state, error) = match init {
            Ok(pa_state) => (Some(pa_state), None),
            Err(e) => (None, Some(e.message())),
        };
        App {
            engine: EngineState::new(),
            hk_descriptions: HotKeyConfig::default(),
            pa_state,
            error,
            can_change_hotkeys: false,
            recording_hotkey: None,
        }
    }

    fn operational(&self) -> (r: bool)
        ensures
            r == self@.operational(),
    {
        self.pa_state.is_some() && self.error.is_none()
    }

    /// Takes in one message. The state moves on at once; the result says
    /// what is left to do for the surrounding program. Whether that succeeds
    /// has no bearing on the state.
    pub fn update(&mut self, msg: Msg) -> (effect: Effect)
        ensures
            final(self)@ == updated(old(self)@, msg),
            effect@ == effect_of(old(self)@, msg),
    {
        match msg {
            Msg::Nothing => Effect::Nothing,
            Msg::ChooseMicrophone(mic) => self.choose_microphone(mic),
            Msg::SetActive(active) => self.set_active(active),
            Msg::ToggleActive => {
                let active = !self.engine.active;
                self.set_active(active)
            },
            Msg::SetMuted(muted) => self.set_muted(muted),
            Msg::GlobalShortcutsFail => {
                self.error = Some(GLOBAL_SHORTCUTS_ERROR.to_owned());
                Effect::Nothing
            },
            Msg::UpdateHotKeyDescriptions(descriptions) => {
                self.hk_descriptions = descriptions;
                Effect::Nothing
            },
            Msg::ShowWindow => if self.error.is_none() {
                Effect::ShowWindow { width: MAIN_WINDOW_SIZE.0, height: MAIN_WINDOW_SIZE.1 }
            } else {
                Effect::ShowWindow {
                    width: BACKEND_ERROR_WINDOW_SIZE.0,
                    height: BACKEND_ERROR_WINDOW_SIZE.1,
                }
            },
            Msg::Close => Effect::CloseWindow,
            Msg::Exit => Effect::Exit { remove_virtual_mic: self.pa_state.is_some() },
            Msg::InitChangeHotKey => {
                self.can_change_hotkeys = true;
                Effect::Nothing
            },
            Msg::StartHotKeyRecording(role) => {
                self.recording_hotkey = Some(role);
                Effect::Nothing
            },
            Msg::FinishHotKeyRecording(text) => self.finish_hotkey_recording(text),
        }
    }

    fn set_muted(&mut self, muted: bool) -> (effect: Effect)
        ensures
            final(self)@ == updated(old(self)@, Msg::SetMuted(muted)),
            effect@ == effect_of(old(self)@, Msg::SetMuted(muted)),
    {
        if !self.operational() {
            return Effect::Nothing;
        }
        let edge = if muted {
            EngineEvent::TriggerReleased
        } else {
            EngineEvent::TriggerPressed
        };
        match self.engine.step(edge) {
            Some(m) => Effect::SetMute(m),
            None => Effect::Nothing,
        }
    }

    fn set_active(&mut self, active: bool) -> (effect: Effect)
        ensures
            final(self)@ == updated(old(self)@, Msg::SetActive(active)),
            effect@ == effect_of(old(self)@, Msg::SetActive(active)),
    {
        if !self.operational() {
            return Effect::Nothing;
        }
        self.engine = EngineState { active, muted: active };
        Effect::SetActive(active)
    }

    fn choose_microphone(&mut self, mic: String) -> (effect: Effect)
        ensures
            final(self)@ == old(self)@,
            effect@ == effect_of(old(self)@, Msg::ChooseMicrophone(mic)),
    {
        if !self.operational() {
            return Effect::Nothing;
        }
        match &self.pa_state {
            Some(pa_state) => {
                let first_time = pa_state.get_active_source().is_none();
                Effect::SetVirtualMic { source: mic, first_time }
            },
            None => Effect::Nothing,
        }
    }

    fn finish_hotkey_recording(&mut self, hk_string: String) -> (effect: Effect)
        ensures
            final(self)@ == updated(old(self)@, Msg::FinishHotKeyRecording(hk_string)),
            effect@ == effect_of(old(self)@, Msg::FinishHotKeyRecording(hk_string)),
    {
        let recording = self.recording_hotkey;
        self.recording_hotkey = None;
        let role = match recording {
            Some(role) => role,
            None => {
                return Effect::Nothing;
            },
        };
        if HotkeyBinding::parse(hk_string.as_str()).is_none() {
            return Effect::Nothing;
        }
        if self.can_change_hotkeys {
            Effect::Rebind { role, accelerator: hk_string }
        } else {
            Effect::Nothing
        }
    }

    /// Takes note of how the creation of the virtual microphone on top of
    /// `source` ended. After a creation that succeeded the source is
    /// recorded and a mute request is due, since the new device starts
    /// muted. A creation that failed is reported and changes nothing.
    /// Without an audio bridge there is nothing to note.
    pub fn finish_set_virtual_mic(&mut self, source: &str, carried_out: Result<(), Error>) -> (effect:
        Effect)
        ensures
            final(self)@ == if old(self)@.pa_state is Some && carried_out is Ok {
                AppView { pa_state: Some(Some(source@)), ..old(self)@ }
            } else {
                old(self)@
            },
            effect@ == if old(self)@.pa_state is None {
                EffectView::Nothing
            } else if carried_out is Ok {
                EffectView::SetMute(true)
            } else {
                report_of(Operation::SetVirtualMic, carried_out)
            },
    {
        match &mut self.pa_state {
            Some(pa_state) => match pa_state.set_virtual_mic(source, carried_out) {
                Ok(_) => Effect::SetMute(true),
                Err(e) => Effect::Report(failure_report(Operation::SetVirtualMic, &e)),
            },
            None => Effect::Nothing,
        }
    }

    /// Whether push-to-talk is on.
    pub fn active(&self) -> (active: bool)
        ensures
            active == self@.engine.active,
    {
        self.engine.active
    }

    /// Whether the virtual microphone is muted.
    pub fn muted(&self) -> (muted: bool)
        ensures
            muted == self@.engine.muted,
    {
        self.engine.muted
    }

    /// The text under which each hotkey is shown.
    pub fn hk_descriptions(&self) -> (descriptions: &HotKeyConfig<String>)
        ensures
            text_views(*descriptions) == self@.hk_descriptions,
    {
        &self.hk_descriptions
    }

    /// The audio bridge's record, if the bridge is up.
    pub fn pa_state(&self) -> (pa_state: &Option<PulseAudioState>)
        ensures
            bridge_view(*pa_state) == self@.pa_state,
    {
        &self.pa_state
    }

    /// The error that is shown in place of the controls, if there is one.
    pub fn error(&self) -> (error: &Option<String>)
        ensures
            text_view(*error) == self@.error,
    {
        &self.error
    }

    /// The role whose hotkey is being recorded, if one is.
    pub fn recording_hotkey(&self) -> (role: Option<HotKeyAction>)
        ensures
            role == self@.recording_hotkey,
    {
        self.recording_hotkey
    }

    /// The entry of `devices` to show as selected: the position of the first
    /// one that is the physical source under the virtual microphone.
    pub fn get_selected_mic(&self, devices: &Vec<String>) -> (selected: Option<usize>)
        ensures
            match selected {
                Some(i) => {
                    &&& i < devices.len()
                    &&& self@.pa_state == Some(Some(devices[i as int]@))
                    &&& forall|k: int| 0 <= k < i ==> devices[k]@ != devices[i as int]@
                },
                None => forall|k: int|
                    0 <= k < devices.len() ==> self@.pa_state != Some(
                        Some(#[trigger] devices[k]@),
                    ),
            },
    {
        let source = match &self.pa_state {
            Some(pa_state) => match pa_state.get_active_source() {
                Some(source) => source,
                None => {
                    return None;
                },
            },
            None => {
                return None;
            },
        };
        let mut i: usize = 0;
        while i < devices.len()
            invariant
                i <= devices.len(),
                self@.pa_state == Some(Some(source@)),
                forall|k: int| 0 <= k < i ==> devices[k]@ != source@,
            decreases devices.len() - i,
        {
            if same_text(devices[i].as_str(), source) {
                return Some(i);
            }
            i = i + 1;
        }
        None
    }
}

} // verus!
