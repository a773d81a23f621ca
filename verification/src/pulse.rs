//! The audio bridge: what to ask of the audio server to keep exactly one
//! virtual microphone loaded, and how long to keep polling for each answer.

use crate::text::{contains, has_substring, joined, same_text, text_view};
use vstd::prelude::*;

verus! {

/// Description under which the virtual microphone shows up in other programs.
pub const VIRTUALMIC_DESCRIPTION: &'static str = "Global Push-to-Talk Virtual Microphone";

/// Source name of the virtual microphone on the audio server.
pub const VIRTUALMIC_NAME: &'static str = "GlobalPushToTalkVirtualMicrophone";

/// Name of the server module that remaps a physical source into the virtual one.
pub const REMAP_MODULE: &'static str = "module-remap-source";

/// The argument fragment by which a loaded module is recognised as ours.
pub open spec fn source_name_marker() -> Seq<char> {
    "source_name="@ + VIRTUALMIC_NAME@
}

/// The argument string of the load request for the physical source `source`.
pub open spec fn module_options(source: Seq<char>) -> Seq<char> {
    "master="@ + source + " "@ + source_name_marker() + " source_properties=\"device.description='"@
        + VIRTUALMIC_DESCRIPTION@ + "'\""@
}

/// A module as the audio server lists it.
#[derive(Clone, Debug, PartialEq, Eq)]
pub struct ModuleInfo {
    pub index: u32,
    pub name: Option<String>,
    pub argument: Option<String>,
}

/// A listed module, with its texts as sequences of characters.
pub struct ModuleView {
    pub index: u32,
    pub name: Option<Seq<char>>,
    pub argument: Option<Seq<char>>,
}

impl View for ModuleInfo {
    type V = ModuleView;

    open spec fn view(&self) -> ModuleView {
        ModuleView {
            index: self.index,
            name: text_view(self.name),
            argument: text_view(self.argument),
        }
    }
}

/// The views of `modules`, in order.
pub open spec fn module_views(modules: Seq<ModuleInfo>) -> Seq<ModuleView> {
    modules.map_values(|m: ModuleInfo| m@)
}

/// A remap module whose argument names the virtual microphone.
pub open spec fn is_virtual_mic(m: ModuleView) -> bool {
    &&& m.name == Some(REMAP_MODULE@)
    &&& m.argument matches Some(a)
    &&& contains(a, source_name_marker())
}

/// The indexes of the virtual microphone modules among `modules`, in listing order.
pub open spec fn unload_plan(modules: Seq<ModuleView>) -> Seq<u32>
    decreases modules.len(),
{
    if modules.len() == 0 {
        Seq::empty()
    } else if is_virtual_mic(modules.last()) {
        unload_plan(modules.drop_last()).push(modules.last().index)
    } else {
        unload_plan(modules.drop_last())
    }
}

/// A request to the audio server that changes its module list.
#[derive(Clone, Debug, PartialEq, Eq)]
pub enum Request {
    UnloadModule(u32),
    LoadModule { name: String, argument: String },
}

/// A request, with its texts as sequences of characters.
pub enum RequestView {
    UnloadModule(u32),
    LoadModule { name: Seq<char>, argument: Seq<char> },
}

impl View for Request {
    type V = RequestView;

    open spec fn view(&self) -> RequestView {
        match *self {
            Request::UnloadModule(index) => RequestView::UnloadModule(index),
            Request::LoadModule { name, argument } => RequestView::LoadModule {
                name: name@,
                argument: argument@,
            },
        }
    }
}

/// The views of `requests`, in order.
pub open spec fn request_views(requests: Seq<Request>) -> Seq<RequestView> {
    requests.map_values(|r: Request| r@)
}

/// One unload request for each index of `plan`, in order.
pub open spec fn unload_requests(plan: Seq<u32>) -> Seq<RequestView> {
    plan.map_values(|index: u32| RequestView::UnloadModule(index))
}

/// The requests that remove every virtual microphone among `modules`.
pub open spec fn remove_plan(modules: Seq<ModuleView>) -> Seq<RequestView> {
    unload_requests(unload_plan(modules))
}

/// The requests that leave the virtual microphone on top of `source` as the
/// only one: first every listed one is unloaded, then the new one is loaded.
pub open spec fn create_plan(modules: Seq<ModuleView>, source: Seq<char>) -> Seq<RequestView> {
    remove_plan(modules).push(
        RequestView::LoadModule { name: REMAP_MODULE@, argument: module_options(source) },
    )
}

/// The names in `sources` that are present and are not the virtual microphone's, in order.
pub open spec fn physical_sources(sources: Seq<Option<String>>) -> Seq<Seq<char>>
    decreases sources.len(),
{
    if sources.len() == 0 {
        Seq::empty()
    } else {
        match sources.last() {
            Some(name) if name@ != VIRTUALMIC_NAME@ => physical_sources(sources.drop_last()).push(
                name@,
            ),
            _ => physical_sources(sources.drop_last()),
        }
    }
}

/// The views of `names`, in order.
pub open spec fn name_views(names: Seq<String>) -> Seq<Seq<char>> {
    names.map_values(|s: String| s@)
}

/// Whether a listed module is a virtual microphone that this program loaded.
pub fn is_virtual_mic_module(module: &ModuleInfo) -> (r: bool)
    ensures
        r == is_virtual_mic(module@),
{
    let named = match &module.name {
        Some(n) => same_text(n.as_str(), REMAP_MODULE),
        None => false,
    };
    if !named {
        return false;
    }
    match &module.argument {
        Some(a) => {
            let marker = joined("source_name=", VIRTUALMIC_NAME);
            has_substring(a.as_str(), marker.as_str())
        },
        None => false,
    }
}

/// The modules to unload so that no virtual microphone stays loaded: every
/// listed module that is one, none else, in listing order.
pub fn modules_to_unload(modules: &Vec<ModuleInfo>) -> (plan: Vec<u32>)
    ensures
        plan@ == unload_plan(module_views(modules@)),
{
    let mut plan: Vec<u32> = Vec::new();
    let mut i: usize = 0;
    while i < modules.len()
        invariant
            i <= modules.len(),
            plan@ == unload_plan(module_views(modules@).take(i as int)),
        decreases modules.len() - i,
    {
        let ghost seen = module_views(modules@).take(i as int);
        if is_virtual_mic_module(&modules[i]) {
            plan.push(modules[i].index);
        }
        i = i + 1;
        proof {
            let now = module_views(modules@).take(i as int);
            assert(now.drop_last() =~= seen);
            assert(now.last() == modules@[i - 1]@);
        }
    }
    assert(module_views(modules@).take(modules.len() as int) =~= module_views(modules@));
    plan
}

/// The argument string that loads the virtual microphone on top of `source_name`.
pub fn load_module_options(source_name: &str) -> (options: String)
    ensures
        options@ == module_options(source_name@),
{
    let mut options = joined("master=", source_name);
    options.append(" ");
    options.append("source_name=");
    options.append(VIRTUALMIC_NAME);
    options.append(" source_properties=\"device.description='");
    options.append(VIRTUALMIC_DESCRIPTION);
    options.append("'\"");
    assert(options@ =~= module_options(source_name@));
    options
}

/// The physical input devices among the listed source names: every name
/// that is present and is not the virtual microphone's own, in listing order.
pub fn input_device_names(sources: &Vec<Option<String>>) -> (names: Vec<String>)
    ensures
        name_views(names@) == physical_sources(sources@),
        forall|i: int| 0 <= i < names.len() ==> names[i]@ != VIRTUALMIC_NAME@,
{
    let mut names: Vec<String> = Vec::new();
    let mut i: usize = 0;
    while i < sources.len()
        invariant
            i <= sources.len(),
            name_views(names@) == physical_sources(sources@.take(i as int)),
            forall|k: int| 0 <= k < names.len() ==> names[k]@ != VIRTUALMIC_NAME@,
        decreases sources.len() - i,
    {
        let ghost seen = sources@.take(i as int);
        let ghost before = names@;
        match &sources[i] {
            Some(name) => {
                if !same_text(name.as_str(), VIRTUALMIC_NAME) {
                    names.push(name.clone());
                    assert(name_views(names@) =~= name_views(before).push(name@));
                }
            },
            None => {},
        }
        i = i + 1;
        proof {
            let now = sources@.take(i as int);
            assert(now.drop_last() =~= seen);
            assert(now.last() == sources@[i - 1]);
        }
    }
    assert(sources@.take(sources.len() as int) =~= sources@);
    names
}

/// What one turn of the audio server's event loop reported.
#[derive(Clone, Copy, Debug, PartialEq, Eq, Structural)]
pub enum IterateResult {
    Success,
    Quit,
    Failed,
}

/// Where a request to the audio server stands.
#[derive(Clone, Copy, Debug, PartialEq, Eq, Structural)]
pub enum OperationState {
    Running,
    Done,
    Cancelled,
}

/// Where the connection to the audio server stands.
#[derive(Clone, Copy, Debug, PartialEq, Eq, Structural)]
pub enum ContextState {
    Unconnected,
    Connecting,
    Authorizing,
    SettingName,
    Ready,
    Failed,
    Terminated,
}

/// What a blocking call does after one turn of the event loop.
#[derive(Clone, Copy, Debug, PartialEq, Eq, Structural)]
pub enum Wait {
    /// Turn the loop once more.
    Pending,
    /// The request has been answered.
    Complete,
    /// The loop stopped or failed, or the request was cancelled; the
    /// request is given up.
    Abandoned,
}

/// The requests that the bridge waits for.
#[derive(Clone, Copy, Debug, PartialEq, Eq, Structural)]
pub enum Operation {
    SetMute,
    SetVirtualMic,
    RemoveVirtualMic,
    GetInputDevices,
}

/// What to do next with a plan of requests.
#[derive(Clone, Debug, PartialEq, Eq)]
pub enum PlanStep {
    /// Send the request at this position and wait for its answer.
    Send(usize),
    /// Every request was answered.
    Done,
    /// A request was given up; nothing more is sent.
    Failed(Error),
}

/// Why the audio bridge could not be set up, or why a request to it failed.
#[derive(Clone, Debug, PartialEq, Eq)]
pub enum Error {
    MainloopCreation,
    ContextCreation,
    /// The server refused the connection; holds the server's reason.
    ContextConnection(String),
    MainloopTick,
}

/// What happened while connecting to the audio server.
#[derive(Clone, Debug)]
pub enum ConnectEvent {
    /// No event loop could be created.
    NoMainloop,
    /// No connection context could be created.
    NoContext,
    /// The connection attempt was refused; holds the server's reason.
    Refused(String),
    /// The event loop turned once while the handshake was under way.
    Tick(IterateResult, ContextState),
}

/// The bridge's own record of the audio server: the physical source that the
/// virtual microphone was last loaded on top of.
#[derive(Clone, Debug, PartialEq, Eq)]
pub struct PulseAudioState {
    src_name: Option<String>,
}

impl View for PulseAudioState {
    type V = Option<Seq<char>>;

    closed spec fn view(&self) -> Option<Seq<char>> {
        text_view(self.src_name)
    }
}

/// When a request that only has to leave its running state is over.
pub open spec fn operation_wait(tick: IterateResult, op: OperationState) -> Wait {
    if tick != IterateResult::Success {
        Wait::Abandoned
    } else if op != OperationState::Running {
        Wait::Complete
    } else {
        Wait::Pending
    }
}

/// When a step of the removal of the virtual microphone is over. Like any
/// wait it ends once the request has left its running state, but only a
/// request that is done counts as answered: a cancelled one is given up.
pub open spec fn removal_wait(tick: IterateResult, op: OperationState) -> Wait {
    if tick != IterateResult::Success {
        Wait::Abandoned
    } else {
        match op {
            OperationState::Running => Wait::Pending,
            OperationState::Done => Wait::Complete,
            OperationState::Cancelled => Wait::Abandoned,
        }
    }
}

/// The failure that a wait stands for: a wait that was given up is a failed
/// operation, any other is none.
pub open spec fn wait_failure(outcome: Wait) -> Option<Error> {
    if outcome == Wait::Abandoned {
        Some(Error::MainloopTick)
    } else {
        None
    }
}

/// How an operation ended, once its wait is over.
pub open spec fn wait_result(outcome: Wait) -> Option<Result<(), Error>> {
    match outcome {
        Wait::Pending => None,
        Wait::Complete => Some(Ok(())),
        Wait::Abandoned => Some(Err(Error::MainloopTick)),
    }
}

/// What to do after `sent` requests of a plan of `len` requests, the last of
/// which ended with `last`: the next one is sent only if that one was
/// answered, and the first failure ends the plan.
pub open spec fn plan_next(len: usize, sent: usize, last: Result<(), Error>) -> PlanStep {
    match last {
        Err(e) => PlanStep::Failed(e),
        Ok(_) => if sent < len {
            PlanStep::Send(sent)
        } else {
            PlanStep::Done
        },
    }
}

/// How the line that reports a failure of `operation` begins.
pub open spec fn failure_prefix(operation: Operation) -> Seq<char> {
    match operation {
        Operation::SetMute => "Failed to set mute: "@,
        Operation::SetVirtualMic => "Failed to set virtual microphone: "@,
        Operation::RemoveVirtualMic => "Failed to remove virtual microphone: "@,
        Operation::GetInputDevices => "Failed to get input devices: "@,
    }
}

/// The text of `e`.
pub open spec fn error_text(e: Error) -> Seq<char> {
    match e {
        Error::MainloopCreation => "mainloop creation failed"@,
        Error::ContextCreation => "context creation failed"@,
        Error::ContextConnection(reason) => "context connection failed: "@ + reason@,
        Error::MainloopTick => "failed to tick mainloop"@,
    }
}

impl Error {
    /// The message shown to the user for this error.
    pub fn message(&self) -> (text: String)
        ensures
            text@ == error_text(*self),
    {
        match self {
            Error::MainloopCreation => "mainloop creation failed".to_owned(),
            Error::ContextCreation => "context creation failed".to_owned(),
            Error::ContextConnection(reason) => joined(
                "context connection failed: ",
                reason.as_str(),
            ),
            Error::MainloopTick => "failed to tick mainloop".to_owned(),
        }
    }
}

/// Decides after one turn of the event loop whether a request is over.
pub fn poll_operation(tick: IterateResult, op: OperationState) -> (wait: Wait)
    ensures
        wait == operation_wait(tick, op),
{
    match tick {
        IterateResult::Quit | IterateResult::Failed => Wait::Abandoned,
        IterateResult::Success => match op {
            OperationState::Running => Wait::Pending,
            _ => Wait::Complete,
        },
    }
}

/// Decides after one turn of the event loop whether a step of the removal
/// is over.
pub fn poll_removal(tick: IterateResult, op: OperationState) -> (wait: Wait)
    ensures
        wait == removal_wait(tick, op),
{
    match tick {
        IterateResult::Quit | IterateResult::Failed => Wait::Abandoned,
        IterateResult::Success => match op {
            OperationState::Running => Wait::Pending,
            OperationState::Done => Wait::Complete,
            OperationState::Cancelled => Wait::Abandoned,
        },
    }
}

/// The failure to report for a wait that is over, if it stands for one.
pub fn operation_failure(outcome: Wait) -> (e: Option<Error>)
    ensures
        e == wait_failure(outcome),
{
    match outcome {
        Wait::Abandoned => Some(Error::MainloopTick),
        _ => None,
    }
}

/// How the operation ended whose wait stands at `outcome`, or `None` while
/// the wait goes on.
pub fn wait_outcome(outcome: Wait) -> (r: Option<Result<(), Error>>)
    ensures
        r == wait_result(outcome),
{
    match outcome {
        Wait::Pending => None,
        over => match operation_failure(over) {
            Some(e) => Some(Err(e)),
            None => Some(Ok(())),
        },
    }
}

/// Leads through a plan of `len` requests. `sent` is the number of requests
/// sent so far, and `last` how the last of them ended (`Ok` before the first).
pub fn plan_step(len: usize, sent: usize, last: Result<(), Error>) -> (step: PlanStep)
    ensures
        step == plan_next(len, sent, last),
{
    match last {
        Err(e) => PlanStep::Failed(e),
        Ok(_) => if sent < len {
            PlanStep::Send(sent)
        } else {
            PlanStep::Done
        },
    }
}

/// The line that reports that `operation` failed with `e`.
pub fn failure_report(operation: Operation, e: &Error) -> (line: String)
    ensures
        line@ == failure_prefix(operation) + error_text(*e),
{
    let prefix = match operation {
        Operation::SetMute => "Failed to set mute: ",
        Operation::SetVirtualMic => "Failed to set virtual microphone: ",
        Operation::RemoveVirtualMic => "Failed to remove virtual microphone: ",
        Operation::GetInputDevices => "Failed to get input devices: ",
    };
    let text = e.message();
    joined(prefix, text.as_str())
}

/// No wait goes on once the event loop has stopped or failed, or the request
/// has left its running state.
pub proof fn lemma_waits_end(tick: IterateResult, op: OperationState)
    ensures
        operation_wait(tick, op) == Wait::Pending <==> tick == IterateResult::Success && op
            == OperationState::Running,
        removal_wait(tick, op) == Wait::Pending <==> tick == IterateResult::Success && op
            == OperationState::Running,
{
}

impl PulseAudioState {
    /// Follows the connection attempt. `None` asks for another turn of the
    /// event loop; otherwise the attempt is over, with a fresh bridge that has
    /// no virtual microphone yet, or with the reason for the failure.
    pub fn init(event: ConnectEvent) -> (r: Option<Result<PulseAudioState, Error>>)
        ensures
            match event {
                ConnectEvent::NoMainloop => r == Some(
                    Err::<PulseAudioState, Error>(Error::MainloopCreation),
                ),
                ConnectEvent::NoContext => r == Some(
                    Err::<PulseAudioState, Error>(Error::ContextCreation),
                ),
                ConnectEvent::Refused(reason) => r matches Some(Err(Error::ContextConnection(t)))
                    && t@ == reason@,
                ConnectEvent::Tick(tick, ctx) => if tick != IterateResult::Success {
                    r == Some(Err::<PulseAudioState, Error>(Error::MainloopTick))
                } else if ctx == ContextState::Ready {
                    r matches Some(Ok(state)) && state@ is None
                } else if ctx == ContextState::Failed || ctx == ContextState::Terminated {
                    r == Some(Err::<PulseAudioState, Error>(Error::ContextCreation))
                } else {
                    r is None
                },
            },
    {
        match event {
            ConnectEvent::NoMainloop => Some(Err(Error::MainloopCreation)),
            ConnectEvent::NoContext => Some(Err(Error::ContextCreation)),
            ConnectEvent::Refused(reason) => Some(Err(Error::ContextConnection(reason))),
            ConnectEvent::Tick(tick, ctx) => {
                match tick {
                    IterateResult::Quit | IterateResult::Failed => {
                        return Some(Err(Error::MainloopTick));
                    },
                    IterateResult::Success => {},
                }
                match ctx {
                    ContextState::Ready => Some(Ok(PulseAudioState { src_name: None })),
                    ContextState::Failed | ContextState::Terminated => Some(
                        Err(Error::ContextCreation),
                    ),
                    _ => None,
                }
            },
        }
    }

    /// The requests that remove the virtual microphone, given the server's
    /// module list: one unload for every virtual microphone in it, in listing
    /// order. None if none is loaded.
    pub fn remove_virtual_mic(modules: &Vec<ModuleInfo>) -> (requests: Vec<Request>)
        ensures
            request_views(requests@) == remove_plan(module_views(modules@)),
    {
        let plan = modules_to_unload(modules);
        let mut requests: Vec<Request> = Vec::new();
        let mut i: usize = 0;
        while i < plan.len()
            invariant
                i <= plan.len(),
                request_views(requests@) == unload_requests(plan@.take(i as int)),
            decreases plan.len() - i,
        {
            let ghost before = requests@;
            requests.push(Request::UnloadModule(plan[i]));
            i = i + 1;
            proof {
                let unload = RequestView::UnloadModule(plan@[i - 1]);
                assert(request_views(requests@) =~= request_views(before).push(unload));
                assert(unload_requests(plan@.take(i as int)) =~= unload_requests(
                    plan@.take(i - 1),
                ).push(unload));
            }
        }
        assert(plan@.take(plan.len() as int) =~= plan@);
        requests
    }

    /// The requests that create the virtual microphone on top of
    /// `source_name`, given the server's module list: whatever virtual
    /// microphone is loaded is removed first, then the new one is loaded.
    pub fn virtual_mic_requests(modules: &Vec<ModuleInfo>, source_name: &str) -> (requests: Vec<
        Request,
    >)
        ensures
            request_views(requests@) == create_plan(module_views(modules@), source_name@),
    {
        let mut requests = PulseAudioState::remove_virtual_mic(modules);
        let ghost removal = requests@;
        requests.push(
            Request::LoadModule {
                name: REMAP_MODULE.to_owned(),
                argument: load_module_options(source_name),
            },
        );
        assert(request_views(requests@) =~= request_views(removal).push(requests@.last()@));
        requests
    }

    /// Takes note of how the creation of the virtual microphone on top of
    /// `source_name` ended. If every request of the plan was answered, the
    /// source is recorded, and the new device, which starts muted, is due a
    /// mute request. If the creation failed, nothing is recorded, and the
    /// failure is handed on.
    pub fn set_virtual_mic(&mut self, source_name: &str, carried_out: Result<(), Error>) -> (r:
        Result<(), Error>)
        ensures
            r == carried_out,
            final(self)@ == if carried_out is Ok {
                Some(source_name@)
            } else {
                old(self)@
            },
    {
        match carried_out {
            Ok(done) => {
                self.src_name = Some(source_name.to_owned());
                Ok(done)
            },
            Err(e) => Err(e),
        }
    }

    /// The physical source under the virtual microphone, if one was loaded.
    pub fn get_active_source(&self) -> (r: Option<&str>)
        ensures
            match r {
                Some(name) => self@ == Some(name@),
                None => self@ is None,
            },
    {
        match &self.src_name {
            Some(name) => Some(name.as_str()),
            None => None,
        }
    }

    /// Follows a mute request. `None` asks for another turn of the event
    /// loop; the request succeeds once it has left its running state and
    /// fails if the event loop stops or fails first.
    pub fn set_mute(tick: IterateResult, op: OperationState) -> (r: Option<Result<(), Error>>)
        ensures
            r == wait_result(operation_wait(tick, op)),
    {
        wait_outcome(poll_operation(tick, op))
    }

    /// The physical input devices, given how the listing ended and the source
    /// names that the server reported. A listing that failed gives its
    /// failure, not an empty list.
    pub fn get_input_devices(listing: Result<(), Error>, sources: &Vec<Option<String>>) -> (r:
        Result<Vec<String>, Error>)
        ensures
            match listing {
                Ok(_) => {
                    &&& r matches Ok(names)
                    &&& name_views(names@) == physical_sources(sources@)
                    &&& forall|i: int| 0 <= i < names.len() ==> names[i]@ != VIRTUALMIC_NAME@
                },
                Err(e) => r == Err::<Vec<String>, Error>(e),
            },
    {
        match listing {
            Ok(_) => Ok(input_device_names(sources)),
            Err(e) => Err(e),
        }
    }
}

/// No physical source that is handed out bears the virtual microphone's name.
pub proof fn lemma_physical_sources_exclude_virtual_mic(sources: Seq<Option<String>>, i: int)
    requires
        0 <= i < physical_sources(sources).len(),
    ensures
        physical_sources(sources)[i] != VIRTUALMIC_NAME@,
    decreases sources.len(),
{
    if sources.len() > 0 {
        let front = physical_sources(sources.drop_last());
        if i < front.len() {
            lemma_physical_sources_exclude_virtual_mic(sources.drop_last(), i);
        }
    }
}

} // verus!
