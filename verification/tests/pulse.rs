use global_push_to_talk::pulse::{
    failure_report, input_device_names, is_virtual_mic_module, load_module_options,
    modules_to_unload, operation_failure, plan_step, poll_operation, poll_removal, wait_outcome,
    ConnectEvent, ContextState, Error, IterateResult, ModuleInfo, Operation, OperationState,
    PlanStep, PulseAudioState, Request, Wait, REMAP_MODULE, VIRTUALMIC_DESCRIPTION,
    VIRTUALMIC_NAME,
};

fn module(index: u32, name: Option<&str>, argument: Option<&str>) -> ModuleInfo {
    ModuleInfo {
        index,
        name: name.map(|s| s.to_string()),
        argument: argument.map(|s| s.to_string()),
    }
}

fn connected() -> PulseAudioState {
    match PulseAudioState::init(ConnectEvent::Tick(IterateResult::Success, ContextState::Ready)) {
        Some(Ok(state)) => state,
        other => panic!("no bridge: {other:?}"),
    }
}

/// An audio server that carries out every request.
struct FakeServer {
    modules: Vec<ModuleInfo>,
    next_index: u32,
    log: Vec<String>,
}

impl FakeServer {
    fn new() -> Self {
        FakeServer { modules: Vec::new(), next_index: 20, log: Vec::new() }
    }

    fn load(&mut self, name: &str, argument: &str) {
        self.log.push(format!("load {name} {argument}"));
        self.modules.push(module(self.next_index, Some(name), Some(argument)));
        self.next_index += 1;
    }

    fn unload(&mut self, index: u32) {
        self.log.push(format!("unload {index}"));
        self.modules.retain(|m| m.index != index);
    }

    fn carry_out(&mut self, request: &Request) {
        match request {
            Request::UnloadModule(index) => self.unload(*index),
            Request::LoadModule { name, argument } => self.load(name, argument),
        }
    }

    /// Carries out a plan as the library leads through it; every request is
    /// answered at once.
    fn follow(&mut self, requests: &[Request]) -> Result<(), Error> {
        let mut sent = 0;
        let mut last = Ok(());
        loop {
            match plan_step(requests.len(), sent, last) {
                PlanStep::Send(i) => {
                    self.carry_out(&requests[i]);
                    let wait = match requests[i] {
                        Request::UnloadModule(_) => {
                            poll_removal(IterateResult::Success, OperationState::Done)
                        }
                        Request::LoadModule { .. } => {
                            poll_operation(IterateResult::Success, OperationState::Done)
                        }
                    };
                    last = wait_outcome(wait).expect("an answer");
                    sent = i + 1;
                }
                PlanStep::Done => return Ok(()),
                PlanStep::Failed(e) => return Err(e),
            }
        }
    }

    fn create_virtual_device(&mut self, bridge: &mut PulseAudioState, source: &str) {
        let requests = PulseAudioState::virtual_mic_requests(&self.modules, source);
        let carried_out = self.follow(&requests);
        assert_eq!(bridge.set_virtual_mic(source, carried_out), Ok(()));
    }

    fn remove_virtual_device(&mut self) {
        let requests = PulseAudioState::remove_virtual_mic(&self.modules);
        assert_eq!(self.follow(&requests), Ok(()));
    }

    fn virtual_mics(&self) -> Vec<&ModuleInfo> {
        self.modules.iter().filter(|m| is_virtual_mic_module(m)).collect()
    }
}

#[test]
fn pulse_constants() {
    assert_eq!(VIRTUALMIC_NAME, "GlobalPushToTalkVirtualMicrophone");
    assert_eq!(VIRTUALMIC_DESCRIPTION, "Global Push-to-Talk Virtual Microphone");
    assert_eq!(REMAP_MODULE, "module-remap-source");
}

#[test]
fn pulse_load_module_options_exact() {
    assert_eq!(
        load_module_options("alsa_input.usb"),
        "master=alsa_input.usb source_name=GlobalPushToTalkVirtualMicrophone source_properties=\"device.description='Global Push-to-Talk Virtual Microphone'\""
    );
}

#[test]
fn pulse_loaded_module_is_recognised() {
    for source in ["mic0", "", "source_name=x", "a b"] {
        let m = module(3, Some(REMAP_MODULE), Some(&load_module_options(source)));
        assert!(is_virtual_mic_module(&m));
    }
}

#[test]
fn pulse_module_filter() {
    let marker = "source_name=GlobalPushToTalkVirtualMicrophone";
    assert!(is_virtual_mic_module(&module(1, Some("module-remap-source"), Some(marker))));
    assert!(is_virtual_mic_module(&module(
        1,
        Some("module-remap-source"),
        Some("master=a source_name=GlobalPushToTalkVirtualMicrophone x=y")
    )));
    // another module with the same argument
    assert!(!is_virtual_mic_module(&module(1, Some("module-loopback"), Some(marker))));
    // a remap module of somebody else
    assert!(!is_virtual_mic_module(&module(
        1,
        Some("module-remap-source"),
        Some("master=a source_name=Other")
    )));
    assert!(!is_virtual_mic_module(&module(1, Some("module-remap-source"), None)));
    assert!(!is_virtual_mic_module(&module(1, None, Some(marker))));
    assert!(!is_virtual_mic_module(&module(1, None, None)));
}

#[test]
fn pulse_modules_to_unload_keeps_listing_order() {
    let ours = load_module_options("mic0");
    let modules = vec![
        module(4, Some("module-alsa-card"), Some("device_id=0")),
        module(9, Some(REMAP_MODULE), Some(&ours)),
        module(2, Some(REMAP_MODULE), Some("master=x source_name=Other")),
        module(7, Some(REMAP_MODULE), Some(&ours)),
        module(5, None, None),
    ];
    assert_eq!(modules_to_unload(&modules), vec![9, 7]);
    assert_eq!(modules_to_unload(&Vec::new()), Vec::<u32>::new());
    assert_eq!(
        PulseAudioState::remove_virtual_mic(&modules),
        vec![Request::UnloadModule(9), Request::UnloadModule(7)]
    );
}

#[test]
fn pulse_virtual_mic_requests_unload_before_load() {
    let ours = load_module_options("mic0");
    let modules = vec![
        module(4, Some("module-alsa-card"), Some("device_id=0")),
        module(9, Some(REMAP_MODULE), Some(&ours)),
        module(7, Some(REMAP_MODULE), Some(&ours)),
    ];
    let load = Request::LoadModule {
        name: "module-remap-source".to_string(),
        argument: load_module_options("mic1"),
    };
    assert_eq!(
        PulseAudioState::virtual_mic_requests(&modules, "mic1"),
        vec![Request::UnloadModule(9), Request::UnloadModule(7), load.clone()]
    );
    assert_eq!(PulseAudioState::virtual_mic_requests(&Vec::new(), "mic1"), vec![load]);
}

#[test]
fn pulse_remove_twice_asks_nothing_more() {
    let mut server = FakeServer::new();
    server.load(REMAP_MODULE, &load_module_options("old0"));
    server.load(REMAP_MODULE, &load_module_options("old1"));
    server.remove_virtual_device();
    assert!(server.virtual_mics().is_empty());
    let after_first = server.log.len();
    server.remove_virtual_device();
    assert_eq!(server.log.len(), after_first);
}

#[test]
fn pulse_remove_without_device_is_noop() {
    let modules = vec![module(4, Some("module-alsa-card"), Some("device_id=0"))];
    assert!(PulseAudioState::remove_virtual_mic(&modules).is_empty());
}

#[test]
fn pulse_input_devices_exclude_virtual_mic() {
    let sources = vec![
        Some("alsa_input.b".to_string()),
        Some(VIRTUALMIC_NAME.to_string()),
        None,
        Some("alsa_input.a".to_string()),
        Some(VIRTUALMIC_NAME.to_string()),
        Some("GlobalPushToTalkVirtualMicrophone.monitor".to_string()),
    ];
    let names = input_device_names(&sources);
    assert_eq!(
        names,
        vec!["alsa_input.b", "alsa_input.a", "GlobalPushToTalkVirtualMicrophone.monitor"]
    );
    assert!(names.iter().all(|n| n != VIRTUALMIC_NAME));
    assert_eq!(PulseAudioState::get_input_devices(Ok(()), &sources), Ok(names));
}

#[test]
fn pulse_failed_listing_is_no_empty_list() {
    let sources = vec![Some("alsa_input.a".to_string())];
    let listing = wait_outcome(poll_operation(IterateResult::Quit, OperationState::Running))
        .expect("the wait is over");
    assert_eq!(
        PulseAudioState::get_input_devices(listing, &sources),
        Err(Error::MainloopTick)
    );
    assert_eq!(
        PulseAudioState::get_input_devices(Err(Error::MainloopTick), &Vec::new()),
        Err(Error::MainloopTick)
    );
    // a server without input devices is something else
    assert_eq!(PulseAudioState::get_input_devices(Ok(()), &Vec::new()), Ok(Vec::new()));
}

#[test]
fn pulse_poll_operation() {
    assert_eq!(poll_operation(IterateResult::Success, OperationState::Running), Wait::Pending);
    assert_eq!(poll_operation(IterateResult::Success, OperationState::Done), Wait::Complete);
    assert_eq!(poll_operation(IterateResult::Success, OperationState::Cancelled), Wait::Complete);
    for op in [OperationState::Running, OperationState::Done, OperationState::Cancelled] {
        assert_eq!(poll_operation(IterateResult::Quit, op), Wait::Abandoned);
        assert_eq!(poll_operation(IterateResult::Failed, op), Wait::Abandoned);
    }
}

#[test]
fn pulse_poll_removal_gives_up_a_cancelled_request() {
    assert_eq!(poll_removal(IterateResult::Success, OperationState::Running), Wait::Pending);
    assert_eq!(poll_removal(IterateResult::Success, OperationState::Cancelled), Wait::Abandoned);
    assert_eq!(poll_removal(IterateResult::Success, OperationState::Done), Wait::Complete);
    assert_eq!(poll_removal(IterateResult::Quit, OperationState::Done), Wait::Abandoned);
    assert_eq!(poll_removal(IterateResult::Failed, OperationState::Running), Wait::Abandoned);
}

#[test]
fn pulse_every_wait_ends_unless_running_on_a_sound_loop() {
    for tick in [IterateResult::Success, IterateResult::Quit, IterateResult::Failed] {
        for op in [OperationState::Running, OperationState::Done, OperationState::Cancelled] {
            let goes_on = tick == IterateResult::Success && op == OperationState::Running;
            assert_eq!(poll_operation(tick, op) == Wait::Pending, goes_on);
            assert_eq!(poll_removal(tick, op) == Wait::Pending, goes_on);
            assert_eq!(PulseAudioState::set_mute(tick, op).is_none(), goes_on);
        }
    }
}

#[test]
fn pulse_operation_failure() {
    assert_eq!(operation_failure(Wait::Abandoned), Some(Error::MainloopTick));
    assert_eq!(operation_failure(Wait::Complete), None);
    assert_eq!(operation_failure(Wait::Pending), None);
    assert_eq!(wait_outcome(Wait::Pending), None);
    assert_eq!(wait_outcome(Wait::Complete), Some(Ok(())));
    assert_eq!(wait_outcome(Wait::Abandoned), Some(Err(Error::MainloopTick)));
}

#[test]
fn pulse_failure_reports() {
    let e = Error::MainloopTick;
    assert_eq!(failure_report(Operation::SetMute, &e), "Failed to set mute: failed to tick mainloop");
    assert_eq!(
        failure_report(Operation::SetVirtualMic, &e),
        "Failed to set virtual microphone: failed to tick mainloop"
    );
    assert_eq!(
        failure_report(Operation::RemoveVirtualMic, &e),
        "Failed to remove virtual microphone: failed to tick mainloop"
    );
    assert_eq!(
        failure_report(Operation::GetInputDevices, &e),
        "Failed to get input devices: failed to tick mainloop"
    );
}

#[test]
fn pulse_plan_step() {
    assert_eq!(plan_step(3, 0, Ok(())), PlanStep::Send(0));
    assert_eq!(plan_step(3, 2, Ok(())), PlanStep::Send(2));
    assert_eq!(plan_step(3, 3, Ok(())), PlanStep::Done);
    assert_eq!(plan_step(0, 0, Ok(())), PlanStep::Done);
    // the first failure ends the plan, with requests left or not
    assert_eq!(plan_step(3, 1, Err(Error::MainloopTick)), PlanStep::Failed(Error::MainloopTick));
    assert_eq!(plan_step(3, 3, Err(Error::MainloopTick)), PlanStep::Failed(Error::MainloopTick));
}

#[test]
fn pulse_init_outcomes() {
    assert_eq!(PulseAudioState::init(ConnectEvent::NoMainloop), Some(Err(Error::MainloopCreation)));
    assert_eq!(PulseAudioState::init(ConnectEvent::NoContext), Some(Err(Error::ContextCreation)));
    assert_eq!(
        PulseAudioState::init(ConnectEvent::Refused("Connection refused".to_string())),
        Some(Err(Error::ContextConnection("Connection refused".to_string())))
    );
    for ctx in [
        ContextState::Unconnected,
        ContextState::Connecting,
        ContextState::Authorizing,
        ContextState::SettingName,
        ContextState::Ready,
        ContextState::Failed,
        ContextState::Terminated,
    ] {
        assert_eq!(
            PulseAudioState::init(ConnectEvent::Tick(IterateResult::Quit, ctx)),
            Some(Err(Error::MainloopTick))
        );
        assert_eq!(
            PulseAudioState::init(ConnectEvent::Tick(IterateResult::Failed, ctx)),
            Some(Err(Error::MainloopTick))
        );
    }
    for ctx in [ContextState::Unconnected, ContextState::Connecting, ContextState::Authorizing, ContextState::SettingName] {
        assert_eq!(PulseAudioState::init(ConnectEvent::Tick(IterateResult::Success, ctx)), None);
    }
    for ctx in [ContextState::Failed, ContextState::Terminated] {
        assert_eq!(
            PulseAudioState::init(ConnectEvent::Tick(IterateResult::Success, ctx)),
            Some(Err(Error::ContextCreation))
        );
    }
    assert_eq!(connected().get_active_source(), None);
}

#[test]
fn pulse_error_messages() {
    assert_eq!(Error::MainloopCreation.message(), "mainloop creation failed");
    assert_eq!(Error::ContextCreation.message(), "context creation failed");
    assert_eq!(
        Error::ContextConnection("Access denied".to_string()).message(),
        "context connection failed: Access denied"
    );
    assert_eq!(Error::MainloopTick.message(), "failed to tick mainloop");
}

#[test]
fn pulse_set_mute_outcomes() {
    assert_eq!(PulseAudioState::set_mute(IterateResult::Success, OperationState::Running), None);
    assert_eq!(PulseAudioState::set_mute(IterateResult::Success, OperationState::Done), Some(Ok(())));
    assert_eq!(PulseAudioState::set_mute(IterateResult::Success, OperationState::Cancelled), Some(Ok(())));
    assert_eq!(
        PulseAudioState::set_mute(IterateResult::Quit, OperationState::Running),
        Some(Err(Error::MainloopTick))
    );
    assert_eq!(
        PulseAudioState::set_mute(IterateResult::Failed, OperationState::Done),
        Some(Err(Error::MainloopTick))
    );
}

#[test]
fn pulse_set_virtual_mic_records_source_on_completion() {
    let mut bridge = connected();
    assert_eq!(bridge.set_virtual_mic("mic0", Err(Error::MainloopTick)), Err(Error::MainloopTick));
    assert_eq!(bridge.get_active_source(), None);
    assert_eq!(bridge.set_virtual_mic("mic0", Ok(())), Ok(()));
    assert_eq!(bridge.get_active_source(), Some("mic0"));
    assert_eq!(bridge.set_virtual_mic("mic1", Err(Error::MainloopTick)), Err(Error::MainloopTick));
    assert_eq!(bridge.get_active_source(), Some("mic0"));
    assert_eq!(bridge.set_virtual_mic("mic1", Ok(())), Ok(()));
    assert_eq!(bridge.get_active_source(), Some("mic1"));
}

#[test]
fn pulse_device_swap() {
    let mut server = FakeServer::new();
    server.modules.push(module(1, Some("module-alsa-card"), Some("device_id=0")));
    let mut bridge = connected();

    server.create_virtual_device(&mut bridge, "mic0");
    let between = server.log.len();
    server.create_virtual_device(&mut bridge, "mic1");

    let second: Vec<&String> = server.log[between..].iter().collect();
    assert_eq!(second.len(), 2);
    assert_eq!(second[0], "unload 20");
    assert_eq!(second[1], &format!("load module-remap-source {}", load_module_options("mic1")));

    let mics = server.virtual_mics();
    assert_eq!(mics.len(), 1);
    assert_eq!(mics[0].argument.as_deref(), Some(load_module_options("mic1").as_str()));
    assert!(mics[0].argument.as_deref().unwrap().starts_with("master=mic1 "));
    assert_eq!(bridge.get_active_source(), Some("mic1"));
}

#[test]
fn pulse_exactly_one_device_after_any_creations() {
    let mut server = FakeServer::new();
    // two stale devices of an earlier run
    server.load(REMAP_MODULE, &load_module_options("old0"));
    server.load(REMAP_MODULE, &load_module_options("old1"));
    server.modules.push(module(1, Some("module-loopback"), None));
    let mut bridge = connected();
    for source in ["a", "b", "a", "c"] {
        server.create_virtual_device(&mut bridge, source);
        let mics = server.virtual_mics();
        assert_eq!(mics.len(), 1);
        assert_eq!(mics[0].argument.as_deref(), Some(load_module_options(source).as_str()));
    }
    assert_eq!(server.modules.len(), 2);
}
