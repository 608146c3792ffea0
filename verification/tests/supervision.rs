use ddos_supervisor::events::{
    component_tag, dispatch, run_drain_loop, LogBody, LogLevel, LogRecord, OutputEvent,
};
use ddos_supervisor::launcher::{
    build_launch_args, decimal_string, install_if_launched, plan_launch, port_argument,
    LaunchError, BACKEND_PORT,
};
use ddos_supervisor::supervisor::{ProcessHandle, SupervisorState};

fn info_line(text: &str) -> LogRecord {
    LogRecord {
        level: LogLevel::Info,
        tag: component_tag(),
        body: LogBody::ChildLine(text.to_string()),
    }
}

#[test]
fn shutdown_is_idempotent() {
    let mut state = SupervisorState::new();
    state.install(ProcessHandle { pid: 7 });
    let first = state.shutdown();
    let second = state.shutdown();
    assert_eq!(first, Some(ProcessHandle { pid: 7 }));
    assert_eq!(second, None);
}

#[test]
fn install_then_shutdown_leaves_state_empty() {
    let mut state = SupervisorState::new();
    state.install(ProcessHandle { pid: 42 });
    assert!(state.is_running());
    let taken = state.shutdown();
    assert_eq!(taken, Some(ProcessHandle { pid: 42 }));
    assert!(!state.is_running());
    assert_eq!(state.shutdown(), None);
}

#[test]
fn failed_launch_leaves_state_empty() {
    let mut state = SupervisorState::new();
    let outcome: Result<ProcessHandle, LaunchError> =
        Err(LaunchError::SpawnFailed("no such executable".to_string()));
    let r = install_if_launched(&mut state, outcome);
    assert!(!state.is_running());
    assert_eq!(
        r,
        Err(LaunchError::SpawnFailed("no such executable".to_string()))
    );
}

#[test]
fn successful_launch_installs_the_handle() {
    let mut state = SupervisorState::new();
    let r = install_if_launched(&mut state, Ok(ProcessHandle { pid: 1234 }));
    assert_eq!(r, Ok(()));
    assert!(state.is_running());
    assert_eq!(state.shutdown(), Some(ProcessHandle { pid: 1234 }));
}

#[test]
fn classification_is_preserved() {
    let out = dispatch(OutputEvent::StdoutLine("listening".to_string()));
    assert_eq!(out.record.level, LogLevel::Info);
    assert_eq!(out.record.body, LogBody::ChildLine("listening".to_string()));
    assert!(!out.done);

    let err = dispatch(OutputEvent::StderrLine("warning: low disk".to_string()));
    assert_eq!(err.record.level, LogLevel::Error);
    assert_eq!(
        err.record.body,
        LogBody::ChildLine("warning: low disk".to_string())
    );
    assert!(!err.done);

    let fault = dispatch(OutputEvent::ProcessError("broken pipe".to_string()));
    assert_eq!(fault.record.level, LogLevel::Error);
    assert_eq!(fault.record.body, LogBody::Fault("broken pipe".to_string()));
    assert!(!fault.done);

    let end = dispatch(OutputEvent::Terminated(Some(1)));
    assert_eq!(end.record.level, LogLevel::Info);
    assert_eq!(end.record.body, LogBody::Exited(Some(1)));
    assert!(end.done);
}

#[test]
fn every_record_carries_the_component_tag() {
    let step = dispatch(OutputEvent::StdoutLine("hello".to_string()));
    assert_eq!(step.record.tag, "backend".to_string());
    assert_eq!(component_tag(), "backend".to_string());
}

#[test]
fn terminated_ends_the_drain_loop() {
    let events = vec![
        OutputEvent::StdoutLine("one".to_string()),
        OutputEvent::Terminated(None),
        OutputEvent::StdoutLine("after the end".to_string()),
        OutputEvent::StderrLine("never read".to_string()),
    ];
    let log = run_drain_loop(events);
    assert_eq!(log.len(), 2);
    assert_eq!(log[0], info_line("one"));
    assert_eq!(log[1].body, LogBody::Exited(None));
}

#[test]
fn terminated_does_not_clear_the_state() {
    let mut state = SupervisorState::new();
    state.install(ProcessHandle { pid: 99 });
    let log = run_drain_loop(vec![OutputEvent::Terminated(Some(0))]);
    assert_eq!(log.len(), 1);
    assert!(state.is_running());
    assert_eq!(state.shutdown(), Some(ProcessHandle { pid: 99 }));
}

#[test]
fn drain_without_termination_reads_everything() {
    let events = vec![
        OutputEvent::StdoutLine("a".to_string()),
        OutputEvent::StderrLine("b".to_string()),
        OutputEvent::StdoutLine("c".to_string()),
    ];
    let log = run_drain_loop(events);
    assert_eq!(log.len(), 3);
    assert_eq!(log[0].level, LogLevel::Info);
    assert_eq!(log[1].level, LogLevel::Error);
    assert_eq!(log[2].level, LogLevel::Info);
    assert_eq!(log[0].body, LogBody::ChildLine("a".to_string()));
    assert_eq!(log[1].body, LogBody::ChildLine("b".to_string()));
    assert_eq!(log[2].body, LogBody::ChildLine("c".to_string()));
}

#[test]
fn drain_of_an_empty_stream_is_empty() {
    let log = run_drain_loop(Vec::new());
    assert!(log.is_empty());
}

#[test]
fn launch_arguments_are_exact() {
    let args = build_launch_args("/tmp/ddos-data".to_string());
    assert_eq!(
        args,
        vec![
            "--path".to_string(),
            "/tmp/ddos-data".to_string(),
            "--port".to_string(),
            "3001".to_string(),
        ]
    );
}

#[test]
fn launch_plan_keeps_the_executable_id() {
    let plan = plan_launch("ddos-server".to_string(), "/tmp/ddos-data".to_string());
    assert_eq!(plan.executable, "ddos-server".to_string());
    assert_eq!(plan.args.len(), 4);
    assert_eq!(plan.args[0], "--path".to_string());
    assert_eq!(plan.args[1], "/tmp/ddos-data".to_string());
    assert_eq!(plan.args[2], "--port".to_string());
    assert_eq!(plan.args[3], "3001".to_string());
}

#[test]
fn shutdown_with_no_prior_launch_is_a_noop() {
    let mut state = SupervisorState::new();
    assert!(!state.is_running());
    assert_eq!(state.shutdown(), None);
    assert!(!state.is_running());
}

#[test]
fn ready_line_then_clean_exit() {
    let mut state = SupervisorState::new();
    state.install(ProcessHandle { pid: 5 });
    let events = vec![
        OutputEvent::StdoutLine("ready".to_string()),
        OutputEvent::Terminated(Some(0)),
    ];
    let log = run_drain_loop(events);
    assert_eq!(log.len(), 2);
    assert_eq!(log[0], info_line("ready"));
    assert_eq!(log[1].level, LogLevel::Info);
    assert_eq!(log[1].body, LogBody::Exited(Some(0)));
    // The handle of the now-dead child stays until the host signals close.
    assert!(state.is_running());
    assert_eq!(state.shutdown(), Some(ProcessHandle { pid: 5 }));
}

#[test]
fn launch_error_kinds_and_details() {
    let e1 = LaunchError::DataDirUnavailable("permission denied".to_string());
    assert_eq!(e1.kind_text(), "data directory unavailable".to_string());
    assert_eq!(e1.detail(), &"permission denied".to_string());

    let e2 = LaunchError::ExecutableNotFound("ddos-server".to_string());
    assert_eq!(e2.kind_text(), "executable not found".to_string());
    assert_eq!(e2.detail(), &"ddos-server".to_string());

    let e3 = LaunchError::SpawnFailed("resource exhausted".to_string());
    assert_eq!(e3.kind_text(), "spawn failed".to_string());
    assert_eq!(e3.detail(), &"resource exhausted".to_string());
}

#[test]
fn port_argument_renders_the_fixed_port() {
    assert_eq!(BACKEND_PORT, 3001);
    assert_eq!(port_argument(), "3001".to_string());
}

#[test]
fn decimal_rendering_is_exact() {
    assert_eq!(decimal_string(0), "0".to_string());
    assert_eq!(decimal_string(7), "7".to_string());
    assert_eq!(decimal_string(10), "10".to_string());
    assert_eq!(decimal_string(3001), "3001".to_string());
    assert_eq!(decimal_string(65535), "65535".to_string());
}
