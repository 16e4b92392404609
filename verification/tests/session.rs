use nserve::process::{supervision, ExitStatus, ProcessEvent, ProcessOutput, Supervision};
use nserve::session::{
    announcement, serve, wait_for_listener, ForwarderEnd, Session, SessionAction, SessionError,
    SessionEvent,
};

use nserve::tracer::{StopSignal, TraceAction, TraceEvent, Tracer, WaitStatus};

fn listening(port: u16) -> SessionEvent {
    SessionEvent::Process(ProcessEvent::Listening(port))
}

fn exited(code: i32) -> SessionEvent {
    SessionEvent::Process(ProcessEvent::Exited(ExitStatus::exited(code)))
}

fn error(reason: &str) -> SessionEvent {
    SessionEvent::Process(ProcessEvent::Error(reason.to_owned()))
}

#[test]
fn the_first_listener_is_served() {
    let mut session = Session::new(None);
    assert!(session.discovers());
    assert!(matches!(session.step(listening(3000)), SessionAction::Serve(3000)));
    assert!(!session.discovers());
    assert!(matches!(session.step(listening(4000)), SessionAction::Ignore));
    assert_eq!(session.port, Some(3000));
}

#[test]
fn an_explicit_port_is_served() {
    let mut session = Session::new(Some(5000));
    assert!(!session.discovers());
    assert!(matches!(session.step(listening(3000)), SessionAction::Ignore));
    assert_eq!(session.port, Some(5000));
}

#[test]
fn the_exit_code_is_kept() {
    let mut session = Session::new(Some(5000));
    assert!(matches!(session.step(exited(7)), SessionAction::Exit(7)));
    let killed = ProcessEvent::Exited(ExitStatus::signaled(9, false));
    assert!(matches!(serve(SessionEvent::Process(killed)), SessionAction::Exit(137)));
}

#[test]
fn a_command_that_never_listens_is_a_failure() {
    let mut session = Session::new(None);
    match session.step(exited(2)) {
        SessionAction::Fail { terminate: false, error } => {
            assert!(matches!(error, SessionError::ExitedEarly(status) if status.code() == Some(2)));
            assert_eq!(
                error.message("exit status: 2").unwrap(),
                "command exited with exit status: 2 before opening a TCP listener"
            );
        }
        other => panic!("{other:?}"),
    }
}

#[test]
fn lost_supervision_is_a_failure() {
    match wait_for_listener(error("no ptrace")) {
        SessionAction::Fail { terminate: true, error } => assert_eq!(
            error.message("").unwrap(),
            "could not observe the command's listeners: no ptrace"
        ),
        other => panic!("{other:?}"),
    }
    match serve(error("gone")) {
        SessionAction::Fail { terminate: false, error } => assert_eq!(
            error.message("").unwrap(),
            "failed while supervising the command: gone"
        ),
        other => panic!("{other:?}"),
    }
}

#[test]
fn the_command_ends_with_the_endpoint() {
    for port in [None, Some(80)] {
        for (end, expected) in [
            (ForwarderEnd::Closed, Some("ngrok endpoint closed unexpectedly")),
            (ForwarderEnd::Failed, Some("ngrok forwarding failed")),
            (ForwarderEnd::Crashed, None),
        ] {
            match Session::new(port).step(SessionEvent::Forwarder(end)) {
                SessionAction::Fail { terminate: true, error } => {
                    assert_eq!(error.message("").as_deref(), expected);
                }
                other => panic!("{other:?}"),
            }
        }
    }
}

#[test]
fn interrupts_and_output_are_handed_on() {
    for port in [None, Some(80)] {
        let mut session = Session::new(port);
        assert!(matches!(session.step(SessionEvent::Interrupt), SessionAction::Interrupt));
        let output = SessionEvent::Output(ProcessOutput::Stderr(b"x".to_vec()));
        assert!(matches!(
            session.step(output),
            SessionAction::Write(ProcessOutput::Stderr(bytes)) if bytes == b"x"
        ));
        assert_eq!(session.port, port);
    }
}

#[test]
fn the_public_url_is_announced() {
    assert_eq!(
        announcement("https://random.ngrok.app"),
        "[nserve] Created ngrok session with URL https://random.ngrok.app"
    );
}

#[test]
fn an_explicit_port_is_not_traced() {
    let session = Session::new(Some(5000));
    assert_eq!(supervision(session.discovers(), false), Ok(Supervision::Wait));
    let session = Session::new(None);
    assert_eq!(supervision(session.discovers(), true), Ok(Supervision::Trace));
}

#[test]
fn the_first_open_port_is_served_until_the_command_exits() {
    let initial = WaitStatus::Stopped { pid: 9, signal: StopSignal::Trap };
    let mut tracer = match Tracer::start(9, 50, initial) {
        Ok(tracer) => tracer,
        Err(_) => panic!("not started"),
    };
    let mut session = Session::new(None);
    let mut served = Vec::new();
    for port in [None, Some(8080), Some(9090)] {
        let action = tracer.step(TraceEvent::Port { pid: 9, port });
        if let TraceAction::Resume { listening: Some(port), .. } = action {
            if let SessionAction::Serve(port) = session.step(listening(port)) {
                served.push(port);
            }
        }
    }
    assert_eq!(served, [8080]);
    let ended = TraceEvent::Status(WaitStatus::Exited { pid: 9, code: 42 });
    match tracer.step(ended) {
        TraceAction::Finish { status } => assert!(matches!(
            session.step(SessionEvent::Process(ProcessEvent::Exited(status))),
            SessionAction::Exit(42)
        )),
        other => panic!("{other:?}"),
    }
}
