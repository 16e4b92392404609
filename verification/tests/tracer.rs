use std::collections::HashMap;

use nserve::process::ExitStatus;
use nserve::tracer::{
    observe_listen, resume, ResumeMode, StopSignal, SyscallInfo, TraceAction, TraceError,
    TraceEvent, Tracer, WaitStatus, CLONE, FORK, VFORK,
};

const LISTEN: u64 = 50;
const ROOT: i32 = 100;
const CHILD: i32 = 101;

fn start() -> Tracer {
    let initial = WaitStatus::Stopped { pid: ROOT, signal: StopSignal::Trap };
    match Tracer::start(ROOT, LISTEN, initial) {
        Ok(tracer) => tracer,
        Err(error) => panic!("{}", error.message()),
    }
}

fn run(pid: i32, mode: ResumeMode) -> TraceAction {
    TraceAction::Resume { pid, mode, signal: None, listening: None }
}

fn enter(pid: i32, number: u64, first_argument: u64) -> TraceEvent {
    TraceEvent::Syscall { pid, info: SyscallInfo::Entry { number, first_argument } }
}

fn leave(pid: i32, failed: bool) -> TraceEvent {
    TraceEvent::Syscall { pid, info: SyscallInfo::Exit { failed } }
}

#[test]
fn a_forked_child_that_listens_is_announced() {
    let mut tracer = start();
    assert_eq!(tracer.mode(), ResumeMode::Syscall);
    assert_eq!(
        tracer.step(TraceEvent::Status(WaitStatus::Event { pid: ROOT, event: FORK })),
        TraceAction::FindChild { pid: ROOT }
    );
    assert_eq!(
        tracer.step(TraceEvent::Forked { pid: ROOT, child: CHILD }),
        run(ROOT, ResumeMode::Syscall)
    );
    assert_eq!(
        tracer.step(TraceEvent::Status(WaitStatus::Stopped { pid: CHILD, signal: StopSignal::Stop })),
        run(CHILD, ResumeMode::Syscall)
    );
    assert_eq!(
        tracer.step(TraceEvent::Status(WaitStatus::Syscall { pid: CHILD })),
        TraceAction::Inspect { pid: CHILD }
    );
    assert_eq!(
        tracer.step(enter(CHILD, LISTEN, 0xffff_ffff_0000_0003)),
        run(CHILD, ResumeMode::Syscall)
    );
    assert_eq!(
        tracer.step(leave(CHILD, false)),
        TraceAction::FindPort { pid: CHILD, fd: 3 }
    );
    assert_eq!(
        tracer.step(TraceEvent::Port { pid: CHILD, port: Some(3000) }),
        TraceAction::Resume {
            pid: CHILD,
            mode: ResumeMode::Cont,
            signal: None,
            listening: Some(3000)
        }
    );
    assert_eq!(
        tracer.step(TraceEvent::Status(WaitStatus::Syscall { pid: CHILD })),
        run(CHILD, ResumeMode::Cont)
    );
    assert_eq!(
        tracer.step(TraceEvent::Port { pid: CHILD, port: Some(4000) }),
        run(CHILD, ResumeMode::Cont)
    );
    assert_eq!(tracer.mode(), ResumeMode::Cont);
}

#[test]
fn only_a_successful_listen_is_followed() {
    let mut tracer = start();
    assert_eq!(tracer.step(enter(ROOT, 41, 3)), run(ROOT, ResumeMode::Syscall));
    assert_eq!(tracer.step(leave(ROOT, false)), run(ROOT, ResumeMode::Syscall));
    assert_eq!(tracer.step(enter(ROOT, LISTEN, 3)), run(ROOT, ResumeMode::Syscall));
    assert_eq!(tracer.step(leave(CHILD, false)), run(CHILD, ResumeMode::Syscall));
    assert_eq!(tracer.step(leave(ROOT, true)), run(ROOT, ResumeMode::Syscall));
    assert_eq!(tracer.step(leave(ROOT, false)), run(ROOT, ResumeMode::Syscall));
    assert_eq!(
        tracer.step(TraceEvent::Syscall { pid: ROOT, info: SyscallInfo::Other }),
        run(ROOT, ResumeMode::Syscall)
    );
    assert_eq!(tracer.step(enter(ROOT, LISTEN, 4)), run(ROOT, ResumeMode::Syscall));
    assert_eq!(
        tracer.step(leave(ROOT, false)),
        TraceAction::FindPort { pid: ROOT, fd: 4 }
    );
    assert_eq!(
        tracer.step(TraceEvent::Port { pid: ROOT, port: None }),
        run(ROOT, ResumeMode::Syscall)
    );
}

#[test]
fn calls_under_way_are_kept_apart() {
    let mut calls = HashMap::new();
    let entry = SyscallInfo::Entry { number: LISTEN, first_argument: 7 };
    assert_eq!(observe_listen(&mut calls, LISTEN, ROOT, entry), None);
    assert_eq!(calls, HashMap::from([(ROOT, 7)]));
    assert_eq!(
        observe_listen(&mut calls, LISTEN, CHILD, SyscallInfo::Exit { failed: false }),
        None
    );
    assert_eq!(
        observe_listen(&mut calls, LISTEN, ROOT, SyscallInfo::Exit { failed: false }),
        Some(7)
    );
    assert!(calls.is_empty());
}

#[test]
fn signals_meant_for_the_process_are_delivered() {
    let mut tracer = start();
    assert_eq!(
        tracer.step(TraceEvent::Status(WaitStatus::Stopped {
            pid: ROOT,
            signal: StopSignal::Other(15)
        })),
        TraceAction::Resume {
            pid: ROOT,
            mode: ResumeMode::Syscall,
            signal: Some(15),
            listening: None
        }
    );
    assert_eq!(
        tracer.step(TraceEvent::Status(WaitStatus::Stopped { pid: ROOT, signal: StopSignal::Trap })),
        run(ROOT, ResumeMode::Syscall)
    );
}

#[test]
fn tracing_ends_with_the_command() {
    let mut tracer = start();
    for event in [VFORK, CLONE] {
        assert_eq!(
            tracer.step(TraceEvent::Status(WaitStatus::Event { pid: ROOT, event })),
            TraceAction::FindChild { pid: ROOT }
        );
    }
    assert_eq!(
        tracer.step(TraceEvent::Status(WaitStatus::Event { pid: ROOT, event: 4 })),
        run(ROOT, ResumeMode::Syscall)
    );
    tracer.step(TraceEvent::Forked { pid: ROOT, child: CHILD });
    assert_eq!(
        tracer.step(TraceEvent::Status(WaitStatus::Exited { pid: CHILD, code: 1 })),
        TraceAction::Wait
    );
    assert!(tracer.tracing());
    assert_eq!(tracer.step(TraceEvent::Status(WaitStatus::Continued)), TraceAction::Wait);
    assert_eq!(tracer.step(TraceEvent::Status(WaitStatus::StillAlive)), TraceAction::Wait);
    assert_eq!(
        tracer.step(TraceEvent::Status(WaitStatus::Exited { pid: ROOT, code: 3 })),
        TraceAction::Finish { status: ExitStatus { raw: 0x300 } }
    );
    assert!(!tracer.tracing());
    let mut tracer = start();
    assert_eq!(
        tracer.step(TraceEvent::Status(WaitStatus::Signaled {
            pid: ROOT,
            number: 11,
            core_dumped: true
        })),
        TraceAction::Finish { status: ExitStatus { raw: 0x8b } }
    );
}

#[test]
fn tracing_starts_at_a_trap() {
    for initial in [
        WaitStatus::Stopped { pid: ROOT, signal: StopSignal::Stop },
        WaitStatus::Exited { pid: ROOT, code: 127 },
        WaitStatus::Syscall { pid: ROOT },
    ] {
        match Tracer::start(ROOT, LISTEN, initial) {
            Ok(_) => panic!("started"),
            Err(error) => {
                assert_eq!(error, TraceError::UnexpectedStop);
                assert_eq!(
                    error.message(),
                    "child did not enter its expected pre-exec trace stop"
                );
            }
        }
    }
}

#[test]
fn processes_stop_at_system_calls_while_a_listener_is_wanted() {
    assert_eq!(resume(true), ResumeMode::Syscall);
    assert_eq!(resume(false), ResumeMode::Cont);
}
