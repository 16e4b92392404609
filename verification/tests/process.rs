use nserve::process::{
    drain, exit_code, supervision, DrainStep, ExitStatus, PipeRead, SpawnError, Supervision,
};

#[test]
fn exit_codes_are_kept() {
    for code in 0..=0xff {
        let status = ExitStatus::exited(code);
        assert_eq!(status.raw, code << 8);
        assert_eq!(status.code(), Some(code));
        assert_eq!(status.signal(), None);
        assert_eq!(exit_code(status), code);
    }
}

#[test]
fn signals_become_exit_codes() {
    for signal in 1..0x7f {
        for core_dumped in [false, true] {
            let status = ExitStatus::signaled(signal, core_dumped);
            assert_eq!(status.code(), None);
            assert_eq!(status.signal(), Some(signal));
            assert_eq!(exit_code(status), 128 + signal);
        }
    }
    assert_eq!(ExitStatus::signaled(11, true).raw, 0x8b);
}

#[test]
fn a_stopped_process_has_no_exit_code() {
    let status = ExitStatus { raw: 0x137f };
    assert_eq!(status.code(), None);
    assert_eq!(status.signal(), None);
    assert_eq!(exit_code(status), 1);
    assert_eq!(exit_code(ExitStatus { raw: -1 }), 1);
}

#[test]
fn a_known_port_needs_no_procfs() {
    assert_eq!(supervision(false, false), Ok(Supervision::Wait));
    assert_eq!(supervision(false, true), Ok(Supervision::Wait));
    assert_eq!(supervision(true, true), Ok(Supervision::Trace));
    assert_eq!(supervision(true, false), Err(SpawnError::NoProcfs));
    assert_eq!(
        SpawnError::NoProcfs.message(),
        "automatic port discovery requires Linux procfs; pass --port explicitly"
    );
}

#[test]
fn output_is_handed_on_until_its_end() {
    let buffer = *b"hello";
    assert!(matches!(
        drain(PipeRead::Bytes(3), &buffer),
        DrainStep::Forward(bytes) if bytes == b"hel"
    ));
    assert!(matches!(
        drain(PipeRead::Bytes(5), &buffer),
        DrainStep::Forward(bytes) if bytes == b"hello"
    ));
    assert!(matches!(drain(PipeRead::Bytes(0), &buffer), DrainStep::Stop));
    assert!(matches!(drain(PipeRead::Interrupted, &buffer), DrainStep::Retry));
    assert!(matches!(drain(PipeRead::Failed, &buffer), DrainStep::Stop));
}
