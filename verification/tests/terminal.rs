use nserve::terminal::{InputAction, InputEvent, InputLoop, RawMode, ESCAPE, HELP};

fn handed_on(terminal: bool, bytes: &[u8]) -> Vec<u8> {
    let mut input = InputLoop::new(terminal);
    let mut sent = Vec::new();
    for byte in bytes {
        if let InputAction::Forward(bytes) = input.step(InputEvent::Byte(*byte)) {
            sent.extend(bytes);
        }
    }
    sent
}

#[test]
fn plain_typing_is_handed_on() {
    assert_eq!(handed_on(true, b"ls -l?ns\r"), b"ls -l?ns\r");
}

#[test]
fn piped_input_is_handed_on() {
    assert_eq!(handed_on(false, b"a\x0enb\x0e?\x0e"), b"a\x0enb\x0e?\x0e");
}

#[test]
fn escape_sequences_send_what_they_stand_for() {
    assert_eq!(handed_on(true, b"a\x0enb"), b"a\x0eb");
    assert_eq!(handed_on(true, b"\x0e\x0e"), b"\x0e");
    assert_eq!(handed_on(true, b"\x0e?\x0es"), b"");
    assert_eq!(handed_on(true, b"\x0ex\x0e"), b"\x0ex");
    assert_eq!(handed_on(true, b"\x0e\x0en"), b"\x0en");
}

#[test]
fn escape_sequences_show_help_and_status() {
    let mut input = InputLoop::new(true);
    assert!(matches!(input.step(InputEvent::Byte(ESCAPE)), InputAction::Hold));
    assert!(matches!(input.step(InputEvent::Resized), InputAction::Resize));
    assert!(matches!(input.step(InputEvent::Byte(b'?')), InputAction::ShowHelp));
    assert!(matches!(input.step(InputEvent::Byte(ESCAPE)), InputAction::Hold));
    assert!(matches!(input.step(InputEvent::Byte(b's')), InputAction::ShowStatus));
    assert!(matches!(input.step(InputEvent::End), InputAction::Close));
    assert_eq!(
        HELP,
        "\r\n[nserve] ctrl+n commands: n = send ctrl+n, ? = help, s = status\r\n"
    );
}

#[test]
fn only_terminals_are_resized() {
    let mut input = InputLoop::new(false);
    assert!(matches!(input.step(InputEvent::Resized), InputAction::Hold));
}

#[test]
fn raw_mode_is_for_terminals() {
    assert!(RawMode::enable_if_terminal(true).is_enabled());
    assert!(!RawMode::enable_if_terminal(false).is_enabled());
}
