//! The escape sequences of the terminal.

use vstd::prelude::*;

verus! {

/// The byte of ctrl+n, which starts an escape sequence.
pub const ESCAPE: u8 = 0x0e;

/// The help that ctrl+n ? shows.
pub const HELP: &'static str =
    "\r\n[nserve] ctrl+n commands: n = send ctrl+n, ? = help, s = status\r\n";

/// Whether the terminal was put into raw mode, and has to be put back.
#[derive(Debug)]
pub struct RawMode(bool);

impl RawMode {
    /// Whether raw mode was enabled.
    pub closed spec fn enabled(self) -> bool {
        self.0
    }

    /// Raw mode is for terminals: it is enabled exactly where the input is one.
    pub fn enable_if_terminal(terminal: bool) -> (mode: RawMode)
        ensures
            mode.enabled() == terminal,
    {
        RawMode(terminal)
    }

    /// Whether raw mode is on until it is disabled: what was not enabled is left alone.
    pub fn is_enabled(&self) -> (enabled: bool)
        ensures
            enabled == self.enabled(),
    {
        self.0
    }
}

/// What happens at the terminal.
#[derive(Clone, Copy, Debug, PartialEq, Eq, Structural)]
pub enum InputEvent {
    /// A byte was read.
    Byte(u8),
    /// The input is at its end.
    End,
    /// The terminal's window has another size.
    Resized,
}

/// What to do about it.
#[derive(Debug)]
pub enum InputAction {
    /// Hand these bytes to the command.
    Forward(Vec<u8>),
    /// Tell the command that the window has another size.
    Resize,
    /// Show the help.
    ShowHelp,
    /// Show the status page.
    ShowStatus,
    /// Nothing, until more is known.
    Hold,
    /// Close the command's input, and read no more.
    Close,
}

/// Reads the terminal.
#[derive(Clone, Copy, Debug, PartialEq, Eq, Structural)]
pub struct InputLoop {
    /// Whether the input is a terminal, where escape sequences count.
    pub terminal: bool,
    /// Whether an escape sequence has begun.
    pub escaped: bool,
}

/// What is handed to the command for `byte` in the state `input`.
pub open spec fn handed_on(input: InputLoop, byte: u8) -> Seq<u8> {
    if !input.terminal {
        seq![byte]
    } else if input.escaped {
        if byte == 0x6e || byte == ESCAPE {
            seq![ESCAPE]
        } else if byte == 0x3f || byte == 0x73 {
            Seq::empty()
        } else {
            seq![ESCAPE, byte]
        }
    } else if byte == ESCAPE {
        Seq::empty()
    } else {
        seq![byte]
    }
}

/// Whether `action` is the one for `event` in the state `input`.
pub open spec fn answers(input: InputLoop, event: InputEvent, action: InputAction) -> bool {
    match event {
        InputEvent::End => action is Close,
        InputEvent::Resized => if input.terminal {
            action is Resize
        } else {
            action is Hold
        },
        InputEvent::Byte(byte) => if handed_on(input, byte).len() > 0 {
            action matches InputAction::Forward(bytes) && bytes@ =~= handed_on(input, byte)
        } else if byte == 0x3f {
            action is ShowHelp
        } else if byte == 0x73 {
            action is ShowStatus
        } else {
            action is Hold
        },
    }
}

/// The state after `event`: at a terminal an escape sequence begins with ctrl+n and is over with
/// the next byte.
pub open spec fn input_after(input: InputLoop, event: InputEvent) -> InputLoop {
    match event {
        InputEvent::Byte(byte) => if input.terminal {
            InputLoop { escaped: !input.escaped && byte == ESCAPE, ..input }
        } else {
            input
        },
        _ => input,
    }
}

impl InputLoop {
    /// Reads from the start, from a terminal or from elsewhere.
    pub fn new(terminal: bool) -> (input: InputLoop)
        ensures
            input == (InputLoop { terminal, escaped: false }),
    {
        InputLoop { terminal, escaped: false }
    }

    /// Takes note of `event` and decides what to do about it. Escape sequences count only at a
    /// terminal: ctrl+n n and ctrl+n ctrl+n stand for ctrl+n, ctrl+n ? for the help, ctrl+n s for
    /// the status page, and any other byte behind ctrl+n is handed on with it.
    pub fn step(&mut self, event: InputEvent) -> (action: InputAction)
        ensures
            answers(*old(self), event, action),
            *final(self) == input_after(*old(self), event),
    {
        match event {
            InputEvent::End => InputAction::Close,
            InputEvent::Resized => if self.terminal {
                InputAction::Resize
            } else {
                InputAction::Hold
            },
            InputEvent::Byte(byte) => {
                if !self.terminal {
                    return InputAction::Forward(vec![byte]);
                }
                if self.escaped {
                    self.escaped = false;
                    if byte == 0x6e || byte == ESCAPE {
                        InputAction::Forward(vec![ESCAPE])
                    } else if byte == 0x3f {
                        InputAction::ShowHelp
                    } else if byte == 0x73 {
                        InputAction::ShowStatus
                    } else {
                        InputAction::Forward(vec![ESCAPE, byte])
                    }
                } else if byte == ESCAPE {
                    self.escaped = true;
                    InputAction::Hold
                } else {
                    InputAction::Forward(vec![byte])
                }
            },
        }
    }
}

/// The state after all of `bytes`.
pub open spec fn input_after_all(input: InputLoop, bytes: Seq<u8>) -> InputLoop
    decreases bytes.len(),
{
    if bytes.len() == 0 {
        input
    } else {
        input_after(input_after_all(input, bytes.drop_last()), InputEvent::Byte(bytes.last()))
    }
}

/// What is handed to the command for all of `bytes`.
pub open spec fn all_handed_on(input: InputLoop, bytes: Seq<u8>) -> Seq<u8>
    decreases bytes.len(),
{
    if bytes.len() == 0 {
        Seq::empty()
    } else {
        all_handed_on(input, bytes.drop_last()) + handed_on(
            input_after_all(input, bytes.drop_last()),
            bytes.last(),
        )
    }
}

/// What does not come from a terminal is handed on as it is, ctrl+n included.
pub proof fn law_piped_input_is_untouched(input: InputLoop, bytes: Seq<u8>)
    requires
        !input.terminal,
    ensures
        all_handed_on(input, bytes) == bytes,
        input_after_all(input, bytes) == input,
    decreases bytes.len(),
{
    if bytes.len() > 0 {
        law_piped_input_is_untouched(input, bytes.drop_last());
        assert(bytes.drop_last() + seq![bytes.last()] == bytes);
    }
}

/// What is typed without ctrl+n is handed on as it is.
pub proof fn law_plain_typing_is_untouched(input: InputLoop, bytes: Seq<u8>)
    requires
        !input.escaped,
        !bytes.contains(ESCAPE),
    ensures
        all_handed_on(input, bytes) == bytes,
        input_after_all(input, bytes) == input,
    decreases bytes.len(),
{
    if bytes.len() > 0 {
        assert(bytes[bytes.len() - 1] != ESCAPE);
        assert(!bytes.drop_last().contains(ESCAPE)) by {
            if bytes.drop_last().contains(ESCAPE) {
                let i = choose|i: int|
                    0 <= i < bytes.drop_last().len() && bytes.drop_last()[i] == ESCAPE;
                assert(bytes[i] == ESCAPE);
            }
        }
        law_plain_typing_is_untouched(input, bytes.drop_last());
        assert(bytes.drop_last() + seq![bytes.last()] == bytes);
    }
}

/// Whatever was typed before, ctrl+n and one more byte make an escape sequence: with n or another
/// ctrl+n it sends one ctrl+n, with ? or s it sends nothing, and with any other byte it sends both.
/// After it, typing goes on as before.
pub proof fn law_escape_sequences(input: InputLoop, bytes: Seq<u8>, byte: u8)
    requires
        input.terminal,
        !input_after_all(input, bytes).escaped,
    ensures
        all_handed_on(input, bytes + seq![ESCAPE, byte]) == all_handed_on(input, bytes)
            + if byte == 0x6e || byte == ESCAPE {
            seq![ESCAPE]
        } else if byte == 0x3f || byte == 0x73 {
            Seq::<u8>::empty()
        } else {
            seq![ESCAPE, byte]
        },
        input_after_all(input, bytes + seq![ESCAPE, byte]) == input_after_all(input, bytes),
{
    let longer = bytes + seq![ESCAPE, byte];
    lemma_terminal_kept(input, bytes);
    assert(longer.drop_last() == bytes.push(ESCAPE));
    assert(bytes.push(ESCAPE).drop_last() == bytes);
    assert(all_handed_on(input, bytes.push(ESCAPE)) == all_handed_on(input, bytes));
}

proof fn lemma_terminal_kept(input: InputLoop, bytes: Seq<u8>)
    ensures
        input_after_all(input, bytes).terminal == input.terminal,
    decreases bytes.len(),
{
    if bytes.len() > 0 {
        lemma_terminal_kept(input, bytes.drop_last());
    }
}

/// What is read from a terminal without ctrl+n before it is handed on as it is, and ctrl+n is held
/// back until the next byte. What does not come from a terminal is always handed on as it is.
pub proof fn law_byte_is_handed_on(input: &mut InputLoop, byte: u8, action: InputAction)
    requires
        !old(input).terminal || !old(input).escaped,
        call_ensures(InputLoop::step, (input, InputEvent::Byte(byte)), action),
    ensures
        old(input).terminal && byte == 0x0e ==> action is Hold && *final(input) == (InputLoop {
            escaped: true,
            ..*old(input)
        }),
        !(old(input).terminal && byte == 0x0e) ==> {
            &&& action matches InputAction::Forward(bytes) && bytes@ == seq![byte]
            &&& *final(input) == *old(input)
        },
{
}

/// Behind ctrl+n, n and ctrl+n itself send one ctrl+n, ? shows the help, s shows the status page,
/// and any other byte is sent behind the ctrl+n. Either way the sequence is over.
pub proof fn law_byte_behind_ctrl_n(input: &mut InputLoop, byte: u8, action: InputAction)
    requires
        old(input).terminal,
        old(input).escaped,
        call_ensures(InputLoop::step, (input, InputEvent::Byte(byte)), action),
    ensures
        byte == 'n' as u8 || byte == 0x0e ==> (action matches InputAction::Forward(bytes) && bytes@
            == seq![0x0eu8]),
        byte == '?' as u8 <==> action is ShowHelp,
        byte == 's' as u8 <==> action is ShowStatus,
        byte != 'n' as u8 && byte != 0x0e && byte != '?' as u8 && byte != 's' as u8 ==> (
        action matches InputAction::Forward(bytes) && bytes@ == seq![0x0eu8, byte]),
        *final(input) == (InputLoop { terminal: true, escaped: false }),
{
}

/// The end of the input closes the command's, at any time. A change of the window's size reaches
/// the command where there is a window, at any time, and is no part of an escape sequence.
pub proof fn law_other_input_events(
    ended: &mut InputLoop,
    at_end: InputAction,
    resized: &mut InputLoop,
    at_resize: InputAction,
)
    requires
        call_ensures(InputLoop::step, (ended, InputEvent::End), at_end),
        call_ensures(InputLoop::step, (resized, InputEvent::Resized), at_resize),
    ensures
        at_end is Close,
        old(resized).terminal ==> at_resize is Resize,
        !old(resized).terminal ==> at_resize is Hold,
        *final(resized) == *old(resized),
{
}

/// Reading starts outside any escape sequence, and raw mode is on exactly at a terminal.
pub proof fn law_reading_starts_afresh(
    terminal: bool,
    input: InputLoop,
    mode: RawMode,
    enabled: bool,
)
    requires
        call_ensures(InputLoop::new, (terminal,), input),
        call_ensures(RawMode::enable_if_terminal, (terminal,), mode),
        call_ensures(RawMode::is_enabled, (&mode,), enabled),
    ensures
        input.terminal == terminal,
        !input.escaped,
        enabled == terminal,
{
}

} // verus!
