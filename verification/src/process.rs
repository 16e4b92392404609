//! The wrapped command: how it is watched, what it prints and how it ends.

use vstd::prelude::*;
use vstd::slice::slice_subrange;
use vstd::slice::slice_to_vec;

verus! {

/// How a process ended, as Linux writes it into a wait status: in the low seven bits the signal
/// that ended it, or zero where it exited, and in the second byte the code with which it exited.
#[derive(Clone, Copy, Debug, PartialEq, Eq, Structural)]
pub struct ExitStatus {
    /// The wait status.
    pub raw: i32,
}

impl ExitStatus {
    /// The code with which the process exited, where it exited.
    pub open spec fn exited_with(self) -> Option<i32> {
        if self.raw & 0x7f == 0 {
            Some((self.raw >> 8) & 0xff)
        } else {
            None
        }
    }

    /// The signal that ended the process, where one did. All seven bits set mark a stopped
    /// process.
    pub open spec fn ended_by(self) -> Option<i32> {
        if 0 < self.raw & 0x7f && self.raw & 0x7f < 0x7f {
            Some(self.raw & 0x7f)
        } else {
            None
        }
    }

    /// The status of a process that exited with `code`.
    pub fn exited(code: i32) -> (status: ExitStatus)
        ensures
            status.raw == code << 8,
            0 <= code <= 0xff ==> status.exited_with() == Some(code) && status.ended_by() is None,
    {
        proof {
            lemma_exited(code);
        }
        ExitStatus { raw: code << 8 }
    }

    /// The status of a process that `signal` ended, with or without a core dump.
    pub fn signaled(signal: i32, core_dumped: bool) -> (status: ExitStatus)
        ensures
            status.raw == signal | if core_dumped {
                0x80i32
            } else {
                0i32
            },
            0 < signal < 0x7f ==> status.ended_by() == Some(signal)
                && status.exited_with() is None,
    {
        proof {
            lemma_signaled(signal);
        }
        let core: i32 = if core_dumped {
            0x80
        } else {
            0
        };
        ExitStatus { raw: signal | core }
    }

    /// The code with which the process exited, where it exited.
    pub fn code(&self) -> (code: Option<i32>)
        ensures
            code == self.exited_with(),
    {
        if self.raw & 0x7f == 0 {
            Some((self.raw >> 8) & 0xff)
        } else {
            None
        }
    }

    /// The signal that ended the process, where one did.
    pub fn signal(&self) -> (signal: Option<i32>)
        ensures
            signal == self.ended_by(),
    {
        let low: i32 = self.raw & 0x7f;
        if 0 < low && low < 0x7f {
            Some(low)
        } else {
            None
        }
    }
}

proof fn lemma_exited(code: i32)
    ensures
        0 <= code <= 0xff ==> (code << 8) & 0x7f == 0 && ((code << 8) >> 8) & 0xff == code,
{
    assert(0 <= code <= 0xff ==> (code << 8) & 0x7f == 0 && ((code << 8) >> 8) & 0xff == code)
        by (bit_vector);
}

proof fn lemma_signaled(signal: i32)
    ensures
        0 < signal < 0x7f ==> (signal | 0x80i32) & 0x7f == signal && (signal | 0i32) & 0x7f == signal,
{
    assert(0 < signal < 0x7f ==> (signal | 0x80i32) & 0x7f == signal && (signal | 0i32) & 0x7f
        == signal) by (bit_vector);
}

/// The exit code that stands for `status`: the process's own, or 128 and the signal that ended
/// it, or 1 where it did neither.
pub open spec fn exit_code_of(status: ExitStatus) -> int {
    match (status.exited_with(), status.ended_by()) {
        (Some(code), _) => code as int,
        (None, Some(signal)) => 128 + signal,
        (None, None) => 1,
    }
}

/// The exit code with which to report that the command ended as `status` says.
pub fn exit_code(status: ExitStatus) -> (code: i32)
    ensures
        code == exit_code_of(status),
        0 <= code <= 0xff,
{
    proof {
        let raw = status.raw;
        assert(0 <= (raw >> 8) & 0xff <= 0xff) by (bit_vector);
    }
    match status.code() {
        Some(code) => code,
        None => match status.signal() {
            Some(signal) => 128 + signal,
            None => 1,
        },
    }
}

/// A command's own exit code is the one that is reported.
pub proof fn law_exit_code_is_kept(code: i32)
    requires
        0 <= code <= 0xff,
    ensures
        exit_code_of(ExitStatus { raw: code << 8 }) == code,
{
    lemma_exited(code);
}

/// A command that a signal ended is reported as shells do, with or without a core dump.
pub proof fn law_signal_becomes_exit_code(signal: i32, core_bit: i32)
    requires
        0 < signal < 0x7f,
        core_bit == 0 || core_bit == 0x80,
    ensures
        exit_code_of(ExitStatus { raw: signal | core_bit }) == 128 + signal,
{
    lemma_signaled(signal);
}

/// What the command printed.
#[derive(Debug)]
pub enum ProcessOutput {
    /// Bytes from its standard output.
    Stdout(Vec<u8>),
    /// Bytes from its standard error.
    Stderr(Vec<u8>),
}

/// What became known of the command.
#[derive(Debug)]
pub enum ProcessEvent {
    /// It listens on this port.
    Listening(u16),
    /// It ended.
    Exited(ExitStatus),
    /// It can no longer be watched, for the reason given.
    Error(String),
}

/// How the command is watched.
#[derive(Clone, Copy, Debug, PartialEq, Eq, Structural)]
pub enum Supervision {
    /// At its system calls, from before its first instruction, so that no listener is missed.
    Trace,
    /// Until it ends.
    Wait,
}

/// Why a command was not started.
#[derive(Clone, Copy, Debug, PartialEq, Eq, Structural)]
pub enum SpawnError {
    /// Its listeners cannot be discovered here.
    NoProcfs,
}

impl SpawnError {
    /// What to tell the user.
    pub fn message(&self) -> (message: String)
        ensures
            message@
                == "automatic port discovery requires Linux procfs; pass --port explicitly"@,
    {
        "automatic port discovery requires Linux procfs; pass --port explicitly".to_owned()
    }
}

/// How to watch a command. Discovering its listeners takes `/proc`; a command whose port is known
/// is not traced and needs none.
pub open spec fn watched(trace_listeners: bool, proc_available: bool) -> Result<
    Supervision,
    SpawnError,
> {
    if trace_listeners && !proc_available {
        Err(SpawnError::NoProcfs)
    } else if trace_listeners {
        Ok(Supervision::Trace)
    } else {
        Ok(Supervision::Wait)
    }
}

/// Decides how to watch a command.
pub fn supervision(trace_listeners: bool, proc_available: bool) -> (plan: Result<
    Supervision,
    SpawnError,
>)
    ensures
        plan == watched(trace_listeners, proc_available),
{
    if trace_listeners && !proc_available {
        Err(SpawnError::NoProcfs)
    } else if trace_listeners {
        Ok(Supervision::Trace)
    } else {
        Ok(Supervision::Wait)
    }
}

/// What a read from one of the command's pipes gave.
#[derive(Clone, Copy, Debug, PartialEq, Eq, Structural)]
pub enum PipeRead {
    /// So many bytes at the front of the buffer; none at the end of the stream.
    Bytes(usize),
    /// A signal came first.
    Interrupted,
    /// The pipe is broken.
    Failed,
}

/// What to do about a read from one of the command's pipes.
#[derive(Debug)]
pub enum DrainStep {
    /// Hand these bytes on, and read again.
    Forward(Vec<u8>),
    /// Read again.
    Retry,
    /// Read no more.
    Stop,
}

/// Decides what to do about a read into `buffer`.
pub fn drain(read: PipeRead, buffer: &[u8]) -> (step: DrainStep)
    requires
        read matches PipeRead::Bytes(count) ==> count <= buffer@.len(),
    ensures
        match read {
            PipeRead::Bytes(count) => if count == 0 {
                step is Stop
            } else {
                step matches DrainStep::Forward(bytes) && bytes@ == buffer@.take(count as int)
            },
            PipeRead::Interrupted => step is Retry,
            PipeRead::Failed => step is Stop,
        },
{
    match read {
        PipeRead::Bytes(count) => if count == 0 {
            DrainStep::Stop
        } else {
            DrainStep::Forward(slice_to_vec(slice_subrange(buffer, 0, count)))
        },
        PipeRead::Interrupted => DrainStep::Retry,
        PipeRead::Failed => DrainStep::Stop,
    }
}

/// A command that exited is reported with its own code, one that a signal ended with 128 and the
/// signal, with or without a core dump, and one that did neither, as its low seven bits tell, with
/// 1. Success is reported of a command that exited with zero, and of no other.
pub proof fn law_how_the_command_ended_is_reported(
    status: ExitStatus,
    reported: i32,
    code: i32,
    exited: ExitStatus,
    reported_exit: i32,
    signal: i32,
    core_dumped: bool,
    signaled: ExitStatus,
    reported_signal: i32,
)
    requires
        call_ensures(exit_code, (status,), reported),
        0 <= code <= 0xff,
        call_ensures(ExitStatus::exited, (code,), exited),
        call_ensures(exit_code, (exited,), reported_exit),
        0 < signal < 0x7f,
        call_ensures(ExitStatus::signaled, (signal, core_dumped), signaled),
        call_ensures(exit_code, (signaled,), reported_signal),
    ensures
        reported_exit == code,
        reported_signal == 128 + signal,
        exited.raw == code * 256,
        signaled.raw == signal + if core_dumped {
            128int
        } else {
            0
        },
        status.raw & 0x7f == 0x7f ==> reported == 1,
        reported == 0 <==> status.raw & 0xff7f == 0,
        0 <= reported <= 0xff,
{
    law_exit_code_is_kept(code);
    law_signal_becomes_exit_code(signal, 0);
    law_signal_becomes_exit_code(signal, 0x80);
    assert(0 <= code <= 0xff ==> code << 8 == code * 256) by (bit_vector);
    assert(0 < signal < 0x7f ==> signal | 0x80i32 == signal + 0x80 && signal | 0i32 == signal)
        by (bit_vector);
    let raw = status.raw;
    assert((raw & 0x7f == 0 && (raw >> 8) & 0xff == 0) <==> raw & 0xff7f == 0) by (bit_vector);
}

/// The second byte of a wait status is the code of a process that exited, and its low seven bits
/// are the signal of one that a signal ended. A process never both exited and was ended.
pub proof fn law_parts_of_a_status(status: ExitStatus, code: Option<i32>, signal: Option<i32>)
    requires
        call_ensures(ExitStatus::code, (&status,), code),
        call_ensures(ExitStatus::signal, (&status,), signal),
    ensures
        code is Some == (status.raw & 0x7f == 0),
        code matches Some(n) ==> 0 <= n <= 0xff && n * 256 == status.raw & 0xff00,
        signal is Some == (status.raw & 0x7f != 0 && status.raw & 0x7f != 0x7f),
        signal matches Some(n) ==> n == status.raw & 0x7f,
        !(code is Some && signal is Some),
{
    let raw = status.raw;
    assert(0 <= (raw >> 8) & 0xff <= 0xff && ((raw >> 8) & 0xff) * 256 == raw & 0xff00)
        by (bit_vector);
    assert(0 <= raw & 0x7f <= 0x7f) by (bit_vector);
}

/// A command whose port is not known is traced, which takes `/proc`; one whose port is known is
/// never traced and needs none.
pub proof fn law_tracing_is_for_discovery(
    proc_available: bool,
    traced: Result<Supervision, SpawnError>,
    known: Result<Supervision, SpawnError>,
)
    requires
        call_ensures(supervision, (true, proc_available), traced),
        call_ensures(supervision, (false, proc_available), known),
    ensures
        traced is Ok == proc_available,
        traced matches Ok(how) ==> how is Trace,
        traced matches Err(error) ==> error is NoProcfs,
        known == Ok::<Supervision, SpawnError>(Supervision::Wait),
{
}

/// Nothing that the command prints is lost or made up: what a read gave is handed on, byte for byte
/// and no more, and reading goes on until the stream is at its end or broken.
pub proof fn law_output_is_handed_on(
    count: usize,
    buffer: &[u8],
    given: DrainStep,
    interrupted: DrainStep,
    failed: DrainStep,
)
    requires
        count <= buffer@.len(),
        call_ensures(drain, (PipeRead::Bytes(count), buffer), given),
        call_ensures(drain, (PipeRead::Interrupted, buffer), interrupted),
        call_ensures(drain, (PipeRead::Failed, buffer), failed),
    ensures
        count > 0 ==> (given matches DrainStep::Forward(bytes) && bytes@.len() == count && forall|
            i: int,
        |
            0 <= i < count ==> #[trigger] bytes@[i] == buffer@[i]),
        count == 0 ==> given is Stop,
        interrupted is Retry,
        failed is Stop,
{
}

} // verus!
