//! Watching a process tree at its system calls until one of its processes listens.

use std::collections::{HashMap, HashSet};

use vstd::prelude::*;

use crate::process::{
    exit_code, law_exit_code_is_kept, law_signal_becomes_exit_code, ExitStatus,
};

verus! {

broadcast use vstd::std_specs::hash::group_hash_axioms;

/// The event that the kernel reports of a traced process that calls `fork`.
pub const FORK: i32 = 1;

/// The event that the kernel reports of a traced process that calls `vfork`.
pub const VFORK: i32 = 2;

/// The event that the kernel reports of a traced process that calls `clone`.
pub const CLONE: i32 = 3;

/// A signal that stopped a traced process.
#[derive(Clone, Copy, Debug, PartialEq, Eq, Structural)]
pub enum StopSignal {
    /// `SIGSTOP`, with which a new tracee reports in.
    Stop,
    /// `SIGTRAP`, with which the kernel reports to the tracer.
    Trap,
    /// Another signal, by its number, meant for the process.
    Other(i32),
}

/// What the kernel reports of a traced process.
#[derive(Clone, Copy, Debug, PartialEq, Eq, Structural)]
pub enum WaitStatus {
    /// It stopped on the way into a system call or out of it.
    Syscall { pid: i32 },
    /// It stopped to report an event.
    Event { pid: i32, event: i32 },
    /// A signal stopped it.
    Stopped { pid: i32, signal: StopSignal },
    /// It exited.
    Exited { pid: i32, code: i32 },
    /// A signal ended it.
    Signaled { pid: i32, number: i32, core_dumped: bool },
    /// It was continued.
    Continued,
    /// There is nothing to report.
    StillAlive,
}

/// What the kernel says of the system call at which a process stopped.
#[derive(Clone, Copy, Debug, PartialEq, Eq, Structural)]
pub enum SyscallInfo {
    /// The process is about to make the call of this number.
    Entry { number: u64, first_argument: u64 },
    /// The call has returned.
    Exit { failed: bool },
    /// The stop is neither.
    Other,
}

/// What the tracer is told.
#[derive(Clone, Copy, Debug, PartialEq, Eq, Structural)]
pub enum TraceEvent {
    /// What the kernel reports.
    Status(WaitStatus),
    /// The answer to `Inspect`.
    Syscall { pid: i32, info: SyscallInfo },
    /// The answer to `FindPort`.
    Port { pid: i32, port: Option<u16> },
    /// The answer to `FindChild`.
    Forked { pid: i32, child: i32 },
}

/// How far a stopped process may run.
#[derive(Clone, Copy, Debug, PartialEq, Eq, Structural)]
pub enum ResumeMode {
    /// To its next system call.
    Syscall,
    /// On, without stopping at system calls.
    Cont,
}

/// What the tracer asks for.
#[derive(Clone, Copy, Debug, PartialEq, Eq, Structural)]
pub enum TraceAction {
    /// Ask the kernel for the system call at which the process stopped.
    Inspect { pid: i32 },
    /// Find the port on which the process listens through this open file.
    FindPort { pid: i32, fd: u32 },
    /// Ask the kernel for the process that this one has created.
    FindChild { pid: i32 },
    /// Announce the listener, where there is one, and let the process run on, with the signal
    /// where there is one.
    Resume { pid: i32, mode: ResumeMode, signal: Option<i32>, listening: Option<u16> },
    /// Announce that the command ended, and stop tracing.
    Finish { status: ExitStatus },
    /// Nothing but to wait for the next report.
    Wait,
}

/// Why tracing did not start.
#[derive(Clone, Copy, Debug, PartialEq, Eq, Structural)]
pub enum TraceError {
    /// The process did not stop before it ran the command.
    UnexpectedStop,
}

impl TraceError {
    /// What to tell the user, before the report itself.
    pub fn message(&self) -> (message: String)
        ensures
            message@ == "child did not enter its expected pre-exec trace stop"@,
    {
        "child did not enter its expected pre-exec trace stop".to_owned()
    }
}

/// How far to let a stopped process run: to its next system call while a listener is wanted.
pub open spec fn resume_mode(discovering: bool) -> ResumeMode {
    if discovering {
        ResumeMode::Syscall
    } else {
        ResumeMode::Cont
    }
}

/// How far to let a stopped process run.
pub fn resume(discovering: bool) -> (mode: ResumeMode)
    ensures
        mode == resume_mode(discovering),
{
    if discovering {
        ResumeMode::Syscall
    } else {
        ResumeMode::Cont
    }
}

/// The low 32 bits of a system call's argument, which hold a file descriptor.
pub open spec fn descriptor(argument: u64) -> u32 {
    (argument % 0x1_0000_0000) as u32
}

/// The calls of `listen` that are under way, after `pid` stopped as `info` says: a call begins at
/// its entry, with the descriptor that it is made on, and is over at its exit.
pub open spec fn calls_after(
    calls: Map<i32, u32>,
    listen_number: u64,
    pid: i32,
    info: SyscallInfo,
) -> Map<i32, u32> {
    match info {
        SyscallInfo::Entry { number, first_argument } => if number == listen_number {
            calls.insert(pid, descriptor(first_argument))
        } else {
            calls
        },
        SyscallInfo::Exit { .. } => calls.remove(pid),
        SyscallInfo::Other => calls,
    }
}

/// The descriptor on which `pid` listens from now on: that of its call of `listen`, where `info`
/// says that it succeeded.
pub open spec fn listened(calls: Map<i32, u32>, pid: i32, info: SyscallInfo) -> Option<u32> {
    match info {
        SyscallInfo::Exit { failed } => if failed {
            None
        } else {
            calls.get(pid)
        },
        _ => None,
    }
}

/// Keeps `calls`, the calls of `listen` under way, up to date, and tells the descriptor of one
/// that has just succeeded.
pub fn observe_listen(
    calls: &mut HashMap<i32, u32>,
    listen_number: u64,
    pid: i32,
    info: SyscallInfo,
) -> (fd: Option<u32>)
    ensures
        final(calls)@ == calls_after(old(calls)@, listen_number, pid, info),
        fd == listened(old(calls)@, pid, info),
{
    match info {
        SyscallInfo::Entry { number, first_argument } => {
            if number == listen_number {
                assert(first_argument as u32 == first_argument % 0x1_0000_0000) by (bit_vector);
                calls.insert(
                    pid,
                    #[verifier::truncate]
                    (first_argument as u32),
                );
            }
            None
        },
        SyscallInfo::Exit { failed } => match calls.remove(&pid) {
            Some(fd) => if failed {
                None
            } else {
                Some(fd)
            },
            None => {
                assert(calls@ == old(calls)@.remove(pid));
                None
            },
        },
        SyscallInfo::Other => None,
    }
}

/// What the tracer knows.
pub struct TracerState {
    /// The process that runs the command.
    pub root: i32,
    /// The number of the system call `listen` here.
    pub listen_number: u64,
    /// The processes that are traced.
    pub tracees: Set<i32>,
    /// The calls of `listen` under way, from process to descriptor.
    pub calls: Map<i32, u32>,
    /// Whether a listener is still wanted.
    pub discovering: bool,
}

impl TracerState {
    /// What is known when the process has stopped before it runs the command.
    pub open spec fn started(root: i32, listen_number: u64) -> TracerState {
        TracerState {
            root,
            listen_number,
            tracees: set![root],
            calls: Map::empty(),
            discovering: true,
        }
    }

    /// The action that lets `pid` run on, with `signal` where there is one.
    pub open spec fn letting_run(self, pid: i32, signal: Option<i32>) -> TraceAction {
        TraceAction::Resume { pid, mode: resume_mode(self.discovering), signal, listening: None }
    }

    /// The action after a process has ended: only the end of the command itself counts.
    pub open spec fn after_end(self, pid: i32, status: ExitStatus) -> TraceAction {
        if pid == self.root {
            TraceAction::Finish { status }
        } else {
            TraceAction::Wait
        }
    }

    /// What is known after the kernel's report `status`, and what to do.
    pub open spec fn after_status(self, status: WaitStatus) -> (TracerState, TraceAction) {
        match status {
            WaitStatus::Syscall { pid } => (
                self,
                if self.discovering {
                    TraceAction::Inspect { pid }
                } else {
                    self.letting_run(pid, None)
                },
            ),
            WaitStatus::Event { pid, event } => (
                self,
                if event == FORK || event == VFORK || event == CLONE {
                    TraceAction::FindChild { pid }
                } else {
                    self.letting_run(pid, None)
                },
            ),
            WaitStatus::Stopped { pid, signal } => (
                TracerState { tracees: self.tracees.insert(pid), ..self },
                self.letting_run(
                    pid,
                    match signal {
                        StopSignal::Other(number) => Some(number),
                        _ => None,
                    },
                ),
            ),
            WaitStatus::Exited { pid, code } => (
                TracerState { tracees: self.tracees.remove(pid), ..self },
                self.after_end(pid, ExitStatus { raw: code << 8 }),
            ),
            WaitStatus::Signaled { pid, number, core_dumped } => (
                TracerState { tracees: self.tracees.remove(pid), ..self },
                self.after_end(
                    pid,
                    ExitStatus {
                        raw: number | if core_dumped {
                            0x80i32
                        } else {
                            0i32
                        },
                    },
                ),
            ),
            WaitStatus::Continued => (self, TraceAction::Wait),
            WaitStatus::StillAlive => (self, TraceAction::Wait),
        }
    }

    /// What is known after `event`, and what to do.
    pub open spec fn after(self, event: TraceEvent) -> (TracerState, TraceAction) {
        match event {
            TraceEvent::Status(status) => self.after_status(status),
            TraceEvent::Syscall { pid, info } => if self.discovering {
                (
                    TracerState {
                        calls: calls_after(self.calls, self.listen_number, pid, info),
                        ..self
                    },
                    match listened(self.calls, pid, info) {
                        Some(fd) => TraceAction::FindPort { pid, fd },
                        None => self.letting_run(pid, None),
                    },
                )
            } else {
                (self, self.letting_run(pid, None))
            },
            TraceEvent::Port { pid, port } => if self.discovering && port is Some {
                (
                    TracerState { discovering: false, ..self },
                    TraceAction::Resume {
                        pid,
                        mode: ResumeMode::Cont,
                        signal: None,
                        listening: port,
                    },
                )
            } else {
                (self, self.letting_run(pid, None))
            },
            TraceEvent::Forked { pid, child } => (
                TracerState { tracees: self.tracees.insert(child), ..self },
                self.letting_run(pid, None),
            ),
        }
    }

    /// What is known after all of `events`.
    pub open spec fn after_all(self, events: Seq<TraceEvent>) -> TracerState
        decreases events.len(),
    {
        if events.len() == 0 {
            self
        } else {
            self.after_all(events.drop_last()).after(events.last()).0
        }
    }

    /// The listeners announced in the course of `events`.
    pub open spec fn announced(self, events: Seq<TraceEvent>) -> Seq<u16>
        decreases events.len(),
    {
        if events.len() == 0 {
            Seq::empty()
        } else {
            let before = self.announced(events.drop_last());
            match self.after_all(events.drop_last()).after(events.last()).1 {
                TraceAction::Resume { listening: Some(port), .. } => before.push(port),
                _ => before,
            }
        }
    }
}

/// Follows a process tree from the start of a command to its end.
pub struct Tracer {
    root: i32,
    listen_number: u64,
    tracees: HashSet<i32>,
    calls: HashMap<i32, u32>,
    discovering: bool,
}

impl View for Tracer {
    type V = TracerState;

    closed spec fn view(&self) -> TracerState {
        TracerState {
            root: self.root,
            listen_number: self.listen_number,
            tracees: self.tracees@,
            calls: self.calls@,
            discovering: self.discovering,
        }
    }
}

impl Tracer {
    /// A tracer for the process `root`, of which `initial` is the first report: a trap, before it
    /// runs the command. Any other report is an error. `listen_number` is the number of the
    /// system call `listen`.
    pub fn start(root: i32, listen_number: u64, initial: WaitStatus) -> (tracer: Result<
        Tracer,
        TraceError,
    >)
        ensures
            match initial {
                WaitStatus::Stopped { signal: StopSignal::Trap, .. } => tracer matches Ok(started)
                    && started@ == TracerState::started(root, listen_number),
                _ => tracer matches Err(error) && error == TraceError::UnexpectedStop,
            },
    {
        match initial {
            WaitStatus::Stopped { signal: StopSignal::Trap, .. } => {
                let mut tracees: HashSet<i32> = HashSet::new();
                tracees.insert(root);
                let calls: HashMap<i32, u32> = HashMap::new();
                assert(tracees@ == set![root]);
                Ok(Tracer { root, listen_number, tracees, calls, discovering: true })
            },
            _ => Err(TraceError::UnexpectedStop),
        }
    }

    /// Whether any process is still traced.
    pub fn tracing(&self) -> (any: bool)
        ensures
            any == (self@.tracees.len() > 0),
    {
        self.tracees.len() > 0
    }

    /// How far to let a stopped process run, from now on.
    pub fn mode(&self) -> (mode: ResumeMode)
        ensures
            mode == resume_mode(self@.discovering),
    {
        resume(self.discovering)
    }

    fn let_run(&self, pid: i32, signal: Option<i32>) -> (action: TraceAction)
        ensures
            action == self@.letting_run(pid, signal),
    {
        TraceAction::Resume { pid, mode: resume(self.discovering), signal, listening: None }
    }

    fn ended(&mut self, pid: i32, status: ExitStatus) -> (action: TraceAction)
        ensures
            final(self)@ == (TracerState { tracees: old(self)@.tracees.remove(pid), ..old(self)@ }),
            action == old(self)@.after_end(pid, status),
    {
        self.tracees.remove(&pid);
        assert(self.tracees@ == old(self).tracees@.remove(pid));
        if pid == self.root {
            TraceAction::Finish { status }
        } else {
            TraceAction::Wait
        }
    }

    fn reported(&mut self, status: WaitStatus) -> (action: TraceAction)
        ensures
            (final(self)@, action) == old(self)@.after_status(status),
    {
        match status {
            WaitStatus::Syscall { pid } => if self.discovering {
                TraceAction::Inspect { pid }
            } else {
                self.let_run(pid, None)
            },
            WaitStatus::Event { pid, event } => if event == FORK || event == VFORK || event
                == CLONE {
                TraceAction::FindChild { pid }
            } else {
                self.let_run(pid, None)
            },
            WaitStatus::Stopped { pid, signal } => {
                self.tracees.insert(pid);
                let deliver: Option<i32> = match signal {
                    StopSignal::Stop => None,
                    StopSignal::Trap => None,
                    StopSignal::Other(number) => Some(number),
                };
                self.let_run(pid, deliver)
            },
            WaitStatus::Exited { pid, code } => self.ended(pid, ExitStatus::exited(code)),
            WaitStatus::Signaled { pid, number, core_dumped } => self.ended(
                pid,
                ExitStatus::signaled(number, core_dumped),
            ),
            WaitStatus::Continued => TraceAction::Wait,
            WaitStatus::StillAlive => TraceAction::Wait,
        }
    }

    /// Takes note of `event` and decides what to do about it.
    pub fn step(&mut self, event: TraceEvent) -> (action: TraceAction)
        ensures
            (final(self)@, action) == old(self)@.after(event),
    {
        match event {
            TraceEvent::Status(status) => self.reported(status),
            TraceEvent::Syscall { pid, info } => {
                if self.discovering {
                    if let Some(fd) = observe_listen(&mut self.calls, self.listen_number, pid, info) {
                        return TraceAction::FindPort { pid, fd };
                    }
                }
                self.let_run(pid, None)
            },
            TraceEvent::Port { pid, port } => {
                if self.discovering && port.is_some() {
                    self.discovering = false;
                    TraceAction::Resume {
                        pid,
                        mode: ResumeMode::Cont,
                        signal: None,
                        listening: port,
                    }
                } else {
                    self.let_run(pid, None)
                }
            },
            TraceEvent::Forked { pid, child } => {
                self.tracees.insert(child);
                self.let_run(pid, None)
            },
        }
    }
}

/// The ports that were found in the course of `events`, in their order.
pub open spec fn ports_found(events: Seq<TraceEvent>) -> Seq<u16>
    decreases events.len(),
{
    if events.len() == 0 {
        Seq::empty()
    } else {
        let before = ports_found(events.drop_last());
        match events.last() {
            TraceEvent::Port { port: Some(port), .. } => before.push(port),
            _ => before,
        }
    }
}

/// The first port on which the command listens is announced, and no other, however long it runs
/// on; from then on nothing is discovered.
pub proof fn law_first_listener_is_announced(state: TracerState, events: Seq<TraceEvent>)
    ensures
        state.announced(events) == if state.discovering && ports_found(events).len() > 0 {
            seq![ports_found(events)[0]]
        } else {
            Seq::<u16>::empty()
        },
        state.after_all(events).discovering == (state.discovering && ports_found(events).len()
            == 0),
    decreases events.len(),
{
    if events.len() > 0 {
        law_first_listener_is_announced(state, events.drop_last());
    }
}

/// Whether tracing was over in the course of `events`.
pub open spec fn finishes(state: TracerState, events: Seq<TraceEvent>) -> bool
    decreases events.len(),
{
    events.len() > 0 && (finishes(state, events.drop_last()) || state.after_all(
        events.drop_last(),
    ).after(events.last()).1 is Finish)
}

/// The command itself is traced until its end is announced, whatever becomes of the processes
/// that it creates.
pub proof fn law_command_is_traced_to_its_end(
    root: i32,
    listen_number: u64,
    events: Seq<TraceEvent>,
)
    requires
        !finishes(TracerState::started(root, listen_number), events),
    ensures
        TracerState::started(root, listen_number).after_all(events).root == root,
        TracerState::started(root, listen_number).after_all(events).tracees.contains(root),
        TracerState::started(root, listen_number).after_all(events).tracees.len() > 0,
    decreases events.len(),
{
    lemma_tracees_finite(root, listen_number, events);
    let state = TracerState::started(root, listen_number);
    let now = state.after_all(events);
    if events.len() > 0 {
        law_command_is_traced_to_its_end(root, listen_number, events.drop_last());
    }
    assert(now.tracees.contains(root));
    if now.tracees.len() == 0 {
        assert(now.tracees == Set::<i32>::empty());
    }
}

proof fn lemma_tracees_finite(root: i32, listen_number: u64, events: Seq<TraceEvent>)
    ensures
        TracerState::started(root, listen_number).after_all(events).tracees.finite(),
    decreases events.len(),
{
    if events.len() > 0 {
        lemma_tracees_finite(root, listen_number, events.drop_last());
    }
}

/// Whether `event` is the entry of `pid` into `listen` on the descriptor `fd`.
pub open spec fn enters_listen(
    event: TraceEvent,
    listen_number: u64,
    pid: i32,
    fd: u32,
) -> bool {
    event matches TraceEvent::Syscall {
        pid: by,
        info: SyscallInfo::Entry { number, first_argument },
    } && by == pid && number == listen_number && descriptor(first_argument) == fd
}

/// Whether `event` is the return of `pid` from a system call.
pub open spec fn leaves_syscall(event: TraceEvent, pid: i32) -> bool {
    event matches TraceEvent::Syscall { pid: by, info: SyscallInfo::Exit { .. } } && by == pid
}

proof fn lemma_calls_were_entered(
    root: i32,
    listen_number: u64,
    events: Seq<TraceEvent>,
    pid: i32,
)
    requires
        TracerState::started(root, listen_number).after_all(events).calls.contains_key(pid),
        TracerState::started(root, listen_number).after_all(events).discovering,
    ensures
        TracerState::started(root, listen_number).after_all(events).listen_number == listen_number,
        exists|at: int|
            0 <= at < events.len() && #[trigger] enters_listen(
                events[at],
                listen_number,
                pid,
                TracerState::started(root, listen_number).after_all(events).calls[pid],
            ) && (forall|later: int|
                at < later < events.len() ==> !leaves_syscall(#[trigger] events[later], pid)),
    decreases events.len(),
{
    let state = TracerState::started(root, listen_number);
    lemma_number_kept(root, listen_number, events);
    if events.len() > 0 {
        let before = state.after_all(events.drop_last());
        let event = events.last();
        let fd = state.after_all(events).calls[pid];
        lemma_number_kept(root, listen_number, events.drop_last());
        if enters_listen(event, listen_number, pid, fd) {
            assert(events[events.len() - 1] == event);
        } else {
            assert(before.discovering);
            assert(before.calls.contains_key(pid) && before.calls[pid] == fd);
            assert(!leaves_syscall(event, pid));
            lemma_calls_were_entered(root, listen_number, events.drop_last(), pid);
            let at = choose|at: int|
                0 <= at < events.drop_last().len() && #[trigger] enters_listen(
                    events.drop_last()[at],
                    listen_number,
                    pid,
                    fd,
                ) && (forall|later: int|
                    at < later < events.drop_last().len() ==> !leaves_syscall(
                        #[trigger] events.drop_last()[later],
                        pid,
                    ));
            assert(enters_listen(events[at], listen_number, pid, fd));
            assert forall|later: int| at < later < events.len() implies !leaves_syscall(
                #[trigger] events[later],
                pid,
            ) by {
                if later < events.len() - 1 {
                    assert(events.drop_last()[later] == events[later]);
                }
            }
        }
    }
}

proof fn lemma_number_kept(root: i32, listen_number: u64, events: Seq<TraceEvent>)
    ensures
        TracerState::started(root, listen_number).after_all(events).listen_number == listen_number,
    decreases events.len(),
{
    if events.len() > 0 {
        lemma_number_kept(root, listen_number, events.drop_last());
    }
}

/// A port is looked for only when a process has just returned from `listen` without an error, and
/// on the descriptor with which the same process entered that very call.
pub proof fn law_lookup_follows_listen(
    root: i32,
    listen_number: u64,
    events: Seq<TraceEvent>,
    event: TraceEvent,
    pid: i32,
    fd: u32,
)
    requires
        TracerState::started(root, listen_number).after_all(events).after(event).1 == (
        TraceAction::FindPort { pid, fd }),
    ensures
        event == (TraceEvent::Syscall { pid, info: SyscallInfo::Exit { failed: false } }),
        exists|at: int|
            0 <= at < events.len() && #[trigger] enters_listen(
                events[at],
                listen_number,
                pid,
                fd,
            ) && (forall|later: int|
                at < later < events.len() ==> !leaves_syscall(#[trigger] events[later], pid)),
{
    lemma_calls_were_entered(root, listen_number, events, pid);
}

/// Every stop is answered for the process that stopped: it is let run, or asked about first, and
/// the answer to a question lets it run or asks on. No other process is touched.
pub proof fn law_every_stop_is_answered(state: TracerState, event: TraceEvent, pid: i32)
    requires
        match event {
            TraceEvent::Status(WaitStatus::Syscall { pid: by }) => by == pid,
            TraceEvent::Status(WaitStatus::Event { pid: by, .. }) => by == pid,
            TraceEvent::Status(WaitStatus::Stopped { pid: by, .. }) => by == pid,
            TraceEvent::Status(_) => false,
            TraceEvent::Syscall { pid: by, .. } => by == pid,
            TraceEvent::Port { pid: by, .. } => by == pid,
            TraceEvent::Forked { pid: by, .. } => by == pid,
        },
    ensures
        match state.after(event).1 {
            TraceAction::Resume { pid: to, mode, .. } => to == pid && mode == resume_mode(
                state.after(event).0.discovering,
            ),
            TraceAction::Inspect { pid: to } => to == pid && event is Status,
            TraceAction::FindChild { pid: to } => to == pid && event is Status,
            TraceAction::FindPort { pid: to, .. } => to == pid && event is Syscall,
            TraceAction::Finish { .. } => false,
            TraceAction::Wait => false,
        },
{
}

/// A signal that is meant for a process reaches it, and one that only reports to the tracer does
/// not.
pub proof fn law_signals_reach_the_process(state: TracerState, pid: i32, signal: StopSignal)
    ensures
        state.after(TraceEvent::Status(WaitStatus::Stopped { pid, signal })).1 == (
        TraceAction::Resume {
            pid,
            mode: resume_mode(state.discovering),
            signal: match signal {
                StopSignal::Other(number) => Some(number),
                _ => None,
            },
            listening: None,
        }),
{
}

/// While a listener is wanted, every stop at a system call is looked at, whichever process stopped,
/// the command itself included; and once none is wanted, the process runs on and stops at no more
/// of them. What is known stays as it is.
pub proof fn law_system_calls_are_looked_at(tracer: &mut Tracer, pid: i32, action: TraceAction)
    requires
        call_ensures(
            Tracer::step,
            (tracer, TraceEvent::Status(WaitStatus::Syscall { pid })),
            action,
        ),
    ensures
        old(tracer)@.discovering ==> action == (TraceAction::Inspect { pid }),
        !old(tracer)@.discovering ==> action == (TraceAction::Resume {
            pid,
            mode: ResumeMode::Cont,
            signal: None,
            listening: None,
        }),
        final(tracer)@ == old(tracer)@,
{
}

/// While a listener is wanted, a process that enters `listen` is remembered with the descriptor in
/// the low half of the call's first argument, and runs on to the end of the call. The entry into
/// any other call, and a stop that is neither an entry nor a return, change nothing.
pub proof fn law_entries_are_remembered(
    tracer: &mut Tracer,
    pid: i32,
    number: u64,
    high: u32,
    fd: u32,
    first_argument: u64,
    action: TraceAction,
)
    requires
        old(tracer)@.discovering,
        first_argument == high * 0x1_0000_0000 + fd,
        call_ensures(
            Tracer::step,
            (
                tracer,
                TraceEvent::Syscall { pid, info: SyscallInfo::Entry { number, first_argument } },
            ),
            action,
        ),
    ensures
        action == (TraceAction::Resume {
            pid,
            mode: ResumeMode::Syscall,
            signal: None,
            listening: None,
        }),
        final(tracer)@.calls == if number == old(tracer)@.listen_number {
            old(tracer)@.calls.insert(pid, fd)
        } else {
            old(tracer)@.calls
        },
        final(tracer)@.discovering,
        final(tracer)@.tracees == old(tracer)@.tracees,
        final(tracer)@.root == old(tracer)@.root,
        final(tracer)@.listen_number == old(tracer)@.listen_number,
{
    assert(first_argument % 0x1_0000_0000 == fd);
}

/// While a listener is wanted, a process that returns from a call of `listen` without an error has
/// its port looked for, on the descriptor that it entered the call with; after an error, or from
/// any other call, it runs on. Either way its call is over, and no other process's is.
pub proof fn law_returns_are_followed(
    tracer: &mut Tracer,
    pid: i32,
    failed: bool,
    action: TraceAction,
)
    requires
        old(tracer)@.discovering,
        call_ensures(
            Tracer::step,
            (tracer, TraceEvent::Syscall { pid, info: SyscallInfo::Exit { failed } }),
            action,
        ),
    ensures
        action == if !failed && old(tracer)@.calls.contains_key(pid) {
            TraceAction::FindPort { pid, fd: old(tracer)@.calls[pid] }
        } else {
            TraceAction::Resume {
                pid,
                mode: ResumeMode::Syscall,
                signal: None,
                listening: None,
            }
        },
        final(tracer)@.calls == old(tracer)@.calls.remove(pid),
        final(tracer)@.discovering,
        final(tracer)@.tracees == old(tracer)@.tracees,
        final(tracer)@.root == old(tracer)@.root,
        final(tracer)@.listen_number == old(tracer)@.listen_number,
{
}

/// A stop that is neither an entry into a system call nor a return from one changes nothing, nor
/// does one that is answered when no listener is wanted any longer: the process runs on.
pub proof fn law_other_stops_change_nothing(
    tracer: &mut Tracer,
    pid: i32,
    info: SyscallInfo,
    action: TraceAction,
)
    requires
        info is Other || !old(tracer)@.discovering,
        call_ensures(Tracer::step, (tracer, TraceEvent::Syscall { pid, info }), action),
    ensures
        action == (TraceAction::Resume {
            pid,
            mode: if old(tracer)@.discovering {
                ResumeMode::Syscall
            } else {
                ResumeMode::Cont
            },
            signal: None,
            listening: None,
        }),
        final(tracer)@ == old(tracer)@,
{
}

/// A port that is found while a listener is wanted is announced, the process runs on without
/// stopping at system calls, and from then on no listener is wanted. Where no port is found, or
/// none is wanted, nothing is announced and nothing changes.
pub proof fn law_found_port_is_announced(
    tracer: &mut Tracer,
    pid: i32,
    port: Option<u16>,
    action: TraceAction,
)
    requires
        call_ensures(Tracer::step, (tracer, TraceEvent::Port { pid, port }), action),
    ensures
        old(tracer)@.discovering && port is Some ==> {
            &&& action == (TraceAction::Resume {
                pid,
                mode: ResumeMode::Cont,
                signal: None,
                listening: port,
            })
            &&& final(tracer)@ == (TracerState { discovering: false, ..old(tracer)@ })
        },
        !(old(tracer)@.discovering && port is Some) ==> {
            &&& action == (TraceAction::Resume {
                pid,
                mode: if old(tracer)@.discovering {
                    ResumeMode::Syscall
                } else {
                    ResumeMode::Cont
                },
                signal: None,
                listening: None,
            })
            &&& final(tracer)@ == old(tracer)@
        },
{
}

/// A process that reports `fork`, `vfork` or `clone`, the kernel's events one, two and three, is
/// asked for its child; at any other event it runs on. What is known stays as it is.
pub proof fn law_new_processes_are_asked_for(
    tracer: &mut Tracer,
    pid: i32,
    event: i32,
    action: TraceAction,
)
    requires
        call_ensures(
            Tracer::step,
            (tracer, TraceEvent::Status(WaitStatus::Event { pid, event })),
            action,
        ),
    ensures
        action == if 1 <= event <= 3 {
            TraceAction::FindChild { pid }
        } else {
            TraceAction::Resume {
                pid,
                mode: if old(tracer)@.discovering {
                    ResumeMode::Syscall
                } else {
                    ResumeMode::Cont
                },
                signal: None,
                listening: None,
            }
        },
        final(tracer)@ == old(tracer)@,
{
}

/// A process that was created is traced from then on, and its parent runs on.
pub proof fn law_new_processes_are_traced(
    tracer: &mut Tracer,
    pid: i32,
    child: i32,
    action: TraceAction,
)
    requires
        call_ensures(Tracer::step, (tracer, TraceEvent::Forked { pid, child }), action),
    ensures
        action == (TraceAction::Resume {
            pid,
            mode: if old(tracer)@.discovering {
                ResumeMode::Syscall
            } else {
                ResumeMode::Cont
            },
            signal: None,
            listening: None,
        }),
        final(tracer)@ == (TracerState {
            tracees: old(tracer)@.tracees.insert(child),
            ..old(tracer)@
        }),
{
}

/// A process that a signal stopped is traced from then on and runs on: with the signal, unless it
/// is one of the two that only report to the tracer.
pub proof fn law_stopped_processes_run_on(
    tracer: &mut Tracer,
    pid: i32,
    signal: StopSignal,
    action: TraceAction,
)
    requires
        call_ensures(
            Tracer::step,
            (tracer, TraceEvent::Status(WaitStatus::Stopped { pid, signal })),
            action,
        ),
    ensures
        action matches TraceAction::Resume { pid: to, mode, signal: sent, listening } && to == pid
            && listening is None && (mode is Syscall) == old(tracer)@.discovering && (
        signal matches StopSignal::Other(number) ==> sent == Some(number)) && (signal is Stop
            || signal is Trap ==> sent is None),
        final(tracer)@ == (TracerState {
            tracees: old(tracer)@.tracees.insert(pid),
            ..old(tracer)@
        }),
{
}

/// The end of the command ends the tracing, with a status from which its exit code can be told;
/// the end of any other process goes by. Either way that process, and no other, is traced no
/// longer.
pub proof fn law_exit_ends_the_tracing(
    tracer: &mut Tracer,
    pid: i32,
    code: i32,
    action: TraceAction,
    status: ExitStatus,
    told: i32,
)
    requires
        0 <= code <= 0xff,
        call_ensures(
            Tracer::step,
            (tracer, TraceEvent::Status(WaitStatus::Exited { pid, code })),
            action,
        ),
        action == (TraceAction::Finish { status }) ==> call_ensures(exit_code, (status,), told),
    ensures
        pid == old(tracer)@.root ==> action is Finish && (action == (TraceAction::Finish { status })
            ==> told == code && status.raw == code * 256),
        pid != old(tracer)@.root ==> action is Wait,
        final(tracer)@ == (TracerState {
            tracees: old(tracer)@.tracees.remove(pid),
            ..old(tracer)@
        }),
{
    law_exit_code_is_kept(code);
    assert(0 <= code <= 0xff ==> code << 8 == code * 256) by (bit_vector);
}

/// A signal that ends the command ends the tracing, with a status from which the signal can be
/// told; one that ends any other process goes by. Either way that process, and no other, is traced
/// no longer.
pub proof fn law_fatal_signal_ends_the_tracing(
    tracer: &mut Tracer,
    pid: i32,
    number: i32,
    core_dumped: bool,
    action: TraceAction,
    status: ExitStatus,
    told: i32,
)
    requires
        0 < number < 0x7f,
        call_ensures(
            Tracer::step,
            (tracer, TraceEvent::Status(WaitStatus::Signaled { pid, number, core_dumped })),
            action,
        ),
        action == (TraceAction::Finish { status }) ==> call_ensures(exit_code, (status,), told),
    ensures
        pid == old(tracer)@.root ==> action is Finish && (action == (TraceAction::Finish { status })
            ==> told == 128 + number && status.raw == number + if core_dumped {
            128int
        } else {
            0
        }),
        pid != old(tracer)@.root ==> action is Wait,
        final(tracer)@ == (TracerState {
            tracees: old(tracer)@.tracees.remove(pid),
            ..old(tracer)@
        }),
{
    law_signal_becomes_exit_code(number, 0);
    law_signal_becomes_exit_code(number, 0x80);
    assert(0 < number < 0x7f ==> number | 0x80i32 == number + 0x80 && number | 0i32 == number)
        by (bit_vector);
}

/// A report that says nothing of a process that waits for the tracer changes nothing.
pub proof fn law_idle_reports_change_nothing(
    tracer: &mut Tracer,
    status: WaitStatus,
    action: TraceAction,
)
    requires
        status is Continued || status is StillAlive,
        call_ensures(Tracer::step, (tracer, TraceEvent::Status(status)), action),
    ensures
        action is Wait,
        final(tracer)@ == old(tracer)@,
{
}

/// Tracing starts when the process has stopped at a trap, and not otherwise: with that process
/// alone, no call of `listen` under way and a listener wanted. It goes on while any process is
/// traced, and lets processes run to their next system call while a listener is wanted.
pub proof fn law_tracing_starts_with_the_command(
    root: i32,
    listen_number: u64,
    initial: WaitStatus,
    started: Result<Tracer, TraceError>,
    tracer: Tracer,
    tracing: bool,
    mode: ResumeMode,
    pid: i32,
)
    requires
        call_ensures(Tracer::start, (root, listen_number, initial), started),
        started matches Ok(first) ==> first == tracer,
        call_ensures(Tracer::tracing, (&tracer,), tracing),
        call_ensures(Tracer::mode, (&tracer,), mode),
    ensures
        started is Ok == (initial matches WaitStatus::Stopped { signal, .. } && signal is Trap),
        started is Ok ==> {
            &&& tracer@.root == root
            &&& tracer@.listen_number == listen_number
            &&& tracer@.discovering && mode is Syscall
            &&& tracer@.tracees.contains(pid) == (pid == root)
            &&& !tracer@.calls.contains_key(pid)
            &&& tracing
        },
        !tracer@.discovering ==> mode is Cont,
        tracer@.tracees.finite() && tracer@.tracees.contains(pid) ==> tracing,
        tracer@.tracees == Set::<i32>::empty() ==> !tracing,
{
    if tracer@.tracees.finite() && tracer@.tracees.contains(pid) {
        if tracer@.tracees.len() == 0 {
            assert(tracer@.tracees == Set::<i32>::empty());
        }
    }
}

proof fn lemma_call_is_kept(state: TracerState, events: Seq<TraceEvent>, pid: i32, fd: u32)
    requires
        state.discovering,
        state.calls.contains_key(pid),
        state.calls[pid] == fd,
        forall|i: int|
            0 <= i < events.len() ==> (#[trigger] events[i] matches TraceEvent::Syscall {
                pid: by,
                ..
            } ==> by != pid),
        forall|i: int|
            0 <= i < events.len() ==> (#[trigger] events[i] matches TraceEvent::Port { port, .. }
                ==> port is None),
    ensures
        state.after_all(events).discovering,
        state.after_all(events).calls.contains_key(pid),
        state.after_all(events).calls[pid] == fd,
    decreases events.len(),
{
    if events.len() > 0 {
        let before = events.drop_last();
        assert forall|i: int| 0 <= i < before.len() implies (
        #[trigger] before[i] matches TraceEvent::Syscall { pid: by, .. } ==> by != pid) by {
            assert(before[i] == events[i]);
        }
        assert forall|i: int| 0 <= i < before.len() implies (
        #[trigger] before[i] matches TraceEvent::Port { port, .. } ==> port is None) by {
            assert(before[i] == events[i]);
        }
        lemma_call_is_kept(state, before, pid, fd);
        assert(events[events.len() - 1] == events.last());
    }
}

/// No listener is missed: while one is wanted, whichever process stops is looked at; once it has
/// entered `listen`, whatever other processes do in the meantime, it is looked at again when it
/// returns; and if the call succeeded, its port is looked for on the descriptor that it listens
/// on. The port that is found is announced.
pub proof fn law_no_listener_is_missed(
    state: TracerState,
    pid: i32,
    high: u32,
    fd: u32,
    first_argument: u64,
    meanwhile: Seq<TraceEvent>,
    port: u16,
)
    requires
        state.discovering,
        first_argument == high * 0x1_0000_0000 + fd,
        forall|i: int|
            0 <= i < meanwhile.len() ==> (#[trigger] meanwhile[i] matches TraceEvent::Syscall {
                pid: by,
                ..
            } ==> by != pid),
        forall|i: int|
            0 <= i < meanwhile.len() ==> (#[trigger] meanwhile[i] matches TraceEvent::Port {
                port: none,
                ..
            } ==> none is None),
    ensures
        ({
            let stop = TraceEvent::Status(WaitStatus::Syscall { pid });
            let entry = TraceEvent::Syscall {
                pid,
                info: SyscallInfo::Entry { number: state.listen_number, first_argument },
            };
            let exit = TraceEvent::Syscall { pid, info: SyscallInfo::Exit { failed: false } };
            let found = TraceEvent::Port { pid, port: Some(port) };
            let entered = state.after(stop).0.after(entry).0;
            let later = entered.after_all(meanwhile);
            let left = later.after(stop).0.after(exit).0;
            &&& state.after(stop).1 == (TraceAction::Inspect { pid })
            &&& state.after(stop).0.after(entry).1 == (TraceAction::Resume {
                pid,
                mode: ResumeMode::Syscall,
                signal: None,
                listening: None,
            })
            &&& later.after(stop).1 == (TraceAction::Inspect { pid })
            &&& later.after(stop).0.after(exit).1 == (TraceAction::FindPort { pid, fd })
            &&& left.after(found).1 == (TraceAction::Resume {
                pid,
                mode: ResumeMode::Cont,
                signal: None,
                listening: Some(port),
            })
        }),
{
    assert(first_argument % 0x1_0000_0000 == fd);
    let stop = TraceEvent::Status(WaitStatus::Syscall { pid });
    let entry = TraceEvent::Syscall {
        pid,
        info: SyscallInfo::Entry { number: state.listen_number, first_argument },
    };
    lemma_call_is_kept(state.after(stop).0.after(entry).0, meanwhile, pid, fd);
}

/// What `step` does to what is known, and the action that it gives, is all that the course of a
/// tracing is made of.
pub proof fn law_steps_make_the_course(
    tracer: &mut Tracer,
    state: TracerState,
    events: Seq<TraceEvent>,
    event: TraceEvent,
    action: TraceAction,
)
    requires
        old(tracer)@ == state.after_all(events),
        call_ensures(Tracer::step, (tracer, event), action),
    ensures
        final(tracer)@ == state.after_all(events.push(event)),
        state.announced(events.push(event)) == match action {
            TraceAction::Resume { listening: Some(port), .. } => state.announced(events).push(port),
            _ => state.announced(events),
        },
{
    assert(events.push(event).drop_last() == events);
}

/// The calls of `listen` under way: an entry begins one for its process, a return ends its
/// process's and tells the descriptor where it succeeded, and everything else leaves them alone.
pub proof fn law_calls_of_listen(
    calls: &mut HashMap<i32, u32>,
    listen_number: u64,
    pid: i32,
    info: SyscallInfo,
    found: Option<u32>,
    high: u32,
    fd: u32,
)
    requires
        call_ensures(observe_listen, (calls, listen_number, pid, info), found),
    ensures
        match info {
            SyscallInfo::Entry { number, first_argument } => found is None && (number
                == listen_number && first_argument == high * 0x1_0000_0000 + fd ==> final(calls)@
                == old(calls)@.insert(pid, fd)) && (number != listen_number ==> final(calls)@
                == old(calls)@),
            SyscallInfo::Exit { failed } => final(calls)@ == old(calls)@.remove(pid) && (found
                is Some <==> !failed && old(calls)@.contains_key(pid)) && (found is Some ==> found
                == Some(old(calls)@[pid])),
            SyscallInfo::Other => found is None && final(calls)@ == old(calls)@,
        },
{
    assert((high * 0x1_0000_0000 + fd) % 0x1_0000_0000 == fd);
}

} // verus!
