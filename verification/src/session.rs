//! The course of a session, from the start of the command to its end.

use vstd::prelude::*;

use crate::process::{
    exit_code, exit_code_of, law_exit_code_is_kept, supervision, watched, ExitStatus, ProcessEvent,
    ProcessOutput, SpawnError, Supervision,
};
use crate::tracer::{
    law_first_listener_is_announced, ports_found, TraceAction, TraceEvent, TracerState, WaitStatus,
};

verus! {

/// How the task that serves the public endpoint ended.
#[derive(Clone, Copy, Debug, PartialEq, Eq, Structural)]
pub enum ForwarderEnd {
    /// The endpoint takes no more connections.
    Closed,
    /// It failed.
    Failed,
    /// It crashed.
    Crashed,
}

/// What happens in the course of a session.
#[derive(Debug)]
pub enum SessionEvent {
    /// The command printed something.
    Output(ProcessOutput),
    /// Something became known of the command.
    Process(ProcessEvent),
    /// The task that serves the public endpoint ended.
    Forwarder(ForwarderEnd),
    /// The user pressed ctrl+c.
    Interrupt,
}

/// Why a session failed.
#[derive(Debug)]
pub enum SessionError {
    /// The command ended before it listened.
    ExitedEarly(ExitStatus),
    /// The command's listeners cannot be observed, for the reason given.
    ObserveFailed(String),
    /// The command cannot be watched any longer, for the reason given.
    SuperviseFailed(String),
    /// The public endpoint was closed.
    EndpointClosed,
    /// Serving the public endpoint failed.
    ForwardingFailed,
    /// Serving the public endpoint crashed.
    ForwarderCrashed,
}

impl SessionError {
    /// What to tell the user, where `status` is how the system words the command's status. A crash
    /// speaks for itself.
    pub open spec fn text(self, status: Seq<char>) -> Option<Seq<char>> {
        match self {
            SessionError::ExitedEarly(_) => Some(
                "command exited with "@ + status + " before opening a TCP listener"@,
            ),
            SessionError::ObserveFailed(reason) => Some(
                "could not observe the command's listeners: "@ + reason@,
            ),
            SessionError::SuperviseFailed(reason) => Some(
                "failed while supervising the command: "@ + reason@,
            ),
            SessionError::EndpointClosed => Some("ngrok endpoint closed unexpectedly"@),
            SessionError::ForwardingFailed => Some("ngrok forwarding failed"@),
            SessionError::ForwarderCrashed => None,
        }
    }

    /// What to tell the user, where `status` is how the system words the command's status.
    pub fn message(&self, status: &str) -> (message: Option<String>)
        ensures
            match self.text(status@) {
                Some(text) => message matches Some(found) && found@ == text,
                None => message is None,
            },
    {
        match self {
            SessionError::ExitedEarly(_) => Some(
                "command exited with ".to_owned().concat(status).concat(
                    " before opening a TCP listener",
                ),
            ),
            SessionError::ObserveFailed(reason) => Some(
                "could not observe the command's listeners: ".to_owned().concat(reason.as_str()),
            ),
            SessionError::SuperviseFailed(reason) => Some(
                "failed while supervising the command: ".to_owned().concat(reason.as_str()),
            ),
            SessionError::EndpointClosed => Some("ngrok endpoint closed unexpectedly".to_owned()),
            SessionError::ForwardingFailed => Some("ngrok forwarding failed".to_owned()),
            SessionError::ForwarderCrashed => None,
        }
    }
}

/// What to do in the course of a session.
#[derive(Debug)]
pub enum SessionAction {
    /// Print what the command printed.
    Write(ProcessOutput),
    /// Hand requests on to this local port.
    Serve(u16),
    /// Nothing.
    Ignore,
    /// Interrupt the command.
    Interrupt,
    /// End, with this exit code.
    Exit(i32),
    /// Fail. Where `terminate` is set, end the command first.
    Fail { terminate: bool, error: SessionError },
}

/// Why a session fails when the task that serves the public endpoint ends.
pub open spec fn forwarder_error(end: ForwarderEnd) -> SessionError {
    match end {
        ForwarderEnd::Closed => SessionError::EndpointClosed,
        ForwarderEnd::Failed => SessionError::ForwardingFailed,
        ForwarderEnd::Crashed => SessionError::ForwarderCrashed,
    }
}

/// What to do about `event` while it is not known where the command listens.
pub open spec fn waiting_action(event: SessionEvent) -> SessionAction {
    match event {
        SessionEvent::Output(output) => SessionAction::Write(output),
        SessionEvent::Process(ProcessEvent::Listening(port)) => SessionAction::Serve(port),
        SessionEvent::Process(ProcessEvent::Exited(status)) => SessionAction::Fail {
            terminate: false,
            error: SessionError::ExitedEarly(status),
        },
        SessionEvent::Process(ProcessEvent::Error(reason)) => SessionAction::Fail {
            terminate: true,
            error: SessionError::ObserveFailed(reason),
        },
        SessionEvent::Forwarder(end) => SessionAction::Fail {
            terminate: true,
            error: forwarder_error(end),
        },
        SessionEvent::Interrupt => SessionAction::Interrupt,
    }
}

/// What to do about `event` once the local port is known.
pub open spec fn serving_action(event: SessionEvent) -> SessionAction {
    match event {
        SessionEvent::Output(output) => SessionAction::Write(output),
        SessionEvent::Process(ProcessEvent::Listening(_)) => SessionAction::Ignore,
        SessionEvent::Process(ProcessEvent::Exited(status)) => SessionAction::Exit(
            exit_code_of(status) as i32,
        ),
        SessionEvent::Process(ProcessEvent::Error(reason)) => SessionAction::Fail {
            terminate: false,
            error: SessionError::SuperviseFailed(reason),
        },
        SessionEvent::Forwarder(end) => SessionAction::Fail {
            terminate: true,
            error: forwarder_error(end),
        },
        SessionEvent::Interrupt => SessionAction::Interrupt,
    }
}

fn forwarder_failure(end: ForwarderEnd) -> (error: SessionError)
    ensures
        error == forwarder_error(end),
{
    match end {
        ForwarderEnd::Closed => SessionError::EndpointClosed,
        ForwarderEnd::Failed => SessionError::ForwardingFailed,
        ForwarderEnd::Crashed => SessionError::ForwarderCrashed,
    }
}

/// Decides what to do about `event` while it is not known where the command listens.
pub fn wait_for_listener(event: SessionEvent) -> (action: SessionAction)
    ensures
        action == waiting_action(event),
{
    match event {
        SessionEvent::Output(output) => SessionAction::Write(output),
        SessionEvent::Process(ProcessEvent::Listening(port)) => SessionAction::Serve(port),
        SessionEvent::Process(ProcessEvent::Exited(status)) => SessionAction::Fail {
            terminate: false,
            error: SessionError::ExitedEarly(status),
        },
        SessionEvent::Process(ProcessEvent::Error(reason)) => SessionAction::Fail {
            terminate: true,
            error: SessionError::ObserveFailed(reason),
        },
        SessionEvent::Forwarder(end) => SessionAction::Fail {
            terminate: true,
            error: forwarder_failure(end),
        },
        SessionEvent::Interrupt => SessionAction::Interrupt,
    }
}

/// Decides what to do about `event` once the local port is known.
pub fn serve(event: SessionEvent) -> (action: SessionAction)
    ensures
        action == serving_action(event),
{
    match event {
        SessionEvent::Output(output) => SessionAction::Write(output),
        SessionEvent::Process(ProcessEvent::Listening(_)) => SessionAction::Ignore,
        SessionEvent::Process(ProcessEvent::Exited(status)) => SessionAction::Exit(
            exit_code(status),
        ),
        SessionEvent::Process(ProcessEvent::Error(reason)) => SessionAction::Fail {
            terminate: false,
            error: SessionError::SuperviseFailed(reason),
        },
        SessionEvent::Forwarder(end) => SessionAction::Fail {
            terminate: true,
            error: forwarder_failure(end),
        },
        SessionEvent::Interrupt => SessionAction::Interrupt,
    }
}

/// A session, by the local port that it serves, once that is known.
#[derive(Clone, Copy, Debug, PartialEq, Eq, Structural)]
pub struct Session {
    /// The local port.
    pub port: Option<u16>,
}

/// The session after `event`, and what to do about it.
pub open spec fn session_after(session: Session, event: SessionEvent) -> (Session, SessionAction) {
    match session.port {
        Some(_) => (session, serving_action(event)),
        None => (
            match waiting_action(event) {
                SessionAction::Serve(port) => Session { port: Some(port) },
                _ => session,
            },
            waiting_action(event),
        ),
    }
}

/// The session after all of `events`.
pub open spec fn session_after_all(session: Session, events: Seq<SessionEvent>) -> Session
    decreases events.len(),
{
    if events.len() == 0 {
        session
    } else {
        session_after(session_after_all(session, events.drop_last()), events.last()).0
    }
}

impl Session {
    /// A session that serves `port`, or the port on which the command will listen.
    pub fn new(port: Option<u16>) -> (session: Session)
        ensures
            session.port == port,
    {
        Session { port }
    }

    /// Whether the port has to be discovered.
    pub open spec fn looks_for_port(self) -> bool {
        self.port is None
    }

    /// Whether the port has to be discovered.
    pub fn discovers(&self) -> (discovers: bool)
        ensures
            discovers == self.looks_for_port(),
    {
        self.port.is_none()
    }

    /// Takes note of `event` and decides what to do about it.
    pub fn step(&mut self, event: SessionEvent) -> (action: SessionAction)
        ensures
            (*final(self), action) == session_after(*old(self), event),
    {
        match self.port {
            Some(_) => serve(event),
            None => {
                let action = wait_for_listener(event);
                if let SessionAction::Serve(port) = &action {
                    self.port = Some(*port);
                }
                action
            },
        }
    }
}

/// The ports of which it became known in the course of `events` that the command listens there.
pub open spec fn listeners(events: Seq<SessionEvent>) -> Seq<u16>
    decreases events.len(),
{
    if events.len() == 0 {
        Seq::empty()
    } else {
        let before = listeners(events.drop_last());
        match events.last() {
            SessionEvent::Process(ProcessEvent::Listening(port)) => before.push(port),
            _ => before,
        }
    }
}

/// A port that was asked for is served whatever the command listens on, and where none was asked
/// for it is the first one on which the command listens.
pub proof fn law_served_port(port: Option<u16>, events: Seq<SessionEvent>)
    ensures
        session_after_all(Session { port }, events).port == match port {
            Some(asked) => Some(asked),
            None => if listeners(events).len() > 0 {
                Some(listeners(events)[0])
            } else {
                None
            },
        },
    decreases events.len(),
{
    if events.len() > 0 {
        law_served_port(port, events.drop_last());
    }
}

/// The port is announced once at most: once it is known, no event makes it known again.
pub proof fn law_port_is_served_once(session: Session, event: SessionEvent)
    ensures
        session_after(session, event).1 is Serve ==> session.port is None
            && session_after(session, event).0.port is Some,
        session.port is Some ==> session_after(session, event).0 == session,
{
}

/// Once the port is known, the session ends with the command's own exit code, and while it is not,
/// a command that ends is a failure.
pub proof fn law_exit_of_the_command(session: Session, status: ExitStatus)
    ensures
        session_after(session, SessionEvent::Process(ProcessEvent::Exited(status))).1
            == if session.port is Some {
            SessionAction::Exit(exit_code_of(status) as i32)
        } else {
            SessionAction::Fail { terminate: false, error: SessionError::ExitedEarly(status) }
        },
{
}

/// The command never outlives its endpoint: when serving ends, for whatever reason and at whatever
/// time, the command is ended too.
pub proof fn law_command_ends_with_the_endpoint(session: Session, end: ForwarderEnd)
    ensures
        session_after(session, SessionEvent::Forwarder(end)).1 == (SessionAction::Fail {
            terminate: true,
            error: forwarder_error(end),
        }),
{
}

/// An interrupt is the command's to answer: it is handed on, and the session goes on as it was.
pub proof fn law_interrupt_is_handed_on(session: Session)
    ensures
        session_after(session, SessionEvent::Interrupt) == (session, SessionAction::Interrupt),
{
}

/// Where a port is asked for, the command is not traced, and nothing is needed to trace it.
pub proof fn law_explicit_port_is_not_traced(port: u16, proc_available: bool)
    ensures
        watched(Session { port: Some(port) }.looks_for_port(), proc_available) == Ok::<
            Supervision,
            SpawnError,
        >(Supervision::Wait),
{
}

/// The events of a session in which `ports` are announced.
pub open spec fn announcements(ports: Seq<u16>) -> Seq<SessionEvent> {
    ports.map_values(|port: u16| SessionEvent::Process(ProcessEvent::Listening(port)))
}

/// Where no port is asked for, the first port that the command opens is served, whatever it opens
/// later, and none while it has opened none.
pub proof fn law_first_open_port_is_served(
    root: i32,
    listen_number: u64,
    events: Seq<TraceEvent>,
)
    ensures
        session_after_all(
            Session { port: None },
            announcements(TracerState::started(root, listen_number).announced(events)),
        ).port == if ports_found(events).len() > 0 {
            Some(ports_found(events)[0])
        } else {
            None
        },
{
    let state = TracerState::started(root, listen_number);
    law_first_listener_is_announced(state, events);
    let heard = announcements(state.announced(events));
    law_served_port(None, heard);
    if heard.len() > 0 {
        assert(heard.drop_last().len() == 0);
        assert(listeners(heard.drop_last()) == Seq::<u16>::empty());
        assert(listeners(heard) == seq![ports_found(events)[0]]);
    }
}

/// A traced command's exit code reaches whoever started the session: the report of its end becomes
/// an exit with the same code, once the port is known.
pub proof fn law_traced_exit_code_is_kept(
    tracer: TracerState,
    session: Session,
    code: i32,
    status: ExitStatus,
)
    requires
        0 <= code <= 0xff,
        session.port is Some,
        tracer.after(TraceEvent::Status(WaitStatus::Exited { pid: tracer.root, code })).1 == (
        TraceAction::Finish { status }),
    ensures
        session_after(session, SessionEvent::Process(ProcessEvent::Exited(status))).1
            == SessionAction::Exit(code),
{
    law_exit_code_is_kept(code);
}

/// The first line that is printed, which tells the public URL.
pub fn announcement(url: &str) -> (line: String)
    ensures
        line@ == "[nserve] Created ngrok session with URL "@ + url@,
{
    "[nserve] Created ngrok session with URL ".to_owned().concat(url)
}

/// What the command prints is printed as it is, on the stream that it was printed on, before the
/// port is known and after, and it changes nothing.
pub proof fn law_output_is_printed(
    session: &mut Session,
    output: ProcessOutput,
    action: SessionAction,
)
    requires
        call_ensures(Session::step, (session, SessionEvent::Output(output)), action),
    ensures
        action == SessionAction::Write(output),
        *final(session) == *old(session),
{
}

/// The first port on which the command listens is served, where none was asked for, and no event
/// changes a port that is known or makes a port known otherwise.
pub proof fn law_listener_is_served(
    session: &mut Session,
    port: u16,
    action: SessionAction,
    other: &mut Session,
    event: SessionEvent,
    answer: SessionAction,
)
    requires
        call_ensures(
            Session::step,
            (session, SessionEvent::Process(ProcessEvent::Listening(port))),
            action,
        ),
        !(event matches SessionEvent::Process(ProcessEvent::Listening(_))),
        call_ensures(Session::step, (other, event), answer),
    ensures
        old(session).port is None ==> action == SessionAction::Serve(port) && final(session).port
            == Some(port),
        old(session).port is Some ==> action is Ignore && final(session).port == old(session).port,
        final(other).port == old(other).port,
        !(answer is Serve) && !(answer is Ignore),
{
}

/// The end of the command ends the session: with the command's own exit code once the port is
/// known, and before that as a failure that tells its status. There is nothing left to end.
pub proof fn law_end_of_the_command(
    session: &mut Session,
    status: ExitStatus,
    code: i32,
    action: SessionAction,
)
    requires
        call_ensures(exit_code, (status,), code),
        call_ensures(
            Session::step,
            (session, SessionEvent::Process(ProcessEvent::Exited(status))),
            action,
        ),
    ensures
        old(session).port is Some ==> action == SessionAction::Exit(code),
        old(session).port is None ==> (action matches SessionAction::Fail { terminate, error }
            && !terminate && error == SessionError::ExitedEarly(status)),
{
}

/// A command that can no longer be watched is a failure that tells the reason. It is ended first
/// where its port is still looked for, and left to itself where it is already served.
pub proof fn law_lost_sight_of_the_command(
    session: &mut Session,
    reason: String,
    action: SessionAction,
)
    requires
        call_ensures(
            Session::step,
            (session, SessionEvent::Process(ProcessEvent::Error(reason))),
            action,
        ),
    ensures
        action matches SessionAction::Fail { terminate, error } && terminate == (old(session).port
            is None) && (terminate ==> error == SessionError::ObserveFailed(reason)) && (!terminate
            ==> error == SessionError::SuperviseFailed(reason)),
{
}

/// When the public endpoint is served no longer, the command is ended and the session fails, before
/// the port is known and after, and each way for it to end is told apart.
pub proof fn law_end_of_the_endpoint(
    session: &mut Session,
    end: ForwarderEnd,
    action: SessionAction,
)
    requires
        call_ensures(Session::step, (session, SessionEvent::Forwarder(end)), action),
    ensures
        action matches SessionAction::Fail { terminate, error } && terminate && (end is Closed
            <==> error is EndpointClosed) && (end is Failed <==> error is ForwardingFailed) && (end
            is Crashed <==> error is ForwarderCrashed),
{
}

/// An interrupt is handed on to the command at any time, and the session goes on as it was.
pub proof fn law_interrupt_reaches_the_command(session: &mut Session, action: SessionAction)
    requires
        call_ensures(Session::step, (session, SessionEvent::Interrupt), action),
    ensures
        action is Interrupt,
        *final(session) == *old(session),
{
}

/// The two halves of a session decide as the whole does: one until the port is known, and the other
/// from then on.
pub proof fn law_halves_of_a_session(
    session: &mut Session,
    event: SessionEvent,
    action: SessionAction,
    waiting: SessionAction,
    serving: SessionAction,
)
    requires
        call_ensures(Session::step, (session, event), action),
        call_ensures(wait_for_listener, (event,), waiting),
        call_ensures(serve, (event,), serving),
    ensures
        old(session).port is None ==> action == waiting,
        old(session).port is Some ==> action == serving,
{
}

/// What `step` makes of a session is all that its course is made of.
pub proof fn law_steps_make_the_session(
    session: &mut Session,
    start: Session,
    events: Seq<SessionEvent>,
    event: SessionEvent,
    action: SessionAction,
)
    requires
        *old(session) == session_after_all(start, events),
        call_ensures(Session::step, (session, event), action),
    ensures
        *final(session) == session_after_all(start, events.push(event)),
{
    assert(events.push(event).drop_last() == events);
}

/// The command is traced where no port is asked for, and only there.
pub proof fn law_port_is_discovered_where_none_is_asked_for(
    port: Option<u16>,
    session: Session,
    discovers: bool,
    plan: Result<Supervision, SpawnError>,
)
    requires
        call_ensures(Session::new, (port,), session),
        call_ensures(Session::discovers, (&session,), discovers),
        call_ensures(supervision, (discovers, true), plan),
    ensures
        session.port == port,
        plan == Ok::<Supervision, SpawnError>(
            if port is None {
                Supervision::Trace
            } else {
                Supervision::Wait
            },
        ),
{
}

/// The user is told why a session failed: in every failure but a crash, with the command's status
/// or the reason, where there is one, in its words.
pub proof fn law_failure_is_told(
    status: &str,
    ended: ExitStatus,
    reason: String,
    early: Option<String>,
    observe: Option<String>,
    supervise: Option<String>,
    closed: Option<String>,
    failed: Option<String>,
    crashed: Option<String>,
)
    requires
        call_ensures(SessionError::message, (&SessionError::ExitedEarly(ended), status), early),
        call_ensures(SessionError::message, (&SessionError::ObserveFailed(reason), status), observe),
        call_ensures(
            SessionError::message,
            (&SessionError::SuperviseFailed(reason), status),
            supervise,
        ),
        call_ensures(SessionError::message, (&SessionError::EndpointClosed, status), closed),
        call_ensures(SessionError::message, (&SessionError::ForwardingFailed, status), failed),
        call_ensures(SessionError::message, (&SessionError::ForwarderCrashed, status), crashed),
    ensures
        early matches Some(told) && told@ == "command exited with "@ + status@
            + " before opening a TCP listener"@,
        observe matches Some(told) && told@ == "could not observe the command's listeners: "@
            + reason@,
        supervise matches Some(told) && told@ == "failed while supervising the command: "@ + reason@,
        closed matches Some(told) && told@ == "ngrok endpoint closed unexpectedly"@,
        failed matches Some(told) && told@ == "ngrok forwarding failed"@,
        crashed is None,
{
}

/// The first line that is printed tells the public URL as it is.
pub proof fn law_url_is_announced(url: &str, line: String)
    requires
        call_ensures(announcement, (url,), line),
    ensures
        line@ == "[nserve] Created ngrok session with URL "@ + url@,
{
}

} // verus!
