//! Answering requests, and handing them on to the local server.

use vstd::prelude::*;

use crate::state::{recorded, AppState, RequestRecord, Status, TimeOfDay, REQUEST_LIMIT};
use crate::text::{contains, decimal, holds, push_decimal, stands_at};

verus! {

/// The page that is shown until the local server answers. It asks again every second.
pub const WAITING_PAGE: &'static str = "<!doctype html>
<html lang=\"en\">
<meta charset=\"utf-8\">
<meta name=\"viewport\" content=\"width=device-width,initial-scale=1\">
<title>Starting local server…</title>
<style>
  :root { color-scheme: light dark; font-family: system-ui, sans-serif }
  body { min-height: 100vh; margin: 0; display: grid; place-items: center }
  main { text-align: center }
  .spinner { width: 2.5rem; height: 2.5rem; margin: 0 auto 1.25rem; border: .3rem solid color-mix(in srgb, CanvasText 20%, transparent); border-top-color: CanvasText; border-radius: 50%; animation: spin .8s linear infinite }
  @keyframes spin { to { transform: rotate(360deg) } }
</style>
<main><div class=\"spinner\" aria-hidden=\"true\"></div><h1>Starting the local server…</h1><p>This page will retry automatically.</p></main>
<script>setTimeout(() => location.reload(), 1000)</script>
</html>";

/// The status code of a switch to another protocol.
pub const SWITCHING_PROTOCOLS: u16 = 101;

/// The status code of a request that makes no sense.
pub const BAD_REQUEST: u16 = 400;

/// The status code while the local server does not answer.
pub const SERVICE_UNAVAILABLE: u16 = 503;

/// What the session is once its endpoint takes no more connections.
pub const SESSION_CLOSED: &'static str = "closed";

/// `hyper::HeaderMap`, the headers of a request.
#[verifier::external_type_specification]
#[verifier::external_body]
#[verifier::reject_recursive_types(T)]
pub struct ExHeaderMap<T>(hyper::HeaderMap<T>);

/// `hyper::header::HeaderValue`, the value of a header.
#[verifier::external_type_specification]
#[verifier::external_body]
pub struct ExHeaderValue(hyper::header::HeaderValue);

/// What a map of headers holds: under each name, in lower case, its values in their order.
pub uninterp spec fn header_values(
    headers: hyper::HeaderMap<hyper::header::HeaderValue>,
) -> Map<Seq<char>, Seq<Seq<u8>>>;

/// Whether `name` is a header's name in lower case, of letters and hyphens.
pub open spec fn is_lower_name(name: Seq<char>) -> bool {
    name.len() > 0 && forall|i: int|
        0 <= i < name.len() ==> ('a' <= #[trigger] name[i] <= 'z' || name[i] == '-')
}

/// Calls `hyper::HeaderMap::contains_key`, which tells whether a header of this name is there.
#[verifier::external_body]
fn has_header(headers: &hyper::HeaderMap<hyper::header::HeaderValue>, name: &str) -> (present: bool)
    requires
        is_lower_name(name@),
    ensures
        present == header_values(*headers).contains_key(name@),
{
    headers.contains_key(name)
}

/// Calls `hyper::HeaderMap::get`, which gives the first value of the header of this name, where
/// there is one.
#[verifier::external_body]
fn first_header(
    headers: &hyper::HeaderMap<hyper::header::HeaderValue>,
    name: &str,
) -> (value: Option<Vec<u8>>)
    requires
        is_lower_name(name@),
    ensures
        value is Some == header_values(*headers).contains_key(name@),
        value is Some ==> header_values(*headers)[name@].len() > 0,
        value matches Some(bytes) ==> bytes@ == header_values(*headers)[name@][0],
{
    headers.get(name).map(|value| value.as_bytes().to_vec())
}

/// Whether a header's value is text: visible ASCII, blanks and tabs.
pub open spec fn is_header_text(value: Seq<u8>) -> bool {
    forall|i: int| 0 <= i < value.len() ==> (0x20 <= #[trigger] value[i] < 0x7f || value[i] == 0x09)
}

/// An ASCII character in lower case.
pub open spec fn lower_char(byte: u8) -> char {
    if 0x41 <= byte <= 0x5a {
        (byte + 0x20) as char
    } else {
        byte as char
    }
}

/// ASCII text in lower case.
pub open spec fn lower_text(value: Seq<u8>) -> Seq<char> {
    Seq::new(value.len(), |i: int| lower_char(value[i]))
}

/// Whether the value of a `connection` header asks for an upgrade: it is text that holds the word,
/// in any case.
pub open spec fn asks_upgrade(value: Seq<u8>) -> bool {
    is_header_text(value) && holds(lower_text(value), "upgrade"@)
}

/// Whether the value of a `connection` header asks for an upgrade.
pub fn mentions_upgrade(value: &[u8]) -> (asks: bool)
    ensures
        asks == asks_upgrade(value@),
{
    let mut lower: Vec<char> = Vec::new();
    let mut i: usize = 0;
    while i < value.len()
        invariant
            0 <= i <= value@.len(),
            lower@.len() == i,
            forall|k: int| 0 <= k < i ==> lower@[k] == lower_char(#[trigger] value@[k]),
            forall|k: int|
                0 <= k < i ==> (0x20 <= #[trigger] value@[k] < 0x7f || value@[k] == 0x09),
        decreases value@.len() - i,
    {
        let byte: u8 = value[i];
        if !((0x20 <= byte && byte < 0x7f) || byte == 0x09) {
            assert(!is_header_text(value@));
            return false;
        }
        let c: char = if 0x41 <= byte && byte <= 0x5a {
            (byte + 0x20) as char
        } else {
            byte as char
        };
        lower.push(c);
        i = i + 1;
    }
    assert(lower@ == lower_text(value@));
    contains(&lower, "upgrade")
}

/// Whether a request with `headers` asks to switch to another protocol: it has an `upgrade`
/// header, or its first `connection` header asks for an upgrade.
pub open spec fn upgrade_wanted(headers: Map<Seq<char>, Seq<Seq<u8>>>) -> bool {
    headers.contains_key("upgrade"@) || (headers.contains_key("connection"@) && asks_upgrade(
        headers["connection"@][0],
    ))
}

/// Whether a request with `headers` asks to switch to another protocol.
pub fn wants_upgrade(headers: &hyper::HeaderMap<hyper::header::HeaderValue>) -> (wanted: bool)
    ensures
        wanted == upgrade_wanted(header_values(*headers)),
{
    proof {
        reveal_strlit("upgrade");
        reveal_strlit("connection");
    }
    if has_header(headers, "upgrade") {
        return true;
    }
    match first_header(headers, "connection") {
        Some(value) => mentions_upgrade(&value),
        None => false,
    }
}

/// An answer of our own.
#[derive(Debug)]
pub struct Reply {
    /// Its status code.
    pub status: u16,
    /// Its headers, each a name and a value.
    pub headers: Vec<(&'static str, &'static str)>,
    /// Its body.
    pub body: String,
}

/// An answer of our own, as text.
pub struct ReplyText {
    /// Its status code.
    pub status: u16,
    /// Its headers, each a name and a value.
    pub headers: Seq<(Seq<char>, Seq<char>)>,
    /// Its body.
    pub body: Seq<char>,
}

impl View for Reply {
    type V = ReplyText;

    open spec fn view(&self) -> ReplyText {
        ReplyText {
            status: self.status,
            headers: self.headers@.map_values(
                |header: (&'static str, &'static str)| (header.0@, header.1@),
            ),
            body: self.body@,
        }
    }
}

/// The answer while the local server does not answer. It is not to be kept, and it is to be asked
/// for again after a second. A request for the headers alone gets no page.
pub open spec fn waiting_reply(head_only: bool) -> ReplyText {
    ReplyText {
        status: SERVICE_UNAVAILABLE,
        headers: seq![
            ("content-type"@, "text/html; charset=utf-8"@),
            ("cache-control"@, "no-store"@),
            ("retry-after"@, "1"@),
            ("refresh"@, "1"@),
        ],
        body: if head_only {
            Seq::empty()
        } else {
            WAITING_PAGE@
        },
    }
}

/// The answer while the local server does not answer.
pub fn waiting_response(head_only: bool) -> (reply: Reply)
    ensures
        reply@ == waiting_reply(head_only),
{
    let headers: Vec<(&'static str, &'static str)> = vec![
        ("content-type", "text/html; charset=utf-8"),
        ("cache-control", "no-store"),
        ("retry-after", "1"),
        ("refresh", "1"),
    ];
    let body: String = if head_only {
        String::new()
    } else {
        WAITING_PAGE.to_owned()
    };
    let reply = Reply { status: SERVICE_UNAVAILABLE, headers, body };
    assert(reply@.headers == waiting_reply(head_only).headers);
    reply
}

/// The answer to a request that cannot be handed on.
pub open spec fn error_reply(status: u16, message: Seq<char>) -> ReplyText {
    ReplyText { status, headers: Seq::empty(), body: message }
}

/// The answer to a request that cannot be handed on.
pub fn error_response(status: u16, message: String) -> (reply: Reply)
    ensures
        reply@ == error_reply(status, message@),
{
    let reply = Reply { status, headers: Vec::new(), body: message };
    assert(reply@.headers == Seq::<(Seq<char>, Seq<char>)>::empty());
    reply
}

/// Why `text` is no URI, as `hyper::Uri` words it; nothing where it is one.
pub uninterp spec fn uri_fault(text: Seq<char>) -> Option<Seq<char>>;

/// Parses `text` as a `hyper::Uri` with `str::parse`, and tells why it is none, where it is none.
#[verifier::external_body]
fn check_uri(text: &str) -> (fault: Option<String>)
    ensures
        match fault {
            Some(reason) => uri_fault(text@) == Some(reason@),
            None => uri_fault(text@) == None::<Seq<char>>,
        },
{
    match text.parse::<hyper::Uri>() {
        Ok(_) => None,
        Err(error) => Some(error.to_string()),
    }
}

/// Where the local server is asked for what a request is for.
pub open spec fn target_uri(port: u16, path_and_query: Option<Seq<char>>) -> Seq<char> {
    "http://localhost:"@ + decimal(port as nat) + match path_and_query {
        Some(path) => path,
        None => "/"@,
    }
}

/// Where the local server is asked for what a request is for: the same path and query, or the root
/// where it has none.
pub fn upstream_target(port: u16, path_and_query: Option<&str>) -> (target: String)
    ensures
        target@ == target_uri(
            port,
            match path_and_query {
                Some(path) => Some(path@),
                None => None,
            },
        ),
{
    let mut target: String = "http://localhost:".to_owned();
    push_decimal(&mut target, port as u128);
    match path_and_query {
        Some(path) => target.append(path),
        None => target.append("/"),
    }
    target
}

/// What to do with a request.
#[derive(Debug)]
pub enum Route {
    /// Answer it.
    Reply(Reply),
    /// Ask the local server at this URI.
    Forward(String),
}

/// What to do with a request, as text.
pub enum RouteText {
    /// Answer it.
    Reply(ReplyText),
    /// Ask the local server at this URI.
    Forward(Seq<char>),
}

impl View for Route {
    type V = RouteText;

    open spec fn view(&self) -> RouteText {
        match self {
            Route::Reply(reply) => RouteText::Reply(reply@),
            Route::Forward(target) => RouteText::Forward(target@),
        }
    }
}

/// What to do with a request for which the local server would be asked at `target`, where `fault`
/// says why that is no URI.
pub open spec fn routed(target: Seq<char>, fault: Option<Seq<char>>) -> RouteText {
    match fault {
        Some(reason) => RouteText::Reply(
            error_reply(BAD_REQUEST, "invalid upstream URI: "@ + reason),
        ),
        None => RouteText::Forward(target),
    }
}

/// What to do with a request for which the local server would be asked at `target`.
pub fn route_target(target: String, fault: Option<String>) -> (route: Route)
    ensures
        route@ == routed(
            target@,
            match fault {
                Some(reason) => Some(reason@),
                None => None,
            },
        ),
{
    match fault {
        Some(reason) => Route::Reply(
            error_response(BAD_REQUEST, "invalid upstream URI: ".to_owned().concat(reason.as_str())),
        ),
        None => Route::Forward(target),
    }
}

/// Whether a request with this method is for the headers alone.
pub fn is_head(method: &str) -> (head: bool)
    ensures
        head == (method@ == "HEAD"@),
{
    method.to_owned() == "HEAD".to_owned()
}

/// What to do with a request, where `upstream` is the port of the local server once it is known.
pub open spec fn route_of(
    upstream: Option<u16>,
    path_and_query: Option<&str>,
    method: Seq<char>,
) -> RouteText {
    match upstream {
        None => RouteText::Reply(waiting_reply(method == "HEAD"@)),
        Some(port) => {
            let target = target_uri(
                port,
                match path_and_query {
                    Some(path) => Some(path@),
                    None => None,
                },
            );
            routed(target, uri_fault(target))
        },
    }
}

/// What to do with a request, where `upstream` is the port of the local server once it is known.
pub fn route(upstream: Option<u16>, path_and_query: Option<&str>, method: &str) -> (route: Route)
    ensures
        route@ == route_of(upstream, path_and_query, method@),
{
    match upstream {
        None => Route::Reply(waiting_response(is_head(method))),
        Some(port) => {
            let target = upstream_target(port, path_and_query);
            let fault = check_uri(target.as_str());
            route_target(target, fault)
        },
    }
}

/// How a request that was handed on is answered.
#[derive(Debug)]
pub enum Answer {
    /// With the local server's answer, which has this status code. Where `bridge` is set, both
    /// sides have agreed on another protocol, and the two connections are joined.
    Relay { status: u16, bridge: bool },
    /// With an answer of our own.
    Reply(Reply),
}

/// How a request that was handed on is answered, as text.
pub enum AnswerText {
    /// With the local server's answer.
    Relay { status: u16, bridge: bool },
    /// With an answer of our own.
    Reply(ReplyText),
}

impl AnswerText {
    /// The status code that the client sees.
    pub open spec fn status(self) -> u16 {
        match self {
            AnswerText::Relay { status, .. } => status,
            AnswerText::Reply(reply) => reply.status,
        }
    }
}

impl View for Answer {
    type V = AnswerText;

    open spec fn view(&self) -> AnswerText {
        match self {
            Answer::Relay { status, bridge } => AnswerText::Relay {
                status: *status,
                bridge: *bridge,
            },
            Answer::Reply(reply) => AnswerText::Reply(reply@),
        }
    }
}

impl Answer {
    /// The status code that the client sees.
    pub fn status_code(&self) -> (status: u16)
        ensures
            status == self@.status(),
    {
        match self {
            Answer::Relay { status, .. } => *status,
            Answer::Reply(reply) => reply.status,
        }
    }
}

/// How a request that was handed on is answered, where `outcome` is the status code of the local
/// server's answer, if it gave one.
pub open spec fn answer_of(
    outcome: Option<u16>,
    method: Seq<char>,
    wants_upgrade: bool,
) -> AnswerText {
    match outcome {
        Some(status) => AnswerText::Relay {
            status,
            bridge: status == SWITCHING_PROTOCOLS && wants_upgrade,
        },
        None => AnswerText::Reply(waiting_reply(method == "HEAD"@)),
    }
}

/// How a request that was handed on is answered, where `outcome` is the status code of the local
/// server's answer, if it gave one.
pub fn answer(outcome: Option<u16>, method: &str, wants_upgrade: bool) -> (answer: Answer)
    ensures
        answer@ == answer_of(outcome, method@, wants_upgrade),
{
    match outcome {
        Some(status) => Answer::Relay {
            status,
            bridge: status == SWITCHING_PROTOCOLS && wants_upgrade,
        },
        None => Answer::Reply(waiting_response(is_head(method))),
    }
}

/// What the status page knows after one more request.
pub open spec fn logged(before: Status, record: RequestRecord) -> Status {
    Status { requests: recorded(before.requests, record), ..before }
}

/// Remembers a request that was answered.
pub fn record_request(
    state: &mut AppState,
    at: TimeOfDay,
    method: String,
    uri: String,
    status: u16,
    elapsed_ms: u128,
)
    ensures
        final(state)@ == logged(
            old(state)@,
            RequestRecord { at, method, uri, status, elapsed_ms },
        ),
        old(state)@.within_limit() ==> final(state)@.within_limit(),
{
    state.record(RequestRecord { at, method, uri, status, elapsed_ms });
}

/// A request that was handed on, as it was received. It is answered once.
#[derive(Debug)]
pub struct Exchange {
    method: String,
    uri: String,
}

impl Exchange {
    /// The method of the request.
    pub closed spec fn method(self) -> String {
        self.method
    }

    /// The URI that the request was received for, which is not the local server's.
    pub closed spec fn uri(self) -> String {
        self.uri
    }
}

/// How a request begins.
#[derive(Debug)]
pub enum Opening {
    /// It is answered, and remembered.
    Answered(Reply),
    /// It is handed on: the local server is asked at `target`.
    Pending { target: String, exchange: Exchange },
}

/// What the status page knows once a request has begun: a request that is answered at once is
/// remembered with the status code of its answer, and one that is handed on is not.
pub open spec fn begun(
    before: Status,
    at: TimeOfDay,
    method: String,
    uri: String,
    route: RouteText,
    elapsed_ms: u128,
) -> Status {
    match route {
        RouteText::Reply(reply) => logged(
            before,
            RequestRecord { at, method, uri, status: reply.status, elapsed_ms },
        ),
        RouteText::Forward(_) => before,
    }
}

/// Begins a request: it is answered and remembered, or handed on to the local server, where
/// `upstream` is the port of that server once it is known.
pub fn begin_request(
    state: &mut AppState,
    at: TimeOfDay,
    method: String,
    uri: String,
    upstream: Option<u16>,
    path_and_query: Option<&str>,
    elapsed_ms: u128,
) -> (opening: Opening)
    ensures
        match opening {
            Opening::Answered(reply) => route_of(upstream, path_and_query, method@)
                == RouteText::Reply(reply@),
            Opening::Pending { target, exchange } => route_of(upstream, path_and_query, method@)
                == RouteText::Forward(target@) && exchange.method() == method && exchange.uri()
                == uri,
        },
        final(state)@ == begun(
            old(state)@,
            at,
            method,
            uri,
            route_of(upstream, path_and_query, method@),
            elapsed_ms,
        ),
        old(state)@.within_limit() ==> final(state)@.within_limit(),
{
    match route(upstream, path_and_query, method.as_str()) {
        Route::Reply(reply) => {
            record_request(state, at, method, uri, reply.status, elapsed_ms);
            Opening::Answered(reply)
        },
        Route::Forward(target) => Opening::Pending { target, exchange: Exchange { method, uri } },
    }
}

/// What the status page knows once a request that was handed on has been answered: the request is
/// remembered with the status code of its answer.
pub open spec fn finished(
    before: Status,
    at: TimeOfDay,
    method: String,
    uri: String,
    answer: AnswerText,
    elapsed_ms: u128,
) -> Status {
    logged(before, RequestRecord { at, method, uri, status: answer.status(), elapsed_ms })
}

/// Answers and remembers a request that was handed on, where `outcome` is the status code of the
/// local server's answer, if it gave one.
pub fn finish_request(
    state: &mut AppState,
    at: TimeOfDay,
    exchange: Exchange,
    outcome: Option<u16>,
    wants_upgrade: bool,
    elapsed_ms: u128,
) -> (answer: Answer)
    ensures
        answer@ == answer_of(outcome, exchange.method()@, wants_upgrade),
        final(state)@ == finished(
            old(state)@,
            at,
            exchange.method(),
            exchange.uri(),
            answer@,
            elapsed_ms,
        ),
        old(state)@.within_limit() ==> final(state)@.within_limit(),
{
    let answer = self::answer(outcome, exchange.method.as_str(), wants_upgrade);
    let status = answer.status_code();
    record_request(state, at, exchange.method, exchange.uri, status, elapsed_ms);
    answer
}

/// What to do with a raw connection.
#[derive(Clone, Copy, Debug, PartialEq, Eq, Structural)]
pub enum TcpStep {
    /// Join it with the local server's at this port.
    Connect(u16),
    /// Keep it until more is known of the local server.
    Wait,
    /// Drop it.
    Drop,
}

/// What to do with a raw connection, where `upstream` is the port of the local server once it is
/// known, and `closed` says that it will never become known.
pub fn tcp_step(upstream: Option<u16>, closed: bool) -> (step: TcpStep)
    ensures
        step == match upstream {
            Some(port) => TcpStep::Connect(port),
            None => if closed {
                TcpStep::Drop
            } else {
                TcpStep::Wait
            },
        },
{
    match upstream {
        Some(port) => TcpStep::Connect(port),
        None => if closed {
            TcpStep::Drop
        } else {
            TcpStep::Wait
        },
    }
}

/// A request for the headers alone gets those of the page itself, and nothing else.
pub proof fn law_head_differs_in_the_body_alone()
    ensures
        waiting_reply(true).status == waiting_reply(false).status,
        waiting_reply(true).headers == waiting_reply(false).headers,
        waiting_reply(true).body.len() == 0,
{
}

/// A request that is answered at once is remembered then, and one that is handed on is not
/// remembered until it is answered, whatever has become of the status page in `between`. Either
/// way it is remembered with its method, with the URI that it was received for, and with the
/// status code that the client sees: that of the waiting page, that of a request that makes no
/// sense, or that of the local server's answer.
pub proof fn law_answered_requests_are_remembered(
    before: Status,
    between: Status,
    at: TimeOfDay,
    method: String,
    uri: String,
    upstream: Option<u16>,
    path_and_query: Option<&str>,
    outcome: Option<u16>,
    wants_upgrade: bool,
    elapsed_ms: u128,
)
    ensures
        ({
            let route = route_of(upstream, path_and_query, method@);
            let answer = answer_of(outcome, method@, wants_upgrade);
            let first = begun(before, at, method, uri, route, elapsed_ms);
            let last = finished(between, at, method, uri, answer, elapsed_ms);
            match route {
                RouteText::Reply(reply) => {
                    let status = if upstream is None {
                        SERVICE_UNAVAILABLE
                    } else {
                        BAD_REQUEST
                    };
                    &&& reply.status == status
                    &&& first == logged(
                        before,
                        RequestRecord { at, method, uri, status, elapsed_ms },
                    )
                },
                RouteText::Forward(_) => {
                    let status = match outcome {
                        Some(status) => status,
                        None => SERVICE_UNAVAILABLE,
                    };
                    &&& first == before
                    &&& answer.status() == status
                    &&& last == logged(
                        between,
                        RequestRecord { at, method, uri, status, elapsed_ms },
                    )
                },
            }
        }),
{
}

/// Remembering a request adds it once, behind all the others, and changes nothing else: at most
/// the oldest of the others goes.
pub proof fn law_request_is_added_once(before: Status, record: RequestRecord)
    requires
        before.within_limit(),
    ensures
        logged(before, record).within_limit(),
        logged(before, record).requests.last() == record,
        logged(before, record).requests.drop_last() == if before.requests.len() == REQUEST_LIMIT {
            before.requests.drop_first()
        } else {
            before.requests
        },
        logged(before, record).url == before.url,
        logged(before, record).local_port == before.local_port,
        logged(before, record).session == before.session,
{
}

/// A request that has an `upgrade` header wants an upgrade, whatever its `connection` header says;
/// one whose first `connection` header asks for an upgrade wants one, with or without the other
/// header; and no other request does.
pub proof fn law_either_header_wants_an_upgrade(
    headers: hyper::HeaderMap<hyper::header::HeaderValue>,
    wanted: bool,
    value: &[u8],
    asks: bool,
)
    requires
        call_ensures(wants_upgrade, (&headers,), wanted),
        header_values(headers).contains_key("connection"@) ==> value@ == header_values(
            headers,
        )["connection"@][0],
        call_ensures(mentions_upgrade, (value,), asks),
    ensures
        header_values(headers).contains_key("upgrade"@) ==> wanted,
        header_values(headers).contains_key("connection"@) && asks ==> wanted,
        wanted ==> header_values(headers).contains_key("upgrade"@) || (header_values(
            headers,
        ).contains_key("connection"@) && asks),
{
}

/// Headers that are added never take an upgrade back, as long as the first `connection` header
/// stays.
pub proof fn law_added_headers_keep_the_upgrade(
    headers: hyper::HeaderMap<hyper::header::HeaderValue>,
    wanted: bool,
    more: hyper::HeaderMap<hyper::header::HeaderValue>,
    still_wanted: bool,
)
    requires
        forall|name: Seq<char>| #[trigger]
            header_values(headers).contains_key(name) ==> header_values(more).contains_key(name)
                && header_values(more)[name][0] == header_values(headers)[name][0],
        call_ensures(wants_upgrade, (&headers,), wanted),
        call_ensures(wants_upgrade, (&more,), still_wanted),
    ensures
        wanted ==> still_wanted,
{
    let values = header_values(headers);
    assert(wanted ==> values.contains_key("upgrade"@) || values.contains_key("connection"@));
}

/// A value mentions an upgrade where the word stands in it, anywhere and in any case, and every
/// byte of the value is visible ASCII, a blank or a tab; and only there. The bytes are those of the
/// word's letters, each in lower or in upper case.
pub proof fn law_upgrade_is_mentioned(value: &[u8], asks: bool, at: int)
    requires
        call_ensures(mentions_upgrade, (value,), asks),
    ensures
        (forall|i: int| 0 <= i < value@.len() ==> (0x20 <= #[trigger] value@[i] <= 0x7e || value@[i]
            == 0x09)) && 0 <= at <= value@.len() - 7 && (value@[at] == 0x75 || value@[at] == 0x55)
            && (value@[at + 1] == 0x70 || value@[at + 1] == 0x50) && (value@[at + 2] == 0x67
            || value@[at + 2] == 0x47) && (value@[at + 3] == 0x72 || value@[at + 3] == 0x52) && (
        value@[at + 4] == 0x61 || value@[at + 4] == 0x41) && (value@[at + 5] == 0x64 || value@[at
            + 5] == 0x44) && (value@[at + 6] == 0x65 || value@[at + 6] == 0x45) ==> asks,
        asks ==> exists|found: int|
            0 <= found <= value@.len() - 7 && (#[trigger] value@[found] == 0x75 || value@[found]
                == 0x55) && (value@[found + 1] == 0x70 || value@[found + 1] == 0x50) && (
            value@[found + 2] == 0x67 || value@[found + 2] == 0x47) && (value@[found + 3] == 0x72
                || value@[found + 3] == 0x52) && (value@[found + 4] == 0x61 || value@[found + 4]
                == 0x41) && (value@[found + 5] == 0x64 || value@[found + 5] == 0x44) && (
            value@[found + 6] == 0x65 || value@[found + 6] == 0x45),
        asks ==> forall|i: int|
            0 <= i < value@.len() ==> (0x20 <= #[trigger] value@[i] <= 0x7e || value@[i] == 0x09),
{
    reveal_strlit("upgrade");
    let word = "upgrade"@;
    let lower = lower_text(value@);
    if 0 <= at <= value@.len() - 7 && lower.subrange(at, at + 7) =~= word {
        assert(stands_at(lower, word, at));
    }
    if asks {
        let found = choose|found: int| #[trigger] stands_at(lower, word, found);
        let part = lower.subrange(found, found + 7);
        assert(part == word);
        assert forall|k: int| 0 <= k < 7 implies #[trigger] word[k] == lower_char(
            value@[found + k],
        ) by {
            assert(part[k] == lower[found + k]);
        }
        assert(word[0] == 'u' && word[1] == 'p' && word[2] == 'g' && word[3] == 'r' && word[4]
            == 'a' && word[5] == 'd' && word[6] == 'e');
        assert(value@[found] == 0x75 || value@[found] == 0x55);
    }
}

/// While the local server does not answer, the answer is that the service is unavailable, as a page
/// that is not to be kept and is to be asked for again after a second; and without the page for a
/// request for the headers alone.
pub proof fn law_waiting_answer(head_only: bool, reply: Reply)
    requires
        call_ensures(waiting_response, (head_only,), reply),
    ensures
        reply.status == 503,
        reply.headers@.len() == 4,
        reply.headers@[0].0@ == "content-type"@ && reply.headers@[0].1@
            == "text/html; charset=utf-8"@,
        reply.headers@[1].0@ == "cache-control"@ && reply.headers@[1].1@ == "no-store"@,
        reply.headers@[2].0@ == "retry-after"@ && reply.headers@[2].1@ == "1"@,
        reply.headers@[3].0@ == "refresh"@ && reply.headers@[3].1@ == "1"@,
        head_only ==> reply.body@.len() == 0,
        !head_only ==> reply.body@ == WAITING_PAGE@,
{
    let seen = reply@.headers;
    assert(seen.len() == reply.headers@.len());
    assert(seen[0] == (reply.headers@[0].0@, reply.headers@[0].1@));
    assert(seen[1] == (reply.headers@[1].0@, reply.headers@[1].1@));
    assert(seen[2] == (reply.headers@[2].0@, reply.headers@[2].1@));
    assert(seen[3] == (reply.headers@[3].0@, reply.headers@[3].1@));
}

/// An error is answered with its status code and its message, and nothing else.
pub proof fn law_error_answer(status: u16, message: String, reply: Reply)
    requires
        call_ensures(error_response, (status, message), reply),
    ensures
        reply.status == status,
        reply.headers@.len() == 0,
        reply.body@ == message@,
{
    assert(reply@.headers.len() == reply.headers@.len());
}

/// The local server is asked at its port for the very path and query of the request, and for the
/// root where the request has none.
pub proof fn law_target(port: u16, path: &str, target: String, root: String)
    requires
        call_ensures(upstream_target, (port, Some(path)), target),
        call_ensures(upstream_target, (port, None::<&str>), root),
    ensures
        target@ == "http://localhost:"@ + decimal(port as nat) + path@,
        root@ == "http://localhost:"@ + decimal(port as nat) + "/"@,
{
}

/// A request is for the headers alone where its method is `HEAD`, in upper case, and not otherwise.
pub proof fn law_head(method: &str, head: bool)
    requires
        call_ensures(is_head, (method,), head),
    ensures
        head == (method@ == seq!['H', 'E', 'A', 'D']),
{
    reveal_strlit("HEAD");
    assert("HEAD"@ == seq!['H', 'E', 'A', 'D']);
}

/// While the port is not known, every request gets the waiting page. Once it is, every request is
/// handed on to its target, unless that is no URI: the answer is then that the request makes no
/// sense, with the reason.
pub proof fn law_route(
    upstream: Option<u16>,
    path: Option<&str>,
    method: &str,
    route: Route,
    head: bool,
    waiting: Reply,
    port: u16,
    target: String,
)
    requires
        call_ensures(self::route, (upstream, path, method), route),
        call_ensures(is_head, (method,), head),
        call_ensures(waiting_response, (head,), waiting),
        upstream matches Some(known) ==> known == port,
        call_ensures(upstream_target, (port, path), target),
    ensures
        upstream is None ==> (route matches Route::Reply(reply) && reply.status == 503
            && reply.body@ == waiting.body@ && reply.headers@.len() == waiting.headers@.len() && (
        forall|i: int|
            0 <= i < waiting.headers@.len() ==> (#[trigger] reply.headers@[i]).0@
                == waiting.headers@[i].0@ && reply.headers@[i].1@ == waiting.headers@[i].1@)),
        upstream is Some && uri_fault(target@) is None ==> (route matches Route::Forward(to) && to@
            == target@),
        upstream is Some && uri_fault(target@) is Some ==> (route matches Route::Reply(reply)
            && reply.status == 400 && reply.headers@.len() == 0 && reply.body@
            == "invalid upstream URI: "@ + uri_fault(target@)->0),
{
    if route is Reply {
        let reply = route->Reply_0;
        assert(reply@.headers.len() == reply.headers@.len());
        if upstream is None {
            lemma_same_reply(reply, waiting);
        }
    }
}

/// A target that is a URI is where the request is handed on to, and one that is none is answered
/// with the reason.
pub proof fn law_route_of_a_target(target: String, reason: String, good: Route, bad: Route)
    requires
        call_ensures(route_target, (target, None::<String>), good),
        call_ensures(route_target, (target, Some(reason)), bad),
    ensures
        good matches Route::Forward(to) && to@ == target@,
        bad matches Route::Reply(reply) && reply.status == 400 && reply.body@
            == "invalid upstream URI: "@ + reason@,
{
}

/// What the local server answers is relayed with its own status code, and the connections are
/// joined where it switches protocols and the request wants that, and not otherwise. Where it does
/// not answer, the answer is the waiting page.
pub proof fn law_answer(
    status: u16,
    method: &str,
    wants_upgrade: bool,
    relayed: Answer,
    seen: u16,
    silent: Answer,
    seen_silent: u16,
    head: bool,
    waiting: Reply,
)
    requires
        call_ensures(answer, (Some(status), method, wants_upgrade), relayed),
        call_ensures(Answer::status_code, (&relayed,), seen),
        call_ensures(answer, (None::<u16>, method, wants_upgrade), silent),
        call_ensures(Answer::status_code, (&silent,), seen_silent),
        call_ensures(is_head, (method,), head),
        call_ensures(waiting_response, (head,), waiting),
    ensures
        relayed matches Answer::Relay { status: kept, bridge } && kept == status && (bridge <==> (
        status == 101 && wants_upgrade)),
        seen == status,
        silent matches Answer::Reply(reply) && reply.status == 503 && reply.body@ == waiting.body@
            && reply.headers@.len() == waiting.headers@.len() && (forall|i: int|
            0 <= i < waiting.headers@.len() ==> (#[trigger] reply.headers@[i]).0@
                == waiting.headers@[i].0@ && reply.headers@[i].1@ == waiting.headers@[i].1@),
        seen_silent == 503,
{
    lemma_same_reply(silent->Reply_0, waiting);
}

proof fn lemma_same_reply(one: Reply, other: Reply)
    requires
        one@ == other@,
    ensures
        one.status == other.status,
        one.body@ == other.body@,
        one.headers@.len() == other.headers@.len(),
        forall|i: int|
            0 <= i < other.headers@.len() ==> (#[trigger] one.headers@[i]).0@ == other.headers@[i].0@
                && one.headers@[i].1@ == other.headers@[i].1@,
{
    assert(one@.headers.len() == one.headers@.len());
    assert(other@.headers.len() == other.headers@.len());
    assert forall|i: int| 0 <= i < other.headers@.len() implies (#[trigger] one.headers@[i]).0@
        == other.headers@[i].0@ && one.headers@[i].1@ == other.headers@[i].1@ by {
        assert(one@.headers[i] == (one.headers@[i].0@, one.headers@[i].1@));
        assert(other@.headers[i] == (other.headers@[i].0@, other.headers@[i].1@));
    }
}

/// A request begins as `route` says. One that is answered is remembered at once, with its method,
/// its URI and the status code of the answer, and nothing else changes; one that is handed on
/// changes nothing.
pub proof fn law_begin(
    state: &mut AppState,
    at: TimeOfDay,
    method: String,
    name: &str,
    uri: String,
    upstream: Option<u16>,
    path: Option<&str>,
    elapsed_ms: u128,
    opening: Opening,
    route: Route,
)
    requires
        name@ == method@,
        call_ensures(self::route, (upstream, path, name), route),
        call_ensures(
            begin_request,
            (state, at, method, uri, upstream, path, elapsed_ms),
            opening,
        ),
    ensures
        opening matches Opening::Answered(reply) ==> {
            &&& route matches Route::Reply(expected) && expected.status == reply.status
                && expected.body@ == reply.body@ && expected.headers@.len() == reply.headers@.len()
            &&& final(state)@.requests.last() == (RequestRecord {
                at,
                method,
                uri,
                status: reply.status,
                elapsed_ms,
            })
            &&& old(state)@.requests.len() < 100 ==> final(state)@.requests.drop_last()
                == old(state)@.requests
            &&& old(state)@.requests.len() == 100 ==> final(state)@.requests.drop_last()
                == old(state)@.requests.skip(1)
            &&& final(state)@.url == old(state)@.url
            &&& final(state)@.local_port == old(state)@.local_port
            &&& final(state)@.session == old(state)@.session
        },
        opening matches Opening::Pending { target, .. } ==> {
            &&& route matches Route::Forward(expected) && expected@ == target@
            &&& final(state)@ == old(state)@
        },
{
    let requests = old(state)@.requests;
    if requests.len() == 100 {
        assert(requests.drop_first() == requests.skip(1));
    }
    if opening is Answered {
        lemma_same_reply(opening->Answered_0, route->Reply_0);
        let record = RequestRecord {
            at,
            method,
            uri,
            status: (opening->Answered_0).status,
            elapsed_ms,
        };
        assert(requests.push(record).drop_last() == requests);
        assert(requests.skip(1).push(record).drop_last() == requests.skip(1));
    }
}

/// A request that was handed on is answered as `answer` says for its own method, and remembered
/// once: with the method and the URI that it began with, and the status code that the client sees.
/// Nothing else changes.
pub proof fn law_finish(
    beginning: &mut AppState,
    began: TimeOfDay,
    method: String,
    name: &str,
    uri: String,
    upstream: Option<u16>,
    path: Option<&str>,
    first_ms: u128,
    target: String,
    exchange: Exchange,
    state: &mut AppState,
    at: TimeOfDay,
    outcome: Option<u16>,
    wants_upgrade: bool,
    elapsed_ms: u128,
    answer: Answer,
    expected: Answer,
    seen: u16,
)
    requires
        name@ == method@,
        call_ensures(
            begin_request,
            (beginning, began, method, uri, upstream, path, first_ms),
            (Opening::Pending { target, exchange }),
        ),
        call_ensures(
            finish_request,
            (state, at, exchange, outcome, wants_upgrade, elapsed_ms),
            answer,
        ),
        call_ensures(self::answer, (outcome, name, wants_upgrade), expected),
        call_ensures(Answer::status_code, (&answer,), seen),
    ensures
        match (answer, expected) {
            (Answer::Relay { status, bridge }, Answer::Relay { status: other, bridge: joined }) => {
                status == other && bridge == joined
            },
            (Answer::Reply(reply), Answer::Reply(other)) => reply.status == other.status
                && reply.body@ == other.body@ && reply.headers@.len() == other.headers@.len(),
            _ => false,
        },
        final(state)@.requests.last() == (RequestRecord {
            at,
            method,
            uri,
            status: seen,
            elapsed_ms,
        }),
        old(state)@.requests.len() < 100 ==> final(state)@.requests.drop_last()
            == old(state)@.requests,
        old(state)@.requests.len() == 100 ==> final(state)@.requests.drop_last()
            == old(state)@.requests.skip(1),
        final(state)@.url == old(state)@.url,
        final(state)@.local_port == old(state)@.local_port,
        final(state)@.session == old(state)@.session,
{
    if answer is Reply {
        lemma_same_reply(answer->Reply_0, expected->Reply_0);
    }
    let requests = old(state)@.requests;
    let record = RequestRecord { at, method, uri, status: seen, elapsed_ms };
    if requests.len() == 100 {
        assert(requests.drop_first() == requests.skip(1));
    }
    assert(requests.push(record).drop_last() == requests);
    assert(requests.skip(1).push(record).drop_last() == requests.skip(1));
}

/// A request is remembered with everything that is said of it, behind the others.
pub proof fn law_record(
    state: &mut AppState,
    at: TimeOfDay,
    method: String,
    uri: String,
    status: u16,
    elapsed_ms: u128,
)
    requires
        call_ensures(record_request, (state, at, method, uri, status, elapsed_ms), ()),
    ensures
        final(state)@.requests.last() == (RequestRecord { at, method, uri, status, elapsed_ms }),
        old(state)@.requests.len() < 100 ==> final(state)@.requests.drop_last()
            == old(state)@.requests,
        final(state)@.url == old(state)@.url,
        final(state)@.local_port == old(state)@.local_port,
        final(state)@.session == old(state)@.session,
{
    let requests = old(state)@.requests;
    let record = RequestRecord { at, method, uri, status, elapsed_ms };
    assert(requests.push(record).drop_last() == requests);
}

/// A raw connection is joined with the local server's as soon as the port is known, it waits while
/// the port may still become known, and it is dropped when that can no longer be.
pub proof fn law_raw_connection(
    port: u16,
    closed: bool,
    known: TcpStep,
    open: TcpStep,
    over: TcpStep,
)
    requires
        call_ensures(tcp_step, (Some(port), closed), known),
        call_ensures(tcp_step, (None::<u16>, false), open),
        call_ensures(tcp_step, (None::<u16>, true), over),
    ensures
        known == TcpStep::Connect(port),
        open is Wait,
        over is Drop,
{
}

/// The status codes are those that HTTP gives these meanings, and a session whose endpoint takes no
/// more connections is closed.
pub proof fn law_codes()
    ensures
        SWITCHING_PROTOCOLS == 101,
        BAD_REQUEST == 400,
        SERVICE_UNAVAILABLE == 503,
        SESSION_CLOSED@ == "closed"@,
{
}

} // verus!
