//! What the status page shows.

use std::collections::VecDeque;

use vstd::prelude::*;

use crate::text::{
    decimal, digit, law_numerals, number, pad_left, pad_right, padding, push_decimal, push_padding,
};

verus! {

/// How many requests the status page remembers.
pub const REQUEST_LIMIT: usize = 100;

/// A time of day: seconds since midnight, and nanoseconds, which reach a second only in a leap
/// second. A leap second may follow any second, since the offset of a time zone need not be whole
/// minutes.
#[derive(Clone, Copy, Debug)]
pub struct TimeOfDay {
    seconds: u32,
    nanos: u32,
}

/// Whether `seconds` since midnight and `nanos` are a time of day.
pub open spec fn is_time_of_day(seconds: u32, nanos: u32) -> bool {
    &&& seconds < 86_400
    &&& nanos < 2_000_000_000
}

/// `n`, which is below a hundred, in two digits.
pub open spec fn two_digits(n: int) -> Seq<char> {
    seq![digit(n / 10), digit(n % 10)]
}

/// A time of day as hours, minutes and seconds. A leap second is one more than the second that it
/// follows.
pub open spec fn clock_text(seconds: u32, nanos: u32) -> Seq<char> {
    two_digits(seconds as int / 3600) + seq![':'] + two_digits(seconds as int / 60 % 60) + seq![':']
        + two_digits(seconds as int % 60 + nanos as int / 1_000_000_000)
}

/// Calls `chrono::NaiveTime::from_num_seconds_from_midnight_opt`, which gives no time where the
/// day has no such second, sets the nanoseconds with `chrono::Timelike::with_nanosecond`, which
/// gives no time from two seconds on, and formats the time with `chrono::NaiveTime::format`, which
/// writes hours, minutes and seconds in two digits each for the format `%H:%M:%S`, and adds a leap
/// second to the seconds.
#[verifier::external_body]
fn format_time(seconds: u32, nanos: u32, format: &str) -> (text: Option<String>)
    requires
        format@ == "%H:%M:%S"@,
    ensures
        text is Some == is_time_of_day(seconds, nanos),
        text matches Some(clock) ==> clock@ == clock_text(seconds, nanos),
{
    chrono::NaiveTime::from_num_seconds_from_midnight_opt(seconds, 0).and_then(
        |time| chrono::Timelike::with_nanosecond(&time, nanos),
    ).map(|time| time.format(format).to_string())
}

impl TimeOfDay {
    /// The seconds since midnight.
    pub closed spec fn seconds(self) -> u32 {
        self.seconds
    }

    /// The nanoseconds.
    pub closed spec fn nanos(self) -> u32 {
        self.nanos
    }

    #[verifier::type_invariant]
    spec fn valid(self) -> bool {
        is_time_of_day(self.seconds, self.nanos)
    }

    /// The time of day `seconds` and `nanos` after midnight, where there is such a time.
    pub fn new(seconds: u32, nanos: u32) -> (time: Option<TimeOfDay>)
        ensures
            match time {
                Some(time) => is_time_of_day(seconds, nanos) && time.seconds() == seconds
                    && time.nanos() == nanos,
                None => !is_time_of_day(seconds, nanos),
            },
    {
        if seconds < 86_400 && nanos < 2_000_000_000 {
            Some(TimeOfDay { seconds, nanos })
        } else {
            None
        }
    }

    /// Hours, minutes and seconds.
    pub fn clock(&self) -> (text: String)
        ensures
            text@ == clock_text(self.seconds(), self.nanos()),
    {
        proof {
            use_type_invariant(self);
        }
        format_time(self.seconds, self.nanos, "%H:%M:%S").unwrap()
    }
}

/// A request that was answered.
#[derive(Debug)]
pub struct RequestRecord {
    /// When it was answered.
    pub at: TimeOfDay,
    /// Its method.
    pub method: String,
    /// The URI that it was made for.
    pub uri: String,
    /// The status code of the answer.
    pub status: u16,
    /// How many milliseconds the answer took.
    pub elapsed_ms: u128,
}

impl Clone for RequestRecord {
    fn clone(&self) -> (copy: Self)
        ensures
            copy == *self,
    {
        RequestRecord {
            at: self.at,
            method: self.method.clone(),
            uri: self.uri.clone(),
            status: self.status,
            elapsed_ms: self.elapsed_ms,
        }
    }
}

impl RequestRecord {
    /// The record's line on the status page.
    pub open spec fn line(self) -> Seq<char> {
        "    "@ + clock_text(self.at.seconds(), self.at.nanos()) + " "@ + pad_right(self.method@, 7)
            + " "@ + pad_right(decimal(self.status as nat), 3) + " "@ + pad_left(
            decimal(self.elapsed_ms as nat),
            6,
        ) + "ms "@ + self.uri@ + "\r\n"@
    }

    /// Appends the record's line on the status page to `out`.
    pub fn push_line(&self, out: &mut String)
        ensures
            final(out)@ == old(out)@ + self.line(),
    {
        let clock = self.at.clock();
        let mut status: String = String::new();
        push_decimal(&mut status, self.status as u128);
        let mut elapsed: String = String::new();
        push_decimal(&mut elapsed, self.elapsed_ms);
        assert(status@ == decimal(self.status as nat));
        assert(elapsed@ == decimal(self.elapsed_ms as nat));
        out.append("    ");
        out.append(clock.as_str());
        out.append(" ");
        out.append(self.method.as_str());
        push_padding(out, self.method.as_str(), 7);
        out.append(" ");
        out.append(status.as_str());
        push_padding(out, status.as_str(), 3);
        out.append(" ");
        push_padding(out, elapsed.as_str(), 6);
        out.append(elapsed.as_str());
        out.append("ms ");
        out.append(self.uri.as_str());
        out.append("\r\n");
        assert(out@ == old(out)@ + self.line());
    }
}

/// The lines of `requests` on the status page, the latest request first.
pub open spec fn request_lines(requests: Seq<RequestRecord>) -> Seq<char>
    decreases requests.len(),
{
    if requests.len() == 0 {
        Seq::empty()
    } else {
        requests.last().line() + request_lines(requests.drop_last())
    }
}

/// `requests` after `record`: the oldest goes when there would be too many.
pub open spec fn recorded(requests: Seq<RequestRecord>, record: RequestRecord) -> Seq<
    RequestRecord,
> {
    if requests.len() == REQUEST_LIMIT {
        requests.drop_first().push(record)
    } else {
        requests.push(record)
    }
}

/// What the status page knows.
pub struct Status {
    /// The public URL.
    pub url: Seq<char>,
    /// The port of the local server, once it is known.
    pub local_port: Option<u16>,
    /// The state of the ngrok session.
    pub session: Seq<char>,
    /// The latest requests, the oldest first.
    pub requests: Seq<RequestRecord>,
}

impl Status {
    /// Whether no more requests are remembered than there is room for.
    pub open spec fn within_limit(self) -> bool {
        self.requests.len() <= REQUEST_LIMIT
    }

    /// Where the local server is.
    pub open spec fn local_text(self) -> Seq<char> {
        match self.local_port {
            Some(port) => "http://localhost:"@ + decimal(port as nat),
            None => "waiting for child listener"@,
        }
    }

    /// The status page.
    pub open spec fn page(self) -> Seq<char> {
        "\r\n[nserve] status\r\n  URL: "@ + self.url + "\r\n  Local: "@ + self.local_text()
            + "\r\n  Session: "@ + self.session + "\r\n  Recent requests:\r\n"@
            + if self.requests.len() == 0 {
            "    (none)\r\n"@
        } else {
            request_lines(self.requests)
        }
    }
}

/// The state of the running program that the status page shows.
#[derive(Debug)]
pub struct AppState {
    url: String,
    local_port: Option<u16>,
    session: String,
    requests: VecDeque<RequestRecord>,
}

impl View for AppState {
    type V = Status;

    closed spec fn view(&self) -> Status {
        Status {
            url: self.url@,
            local_port: self.local_port,
            session: self.session@,
            requests: self.requests@,
        }
    }
}

impl AppState {
    /// The state once the public URL is known: connected, with no local server and no requests
    /// yet.
    pub fn new(url: String) -> (state: AppState)
        ensures
            state@ == (Status {
                url: url@,
                local_port: None,
                session: "connected"@,
                requests: Seq::empty(),
            }),
            state@.within_limit(),
    {
        AppState {
            url,
            local_port: None,
            session: "connected".to_owned(),
            requests: VecDeque::new(),
        }
    }

    /// Remembers `record`, and forgets the oldest request when there are too many.
    pub fn record(&mut self, record: RequestRecord)
        ensures
            final(self)@ == (Status {
                requests: recorded(old(self)@.requests, record),
                ..old(self)@
            }),
            old(self)@.within_limit() ==> final(self)@.within_limit(),
    {
        if self.requests.len() == REQUEST_LIMIT {
            self.requests.pop_front();
            assert(self.requests@ == old(self).requests@.drop_first());
        }
        self.requests.push_back(record);
    }

    /// Sets the state of the ngrok session.
    pub fn set_session(&mut self, session: &str)
        ensures
            final(self)@ == (Status { session: session@, ..old(self)@ }),
    {
        self.session = session.to_owned();
    }

    /// Sets the port of the local server.
    pub fn set_local_port(&mut self, port: u16)
        ensures
            final(self)@ == (Status { local_port: Some(port), ..old(self)@ }),
    {
        self.local_port = Some(port);
    }

    /// The status page.
    pub fn render(&self) -> (page: String)
        ensures
            page@ == self@.page(),
    {
        let mut output: String = "\r\n[nserve] status\r\n  URL: ".to_owned();
        output.append(self.url.as_str());
        output.append("\r\n  Local: ");
        match self.local_port {
            Some(port) => {
                output.append("http://localhost:");
                push_decimal(&mut output, port as u128);
            },
            None => output.append("waiting for child listener"),
        }
        output.append("\r\n  Session: ");
        output.append(self.session.as_str());
        output.append("\r\n  Recent requests:\r\n");
        let ghost head = output@;
        assert(head == "\r\n[nserve] status\r\n  URL: "@ + self@.url + "\r\n  Local: "@
            + self@.local_text() + "\r\n  Session: "@ + self@.session
            + "\r\n  Recent requests:\r\n"@);
        if self.requests.len() == 0 {
            output.append("    (none)\r\n");
        } else {
            let mut i: usize = self.requests.len();
            assert(self.requests@.take(i as int) == self.requests@);
            while i > 0
                invariant
                    0 <= i <= self.requests@.len(),
                    output@ + request_lines(self.requests@.take(i as int)) == head + request_lines(
                        self.requests@,
                    ),
                decreases i,
            {
                let ghost now = self.requests@.take(i as int);
                let ghost before = output@;
                i = i - 1;
                self.requests[i].push_line(&mut output);
                proof {
                    assert(now.drop_last() == self.requests@.take(i as int));
                    assert(output@ + request_lines(now.drop_last()) == before + (now.last().line()
                        + request_lines(now.drop_last())));
                }
            }
            assert(output@ == head + request_lines(self.requests@));
        }
        output
    }
}

/// What is remembered after all of `records`, from the start.
pub open spec fn recorded_all(records: Seq<RequestRecord>) -> Seq<RequestRecord>
    decreases records.len(),
{
    if records.len() == 0 {
        Seq::empty()
    } else {
        recorded(recorded_all(records.drop_last()), records.last())
    }
}

/// The latest requests are remembered, as many as there is room for, in their order, whatever
/// number was made.
pub proof fn law_latest_requests_are_remembered(records: Seq<RequestRecord>)
    ensures
        recorded_all(records) == if records.len() <= REQUEST_LIMIT {
            records
        } else {
            records.skip(records.len() - REQUEST_LIMIT)
        },
    decreases records.len(),
{
    if records.len() > 0 {
        law_latest_requests_are_remembered(records.drop_last());
        assert(records.drop_last().push(records.last()) == records);
        let before = recorded_all(records.drop_last());
        if records.len() > REQUEST_LIMIT {
            assert(before.drop_first().push(records.last()) == records.skip(
                records.len() - REQUEST_LIMIT,
            ));
        }
    }
}

proof fn lemma_two_digits(n: int)
    requires
        0 <= n < 100,
    ensures
        number(two_digits(n), 10, 99) == Some(n as nat),
        two_digits(n).len() == 2,
{
    let tens = digit(n / 10);
    let ones = digit(n % 10);
    law_numerals(seq![tens], tens, 10, 99);
    law_numerals(seq![tens], ones, 10, 99);
    assert(seq![tens].push(ones) == two_digits(n));
}

proof fn lemma_clock_parts(hour: int, minute: int, second: int)
    requires
        0 <= hour < 24,
        0 <= minute < 60,
        0 <= second < 60,
    ensures
        (hour * 3600 + minute * 60 + second) / 3600 == hour,
        (hour * 3600 + minute * 60 + second) / 60 % 60 == minute,
        (hour * 3600 + minute * 60 + second) % 60 == second,
        0 <= hour * 3600 + minute * 60 + second < 86_400,
{
    let minutes = hour * 60 + minute;
    assert(hour * 3600 + minute * 60 + second == minutes * 60 + second);
    assert((minutes * 60 + second) / 60 == minutes);
    assert(minutes % 60 == minute);
}

proof fn lemma_clock_columns(a: Seq<char>, b: Seq<char>, c: Seq<char>)
    requires
        a.len() == 2,
        b.len() == 2,
        c.len() == 2,
    ensures
        ({
            let text = a + seq![':'] + b + seq![':'] + c;
            &&& text.len() == 8
            &&& text[2] == ':' && text[5] == ':'
            &&& text.subrange(0, 2) == a
            &&& text.subrange(3, 5) == b
            &&& text.subrange(6, 8) == c
        }),
{
}

/// Every second of the day is a time of day, with the nanoseconds of a second or of a leap second
/// behind it, and nothing else is. It is written as the hour, the minute and the second, each in
/// two digits, with colons between them, and a leap second counts one more.
pub proof fn law_clock(
    hour: u32,
    minute: u32,
    second: u32,
    seconds: u32,
    nanos: u32,
    time: Option<TimeOfDay>,
    shown: TimeOfDay,
    text: String,
    late: u32,
    never: Option<TimeOfDay>,
)
    requires
        hour < 24,
        minute < 60,
        second < 60,
        seconds == hour * 3600 + minute * 60 + second,
        call_ensures(TimeOfDay::new, (seconds, nanos), time),
        time matches Some(found) ==> found == shown,
        call_ensures(TimeOfDay::clock, (&shown,), text),
        late >= 86_400,
        call_ensures(TimeOfDay::new, (late, nanos), never),
    ensures
        never is None,
        time is Some == (nanos < 2_000_000_000),
        time is Some ==> {
            &&& text@.len() == 8
            &&& text@[2] == ':' && text@[5] == ':'
            &&& number(text@.subrange(0, 2), 10, 99) == Some(hour as nat)
            &&& number(text@.subrange(3, 5), 10, 99) == Some(minute as nat)
            &&& number(text@.subrange(6, 8), 10, 99) == Some(
                if nanos < 1_000_000_000 {
                    second as nat
                } else {
                    (second + 1) as nat
                },
            )
        },
{
    lemma_clock_parts(hour as int, minute as int, second as int);
    if time is Some {
        let last = second + nanos as int / 1_000_000_000;
        lemma_two_digits(hour as int);
        lemma_two_digits(minute as int);
        lemma_two_digits(last);
        lemma_clock_columns(two_digits(hour as int), two_digits(minute as int), two_digits(last));
    }
}

/// A request's line shows when it was answered, its method from the left in seven columns, its
/// status code from the left in three, its milliseconds from the right in six, and the whole URI.
/// Nothing is cut off: what is wider takes the room that it needs.
pub proof fn law_line_of_a_request(record: RequestRecord, out: &mut String, clock: String)
    requires
        call_ensures(RequestRecord::push_line, (&record, out), ()),
        call_ensures(TimeOfDay::clock, (&record.at,), clock),
    ensures
        ({
            let method = record.method@;
            let status = decimal(record.status as nat);
            let elapsed = decimal(record.elapsed_ms as nat);
            let method_gap = if method.len() < 7 {
                (7 - method.len()) as nat
            } else {
                0
            };
            let status_gap = if status.len() < 3 {
                (3 - status.len()) as nat
            } else {
                0
            };
            let elapsed_gap = if elapsed.len() < 6 {
                (6 - elapsed.len()) as nat
            } else {
                0
            };
            final(out)@ == old(out)@ + ("    "@ + clock@ + " "@ + (method + Seq::new(
                method_gap,
                |i: int| ' ',
            )) + " "@ + (status + Seq::new(status_gap, |i: int| ' ')) + " "@ + (Seq::new(
                elapsed_gap,
                |i: int| ' ',
            ) + elapsed) + "ms "@ + record.uri@ + "\r\n"@)
        }),
{
    let method = record.method@;
    let status = decimal(record.status as nat);
    let elapsed = decimal(record.elapsed_ms as nat);
    assert(padding(method, 7) == Seq::new(
        if method.len() < 7 {
            (7 - method.len()) as nat
        } else {
            0
        },
        |i: int| ' ',
    ));
    assert(padding(status, 3) == Seq::new(
        if status.len() < 3 {
            (3 - status.len()) as nat
        } else {
            0
        },
        |i: int| ' ',
    ));
    assert(padding(elapsed, 6) == Seq::new(
        if elapsed.len() < 6 {
            (6 - elapsed.len()) as nat
        } else {
            0
        },
        |i: int| ' ',
    ));
}

/// The status page shows the public URL, where the local server is, the state of the session, and
/// then the requests, or that there are none.
pub proof fn law_page(state: AppState, page: String)
    requires
        call_ensures(AppState::render, (&state,), page),
    ensures
        ({
            let head = "\r\n[nserve] status\r\n  URL: "@ + state@.url + "\r\n  Local: "@
                + match state@.local_port {
                Some(port) => "http://localhost:"@ + decimal(port as nat),
                None => "waiting for child listener"@,
            } + "\r\n  Session: "@ + state@.session + "\r\n  Recent requests:\r\n"@;
            &&& head.is_prefix_of(page@)
            &&& state@.requests.len() == 0 ==> page@ == head + "    (none)\r\n"@
        }),
{
    let head = "\r\n[nserve] status\r\n  URL: "@ + state@.url + "\r\n  Local: "@
        + match state@.local_port {
        Some(port) => "http://localhost:"@ + decimal(port as nat),
        None => "waiting for child listener"@,
    } + "\r\n  Session: "@ + state@.session + "\r\n  Recent requests:\r\n"@;
    assert(page@.subrange(0, head.len() as int) == head);
}

/// A request that comes on top of others is shown before them, and changes nothing else of the
/// page; and the first one is shown alone.
pub proof fn law_latest_request_is_shown_first(
    before: AppState,
    page_before: String,
    after: AppState,
    page_after: String,
    record: RequestRecord,
    line: &mut String,
    none: AppState,
    page_none: String,
)
    requires
        after@ == (Status { requests: before@.requests.push(record), ..before@ }),
        call_ensures(AppState::render, (&before,), page_before),
        call_ensures(AppState::render, (&after,), page_after),
        old(line)@ == Seq::<char>::empty(),
        call_ensures(RequestRecord::push_line, (&record, line), ()),
        none@ == (Status { requests: Seq::empty(), ..before@ }),
        call_ensures(AppState::render, (&none,), page_none),
    ensures
        exists|head: Seq<char>, rest: Seq<char>|
            #![trigger head + rest]
            {
                &&& page_none@ == head + "    (none)\r\n"@
                &&& before@.requests.len() > 0 ==> page_before@ == head + rest
                &&& before@.requests.len() == 0 ==> rest.len() == 0
                &&& page_after@ == head + final(line)@ + rest
            },
{
    let head = "\r\n[nserve] status\r\n  URL: "@ + before@.url + "\r\n  Local: "@
        + before@.local_text() + "\r\n  Session: "@ + before@.session
        + "\r\n  Recent requests:\r\n"@;
    let rest = request_lines(before@.requests);
    assert(before@.requests.push(record).drop_last() == before@.requests);
    assert(final(line)@ == record.line());
    assert(page_after@ == head + (record.line() + rest));
    assert(page_after@ == head + final(line)@ + rest);
    assert(page_none@ == head + "    (none)\r\n"@);
    assert(before@.requests.len() == 0 ==> rest.len() == 0);
    let all = head + rest;
    assert(before@.requests.len() > 0 ==> page_before@ == all);
}

/// The state starts connected, with the public URL, no local server and no requests. Each change
/// changes one thing: the session, the local port, or the requests, of which the latest hundred are
/// kept.
pub proof fn law_changes_of_the_state(
    url: String,
    first: AppState,
    with_session: &mut AppState,
    session: &str,
    with_port: &mut AppState,
    port: u16,
    with_request: &mut AppState,
    record: RequestRecord,
)
    requires
        call_ensures(AppState::new, (url,), first),
        call_ensures(AppState::set_session, (with_session, session), ()),
        call_ensures(AppState::set_local_port, (with_port, port), ()),
        call_ensures(AppState::record, (with_request, record), ()),
    ensures
        first@.url == url@,
        first@.local_port is None,
        first@.session == "connected"@,
        first@.requests.len() == 0,
        final(with_session)@.session == session@,
        final(with_session)@.url == old(with_session)@.url,
        final(with_session)@.local_port == old(with_session)@.local_port,
        final(with_session)@.requests == old(with_session)@.requests,
        final(with_port)@.local_port == Some(port),
        final(with_port)@.url == old(with_port)@.url,
        final(with_port)@.session == old(with_port)@.session,
        final(with_port)@.requests == old(with_port)@.requests,
        final(with_request)@.requests.last() == record,
        old(with_request)@.requests.len() < 100 ==> final(with_request)@.requests
            == old(with_request)@.requests.push(record),
        old(with_request)@.requests.len() == 100 ==> final(with_request)@.requests
            == old(with_request)@.requests.skip(1).push(record),
        final(with_request)@.url == old(with_request)@.url,
        final(with_request)@.session == old(with_request)@.session,
        final(with_request)@.local_port == old(with_request)@.local_port,
{
    if old(with_request)@.requests.len() == 100 {
        assert(old(with_request)@.requests.drop_first() == old(with_request)@.requests.skip(1));
    }
}

} // verus!
