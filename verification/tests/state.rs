use nserve::state::{AppState, RequestRecord, TimeOfDay, REQUEST_LIMIT};

fn record(uri: &str) -> RequestRecord {
    RequestRecord {
        at: TimeOfDay::new(3_661, 5).unwrap(),
        method: "GET".to_owned(),
        uri: uri.to_owned(),
        status: 200,
        elapsed_ms: 3,
    }
}

#[test]
fn shows_what_is_known_at_first() {
    let state = AppState::new("https://random.ngrok.app".to_owned());
    assert_eq!(
        state.render(),
        "\r\n[nserve] status\r\n  URL: https://random.ngrok.app\r\n  Local: waiting for child listener\r\n  Session: connected\r\n  Recent requests:\r\n    (none)\r\n"
    );
}

#[test]
fn shows_the_latest_request_first() {
    let mut state = AppState::new("u".to_owned());
    state.set_local_port(3000);
    state.set_session("closed");
    state.record(record("/first"));
    state.record(RequestRecord {
        at: TimeOfDay::new(86_399, 1_000_000_000).unwrap(),
        method: "PROPFIND".to_owned(),
        uri: "/second".to_owned(),
        status: 7,
        elapsed_ms: 12_345_678,
    });
    assert_eq!(
        state.render(),
        "\r\n[nserve] status\r\n  URL: u\r\n  Local: http://localhost:3000\r\n  Session: closed\r\n  Recent requests:\r\n    23:59:60 PROPFIND 7   12345678ms /second\r\n    01:01:01 GET     200      3ms /first\r\n"
    );
}

#[test]
fn forgets_the_oldest_request() {
    let mut state = AppState::new("u".to_owned());
    for n in 0..REQUEST_LIMIT + 5 {
        state.record(record(&format!("/{n}")));
    }
    let page = state.render();
    let uris: Vec<&str> = page
        .lines()
        .filter_map(|line| line.split_once("ms /").map(|(_, uri)| uri))
        .collect();
    let expected: Vec<String> = (5..REQUEST_LIMIT + 5).rev().map(|n| n.to_string()).collect();
    assert_eq!(uris, expected);
}

#[test]
fn times_of_day_are_checked() {
    assert_eq!(TimeOfDay::new(0, 0).unwrap().clock(), "00:00:00");
    assert_eq!(TimeOfDay::new(45_296, 999_999_999).unwrap().clock(), "12:34:56");
    assert_eq!(TimeOfDay::new(59, 1_999_999_999).unwrap().clock(), "00:00:60");
    assert!(TimeOfDay::new(86_400, 0).is_none());
    assert!(TimeOfDay::new(59, 2_000_000_000).is_none());
    assert!(TimeOfDay::new(86_399, u32::MAX).is_none());
}

#[test]
fn leap_seconds_may_follow_any_second() {
    assert_eq!(TimeOfDay::new(58, 1_000_000_000).unwrap().clock(), "00:00:59");
    assert_eq!(TimeOfDay::new(0, 1_500_000_000).unwrap().clock(), "00:00:01");
    assert_eq!(TimeOfDay::new(86_164, 1_333_333_333).unwrap().clock(), "23:56:05");
    assert_eq!(TimeOfDay::new(86_398, 999_999_999).unwrap().clock(), "23:59:58");
}

#[test]
fn records_are_copied_whole() {
    let original = RequestRecord {
        at: TimeOfDay::new(58, 1_000_000_000).unwrap(),
        method: "DELETE".to_owned(),
        uri: "/x?y".to_owned(),
        status: 204,
        elapsed_ms: 17,
    };
    let mut first = String::new();
    original.push_line(&mut first);
    let mut second = String::new();
    original.clone().push_line(&mut second);
    assert_eq!(first, "    00:00:59 DELETE  204     17ms /x?y\r\n");
    assert_eq!(second, first);
}
