use hyper::header::{HeaderMap, HeaderValue};
use nserve::proxy::{
    answer, begin_request, error_response, finish_request, is_head, mentions_upgrade,
    record_request, route, route_target, tcp_step, upstream_target, waiting_response,
    wants_upgrade, Answer, Exchange, Opening, Reply, Route, TcpStep, WAITING_PAGE,
};
use nserve::state::{AppState, TimeOfDay};

fn header(reply: &Reply, name: &str) -> Option<&'static str> {
    reply
        .headers
        .iter()
        .find(|(key, _)| *key == name)
        .map(|(_, value)| *value)
}

#[test]
fn waiting_page_is_retryable_and_not_cached() {
    let response = waiting_response(false);
    assert_eq!(response.status, 503);
    assert_eq!(header(&response, "retry-after"), Some("1"));
    assert_eq!(header(&response, "cache-control"), Some("no-store"));
    assert_eq!(header(&response, "refresh"), Some("1"));
}

#[test]
fn waiting_page_is_html() {
    let response = waiting_response(false);
    assert_eq!(
        header(&response, "content-type"),
        Some("text/html; charset=utf-8")
    );
    assert_eq!(response.body, WAITING_PAGE);
    assert!(response.body.starts_with("<!doctype html>\n<html lang=\"en\">\n"));
    assert!(response.body.contains("Starting the local server\u{2026}"));
    assert!(response.body.ends_with("1000)</script>\n</html>"));
}

#[test]
fn head_gets_the_headers_alone() {
    let head = waiting_response(true);
    let page = waiting_response(false);
    assert_eq!(head.body, "");
    assert_eq!(head.status, page.status);
    assert_eq!(head.headers, page.headers);
}

#[test]
fn requests_wait_for_the_local_server() {
    match route(None, Some("/x"), "GET") {
        Route::Reply(reply) => {
            assert_eq!(reply.status, 503);
            assert_eq!(reply.body, WAITING_PAGE);
        }
        Route::Forward(_) => panic!("forwarded"),
    }
    match route(None, Some("/x"), "HEAD") {
        Route::Reply(reply) => assert_eq!(reply.body, ""),
        Route::Forward(_) => panic!("forwarded"),
    }
    assert!(is_head("HEAD"));
    assert!(!is_head("head"));
}

#[test]
fn requests_keep_their_path_and_query() {
    assert!(matches!(
        route(Some(3000), Some("/a/b?c=d&e"), "GET"),
        Route::Forward(target) if target == "http://localhost:3000/a/b?c=d&e"
    ));
    assert!(matches!(
        route(Some(65535), None, "POST"),
        Route::Forward(target) if target == "http://localhost:65535/"
    ));
    assert_eq!(upstream_target(80, Some("*")), "http://localhost:80*");
}

#[test]
fn invalid_targets_are_bad_requests() {
    match route(Some(3000), Some("/a b"), "GET") {
        Route::Reply(reply) => {
            assert_eq!(reply.status, 400);
            assert_eq!(reply.body, "invalid upstream URI: invalid uri character");
            assert!(reply.headers.is_empty());
        }
        Route::Forward(_) => panic!("forwarded"),
    }
    assert!(matches!(
        route_target("t".to_owned(), Some("why".to_owned())),
        Route::Reply(reply) if reply.body == "invalid upstream URI: why" && reply.status == 400
    ));
    assert!(matches!(
        route_target("t".to_owned(), None),
        Route::Forward(target) if target == "t"
    ));
    assert_eq!(error_response(418, "x".to_owned()).body, "x");
}

#[test]
fn an_upgrade_header_asks_for_an_upgrade() {
    let mut headers = HeaderMap::new();
    assert!(!wants_upgrade(&headers));
    headers.insert("Upgrade", HeaderValue::from_static("websocket"));
    assert!(wants_upgrade(&headers));
}

#[test]
fn a_connection_header_asks_for_an_upgrade() {
    let mut headers = HeaderMap::new();
    headers.insert("connection", HeaderValue::from_static("keep-alive, UpGrade"));
    assert!(wants_upgrade(&headers));
    headers.insert("connection", HeaderValue::from_static("keep-alive"));
    assert!(!wants_upgrade(&headers));
    headers.append("connection", HeaderValue::from_static("upgrade"));
    assert!(!wants_upgrade(&headers));
    headers.insert("connection", HeaderValue::from_bytes(b"upgrade\xff").unwrap());
    assert!(!wants_upgrade(&headers));
}

#[test]
fn only_text_asks_for_an_upgrade() {
    assert!(mentions_upgrade(b"\tUPGRADE~"));
    assert!(!mentions_upgrade(b"upgrad"));
    assert!(!mentions_upgrade(b"up grade"));
    assert!(!mentions_upgrade(b"upgrade\x7f"));
    assert!(!mentions_upgrade(b"upgrade\n"));
    assert!(!mentions_upgrade(b""));
}

#[test]
fn answers_are_relayed() {
    assert!(matches!(
        answer(Some(200), "GET", true),
        Answer::Relay { status: 200, bridge: false }
    ));
    assert!(matches!(
        answer(Some(101), "GET", false),
        Answer::Relay { status: 101, bridge: false }
    ));
    let bridged = answer(Some(101), "GET", true);
    assert!(matches!(bridged, Answer::Relay { status: 101, bridge: true }));
    assert_eq!(bridged.status_code(), 101);
}

#[test]
fn a_silent_server_is_waited_for() {
    let waiting = answer(None, "HEAD", true);
    assert_eq!(waiting.status_code(), 503);
    assert!(matches!(waiting, Answer::Reply(reply) if reply.body.is_empty()));
    assert!(matches!(
        answer(None, "GET", false),
        Answer::Reply(reply) if reply.body == WAITING_PAGE
    ));
}

#[test]
fn answered_requests_are_remembered() {
    let mut state = AppState::new("https://x".to_owned());
    let noon = TimeOfDay::new(43_200, 0).unwrap();
    record_request(&mut state, noon, "GET".to_owned(), "/a".to_owned(), 404, 12);
    assert!(state.render().ends_with("    12:00:00 GET     404     12ms /a\r\n"));
}

fn begin(
    state: &mut AppState,
    method: &str,
    uri: &str,
    upstream: Option<u16>,
    path: Option<&str>,
) -> Opening {
    let noon = TimeOfDay::new(43_200, 0).unwrap();
    begin_request(state, noon, method.to_owned(), uri.to_owned(), upstream, path, 1)
}

fn pending(opening: Opening) -> (String, Exchange) {
    match opening {
        Opening::Pending { target, exchange } => (target, exchange),
        Opening::Answered(reply) => panic!("answered with {}", reply.status),
    }
}

fn finish(
    state: &mut AppState,
    exchange: Exchange,
    outcome: Option<u16>,
    wants_upgrade: bool,
) -> Answer {
    let later = TimeOfDay::new(43_201, 0).unwrap();
    finish_request(state, later, exchange, outcome, wants_upgrade, 20)
}

fn lines(state: &AppState) -> Vec<String> {
    let page = state.render();
    let (_, lines) = page.split_once("Recent requests:\r\n").unwrap();
    lines.lines().map(str::to_owned).collect()
}

#[test]
fn requests_answered_at_once_are_remembered() {
    let mut state = AppState::new("u".to_owned());
    match begin(&mut state, "GET", "/a?b", None, Some("/a?b")) {
        Opening::Answered(reply) => {
            assert_eq!(reply.status, 503);
            assert_eq!(reply.body, WAITING_PAGE);
        }
        Opening::Pending { .. } => panic!("handed on"),
    }
    assert_eq!(lines(&state), ["    12:00:00 GET     503      1ms /a?b"]);
    match begin(&mut state, "HEAD", "/c", None, Some("/c")) {
        Opening::Answered(reply) => assert_eq!(reply.body, ""),
        Opening::Pending { .. } => panic!("handed on"),
    }
    match begin(&mut state, "PUT", "/d", Some(3000), Some("/no uri")) {
        Opening::Answered(reply) => {
            assert_eq!(reply.status, 400);
            assert!(reply.body.starts_with("invalid upstream URI: "));
        }
        Opening::Pending { .. } => panic!("handed on"),
    }
    assert_eq!(
        lines(&state),
        [
            "    12:00:00 PUT     400      1ms /d",
            "    12:00:00 HEAD    503      1ms /c",
            "    12:00:00 GET     503      1ms /a?b",
        ]
    );
}

#[test]
fn requests_handed_on_are_remembered_when_they_are_answered() {
    let mut state = AppState::new("u".to_owned());
    let (target, first) = pending(begin(&mut state, "POST", "/a", Some(3000), Some("/a")));
    assert_eq!(target, "http://localhost:3000/a");
    let (_, second) = pending(begin(&mut state, "GET", "/b", Some(3000), Some("/b")));
    assert_eq!(lines(&state), ["    (none)"]);
    let answer = finish(&mut state, second, Some(101), true);
    assert!(matches!(answer, Answer::Relay { status: 101, bridge: true }));
    assert_eq!(lines(&state), ["    12:00:01 GET     101     20ms /b"]);
    let answer = finish(&mut state, first, Some(404), true);
    assert!(matches!(answer, Answer::Relay { status: 404, bridge: false }));
    assert_eq!(
        lines(&state),
        ["    12:00:01 POST    404     20ms /a", "    12:00:01 GET     101     20ms /b"]
    );
}

#[test]
fn requests_without_an_answer_are_remembered() {
    let mut state = AppState::new("u".to_owned());
    let (target, exchange) = pending(begin(&mut state, "HEAD", "*", Some(80), None));
    assert_eq!(target, "http://localhost:80/");
    match finish(&mut state, exchange, None, false) {
        Answer::Reply(reply) => {
            assert_eq!(reply.status, 503);
            assert_eq!(reply.body, "");
        }
        Answer::Relay { .. } => panic!("relayed"),
    }
    assert_eq!(lines(&state), ["    12:00:01 HEAD    503     20ms *"]);
}

#[test]
fn remembering_a_request_adds_it_once() {
    let mut state = AppState::new("u".to_owned());
    for n in 0..150 {
        begin(&mut state, "GET", &format!("/{n}"), None, Some("/"));
        let now = lines(&state);
        assert_eq!(now.len(), (n + 1).min(100));
        assert!(now[0].ends_with(&format!(" /{n}")));
    }
    assert!(lines(&state)[99].ends_with(" /50"));
}

#[test]
fn raw_connections_wait_for_the_port() {
    assert_eq!(tcp_step(Some(5432), false), TcpStep::Connect(5432));
    assert_eq!(tcp_step(Some(5432), true), TcpStep::Connect(5432));
    assert_eq!(tcp_step(None, false), TcpStep::Wait);
    assert_eq!(tcp_step(None, true), TcpStep::Drop);
}
