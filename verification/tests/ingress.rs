use nserve::cli::Cli;
use nserve::ingress::{
    check_http_url, google_oauth_policy, parse_http_url, parse_tcp_address, plan_endpoint,
    Endpoint, IngressError, ParsedUrl, Scheme,
};

fn cli(tcp: bool, url: Option<&str>, google_oauth: Option<&str>) -> Cli {
    Cli {
        open: false,
        port: None,
        url: url.map(str::to_owned),
        google_oauth: google_oauth.map(str::to_owned),
        tcp,
        command: vec![b"server".to_vec()],
    }
}

fn parts(scheme: &str, host: Option<&str>, path: &str) -> ParsedUrl {
    ParsedUrl {
        scheme: scheme.to_owned(),
        host: host.map(str::to_owned),
        path: path.to_owned(),
        query: None,
        fragment: None,
    }
}

#[test]
fn parses_requested_http_url() {
    let (domain, scheme) = parse_http_url("http://demo.ngrok.app").unwrap();
    assert_eq!(domain, "demo.ngrok.app");
    assert!(matches!(scheme, Scheme::HTTP));
}

#[test]
fn policy_escapes_user_regex() {
    let policy = google_oauth_policy(r#"^a\"b@example\.com$"#).unwrap();
    let value: serde_json::Value = serde_json::from_str(&policy).unwrap();
    assert_eq!(value["on_http_request"][0]["actions"][0]["type"], "oauth");
    assert!(value["on_http_request"][1]["expressions"][0]
        .as_str()
        .unwrap()
        .contains(r#"a\\\"b"#));
}

#[test]
fn policy_is_written_without_blanks() {
    assert_eq!(
        google_oauth_policy(".*@example.com").unwrap(),
        concat_all(&[
            r#"{"on_http_request":[{"actions":[{"config":{"provider":"google"},"type":"oauth"}]},"#,
            r#"{"actions":[{"type":"deny"}],"expressions":["#,
            r#""!actions.ngrok.oauth.identity.email.matches(\".*@example.com\")""#,
            r#"]}]}"#,
        ])
    );
}

fn concat_all(pieces: &[&str]) -> String {
    pieces.concat()
}

#[test]
fn any_pattern_is_read_back_from_the_policy() {
    let mut patterns: Vec<String> = (0..0x100_u32)
        .filter_map(char::from_u32)
        .map(String::from)
        .collect();
    patterns.push("\"]}]}, {\"actions\": [{\"type\": \"custom-response\"}]}".to_owned());
    patterns.push("\\".to_owned());
    patterns.push("\u{2028}é🦀\u{7f}\u{0}\u{1f}\u{8}\u{c}".to_owned());
    for pattern in patterns {
        let policy = google_oauth_policy(&pattern).unwrap();
        let value: serde_json::Value = serde_json::from_str(&policy).unwrap();
        let rules = value["on_http_request"].as_array().unwrap();
        assert_eq!(rules.len(), 2);
        assert_eq!(rules[1]["actions"][0]["type"], "deny");
        let expression = rules[1]["expressions"][0].as_str().unwrap();
        let quoted = expression
            .strip_prefix("!actions.ngrok.oauth.identity.email.matches(")
            .and_then(|rest| rest.strip_suffix(')'))
            .unwrap();
        assert_eq!(serde_json::from_str::<String>(quoted).unwrap(), pattern);
    }
}

#[test]
fn empty_pattern_is_an_error() {
    let error = google_oauth_policy("").unwrap_err();
    assert!(matches!(error, IngressError::EmptyPattern));
    assert_eq!(error.message(), "--google-oauth requires a non-empty email regex");
}

#[test]
fn bare_domain_means_https() {
    let (domain, scheme) = parse_http_url("demo.ngrok.app").unwrap();
    assert_eq!(domain, "demo.ngrok.app");
    assert_eq!(scheme, Scheme::HTTPS);
    let (domain, scheme) = parse_http_url("https://DEMO.ngrok.app/").unwrap();
    assert_eq!(domain, "demo.ngrok.app");
    assert_eq!(scheme, Scheme::HTTPS);
}

#[test]
fn the_scheme_is_the_one_that_is_written() {
    for (value, expected) in [
        ("demo.ngrok.app", Scheme::HTTPS),
        ("https://demo.ngrok.app", Scheme::HTTPS),
        ("http://demo.ngrok.app", Scheme::HTTP),
        ("HTTP://demo.ngrok.app", Scheme::HTTP),
        ("Https://demo.ngrok.app", Scheme::HTTPS),
    ] {
        let (domain, scheme) = parse_http_url(value).unwrap();
        assert_eq!(domain, "demo.ngrok.app");
        assert_eq!(scheme, expected);
        match plan_endpoint(&cli(false, Some(value), None)).unwrap() {
            Endpoint::Http { address, policy } => {
                assert_eq!(address, Some(("demo.ngrok.app".to_owned(), expected)));
                assert_eq!(policy, None);
            }
            Endpoint::Tcp { .. } => panic!("raw"),
        }
    }
}

#[test]
fn requested_url_is_nothing_but_a_host() {
    for value in [
        "https://demo.ngrok.app/path",
        "demo.ngrok.app/path",
        "https://demo.ngrok.app/?query",
        "https://demo.ngrok.app/#fragment",
    ] {
        let error = parse_http_url(value).unwrap_err();
        assert!(matches!(error, IngressError::MoreThanAHost));
        assert_eq!(
            error.message(),
            "--url may not contain a path, query, or fragment"
        );
    }
}

#[test]
fn requested_url_is_of_http() {
    let error = parse_http_url("tcp://demo.ngrok.app:80").unwrap_err();
    assert_eq!(error.message(), "HTTP mode does not support a tcp --url");
    assert!(matches!(error, IngressError::UnsupportedScheme(_)));
}

#[test]
fn what_is_no_url_is_an_error() {
    let error = parse_http_url("https://").unwrap_err();
    assert!(matches!(error, IngressError::NotAUrl(_)));
    assert_eq!(
        error.message(),
        "--url must be an HTTP(S) URL or domain: empty host"
    );
}

#[test]
fn url_parts_decide() {
    assert!(matches!(
        check_http_url(parts("http", Some("a"), "/")),
        Ok((domain, Scheme::HTTP)) if domain == "a"
    ));
    assert!(matches!(
        check_http_url(parts("https", Some("a"), "/")),
        Ok((domain, Scheme::HTTPS)) if domain == "a"
    ));
    let error = check_http_url(parts("http", None, "/")).unwrap_err();
    assert!(matches!(error, IngressError::NoDomain));
    assert_eq!(error.message(), "--url is missing a domain");
    assert!(matches!(
        check_http_url(parts("ftp", None, "/x")),
        Err(IngressError::UnsupportedScheme(scheme)) if scheme == "ftp"
    ));
    assert!(matches!(
        check_http_url(parts("http", None, "")),
        Err(IngressError::MoreThanAHost)
    ));
    let mut url = parts("http", Some("a"), "/");
    url.query = Some(String::new());
    assert!(matches!(check_http_url(url), Err(IngressError::MoreThanAHost)));
    let mut url = parts("http", Some("a"), "/");
    url.fragment = Some(String::new());
    assert!(matches!(check_http_url(url), Err(IngressError::MoreThanAHost)));
}

#[test]
fn tcp_prefix_is_optional() {
    assert_eq!(
        parse_tcp_address("tcp://1.tcp.ngrok.io:12345").unwrap(),
        "1.tcp.ngrok.io:12345"
    );
    assert_eq!(
        parse_tcp_address("1.tcp.ngrok.io:12345").unwrap(),
        "1.tcp.ngrok.io:12345"
    );
    assert_eq!(parse_tcp_address("tcp://tcp://x").unwrap(), "tcp://x");
    for value in ["", "tcp://", "host", "tcp://host"] {
        let error = parse_tcp_address(value).unwrap_err();
        assert!(matches!(error, IngressError::NotAnAddress));
        assert_eq!(error.message(), "TCP --url must look like tcp://host:port");
    }
}

#[test]
fn plans_the_endpoint_that_is_asked_for() {
    assert!(matches!(
        plan_endpoint(&cli(true, None, Some("x"))),
        Ok(Endpoint::Tcp { remote_addr: None })
    ));
    assert!(matches!(
        plan_endpoint(&cli(true, Some("tcp://h:1"), None)),
        Ok(Endpoint::Tcp { remote_addr: Some(address) }) if address == "h:1"
    ));
    assert!(matches!(
        plan_endpoint(&cli(true, Some("h"), None)),
        Err(IngressError::NotAnAddress)
    ));
    assert!(matches!(
        plan_endpoint(&cli(false, None, None)),
        Ok(Endpoint::Http { address: None, policy: None })
    ));
    let policy = google_oauth_policy("x").unwrap();
    assert!(matches!(
        plan_endpoint(&cli(false, Some("demo.ngrok.app"), Some("x"))),
        Ok(Endpoint::Http { address: Some((domain, Scheme::HTTPS)), policy: Some(text) })
            if domain == "demo.ngrok.app" && text == policy
    ));
    assert!(matches!(
        plan_endpoint(&cli(false, None, Some(""))),
        Err(IngressError::EmptyPattern)
    ));
    assert!(matches!(
        plan_endpoint(&cli(false, Some("ftp://h"), Some(""))),
        Err(IngressError::UnsupportedScheme(_))
    ));
}
