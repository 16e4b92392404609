//! The public endpoint that is asked of ngrok.

use vstd::prelude::*;

use crate::cli::Cli;
use crate::json::{
    array_value, comes_before, json_array, json_char, json_escaped, json_object, json_string,
    json_text, law_string_is_read_back, listed, object_value, read_string, string_value, write_json,
};
use crate::text::{
    contains, from_chars, holds, law_prefix, stands_at, strip_prefix, to_chars, without_prefix,
};

verus! {

/// What an endpoint is said to forward to.
pub const FORWARDS_TO: &'static str = "nserve child process (waiting for listener)";

/// How a public URL is reached.
#[derive(Clone, Copy, Debug, PartialEq, Eq, Structural)]
pub enum Scheme {
    /// In the clear.
    HTTP,
    /// Over TLS.
    HTTPS,
}

/// The parts of a URL.
#[derive(Debug)]
pub struct ParsedUrl {
    /// Its scheme.
    pub scheme: String,
    /// Its host, where it has one.
    pub host: Option<String>,
    /// Its path.
    pub path: String,
    /// Its query, where it has one.
    pub query: Option<String>,
    /// Its fragment, where it has one.
    pub fragment: Option<String>,
}

/// The parts of a URL, as text.
pub struct UrlParts {
    /// Its scheme.
    pub scheme: Seq<char>,
    /// Its host, where it has one.
    pub host: Option<Seq<char>>,
    /// Its path.
    pub path: Seq<char>,
    /// Its query, where it has one.
    pub query: Option<Seq<char>>,
    /// Its fragment, where it has one.
    pub fragment: Option<Seq<char>>,
}

/// The text of a string, where there is one.
pub open spec fn text_of(value: Option<String>) -> Option<Seq<char>> {
    match value {
        Some(text) => Some(text@),
        None => None,
    }
}

impl View for ParsedUrl {
    type V = UrlParts;

    open spec fn view(&self) -> UrlParts {
        UrlParts {
            scheme: self.scheme@,
            host: text_of(self.host),
            path: self.path@,
            query: text_of(self.query),
            fragment: text_of(self.fragment),
        }
    }
}

/// The parts into which `url::Url::parse` takes `text`, or the reason why `text` is no URL.
pub uninterp spec fn url_parts(text: Seq<char>) -> Result<UrlParts, Seq<char>>;

/// Calls `url::Url::parse` and reads off the parts of the URL, or the reason why there is none. The
/// scheme of a URL is what stands before its first colon, so a text that starts with `http://` or
/// `https://` and is a URL has that scheme.
#[verifier::external_body]
fn parse_url(text: &str) -> (parsed: Result<ParsedUrl, String>)
    ensures
        match parsed {
            Ok(url) => url_parts(text@) == Ok::<UrlParts, Seq<char>>(url@),
            Err(reason) => url_parts(text@) == Err::<UrlParts, Seq<char>>(reason@),
        },
        parsed matches Ok(url) ==> ("http://"@.is_prefix_of(text@) ==> url.scheme@ == "http"@),
        parsed matches Ok(url) ==> ("https://"@.is_prefix_of(text@) ==> url.scheme@ == "https"@),
{
    match url::Url::parse(text) {
        Ok(url) => Ok(ParsedUrl {
            scheme: url.scheme().to_owned(),
            host: url.host_str().map(str::to_owned),
            path: url.path().to_owned(),
            query: url.query().map(str::to_owned),
            fragment: url.fragment().map(str::to_owned),
        }),
        Err(error) => Err(error.to_string()),
    }
}

/// Why an endpoint cannot be asked for.
#[derive(Debug)]
pub enum IngressError {
    /// The requested URL is none, for the reason given.
    NotAUrl(String),
    /// The requested URL has this scheme, which is not one of HTTP.
    UnsupportedScheme(String),
    /// The requested URL has more than a host.
    MoreThanAHost,
    /// The requested URL has no host.
    NoDomain,
    /// The requested address is not a host and a port.
    NotAnAddress,
    /// The pattern for email addresses is empty.
    EmptyPattern,
}

/// Why an endpoint cannot be asked for, as text.
pub enum IngressFault {
    /// The requested URL is none, for the reason given.
    NotAUrl(Seq<char>),
    /// The requested URL has this scheme, which is not one of HTTP.
    UnsupportedScheme(Seq<char>),
    /// The requested URL has more than a host.
    MoreThanAHost,
    /// The requested URL has no host.
    NoDomain,
    /// The requested address is not a host and a port.
    NotAnAddress,
    /// The pattern for email addresses is empty.
    EmptyPattern,
}

impl View for IngressError {
    type V = IngressFault;

    open spec fn view(&self) -> IngressFault {
        match self {
            IngressError::NotAUrl(reason) => IngressFault::NotAUrl(reason@),
            IngressError::UnsupportedScheme(scheme) => IngressFault::UnsupportedScheme(scheme@),
            IngressError::MoreThanAHost => IngressFault::MoreThanAHost,
            IngressError::NoDomain => IngressFault::NoDomain,
            IngressError::NotAnAddress => IngressFault::NotAnAddress,
            IngressError::EmptyPattern => IngressFault::EmptyPattern,
        }
    }
}

impl IngressFault {
    /// What to tell the user.
    pub open spec fn text(self) -> Seq<char> {
        match self {
            IngressFault::NotAUrl(reason) => "--url must be an HTTP(S) URL or domain: "@ + reason,
            IngressFault::UnsupportedScheme(scheme) => "HTTP mode does not support a "@ + scheme
                + " --url"@,
            IngressFault::MoreThanAHost => "--url may not contain a path, query, or fragment"@,
            IngressFault::NoDomain => "--url is missing a domain"@,
            IngressFault::NotAnAddress => "TCP --url must look like tcp://host:port"@,
            IngressFault::EmptyPattern => "--google-oauth requires a non-empty email regex"@,
        }
    }
}

impl IngressError {
    /// What to tell the user.
    pub fn message(&self) -> (message: String)
        ensures
            message@ == self@.text(),
    {
        match self {
            IngressError::NotAUrl(reason) => {
                "--url must be an HTTP(S) URL or domain: ".to_owned().concat(reason.as_str())
            },
            IngressError::UnsupportedScheme(scheme) => "HTTP mode does not support a ".to_owned().concat(
                scheme.as_str(),
            ).concat(" --url"),
            IngressError::MoreThanAHost => {
                "--url may not contain a path, query, or fragment".to_owned()
            },
            IngressError::NoDomain => "--url is missing a domain".to_owned(),
            IngressError::NotAnAddress => "TCP --url must look like tcp://host:port".to_owned(),
            IngressError::EmptyPattern => {
                "--google-oauth requires a non-empty email regex".to_owned()
            },
        }
    }
}

/// The domain and the scheme that a URL requests: it is a URL of HTTP with nothing but a host.
pub open spec fn requested(url: UrlParts) -> Result<(Seq<char>, Scheme), IngressFault> {
    if url.scheme != "http"@ && url.scheme != "https"@ {
        Err(IngressFault::UnsupportedScheme(url.scheme))
    } else if url.path != "/"@ || url.query is Some || url.fragment is Some {
        Err(IngressFault::MoreThanAHost)
    } else {
        match url.host {
            Some(domain) => Ok(
                (
                    domain,
                    if url.scheme == "http"@ {
                        Scheme::HTTP
                    } else {
                        Scheme::HTTPS
                    },
                ),
            ),
            None => Err(IngressFault::NoDomain),
        }
    }
}

/// Whether `result` is what `expected` says.
pub open spec fn same_address(
    result: Result<(String, Scheme), IngressError>,
    expected: Result<(Seq<char>, Scheme), IngressFault>,
) -> bool {
    match result {
        Ok((domain, scheme)) => expected == Ok::<(Seq<char>, Scheme), IngressFault>(
            (domain@, scheme),
        ),
        Err(error) => expected == Err::<(Seq<char>, Scheme), IngressFault>(error@),
    }
}

/// The domain and the scheme that `url` requests.
pub fn check_http_url(url: ParsedUrl) -> (address: Result<(String, Scheme), IngressError>)
    ensures
        same_address(address, requested(url@)),
{
    let scheme: Scheme = if url.scheme == "http".to_owned() {
        Scheme::HTTP
    } else if url.scheme == "https".to_owned() {
        Scheme::HTTPS
    } else {
        return Err(IngressError::UnsupportedScheme(url.scheme));
    };
    proof {
        reveal_strlit("http");
        reveal_strlit("https");
        assert("http"@.len() != "https"@.len());
    }
    if url.path != "/".to_owned() || url.query.is_some() || url.fragment.is_some() {
        return Err(IngressError::MoreThanAHost);
    }
    match url.host {
        Some(domain) => Ok((domain, scheme)),
        None => Err(IngressError::NoDomain),
    }
}

/// The URL that `value` stands for: a bare domain stands for its HTTPS URL.
pub open spec fn as_url(value: Seq<char>) -> Seq<char> {
    if holds(value, "://"@) {
        value
    } else {
        "https://"@ + value
    }
}

/// The domain and the scheme that `value`, a URL or a domain, requests.
pub open spec fn requested_by(value: Seq<char>) -> Result<(Seq<char>, Scheme), IngressFault> {
    match url_parts(as_url(value)) {
        Ok(url) => requested(url),
        Err(reason) => Err(IngressFault::NotAUrl(reason)),
    }
}

/// Whether `scheme` is the one that `value`, a URL or a domain, is written with: HTTPS for a bare
/// domain. A scheme that is not written in lower case is left open.
pub open spec fn written_with(value: Seq<char>, scheme: Scheme) -> bool {
    &&& !holds(value, "://"@) ==> scheme == Scheme::HTTPS
    &&& "https://"@.is_prefix_of(value) ==> scheme == Scheme::HTTPS
    &&& "http://"@.is_prefix_of(value) ==> scheme == Scheme::HTTP
}

/// The domain and the scheme that `value`, a URL or a domain, requests. A bare domain requests
/// HTTPS.
pub fn parse_http_url(value: &str) -> (address: Result<(String, Scheme), IngressError>)
    ensures
        same_address(address, requested_by(value@)),
        address matches Ok((domain, scheme)) ==> written_with(value@, scheme),
{
    proof {
        lemma_schemes(value@);
    }
    let chars = to_chars(value);
    let normalized: String = if contains(&chars, "://") {
        value.to_owned()
    } else {
        "https://".to_owned().concat(value)
    };
    match parse_url(normalized.as_str()) {
        Ok(url) => check_http_url(url),
        Err(reason) => Err(IngressError::NotAUrl(reason)),
    }
}

proof fn lemma_schemes(value: Seq<char>)
    ensures
        "http"@ != "https"@,
        "https://"@.is_prefix_of("https://"@ + value),
        "http://"@.is_prefix_of(value) ==> holds(value, "://"@),
        "https://"@.is_prefix_of(value) ==> holds(value, "://"@),
{
    reveal_strlit("http");
    reveal_strlit("https");
    reveal_strlit("http://");
    reveal_strlit("https://");
    reveal_strlit("://");
    assert("http"@.len() != "https"@.len());
    assert(("https://"@ + value).subrange(0, 8) == "https://"@);
    if "http://"@.is_prefix_of(value) {
        assert(value.subrange(4, 7) == value.subrange(0, 7).subrange(4, 7));
        assert(value.subrange(4, 7) == "://"@);
        assert(stands_at(value, "://"@, 4));
    }
    if "https://"@.is_prefix_of(value) {
        assert(value.subrange(5, 8) == value.subrange(0, 8).subrange(5, 8));
        assert(value.subrange(5, 8) == "://"@);
        assert(stands_at(value, "://"@, 5));
    }
}

/// `value` without the `tcp://` before it.
pub open spec fn without_tcp(value: Seq<char>) -> Seq<char> {
    match without_prefix(value, "tcp://"@) {
        Some(rest) => rest,
        None => value,
    }
}

/// The address that `value` requests, with or without `tcp://` before it: it holds a colon.
pub open spec fn requested_address(value: Seq<char>) -> Option<Seq<char>> {
    let address = without_tcp(value);
    if address.contains(':') {
        Some(address)
    } else {
        None
    }
}

/// The address that `value` requests.
pub fn parse_tcp_address(value: &str) -> (address: Result<String, IngressError>)
    ensures
        match requested_address(value@) {
            Some(expected) => address matches Ok(found) && found@ == expected,
            None => address matches Err(error) && error is NotAnAddress,
        },
{
    let chars = to_chars(value);
    let from: usize = match strip_prefix(&chars, "tcp://") {
        Some(from) => from,
        None => 0,
    };
    let address = from_chars(&chars, from, chars.len());
    assert(address@ == without_tcp(value@));
    let mut i: usize = from;
    while i < chars.len()
        invariant
            from <= i <= chars@.len(),
            address@ == without_tcp(value@),
            address@ == chars@.subrange(from as int, chars@.len() as int),
            forall|k: int| 0 <= k < i - from ==> address@[k] != ':',
        decreases chars@.len() - i,
    {
        if chars[i] == ':' {
            assert(address@[i - from] == ':');
            return Ok(address);
        }
        i = i + 1;
    }
    Err(IngressError::NotAnAddress)
}

/// The rule that turns away whoever logs in with an email address that `pattern` does not match.
pub open spec fn deny_expression(pattern: Seq<char>) -> Seq<char> {
    "!actions.ngrok.oauth.identity.email.matches("@ + json_string(pattern) + ")"@
}

/// The action that asks for a Google login.
pub open spec fn login_action() -> Seq<char> {
    json_object(
        seq![
            ("config"@, json_object(seq![("provider"@, json_string("google"@))])),
            ("type"@, json_string("oauth"@)),
        ],
    )
}

/// The rule that asks everyone for a Google login.
pub open spec fn login_rule() -> Seq<char> {
    json_object(seq![("actions"@, json_array(seq![login_action()]))])
}

/// The action that turns a user away.
pub open spec fn deny_action() -> Seq<char> {
    json_object(seq![("type"@, json_string("deny"@))])
}

/// The traffic policy that asks for a Google login, and then denies whoever the rule
/// `deny_expression` turns away.
pub open spec fn oauth_policy(pattern: Seq<char>) -> Seq<char> {
    let check = json_object(
        seq![
            ("actions"@, json_array(seq![deny_action()])),
            ("expressions"@, json_array(seq![json_string(deny_expression(pattern))])),
        ],
    );
    json_object(seq![("on_http_request"@, json_array(seq![login_rule(), check]))])
}

/// An object with one member.
fn object_of_one(key: &str, member: serde_json::Value) -> (object: serde_json::Value)
    ensures
        json_text(object) == json_object(seq![(key@, json_text(member))]),
{
    let members: Vec<(&str, serde_json::Value)> = vec![(key, member)];
    proof {
        assert(members@.map_values(
            |member: (&str, serde_json::Value)| (member.0@, json_text(member.1)),
        ) == seq![(key@, json_text(member))]);
    }
    object_value(members)
}

/// An object with two members, in the order of their keys.
fn object_of_two(
    first_key: &str,
    first: serde_json::Value,
    second_key: &str,
    second: serde_json::Value,
) -> (object: serde_json::Value)
    requires
        comes_before(first_key@, second_key@),
    ensures
        json_text(object) == json_object(
            seq![(first_key@, json_text(first)), (second_key@, json_text(second))],
        ),
{
    let members: Vec<(&str, serde_json::Value)> = vec![(first_key, first), (second_key, second)];
    proof {
        assert(members@.map_values(
            |member: (&str, serde_json::Value)| (member.0@, json_text(member.1)),
        ) == seq![(first_key@, json_text(first)), (second_key@, json_text(second))]);
    }
    object_value(members)
}

/// An array with one item.
fn array_of_one(item: serde_json::Value) -> (array: serde_json::Value)
    ensures
        json_text(array) == json_array(seq![json_text(item)]),
{
    let items: Vec<serde_json::Value> = vec![item];
    proof {
        assert(items@.map_values(|item: serde_json::Value| json_text(item)) == seq![
            json_text(item),
        ]);
    }
    array_value(items)
}

/// The traffic policy that requires a Google login with an email address that `pattern` matches.
/// An empty pattern is an error.
pub fn google_oauth_policy(pattern: &str) -> (policy: Result<String, IngressError>)
    ensures
        if pattern@.len() == 0 {
            policy matches Err(error) && error is EmptyPattern
        } else {
            policy matches Ok(text) && text@ == oauth_policy(pattern@)
        },
{
    if pattern.is_empty() {
        return Err(IngressError::EmptyPattern);
    }
    let quoted = write_json(&string_value(pattern)).unwrap();
    let expression = "!actions.ngrok.oauth.identity.email.matches(".to_owned().concat(
        quoted.as_str(),
    ).concat(")");
    proof {
        lemma_keys_ascend();
    }
    let login = object_of_two(
        "config",
        object_of_one("provider", string_value("google")),
        "type",
        string_value("oauth"),
    );
    let ask = object_of_one("actions", array_of_one(login));
    let check = object_of_two(
        "actions",
        array_of_one(object_of_one("type", string_value("deny"))),
        "expressions",
        array_of_one(string_value(expression.as_str())),
    );
    let ghost asked = json_text(ask);
    let ghost checked = json_text(check);
    let rules: Vec<serde_json::Value> = vec![ask, check];
    proof {
        assert(rules@.map_values(|item: serde_json::Value| json_text(item)) == seq![
            asked,
            checked,
        ]);
    }
    let policy = object_of_one("on_http_request", array_value(rules));
    Ok(write_json(&policy).unwrap())
}

proof fn lemma_keys_ascend()
    ensures
        comes_before("config"@, "type"@),
        comes_before("actions"@, "expressions"@),
{
    reveal_strlit("config");
    reveal_strlit("type");
    reveal_strlit("actions");
    reveal_strlit("expressions");
    assert("config"@.take(0) == "type"@.take(0));
    assert("actions"@.take(0) == "expressions"@.take(0));
}

/// The endpoint to ask ngrok for.
#[derive(Debug)]
pub enum Endpoint {
    /// A raw TCP endpoint, at this address where one is requested.
    Tcp { remote_addr: Option<String> },
    /// An HTTP endpoint, at this domain with this scheme where they are requested, under this
    /// traffic policy where there is one.
    Http { address: Option<(String, Scheme)>, policy: Option<String> },
}

/// The endpoint to ask ngrok for, as text.
pub enum EndpointPlan {
    /// A raw TCP endpoint, at this address where one is requested.
    Tcp { remote_addr: Option<Seq<char>> },
    /// An HTTP endpoint, at this domain with this scheme where they are requested, under this
    /// traffic policy where there is one.
    Http { address: Option<(Seq<char>, Scheme)>, policy: Option<Seq<char>> },
}

impl View for Endpoint {
    type V = EndpointPlan;

    open spec fn view(&self) -> EndpointPlan {
        match self {
            Endpoint::Tcp { remote_addr } => EndpointPlan::Tcp {
                remote_addr: text_of(*remote_addr),
            },
            Endpoint::Http { address, policy } => EndpointPlan::Http {
                address: match address {
                    Some((domain, scheme)) => Some((domain@, *scheme)),
                    None => None,
                },
                policy: text_of(*policy),
            },
        }
    }
}

/// The raw TCP endpoint at the address that `url` requests, where it requests one.
pub open spec fn planned_tcp(url: Option<String>) -> Result<EndpointPlan, IngressFault> {
    match url {
        Some(value) => match requested_address(value@) {
            Some(address) => Ok(EndpointPlan::Tcp { remote_addr: Some(address) }),
            None => Err(IngressFault::NotAnAddress),
        },
        None => Ok(EndpointPlan::Tcp { remote_addr: None }),
    }
}

/// The HTTP endpoint at `address`, under the policy for the pattern `google_oauth`, where there is
/// one.
pub open spec fn planned_policy(
    address: Option<(Seq<char>, Scheme)>,
    google_oauth: Option<String>,
) -> Result<EndpointPlan, IngressFault> {
    match google_oauth {
        Some(pattern) => if pattern@.len() == 0 {
            Err(IngressFault::EmptyPattern)
        } else {
            Ok(EndpointPlan::Http { address, policy: Some(oauth_policy(pattern@)) })
        },
        None => Ok(EndpointPlan::Http { address, policy: None }),
    }
}

/// The endpoint that `cli` asks for.
pub open spec fn planned(cli: Cli) -> Result<EndpointPlan, IngressFault> {
    if cli.tcp {
        planned_tcp(cli.url)
    } else {
        match cli.url {
            Some(value) => match requested_by(value@) {
                Ok(address) => planned_policy(Some(address), cli.google_oauth),
                Err(fault) => Err(fault),
            },
            None => planned_policy(None, cli.google_oauth),
        }
    }
}

/// The endpoint that `cli` asks for. What it asks for the other protocol is passed over.
pub fn plan_endpoint(cli: &Cli) -> (endpoint: Result<Endpoint, IngressError>)
    ensures
        match endpoint {
            Ok(plan) => planned(*cli) == Ok::<EndpointPlan, IngressFault>(plan@),
            Err(error) => planned(*cli) == Err::<EndpointPlan, IngressFault>(error@),
        },
        match (endpoint, cli.url) {
            (Ok(Endpoint::Http { address: Some((domain, scheme)), .. }), Some(value)) => {
                written_with(value@, scheme)
            },
            _ => true,
        },
{
    if cli.tcp {
        return match &cli.url {
            Some(value) => match parse_tcp_address(value.as_str()) {
                Ok(address) => Ok(Endpoint::Tcp { remote_addr: Some(address) }),
                Err(error) => Err(error),
            },
            None => Ok(Endpoint::Tcp { remote_addr: None }),
        };
    }
    let address: Option<(String, Scheme)> = match &cli.url {
        Some(value) => match parse_http_url(value.as_str()) {
            Ok(address) => Some(address),
            Err(error) => {
                return Err(error);
            },
        },
        None => None,
    };
    match &cli.google_oauth {
        Some(pattern) => match google_oauth_policy(pattern.as_str()) {
            Ok(policy) => Ok(Endpoint::Http { address, policy: Some(policy) }),
            Err(error) => Err(error),
        },
        None => Ok(Endpoint::Http { address, policy: None }),
    }
}

/// A bare domain requests the same as its HTTPS URL. That it then requests HTTPS, `parse_http_url`
/// states.
pub proof fn law_bare_domain_means_https(value: Seq<char>)
    requires
        !holds(value, "://"@),
    ensures
        requested_by(value) == requested_by("https://"@ + value),
{
    lemma_schemes(value);
    lemma_schemes("https://"@ + value);
}

/// The prefix of an address may be left out.
pub proof fn law_tcp_prefix_is_optional(address: Seq<char>)
    requires
        !"tcp://"@.is_prefix_of(address),
    ensures
        requested_address("tcp://"@ + address) == requested_address(address),
{
    let prefixed = "tcp://"@ + address;
    assert(prefixed.subrange(0, "tcp://"@.len() as int) == "tcp://"@);
    assert("tcp://"@.is_prefix_of(prefixed));
    assert(prefixed.skip("tcp://"@.len() as int) == address);
}

/// Where OAuth is asked for, no endpoint is planned without it: a command line that passes its own
/// check gets the policy, or an error.
pub proof fn law_oauth_is_never_dropped(cli: Cli)
    requires
        cli.google_oauth is Some,
        cli.checked() is Ok,
    ensures
        planned(cli) matches Ok(plan) ==> (plan matches EndpointPlan::Http {
            policy: Some(policy),
            ..
        } && policy == oauth_policy((cli.google_oauth->0)@)),
{
}

/// The policy up to the rule that turns users away.
pub open spec fn policy_head() -> Seq<char> {
    seq!['{'] + json_string("on_http_request"@) + seq![':', '['] + login_rule() + seq![',', '{']
        + json_string("actions"@) + seq![':'] + json_array(seq![deny_action()]) + seq![',']
        + json_string("expressions"@) + seq![':', '[']
}

/// The policy behind the rule that turns users away.
pub open spec fn policy_tail() -> Seq<char> {
    seq![']', '}', ']', '}']
}

/// Whatever the user's pattern holds, it changes nothing of the policy but the one rule that turns
/// users away: the rule is read back from the policy as it was written, and the pattern is read
/// back from the rule as the user gave it.
pub proof fn law_pattern_stays_in_its_place(pattern: Seq<char>)
    ensures
        oauth_policy(pattern) == policy_head() + json_string(deny_expression(pattern))
            + policy_tail(),
        read_string(json_string(deny_expression(pattern)) + policy_tail()) == Some(
            (deny_expression(pattern), policy_tail()),
        ),
        read_string(json_string(pattern) + ")"@) == Some((pattern, ")"@)),
{
    law_string_is_read_back(deny_expression(pattern), policy_tail());
    law_string_is_read_back(pattern, ")"@);
    let ask = login_rule();
    let rule = json_string(deny_expression(pattern));
    let denied = json_array(seq![deny_action()]);
    let check = json_object(seq![("actions"@, denied), ("expressions"@, json_array(seq![rule]))]);
    lemma_two_members("actions"@, denied, "expressions"@, json_array(seq![rule]));
    assert(json_array(seq![rule]) == seq!['['] + rule + seq![']']);
    lemma_two_items(ask, check);
    lemma_one_member("on_http_request"@, json_array(seq![ask, check]));
    lemma_assembled(
        json_string("on_http_request"@),
        ask,
        json_string("actions"@),
        denied,
        json_string("expressions"@),
        rule,
    );
}

proof fn lemma_assembled(
    outer: Seq<char>,
    ask: Seq<char>,
    actions: Seq<char>,
    denied: Seq<char>,
    expressions: Seq<char>,
    rule: Seq<char>,
)
    ensures
        seq!['{'] + outer + seq![':'] + (seq!['['] + ask + seq![','] + (seq!['{'] + actions + seq![
            ':',
        ] + denied + seq![','] + expressions + seq![':'] + (seq!['['] + rule + seq![']']) + seq![
            '}',
        ]) + seq![']']) + seq!['}'] == seq!['{'] + outer + seq![':', '['] + ask + seq![',', '{']
            + actions + seq![':'] + denied + seq![','] + expressions + seq![':', '['] + rule + seq![
            ']',
            '}',
            ']',
            '}',
        ],
{
    let list = seq!['['] + rule + seq![']'];
    let start = seq!['{'] + actions + seq![':'] + denied + seq![','] + expressions + seq![':'];
    let check = start + list + seq!['}'];
    assert(check == start + seq!['['] + rule + seq![']', '}']);
    let array = seq!['['] + ask + seq![','] + check + seq![']'];
    let middle = seq!['['] + ask + seq![','] + start + seq!['['];
    assert(array == middle + rule + seq![']', '}', ']']);
    let front = seq!['{'] + outer + seq![':'];
    assert(front + array + seq!['}'] == front + middle + rule + seq![']', '}', ']', '}']);
    let early = seq!['{'] + outer + seq![':', '['] + ask;
    let late = actions + seq![':'] + denied + seq![','] + expressions;
    assert(start == seq!['{'] + late + seq![':']);
    assert(front + middle == early + seq![',', '{'] + late + seq![':', '[']);
    assert(early + seq![',', '{'] + late + seq![':', '['] == early + seq![',', '{'] + actions + seq![
        ':',
    ] + denied + seq![','] + expressions + seq![':', '[']);
}

proof fn lemma_two_items(first: Seq<char>, second: Seq<char>)
    ensures
        json_array(seq![first, second]) == seq!['['] + first + seq![','] + second + seq![']'],
{
    assert(seq![first, second].drop_last() == seq![first]);
    assert(listed(seq![first]) == first);
    assert(listed(seq![first, second]) == first + seq![','] + second);
}

proof fn lemma_one_member(key: Seq<char>, value: Seq<char>)
    ensures
        json_object(seq![(key, value)]) == seq!['{'] + json_string(key) + seq![':'] + value + seq![
            '}',
        ],
{
    let members = seq![(key, value)].map_values(
        |member: (Seq<char>, Seq<char>)| json_string(member.0) + seq![':'] + member.1,
    );
    assert(members == seq![json_string(key) + seq![':'] + value]);
}

proof fn lemma_two_members(
    first_key: Seq<char>,
    first: Seq<char>,
    second_key: Seq<char>,
    second: Seq<char>,
)
    ensures
        json_object(seq![(first_key, first), (second_key, second)]) == seq!['{'] + json_string(
            first_key,
        ) + seq![':'] + first + seq![','] + json_string(second_key) + seq![':'] + second + seq![
            '}',
        ],
{
    let members = seq![(first_key, first), (second_key, second)].map_values(
        |member: (Seq<char>, Seq<char>)| json_string(member.0) + seq![':'] + member.1,
    );
    let a = json_string(first_key) + seq![':'] + first;
    let b = json_string(second_key) + seq![':'] + second;
    assert(members == seq![a, b]);
    assert(seq![a, b].drop_last() == seq![a]);
    assert(listed(seq![a]) == a);
    assert(listed(members) == a + seq![','] + b);
}

/// A URL of HTTP or HTTPS that is nothing but a host requests that host with that scheme.
pub proof fn law_url_of_a_host(
    url: ParsedUrl,
    domain: String,
    address: Result<(String, Scheme), IngressError>,
)
    requires
        url.scheme@ == "http"@ || url.scheme@ == "https"@,
        url.host == Some(domain),
        url.path@ == "/"@,
        url.query is None,
        url.fragment is None,
        call_ensures(check_http_url, (url,), address),
    ensures
        address matches Ok((found, scheme)) && found@ == domain@ && (scheme is HTTP) == (
        url.scheme@ == "http"@),
{
}

/// Every other URL is refused, and the user is told the first thing that is wrong with it: a scheme
/// that is not one of HTTP, anything behind the host, or no host.
pub proof fn law_other_urls_are_refused(
    url: ParsedUrl,
    address: Result<(String, Scheme), IngressError>,
)
    requires
        call_ensures(check_http_url, (url,), address),
    ensures
        url.scheme@ != "http"@ && url.scheme@ != "https"@ ==> (address matches Err(error)
            && (error matches IngressError::UnsupportedScheme(scheme) && scheme@ == url.scheme@)),
        (url.scheme@ == "http"@ || url.scheme@ == "https"@) && (url.path@ != "/"@ || url.query
            is Some || url.fragment is Some) ==> (address matches Err(error) && error
            is MoreThanAHost),
        (url.scheme@ == "http"@ || url.scheme@ == "https"@) && url.path@ == "/"@ && url.query
            is None && url.fragment is None && url.host is None ==> (address matches Err(error)
            && error is NoDomain),
{
}

/// What is requested with a URL is read from the URL itself where the value has one, and from the
/// value behind `https://` where it has none; and what is no URL is refused with the reason.
pub proof fn law_requested_value(
    value: &str,
    found: Result<(String, Scheme), IngressError>,
    text: Seq<char>,
    url: ParsedUrl,
    expected: Result<(String, Scheme), IngressError>,
)
    requires
        call_ensures(parse_http_url, (value,), found),
        text == if exists|at: int|
            0 <= at <= value@.len() - 3 && #[trigger] value@[at] == ':' && value@[at + 1] == '/'
                && value@[at + 2] == '/' {
            value@
        } else {
            "https://"@ + value@
        },
        url_parts(text) matches Ok(parts) ==> url@ == parts,
        call_ensures(check_http_url, (url,), expected),
    ensures
        url_parts(text) is Ok ==> {
            &&& found is Ok == expected is Ok
            &&& found is Ok ==> (found->Ok_0).0@ == (expected->Ok_0).0@ && (found->Ok_0).1 == (
            expected->Ok_0).1
            &&& found is Err ==> (found->Err_0)@ == (expected->Err_0)@
        },
        url_parts(text) matches Err(reason) ==> (found matches Err(error) && (
        error matches IngressError::NotAUrl(told) && told@ == reason)),
        found matches Ok((_, scheme)) ==> (text == "https://"@ + value@ ==> scheme is HTTPS),
{
    reveal_strlit("://");
    lemma_schemes(value@);
    let part = "://"@;
    if holds(value@, part) {
        let at = choose|at: int| #[trigger] stands_at(value@, part, at);
        let here = value@.subrange(at, at + 3);
        assert(here == part);
        assert(here[0] == value@[at] && here[1] == value@[at + 1] && here[2] == value@[at + 2]);
        assert(value@[at] == ':');
    }
    if exists|at: int|
        0 <= at <= value@.len() - 3 && #[trigger] value@[at] == ':' && value@[at + 1] == '/'
            && value@[at + 2] == '/' {
        let at = choose|at: int|
            0 <= at <= value@.len() - 3 && #[trigger] value@[at] == ':' && value@[at + 1] == '/'
                && value@[at + 2] == '/';
        assert(value@.subrange(at, at + 3) == part);
        assert(stands_at(value@, part, at));
    }
    assert(text == as_url(value@));
    if text == "https://"@ + value@ && holds(value@, part) {
        reveal_strlit("https://");
        assert(text.len() == value@.len());
    }
}

/// A raw address is taken as it is, without one `tcp://` before it, where it holds a colon, and is
/// refused where it holds none.
pub proof fn law_raw_address(
    plain: &str,
    prefixed: &str,
    of_plain: Result<String, IngressError>,
    of_prefixed: Result<String, IngressError>,
)
    requires
        prefixed@ == "tcp://"@ + plain@,
        call_ensures(parse_tcp_address, (plain,), of_plain),
        call_ensures(parse_tcp_address, (prefixed,), of_prefixed),
    ensures
        plain@.contains(':') ==> (of_prefixed matches Ok(address) && address@ == plain@),
        !plain@.contains(':') ==> (of_prefixed matches Err(error) && error is NotAnAddress)
            && (of_plain matches Err(error) && error is NotAnAddress),
        plain@.contains(':') && !"tcp://"@.is_prefix_of(plain@) ==> (of_plain matches Ok(address)
            && address@ == plain@),
{
    law_prefix("tcp://"@, plain@, plain@);
    reveal_strlit("tcp://");
    if "tcp://"@.is_prefix_of(plain@) {
        assert(plain@.subrange(0, 6)[3] == plain@[3]);
        assert("tcp://"@[3] == ':');
        assert(plain@[3] == ':');
    }
}

/// An empty pattern is refused. Any other makes a policy, whatever it holds, in which the one thing
/// that depends on it is the rule that turns users away: whoever logs in with an email address that
/// the pattern, exactly as it was given, does not match.
pub proof fn law_policy_of_a_pattern(
    pattern: &str,
    policy: Result<String, IngressError>,
    rule: Seq<char>,
)
    requires
        call_ensures(google_oauth_policy, (pattern,), policy),
        rule == deny_expression(pattern@),
    ensures
        pattern@.len() == 0 ==> (policy matches Err(error) && error is EmptyPattern),
        pattern@.len() > 0 ==> (policy matches Ok(text) && text@ == policy_head() + json_string(rule)
            + policy_tail()),
        rule == "!actions.ngrok.oauth.identity.email.matches("@ + json_string(pattern@) + ")"@,
        read_string(json_string(rule) + policy_tail()) == Some((rule, policy_tail())),
        read_string(json_string(pattern@) + ")"@) == Some((pattern@, ")"@)),
{
    law_pattern_stays_in_its_place(pattern@);
}

/// OAuth is asked for independently of the URL: with a pattern that is not empty, an HTTP endpoint
/// is planned exactly where one is planned without it, at the same address, and it has the policy
/// for that pattern, where the other has none. Where no endpoint is planned, the reason is the same.
pub proof fn law_oauth_adds_the_policy(
    plain: Cli,
    guarded: Cli,
    pattern: &str,
    without: Result<Endpoint, IngressError>,
    with: Result<Endpoint, IngressError>,
    policy: Result<String, IngressError>,
)
    requires
        !plain.tcp,
        !guarded.tcp,
        plain.url == guarded.url,
        plain.google_oauth is None,
        guarded.google_oauth matches Some(given) && given@ == pattern@,
        pattern@.len() > 0,
        call_ensures(plan_endpoint, (&plain,), without),
        call_ensures(plan_endpoint, (&guarded,), with),
        call_ensures(google_oauth_policy, (pattern,), policy),
    ensures
        without is Ok == with is Ok,
        without is Err ==> (without->Err_0)@ == (with->Err_0)@,
        without is Ok ==> {
            &&& without matches Ok(Endpoint::Http { address, policy: none }) && none is None && (
            with matches Ok(Endpoint::Http { address: same, policy: Some(text) }) && text@ == (
            policy->Ok_0)@ && (address is Some == same is Some) && (address is Some ==> (
            address->0).0@ == (same->0).0@ && (address->0).1 == (same->0).1))
        },
        plain.url is None ==> without is Ok && (without matches Ok(Endpoint::Http { address, .. })
            && address is None),
{
}

/// An empty pattern is an error at an HTTP endpoint, unless the URL is wrong already.
pub proof fn law_empty_pattern_is_refused(
    cli: Cli,
    planned: Result<Endpoint, IngressError>,
    value: &str,
    address: Result<(String, Scheme), IngressError>,
)
    requires
        !cli.tcp,
        cli.google_oauth matches Some(given) && given@.len() == 0,
        cli.url matches Some(asked) ==> asked@ == value@,
        call_ensures(parse_http_url, (value,), address),
        call_ensures(plan_endpoint, (&cli,), planned),
    ensures
        cli.url is None || address is Ok ==> (planned matches Err(error) && error is EmptyPattern),
        cli.url is Some && address is Err ==> planned is Err && (planned->Err_0)@ == (
        address->Err_0)@,
{
}

/// An HTTP endpoint is at the address that the URL requests, and at none where there is no URL; a
/// URL that requests none is an error, whatever else is asked for.
pub proof fn law_address_of_an_http_endpoint(
    cli: Cli,
    planned: Result<Endpoint, IngressError>,
    value: &str,
    address: Result<(String, Scheme), IngressError>,
)
    requires
        !cli.tcp,
        cli.google_oauth matches Some(given) ==> given@.len() > 0,
        cli.url matches Some(asked) ==> asked@ == value@,
        call_ensures(parse_http_url, (value,), address),
        call_ensures(plan_endpoint, (&cli,), planned),
    ensures
        cli.url is None ==> (planned matches Ok(Endpoint::Http { address: none, policy }) && none
            is None && (policy is Some == cli.google_oauth is Some)),
        cli.url is Some && address is Ok ==> (planned matches Ok(
            Endpoint::Http { address: Some((domain, scheme)), policy },
        ) && domain@ == (address->Ok_0).0@ && scheme == (address->Ok_0).1 && (policy is Some
            == cli.google_oauth is Some)),
        cli.url is Some && address is Err ==> planned is Err && (planned->Err_0)@ == (
        address->Err_0)@,
{
}

/// A raw endpoint is at the address that is requested, and at none where none is; a value that is
/// no address is an error. Nothing that is asked for HTTP counts.
pub proof fn law_address_of_a_raw_endpoint(
    cli: Cli,
    planned: Result<Endpoint, IngressError>,
    value: &str,
    address: Result<String, IngressError>,
)
    requires
        cli.tcp,
        cli.url matches Some(asked) ==> asked@ == value@,
        call_ensures(parse_tcp_address, (value,), address),
        call_ensures(plan_endpoint, (&cli,), planned),
    ensures
        cli.url is None ==> (planned matches Ok(Endpoint::Tcp { remote_addr }) && remote_addr
            is None),
        cli.url is Some && address is Ok ==> (planned matches Ok(
            Endpoint::Tcp { remote_addr: Some(at) },
        ) && at@ == (address->Ok_0)@),
        cli.url is Some && address is Err ==> (planned matches Err(error) && error is NotAnAddress),
{
}

/// The user is told why no endpoint can be asked for, with the reason or the scheme in its words.
pub proof fn law_refusal_is_told(
    detail: String,
    not_a_url: String,
    scheme: String,
    more: String,
    no_domain: String,
    not_an_address: String,
    empty: String,
)
    requires
        call_ensures(IngressError::message, (&IngressError::NotAUrl(detail),), not_a_url),
        call_ensures(IngressError::message, (&IngressError::UnsupportedScheme(detail),), scheme),
        call_ensures(IngressError::message, (&IngressError::MoreThanAHost,), more),
        call_ensures(IngressError::message, (&IngressError::NoDomain,), no_domain),
        call_ensures(IngressError::message, (&IngressError::NotAnAddress,), not_an_address),
        call_ensures(IngressError::message, (&IngressError::EmptyPattern,), empty),
    ensures
        not_a_url@ == "--url must be an HTTP(S) URL or domain: "@ + detail@,
        scheme@ == "HTTP mode does not support a "@ + detail@ + " --url"@,
        more@ == "--url may not contain a path, query, or fragment"@,
        no_domain@ == "--url is missing a domain"@,
        not_an_address@ == "TCP --url must look like tcp://host:port"@,
        empty@ == "--google-oauth requires a non-empty email regex"@,
{
}

proof fn lemma_plain_string(s: Seq<char>)
    requires
        forall|i: int|
            0 <= i < s.len() ==> (0x20 <= #[trigger] s[i] as u32 && s[i] != '"' && s[i] != '\\'),
    ensures
        json_escaped(s) == s,
        json_string(s) == seq!['"'] + s + seq!['"'],
    decreases s.len(),
{
    if s.len() > 0 {
        let rest = s.skip(1);
        assert forall|i: int| 0 <= i < rest.len() implies (0x20 <= #[trigger] rest[i] as u32
            && rest[i] != '"' && rest[i] != '\\') by {
            assert(rest[i] == s[i + 1]);
        }
        lemma_plain_string(rest);
        assert(json_char(s[0]) == seq![s[0]]);
        assert(seq![s[0]] + rest == s);
    } else {
        assert(json_escaped(s) == s);
    }
}

proof fn lemma_login_action()
    ensures
        login_action() == "{\"config\":{\"provider\":\"google\"},\"type\":\"oauth\"}"@,
{
    reveal_strlit("config");
    reveal_strlit("provider");
    reveal_strlit("google");
    reveal_strlit("type");
    reveal_strlit("oauth");
    reveal_strlit("{\"config\":{\"provider\":\"google\"},\"type\":\"oauth\"}");
    lemma_plain_string("config"@);
    lemma_plain_string("provider"@);
    lemma_plain_string("google"@);
    lemma_plain_string("type"@);
    lemma_plain_string("oauth"@);
    lemma_one_member("provider"@, json_string("google"@));
    let provider = json_object(seq![("provider"@, json_string("google"@))]);
    lemma_two_members("config"@, provider, "type"@, json_string("oauth"@));
}

proof fn lemma_deny_action()
    ensures
        deny_action() == "{\"type\":\"deny\"}"@,
{
    reveal_strlit("type");
    reveal_strlit("deny");
    reveal_strlit("{\"type\":\"deny\"}");
    lemma_plain_string("type"@);
    lemma_plain_string("deny"@);
    lemma_one_member("type"@, json_string("deny"@));
}

proof fn lemma_login_rule()
    ensures
        login_rule() == "{\"actions\":["@ + login_action() + "]}"@,
{
    reveal_strlit("actions");
    reveal_strlit("{\"actions\":[");
    reveal_strlit("]}");
    lemma_plain_string("actions"@);
    lemma_one_member("actions"@, json_array(seq![login_action()]));
    assert(json_array(seq![login_action()]) == seq!['['] + login_action() + seq![']']);
    let head = "{\"actions\":["@;
    assert(seq!['{'] + json_string("actions"@) + seq![':'] + seq!['['] == head);
    assert(login_rule() == head + login_action() + "]}"@);
}

/// Whatever the pattern, the policy asks everyone for a Google login first, and then turns away
/// whoever the rule that follows tells to: nothing else stands before the rule or behind it.
pub proof fn law_policy_asks_and_denies()
    ensures
        policy_head() == "{\"on_http_request\":[{\"actions\":["@
            + "{\"config\":{\"provider\":\"google\"},\"type\":\"oauth\"}"@ + "]},{\"actions\":["@
            + "{\"type\":\"deny\"}"@ + "],\"expressions\":["@,
        policy_tail() == "]}]}"@,
{
    lemma_login_action();
    lemma_deny_action();
    lemma_login_rule();
    reveal_strlit("actions");
    reveal_strlit("expressions");
    reveal_strlit("on_http_request");
    lemma_plain_string("actions"@);
    lemma_plain_string("expressions"@);
    lemma_plain_string("on_http_request"@);
    reveal_strlit("{\"actions\":[");
    reveal_strlit("]}");
    reveal_strlit("{\"on_http_request\":[{\"actions\":[");
    reveal_strlit("]},{\"actions\":[");
    reveal_strlit("],\"expressions\":[");
    reveal_strlit("]}]}");
    assert(policy_tail() == "]}]}"@);
    let login = login_action();
    let deny = deny_action();
    assert(json_array(seq![deny]) == seq!['['] + deny + seq![']']);
    let first = seq!['{'] + json_string("on_http_request"@) + seq![':', '['];
    assert(first + "{\"actions\":["@ == "{\"on_http_request\":[{\"actions\":["@);
    let middle = seq![',', '{'] + json_string("actions"@) + seq![':', '['];
    assert("]}"@ + middle == "]},{\"actions\":["@);
    let last = seq![']', ','] + json_string("expressions"@) + seq![':', '['];
    assert(last == "],\"expressions\":["@);
    let front = first + ("{\"actions\":["@ + login + "]}"@);
    assert(front == "{\"on_http_request\":[{\"actions\":["@ + login + "]}"@);
    assert(policy_head() == front + middle + deny + last);
    assert(front + middle == "{\"on_http_request\":[{\"actions\":["@ + login
        + "]},{\"actions\":["@);
}

/// What an endpoint is said to forward to.
pub proof fn law_forwards_to()
    ensures
        FORWARDS_TO@ == "nserve child process (waiting for listener)"@,
{
}

} // verus!
