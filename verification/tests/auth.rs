use nserve::auth::{
    config_token, default_config_path, is_blank, needs_config, nonempty, resolve, AgentConfig,
    AuthError, ConfigRead, NgrokConfig,
};

fn text(value: &serde_yaml_ng::Value) -> Option<String> {
    value.as_str().map(str::to_owned)
}

fn decode(contents: &str) -> Result<NgrokConfig, String> {
    let value: serde_yaml_ng::Value =
        serde_yaml_ng::from_str(contents).map_err(|error| error.to_string())?;
    Ok(NgrokConfig {
        version: value["version"].as_u64().map(|version| version as u8),
        authtoken: text(&value["authtoken"]),
        agent: value.get("agent").map(|agent| AgentConfig {
            authtoken: text(&agent["authtoken"]),
        }),
    })
}

fn read(contents: &str) -> ConfigRead {
    match decode(contents) {
        Ok(config) => ConfigRead::Parsed(config),
        Err(reason) => ConfigRead::Malformed(reason),
    }
}

#[test]
fn reads_v2_top_level_token() {
    assert_eq!(
        config_token(decode("version: 2\nauthtoken: v2-token\n").unwrap()),
        Some("v2-token".into())
    );
}

#[test]
fn reads_v3_nested_token() {
    assert_eq!(
        config_token(decode("version: 3\nagent:\n  authtoken: v3-token\n").unwrap()),
        Some("v3-token".into())
    );
}

#[test]
fn environment_token_takes_precedence() {
    assert_eq!(
        resolve(
            Some("environment-token".to_owned()),
            read("version: 2\nauthtoken: file-token\n")
        )
        .unwrap(),
        Some("environment-token".into())
    );
}

#[test]
fn missing_config_is_not_an_error() {
    assert_eq!(resolve(None, ConfigRead::Missing).unwrap(), None);
    assert_eq!(resolve(None, ConfigRead::NoPath).unwrap(), None);
}

#[test]
fn malformed_present_config_is_an_error() {
    let read = read("agent: [\n");
    assert!(matches!(read, ConfigRead::Malformed(_)));
    assert!(resolve(None, read).is_err());
}

#[test]
fn environment_token_hides_a_malformed_config() {
    assert_eq!(
        resolve(Some("token".to_owned()), read("agent: [")).unwrap(),
        Some("token".into())
    );
}

#[test]
fn unreadable_config_is_an_error() {
    let error = resolve(None, ConfigRead::Unreadable("permission denied".to_owned())).unwrap_err();
    assert!(matches!(error, AuthError::Unreadable(_)));
    assert_eq!(
        error.message("/home/me/ngrok.yml"),
        "failed to read ngrok config at /home/me/ngrok.yml: permission denied"
    );
    let error = resolve(Some("  ".to_owned()), ConfigRead::Malformed("bad".to_owned())).unwrap_err();
    assert!(matches!(error, AuthError::Malformed(_)));
    assert_eq!(error.message("x"), "failed to parse ngrok config at x: bad");
}

#[test]
fn blank_tokens_do_not_count() {
    assert_eq!(nonempty(" \t\n\u{3000}".to_owned()), None);
    assert_eq!(nonempty(String::new()), None);
    assert_eq!(nonempty(" a ".to_owned()), Some(" a ".to_owned()));
    assert_eq!(
        resolve(
            Some(" ".to_owned()),
            read("authtoken: top\nagent:\n  authtoken: ' '\n")
        )
        .unwrap(),
        Some("top".into())
    );
    assert_eq!(
        config_token(decode("authtoken: top\nagent:\n  authtoken: own\n").unwrap()),
        Some("own".into())
    );
    assert_eq!(config_token(decode("version: 3\n").unwrap()), None);
}

#[test]
fn config_is_below_the_home_directory() {
    assert_eq!(default_config_path(None), None);
    assert_eq!(default_config_path(Some(Vec::new())), None);
    assert_eq!(
        default_config_path(Some(b"/home/me".to_vec())),
        Some(b"/home/me/.config/ngrok/ngrok.yml".to_vec())
    );
    assert_eq!(
        default_config_path(Some(b"/".to_vec())),
        Some(b"/.config/ngrok/ngrok.yml".to_vec())
    );
}

#[test]
fn config_is_left_alone_where_the_environment_has_a_token() {
    assert!(needs_config(&None));
    assert!(needs_config(&Some(String::new())));
    assert!(needs_config(&Some(" \t\u{3000}".to_owned())));
    assert!(!needs_config(&Some("token".to_owned())));
    assert!(!needs_config(&Some(" token ".to_owned())));
}

#[test]
fn blank_is_nothing_but_white_space() {
    assert!(is_blank(""));
    assert!(is_blank(" \r\n\u{a0}"));
    assert!(!is_blank("\u{200b}"));
    assert!(!is_blank(" x"));
}
