use nserve::cli::{Cli, CliError};

fn cli(tcp: bool, google_oauth: Option<&str>, command: &[&str]) -> Cli {
    Cli {
        open: false,
        port: None,
        url: None,
        google_oauth: google_oauth.map(str::to_owned),
        tcp,
        command: command.iter().map(|part| part.as_bytes().to_vec()).collect(),
    }
}

#[test]
fn rejects_oauth_for_tcp() {
    let cli = cli(true, Some(".*@example.com"), &["server"]);
    assert!(cli.validate().is_err());
    assert_eq!(cli.validate(), Err(CliError::OauthWithoutHttp));
    assert_eq!(
        CliError::OauthWithoutHttp.message(),
        "--google-oauth is only available for HTTP endpoints"
    );
}

#[test]
fn accepts_either_protocol_alone() {
    assert_eq!(cli(true, None, &["server", "-d"]).validate(), Ok(()));
    assert_eq!(cli(false, Some(".*"), &["server"]).validate(), Ok(()));
}

#[test]
fn requires_a_command() {
    assert_eq!(cli(false, None, &[]).validate(), Err(CliError::NoCommand));
    assert_eq!(cli(false, None, &["", "x"]).validate(), Err(CliError::NoCommand));
    assert_eq!(
        cli(true, Some("x"), &[]).validate(),
        Err(CliError::OauthWithoutHttp)
    );
    assert_eq!(CliError::NoCommand.message(), "a command is required after --");
}
