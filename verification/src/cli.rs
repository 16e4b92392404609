//! The command line.

use vstd::prelude::*;

verus! {

/// What the user asks for.
#[derive(Debug)]
pub struct Cli {
    /// Open the public URL in the default browser.
    pub open: bool,
    /// Forward to this local port instead of detecting a listener.
    pub port: Option<u16>,
    /// Request a particular public URL from ngrok.
    pub url: Option<String>,
    /// Require Google OAuth and an email matching this RE2 expression.
    pub google_oauth: Option<String>,
    /// Expose a raw TCP endpoint rather than an HTTP endpoint.
    pub tcp: bool,
    /// The command to run and its arguments, each in the bytes that the system uses.
    pub command: Vec<Vec<u8>>,
}

/// Why a command line makes no sense.
#[derive(Clone, Copy, Debug, PartialEq, Eq, Structural)]
pub enum CliError {
    /// OAuth was asked for at an endpoint that does not speak HTTP.
    OauthWithoutHttp,
    /// There is no command.
    NoCommand,
}

impl CliError {
    /// What to tell the user.
    pub open spec fn text(self) -> Seq<char> {
        match self {
            CliError::OauthWithoutHttp => "--google-oauth is only available for HTTP endpoints"@,
            CliError::NoCommand => "a command is required after --"@,
        }
    }

    /// What to tell the user.
    pub fn message(&self) -> (message: String)
        ensures
            message@ == self.text(),
    {
        match self {
            CliError::OauthWithoutHttp => {
                "--google-oauth is only available for HTTP endpoints".to_owned()
            },
            CliError::NoCommand => "a command is required after --".to_owned(),
        }
    }
}

impl Cli {
    /// Whether there is a command to run.
    pub open spec fn has_command(self) -> bool {
        self.command@.len() > 0 && self.command@[0]@.len() > 0
    }

    /// What is wrong with what the options say together: OAuth is for HTTP alone, and there has to
    /// be a command.
    pub open spec fn checked(self) -> Result<(), CliError> {
        if self.tcp && self.google_oauth is Some {
            Err(CliError::OauthWithoutHttp)
        } else if !self.has_command() {
            Err(CliError::NoCommand)
        } else {
            Ok(())
        }
    }

    /// Checks what the options say together.
    pub fn validate(&self) -> (checked: Result<(), CliError>)
        ensures
            checked == self.checked(),
    {
        if self.tcp && self.google_oauth.is_some() {
            return Err(CliError::OauthWithoutHttp);
        }
        if self.command.len() == 0 || self.command[0].len() == 0 {
            return Err(CliError::NoCommand);
        }
        Ok(())
    }
}

/// OAuth over raw TCP is refused whatever else is asked for; without a command, nothing else is
/// accepted either; and every other combination of options is. Nothing but these three options
/// counts.
pub proof fn law_options_combine(cli: Cli, checked: Result<(), CliError>)
    requires
        call_ensures(Cli::validate, (&cli,), checked),
    ensures
        cli.tcp && cli.google_oauth is Some ==> checked == Err::<(), CliError>(
            CliError::OauthWithoutHttp,
        ),
        !(cli.tcp && cli.google_oauth is Some) && (cli.command@.len() == 0
            || cli.command@.first()@.len() == 0) ==> checked == Err::<(), CliError>(
            CliError::NoCommand,
        ),
        !cli.tcp && cli.command@.len() > 0 && cli.command@.first()@.len() > 0 ==> checked is Ok,
        cli.google_oauth is None && cli.command@.len() > 0 && cli.command@.first()@.len() > 0
            ==> checked is Ok,
{
}

/// The user is told what is wrong.
pub proof fn law_wrong_options_are_told(oauth: String, command: String)
    requires
        call_ensures(CliError::message, (&CliError::OauthWithoutHttp,), oauth),
        call_ensures(CliError::message, (&CliError::NoCommand,), command),
    ensures
        oauth@ == "--google-oauth is only available for HTTP endpoints"@,
        command@ == "a command is required after --"@,
{
}

} // verus!
