//! Where the ngrok authtoken comes from.

use vstd::prelude::*;

use crate::text::{all_white, is_white, is_whitespace, to_chars};

verus! {

/// The parts of an ngrok agent's configuration that matter here.
#[derive(Debug)]
pub struct NgrokConfig {
    /// The version of the configuration's format.
    pub version: Option<u8>,
    /// The token, in version 2.
    pub authtoken: Option<String>,
    /// The agent's own section, in version 3.
    pub agent: Option<AgentConfig>,
}

/// The agent's own section of its configuration.
#[derive(Debug)]
pub struct AgentConfig {
    /// The token.
    pub authtoken: Option<String>,
}

/// What became of the configuration file.
#[derive(Debug)]
pub enum ConfigRead {
    /// It is not known where the file would be.
    NoPath,
    /// There is no such file.
    Missing,
    /// The file is there and could not be read, for the reason given.
    Unreadable(String),
    /// The file is no configuration, for the reason given.
    Malformed(String),
    /// What the file says.
    Parsed(NgrokConfig),
}

/// Why no token could be looked for.
#[derive(Debug)]
pub enum AuthError {
    /// The configuration file could not be read, for the reason given.
    Unreadable(String),
    /// The configuration file is malformed, for the reason given.
    Malformed(String),
}

impl AuthError {
    /// What to tell the user of the configuration file at `path`.
    pub open spec fn text(self, path: Seq<char>) -> Seq<char> {
        match self {
            AuthError::Unreadable(reason) => "failed to read ngrok config at "@ + path + ": "@
                + reason@,
            AuthError::Malformed(reason) => "failed to parse ngrok config at "@ + path + ": "@
                + reason@,
        }
    }

    /// What to tell the user of the configuration file at `path`.
    pub fn message(&self, path: &str) -> (message: String)
        ensures
            message@ == self.text(path@),
    {
        match self {
            AuthError::Unreadable(reason) => "failed to read ngrok config at ".to_owned().concat(
                path,
            ).concat(": ").concat(reason.as_str()),
            AuthError::Malformed(reason) => "failed to parse ngrok config at ".to_owned().concat(
                path,
            ).concat(": ").concat(reason.as_str()),
        }
    }
}

/// `value`, unless it is blank.
pub open spec fn unless_blank(value: String) -> Option<String> {
    if all_white(value@) {
        None
    } else {
        Some(value)
    }
}

/// Whether `value` holds nothing but white space.
pub fn is_blank(value: &str) -> (blank: bool)
    ensures
        blank == all_white(value@),
{
    let chars = to_chars(value);
    let mut i: usize = 0;
    while i < chars.len()
        invariant
            chars@ == value@,
            0 <= i <= chars@.len(),
            forall|k: int| 0 <= k < i ==> is_white(#[trigger] chars@[k]),
        decreases chars@.len() - i,
    {
        if !is_whitespace(chars[i]) {
            assert(!is_white(value@[i as int]));
            return false;
        }
        i = i + 1;
    }
    true
}

/// `value`, unless it holds nothing but white space.
pub fn nonempty(value: String) -> (kept: Option<String>)
    ensures
        kept == unless_blank(value),
{
    if is_blank(value.as_str()) {
        None
    } else {
        Some(value)
    }
}

/// The token of the agent's own section, unless it is blank.
pub open spec fn agent_token(config: NgrokConfig) -> Option<String> {
    match config.agent {
        Some(AgentConfig { authtoken: Some(token) }) => unless_blank(token),
        _ => None,
    }
}

/// The token at the top of the configuration, unless it is blank.
pub open spec fn top_token(config: NgrokConfig) -> Option<String> {
    match config.authtoken {
        Some(token) => unless_blank(token),
        None => None,
    }
}

/// The token that `config` gives: that of the agent's own section, or else the one at the top.
pub open spec fn token_in(config: NgrokConfig) -> Option<String> {
    match agent_token(config) {
        Some(token) => Some(token),
        None => top_token(config),
    }
}

/// The token that `config` gives, whichever version it is written in.
pub fn config_token(config: NgrokConfig) -> (token: Option<String>)
    ensures
        token == token_in(config),
{
    if let Some(agent) = config.agent {
        if let Some(token) = agent.authtoken {
            if let Some(token) = nonempty(token) {
                return Some(token);
            }
        }
    }
    match config.authtoken {
        Some(token) => nonempty(token),
        None => None,
    }
}

/// The token to use: that of the environment, unless it is blank, or else that of the
/// configuration.
pub open spec fn resolved(environment: Option<String>, config: ConfigRead) -> Result<
    Option<String>,
    AuthError,
> {
    match environment {
        Some(token) if !all_white(token@) => Ok(Some(token)),
        _ => match config {
            ConfigRead::NoPath => Ok(None),
            ConfigRead::Missing => Ok(None),
            ConfigRead::Unreadable(reason) => Err(AuthError::Unreadable(reason)),
            ConfigRead::Malformed(reason) => Err(AuthError::Malformed(reason)),
            ConfigRead::Parsed(config) => Ok(token_in(config)),
        },
    }
}

/// Whether the configuration file is looked at: the environment's variable is absent or blank.
pub open spec fn config_matters(environment: Option<String>) -> bool {
    match environment {
        Some(token) => all_white(token@),
        None => true,
    }
}

/// Whether the configuration file is looked at. Where it is not, it makes no difference what
/// became of the file.
pub fn needs_config(environment: &Option<String>) -> (needed: bool)
    ensures
        needed == config_matters(*environment),
        !needed ==> forall|config: ConfigRead| #[trigger]
            resolved(*environment, config) == resolved(*environment, ConfigRead::NoPath),
{
    match environment {
        Some(token) => is_blank(token.as_str()),
        None => true,
    }
}

/// Finds the token, if there is one, in the environment's variable and, where that is absent or
/// blank, in what became of the configuration file. A missing file is no error, and one that
/// cannot be read or understood is.
pub fn resolve(environment: Option<String>, config: ConfigRead) -> (token: Result<
    Option<String>,
    AuthError,
>)
    ensures
        token == resolved(environment, config),
{
    if let Some(value) = environment {
        if let Some(token) = nonempty(value) {
            return Ok(Some(token));
        }
    }
    match config {
        ConfigRead::NoPath => Ok(None),
        ConfigRead::Missing => Ok(None),
        ConfigRead::Unreadable(reason) => Err(AuthError::Unreadable(reason)),
        ConfigRead::Malformed(reason) => Err(AuthError::Malformed(reason)),
        ConfigRead::Parsed(config) => Ok(config_token(config)),
    }
}

/// A token from the environment is used whatever the configuration holds, even where it is
/// malformed.
pub proof fn law_environment_takes_precedence(token: String, config: ConfigRead)
    requires
        !all_white(token@),
    ensures
        resolved(Some(token), config) == Ok::<Option<String>, AuthError>(Some(token)),
{
}

/// A token that is found is never blank.
pub proof fn law_token_is_not_blank(environment: Option<String>, config: ConfigRead)
    ensures
        resolved(environment, config) matches Ok(Some(token)) ==> !all_white(token@),
{
}

/// Without a token in the environment, a configuration that is not there gives no token and no
/// error, while one that is there and cannot be read or understood is an error.
pub proof fn law_only_a_missing_config_is_ignored(environment: Option<String>, reason: String)
    requires
        environment matches Some(token) ==> all_white(token@),
    ensures
        resolved(environment, ConfigRead::NoPath) == Ok::<Option<String>, AuthError>(None),
        resolved(environment, ConfigRead::Missing) == Ok::<Option<String>, AuthError>(None),
        resolved(environment, ConfigRead::Unreadable(reason)) is Err,
        resolved(environment, ConfigRead::Malformed(reason)) is Err,
{
}

/// Both versions of the configuration are understood: a token that only one of the two places
/// holds is found there.
pub proof fn law_both_versions_are_understood(token: String, version: Option<u8>)
    requires
        !all_white(token@),
    ensures
        token_in(NgrokConfig { version, authtoken: Some(token), agent: None }) == Some(token),
        token_in(
            NgrokConfig {
                version,
                authtoken: None,
                agent: Some(AgentConfig { authtoken: Some(token) }),
            },
        ) == Some(token),
{
}

/// Where the configuration file is below the home directory, in the bytes that the system uses.
pub open spec fn config_below_home() -> Seq<u8> {
    vstd::utf8::encode_utf8(".config/ngrok/ngrok.yml"@)
}

/// The path of the configuration file, where the home directory is known and not empty.
pub fn default_config_path(home: Option<Vec<u8>>) -> (path: Option<Vec<u8>>)
    ensures
        match home {
            Some(home) => if home@.len() == 0 {
                path is None
            } else {
                path matches Some(file) && file@ == home@ + (if home@.last() == 0x2f {
                    Seq::<u8>::empty()
                } else {
                    seq![0x2f]
                }) + config_below_home()
            },
            None => path is None,
        },
{
    let mut path: Vec<u8> = match home {
        Some(home) => home,
        None => {
            return None;
        },
    };
    if path.len() == 0 {
        return None;
    }
    if path[path.len() - 1] != 0x2f {
        path.push(0x2f);
    }
    path.extend_from_slice(".config/ngrok/ngrok.yml".as_bytes());
    Some(path)
}

/// Where the environment has no token, what `resolve` finds in a configuration is the token of the
/// agent's own section, whatever else is there and whichever version is written; where that
/// section has none, the token at the top; and where there is none either, nothing. A token is
/// found as it is written.
pub proof fn law_token_of_the_configuration(
    environment: Option<String>,
    config: NgrokConfig,
    found: Result<Option<String>, AuthError>,
)
    requires
        environment matches Some(token) ==> all_white(token@),
        call_ensures(resolve, (environment, ConfigRead::Parsed(config)), found),
    ensures
        match config.agent {
            Some(AgentConfig { authtoken: Some(token) }) => !all_white(token@) ==> found == Ok::<
                Option<String>,
                AuthError,
            >(Some(token)),
            _ => true,
        },
        (match config.agent {
            Some(AgentConfig { authtoken: Some(token) }) => all_white(token@),
            _ => true,
        }) ==> found == Ok::<Option<String>, AuthError>(
            match config.authtoken {
                Some(token) => if all_white(token@) {
                    None
                } else {
                    Some(token)
                },
                None => None,
            },
        ),
{
}

/// A token in the environment is what `resolve` finds, as it is written and whatever became of the
/// configuration; and a blank one is as good as none at all.
pub proof fn law_token_of_the_environment(
    token: String,
    config: ConfigRead,
    found: Result<Option<String>, AuthError>,
    without: Result<Option<String>, AuthError>,
)
    requires
        call_ensures(resolve, (Some(token), config), found),
        call_ensures(resolve, (None::<String>, config), without),
    ensures
        !all_white(token@) ==> found == Ok::<Option<String>, AuthError>(Some(token)),
        all_white(token@) ==> found == without,
{
}

/// Without a token in the environment, a configuration that is missing gives nothing, and one that
/// is there and could not be read or understood gives its own error with the reason.
pub proof fn law_trouble_with_the_configuration(
    environment: Option<String>,
    reason: String,
    nowhere: Result<Option<String>, AuthError>,
    missing: Result<Option<String>, AuthError>,
    unreadable: Result<Option<String>, AuthError>,
    malformed: Result<Option<String>, AuthError>,
)
    requires
        environment matches Some(token) ==> all_white(token@),
        call_ensures(resolve, (environment, ConfigRead::NoPath), nowhere),
        call_ensures(resolve, (environment, ConfigRead::Missing), missing),
        call_ensures(resolve, (environment, ConfigRead::Unreadable(reason)), unreadable),
        call_ensures(resolve, (environment, ConfigRead::Malformed(reason)), malformed),
    ensures
        nowhere == Ok::<Option<String>, AuthError>(None),
        missing == Ok::<Option<String>, AuthError>(None),
        unreadable == Err::<Option<String>, AuthError>(AuthError::Unreadable(reason)),
        malformed == Err::<Option<String>, AuthError>(AuthError::Malformed(reason)),
{
}

/// The configuration is needed exactly where the environment has no token; where it is not, it
/// makes no difference to what `resolve` finds.
pub proof fn law_configuration_is_needed(
    environment: Option<String>,
    needed: bool,
    one: ConfigRead,
    other: ConfigRead,
    found_one: Result<Option<String>, AuthError>,
    found_other: Result<Option<String>, AuthError>,
)
    requires
        call_ensures(needs_config, (&environment,), needed),
        call_ensures(resolve, (environment, one), found_one),
        call_ensures(resolve, (environment, other), found_other),
    ensures
        needed == (environment is None || all_white((environment->0)@)),
        !needed ==> found_one == found_other,
        needed && one is Missing && other is Malformed ==> found_one != found_other,
{
}

/// The user is told which file gives trouble, whether in reading or in understanding it, and why.
pub proof fn law_trouble_is_told(reason: String, path: &str, read: String, parsed: String)
    requires
        call_ensures(AuthError::message, (&AuthError::Unreadable(reason), path), read),
        call_ensures(AuthError::message, (&AuthError::Malformed(reason), path), parsed),
    ensures
        read@ == "failed to read ngrok config at "@ + path@ + ": "@ + reason@,
        parsed@ == "failed to parse ngrok config at "@ + path@ + ": "@ + reason@,
{
}

/// A value is kept whole, with the white space around it, unless there is nothing else to it.
pub proof fn law_blank_values_are_dropped(value: String, kept: Option<String>)
    requires
        call_ensures(nonempty, (value,), kept),
    ensures
        all_white(value@) ==> kept is None,
        !all_white(value@) ==> kept == Some(value),
{
}

/// The configuration file is below the home directory, whether or not a slash ends the name of
/// that directory, and nowhere where there is no such name.
pub proof fn law_configuration_is_below_the_home_directory(
    home: Vec<u8>,
    path: Option<Vec<u8>>,
    slashed: Vec<u8>,
    slashed_path: Option<Vec<u8>>,
    nowhere: Option<Vec<u8>>,
)
    requires
        slashed@ == home@.push(0x2f),
        call_ensures(default_config_path, (Some(home),), path),
        call_ensures(default_config_path, (Some(slashed),), slashed_path),
        call_ensures(default_config_path, (None::<Vec<u8>>,), nowhere),
    ensures
        nowhere is None,
        path is Some == (home@.len() > 0),
        slashed_path is Some,
        (slashed_path->0)@ == slashed@ + vstd::utf8::encode_utf8(".config/ngrok/ngrok.yml"@),
        home@.len() > 0 && home@.last() != 0x2f ==> (path->0)@ == (slashed_path->0)@,
        home@.len() > 0 && home@.last() == 0x2f ==> (path->0)@ == home@
            + vstd::utf8::encode_utf8(".config/ngrok/ngrok.yml"@),
{
    if home@.len() > 0 && home@.last() != 0x2f {
        assert(home@ + seq![0x2fu8] == slashed@);
    }
    assert(slashed@ + Seq::<u8>::empty() == slashed@);
    assert(home@ + Seq::<u8>::empty() == home@);
}

} // verus!
