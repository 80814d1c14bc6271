//! Server configuration: how clients authenticate, and the timing
//! parameters of each connection.
use vstd::prelude::*;

verus! {

/// The deadline of a whole handshake, in seconds.
pub const DEFAULT_HANDSHAKE_TIMEOUT_SECS: u64 = 10;
/// Idle time before TCP keepalive probes start, in seconds.
pub const DEFAULT_KEEPALIVE_IDLE_SECS: u64 = 60;
/// Time between TCP keepalive probes, in seconds.
pub const DEFAULT_KEEPALIVE_INTERVAL_SECS: u64 = 10;

/// How clients must authenticate.
#[derive(Clone, Debug, PartialEq, Eq)]
pub enum AuthMode {
    NoAuth,
    UserPass { username: Vec<u8>, password: Vec<u8> },
}

impl AuthMode {
    /// The configured username and password, if any.
    pub open spec fn credentials(&self) -> Option<(Seq<u8>, Seq<u8>)> {
        match self {
            AuthMode::NoAuth => None,
            AuthMode::UserPass { username, password } => Some((username@, password@)),
        }
    }
}

/// A configuration that names only one half of the credentials.
#[derive(Clone, Copy, Debug, PartialEq, Eq)]
pub enum ConfigError {
    UsernameWithoutPassword,
    PasswordWithoutUsername,
}

/// The credentials that a username and a password configure: both or none.
pub open spec fn configured_credentials(username: Option<Vec<u8>>, password: Option<Vec<u8>>) -> Result<
    Option<(Seq<u8>, Seq<u8>)>,
    ConfigError,
> {
    match (username, password) {
        (None, None) => Ok(None),
        (Some(u), Some(p)) => Ok(Some((u@, p@))),
        (Some(_), None) => Err(ConfigError::UsernameWithoutPassword),
        (None, Some(_)) => Err(ConfigError::PasswordWithoutUsername),
    }
}

/// The authentication mode that optional credentials configure: both or none.
pub fn auth_mode_from(username: Option<Vec<u8>>, password: Option<Vec<u8>>) -> (r: Result<
    AuthMode,
    ConfigError,
>)
    ensures
        match (r, configured_credentials(username, password)) {
            (Ok(m), Ok(creds)) => m.credentials() == creds,
            (Err(e), Err(expected)) => e == expected,
            _ => false,
        },
{
    match (username, password) {
        (None, None) => Ok(AuthMode::NoAuth),
        (Some(username), Some(password)) => Ok(AuthMode::UserPass { username, password }),
        (Some(_), None) => Err(ConfigError::UsernameWithoutPassword),
        (None, Some(_)) => Err(ConfigError::PasswordWithoutUsername),
    }
}

/// What every connection of the server shares, read-only.
#[derive(Clone, Debug, PartialEq, Eq)]
pub struct ServerConfig {
    pub auth: AuthMode,
    pub handshake_timeout_secs: u64,
    pub keepalive_idle_secs: u64,
    pub keepalive_interval_secs: u64,
}

impl ServerConfig {
    /// A configuration with the default timings and the authentication mode
    /// that the optional credentials give.
    pub fn new(username: Option<Vec<u8>>, password: Option<Vec<u8>>) -> (r: Result<
        ServerConfig,
        ConfigError,
    >)
        ensures
            match (r, configured_credentials(username, password)) {
                (Ok(c), Ok(creds)) => c.auth.credentials() == creds
                    && c.handshake_timeout_secs == DEFAULT_HANDSHAKE_TIMEOUT_SECS
                    && c.keepalive_idle_secs == DEFAULT_KEEPALIVE_IDLE_SECS
                    && c.keepalive_interval_secs == DEFAULT_KEEPALIVE_INTERVAL_SECS,
                (Err(e), Err(expected)) => e == expected,
                _ => false,
            },
    {
        match auth_mode_from(username, password) {
            Ok(auth) => Ok(
                ServerConfig {
                    auth,
                    handshake_timeout_secs: DEFAULT_HANDSHAKE_TIMEOUT_SECS,
                    keepalive_idle_secs: DEFAULT_KEEPALIVE_IDLE_SECS,
                    keepalive_interval_secs: DEFAULT_KEEPALIVE_INTERVAL_SECS,
                },
            ),
            Err(e) => Err(e),
        }
    }
}

} // verus!
