//! The immutable configuration record: local port, upstream proxy address,
//! target address, and an optional credential pair.
use vstd::prelude::*;

verus! {

/// A username/password pair for Basic authentication at the upstream proxy.
#[derive(Debug)]
pub struct Credentials {
    pub username: String,
    pub password: String,
}

/// The configuration a running proxy is built from. Constructed once at
/// startup and read-only afterwards; the credential pair is either whole
/// or absent, never half-present.
#[derive(Debug)]
pub struct Config {
    /// Local port the listener binds on (at address 127.0.0.1).
    pub port: u16,
    /// host:port of the upstream HTTP proxy.
    pub proxy_address: String,
    /// host:port of the fixed target every tunnel leads to.
    pub target: String,
    /// Credentials for the upstream proxy, if it requires them.
    pub credentials: Option<Credentials>,
}

/// Rejections of a half-present credential pair.
#[derive(Clone, Copy, Debug, PartialEq, Eq, Structural)]
pub enum ConfigError {
    /// A username was supplied without a password.
    UsernameWithoutPassword,
    /// A password was supplied without a username.
    PasswordWithoutUsername,
}

impl Config {
    /// Validates and assembles a configuration. Succeeds exactly when the
    /// username and the password are both present or both absent.
    pub fn new(
        port: u16,
        proxy_address: String,
        target: String,
        username: Option<String>,
        password: Option<String>,
    ) -> (r: Result<Config, ConfigError>)
        ensures
            match (username, password) {
                (Some(u), Some(p)) => r matches Ok(c) && c.port == port && c.proxy_address
                    == proxy_address && c.target == target && c.credentials == Some(
                    (Credentials { username: u, password: p }),
                ),
                (None, None) => r matches Ok(c) && c.port == port && c.proxy_address
                    == proxy_address && c.target == target && c.credentials is None,
                (Some(_), None) => r == Err::<Config, ConfigError>(
                    ConfigError::UsernameWithoutPassword,
                ),
                (None, Some(_)) => r == Err::<Config, ConfigError>(
                    ConfigError::PasswordWithoutUsername,
                ),
            },
    {
        match (username, password) {
            (Some(u), Some(p)) => Ok(
                Config {
                    port,
                    proxy_address,
                    target,
                    credentials: Some(Credentials { username: u, password: p }),
                },
            ),
            (None, None) => Ok(Config { port, proxy_address, target, credentials: None }),
            (Some(_), None) => Err(ConfigError::UsernameWithoutPassword),
            (None, Some(_)) => Err(ConfigError::PasswordWithoutUsername),
        }
    }
}

} // verus!
