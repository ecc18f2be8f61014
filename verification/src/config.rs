//! Server configuration: which address to listen on.

use vstd::prelude::*;

verus! {

/// Command-line arguments.
#[derive(Debug, Clone, Copy, PartialEq, Eq)]
pub struct Args {
    /// Use `TCP_TAILNET` instead of `TCP_LOCAL`.
    pub tailnet: bool,
}

/// The name of the environment variable that holds the address to listen
/// on under these arguments.
pub open spec fn address_variable_name(args: Args) -> Seq<char> {
    if args.tailnet {
        "TCP_TAILNET"@
    } else {
        "TCP_LOCAL"@
    }
}

impl Args {
    /// The environment variable that holds the address to listen on.
    pub fn address_variable(&self) -> (name: &'static str)
        ensures
            name@ == address_variable_name(*self),
    {
        if self.tailnet {
            "TCP_TAILNET"
        } else {
            "TCP_LOCAL"
        }
    }
}

/// The server configuration.
#[derive(Debug)]
pub struct Config {
    /// The address to listen on.
    pub tcp_addr: String,
}

/// The address variable that the arguments ask for is not set.
#[derive(Debug, Clone, Copy, PartialEq, Eq)]
pub enum ConfigError {
    /// `--tailnet` was given and `TCP_TAILNET` is not set.
    TailnetMissing,
    /// `TCP_LOCAL` is not set.
    LocalMissing,
}

impl ConfigError {
    /// The text of the error.
    pub open spec fn text(self) -> Seq<char> {
        match self {
            ConfigError::TailnetMissing =>
                "TCP_TAILNET is not configured in the environment file yet. You must define it."@,
            ConfigError::LocalMissing =>
                "TCP_LOCAL is not configured anymore in the environment file. You must define it"@,
        }
    }

    /// The text of the error.
    pub fn message(&self) -> (m: &'static str)
        ensures
            m@ == self.text(),
    {
        match self {
            ConfigError::TailnetMissing =>
                "TCP_TAILNET is not configured in the environment file yet. You must define it.",
            ConfigError::LocalMissing =>
                "TCP_LOCAL is not configured anymore in the environment file. You must define it",
        }
    }
}

/// The error for arguments whose address variable is not set.
pub open spec fn missing_address_error(args: Args) -> ConfigError {
    if args.tailnet {
        ConfigError::TailnetMissing
    } else {
        ConfigError::LocalMissing
    }
}

impl Config {
    /// Builds the configuration from the arguments and the value of the
    /// variable they name (`None` when it is not set).
    pub fn from_args(args: &Args, address: Option<String>) -> (r: Result<Config, ConfigError>)
        ensures
            match address {
                Some(a) => r matches Ok(c) && c.tcp_addr@ == a@,
                None => r == Err::<Config, ConfigError>(missing_address_error(*args)),
            },
    {
        match address {
            Some(a) => Ok(Config { tcp_addr: a }),
            None => if args.tailnet {
                Err(ConfigError::TailnetMissing)
            } else {
                Err(ConfigError::LocalMissing)
            },
        }
    }
}

/// Builds the configuration from the arguments and the values of `TCP_LOCAL`
/// and `TCP_TAILNET` (`None` when unset): `--tailnet` selects `TCP_TAILNET`,
/// otherwise `TCP_LOCAL` is used, and the selected variable must be set.
pub fn get_config_from_args(args: Args, tcp_local: Option<String>, tcp_tailnet: Option<String>) -> (r: Result<
    Config,
    ConfigError,
>)
    ensures
        match (if args.tailnet { tcp_tailnet } else { tcp_local }) {
            Some(a) => r matches Ok(c) && c.tcp_addr@ == a@,
            None => r == Err::<Config, ConfigError>(missing_address_error(args)),
        },
{
    let address = if args.tailnet { tcp_tailnet } else { tcp_local };
    Config::from_args(&args, address)
}

} // verus!
