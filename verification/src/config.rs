//! Loaded configuration: the API credentials that authenticate the agent
//! and the directory they are read from.  Reading and deserializing the
//! files is the surrounding binary's work; the validation of what was read
//! lives here.

use vstd::prelude::*;

verus! {

/// The path type of the configuration directory, taken as opaque.
#[verifier::external_type_specification]
#[verifier::external_body]
pub struct ExPathBuf(std::path::PathBuf);

/// An API key and the secret signing token, as loaded from local
/// configuration.  Immutable once loaded; reloadable by explicit command.
#[derive(Debug)]
pub struct ApiAuth {
    pub api_key: String,
    pub secret_token: String,
}

/// The agent's API configuration: its credentials.
#[derive(Debug)]
pub struct ApiConfig {
    pub auth: ApiAuth,
}

/// Where the configuration files live.
pub struct Config {
    pub config_dir: std::path::PathBuf,
}

impl Config {
    /// A configuration rooted at the given directory.
    pub fn with_dir(config_dir: std::path::PathBuf) -> (r: Config)
        ensures
            r.config_dir == config_dir,
    {
        Config { config_dir }
    }
}

/// Whether an API configuration file's permission mode is acceptable:
/// looking at the owner's read and write bits alone, the file must be
/// owner-readable — the masked mode is 400 or 600 in octal.
pub open spec fn spec_api_config_mode_ok(mode: u32) -> bool {
    mode & 0o600 == 0o400 || mode & 0o600 == 0o600
}

pub fn api_config_mode_ok(mode: u32) -> (r: bool)
    ensures
        r == spec_api_config_mode_ok(mode),
{
    let masked = mode & 0o600;
    masked == 0o400 || masked == 0o600
}

} // verus!
