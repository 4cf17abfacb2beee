//! What can go wrong while a repository is opened.
use vstd::prelude::*;
use crate::open::config::ConfigKey;

verus! {

/// What an outside service reported when it failed, in its own words.
#[derive(Clone, PartialEq, Eq, Debug)]
pub struct Failure {
    pub description: String,
}

/// A configuration value that could not be used under strict settings.
#[derive(Clone, PartialEq, Eq, Debug)]
pub enum ConfigError {
    /// A path value could not be interpolated; holds the value as configured.
    PathInterpolation { path: Vec<u8> },
    /// A value was set that cannot be read as what its key asks for.
    ConfigTypedString { key: ConfigKey },
    /// A value could not be read as a boolean.
    ConfigBoolean { key: ConfigKey },
    /// The prefix under which replacement references live is no relative path.
    RefsPrefix { prefix: Vec<u8> },
    /// The configuration could not be loaded.
    Load(Failure),
}

/// Why a repository could not be opened.
#[derive(Clone, PartialEq, Eq, Debug)]
pub enum Error {
    /// No probe found a repository; holds the path last probed and what discovery said.
    NotARepository { path: Vec<u8>, source: Failure },
    /// The directory is not safe to use and the caller asked not to go on then; holds the
    /// canonical path that failed the check.
    UnsafeGitDir { path: Vec<u8> },
    /// A configuration value was malformed.
    Config(ConfigError),
    /// The file system or the environment could not be queried.
    Io(Failure),
}

} // verus!
