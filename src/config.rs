//! The configuration: the API key of the tracking service.

use vstd::prelude::*;

use crate::store::Stored;

verus! {

/// The configuration of `track`.
pub struct Config {
    api_key: String,
}

impl View for Config {
    type V = Seq<char>;

    /// The API key.
    closed spec fn view(&self) -> Seq<char> {
        self.api_key@
    }
}

/// An error that can occur when loading the configuration.
pub enum LoadError {
    /// The platform defines no configuration directory.
    NoConfigDir(ConfigDirError),
    /// There is no configuration file.
    NotFound,
    /// The configuration file exists but could not be read.
    ReadError(std::io::Error),
    /// The configuration file could not be parsed.
    ParseError(toml::de::Error),
}

/// An error that can occur when saving the configuration.
pub enum SaveError {
    /// The platform defines no configuration directory.
    NoConfigDir(ConfigDirError),
    /// The configuration file or its directory could not be written.
    FsError(std::io::Error),
}

/// An error that can occur when locating the configuration directory.
pub enum ConfigDirError {
    /// The platform defines no configuration directory.
    NoConfigDir,
}

impl Config {
    /// Creates a configuration with the given API key.
    pub fn new(api_key: String) -> (r: Self)
        ensures
            r@ == api_key@,
    {
        Config { api_key }
    }

    /// Gets the API key.
    pub fn api_key(&self) -> (r: &str)
        ensures
            r@ == self@,
    {
        self.api_key.as_str()
    }

    /// Decides what loading the configuration gives: a missing file is an
    /// error of its own, told apart from the failures to read or parse one.
    pub fn from_stored(stored: Stored<Config>) -> (r: Result<Config, LoadError>)
        ensures
            match stored {
                Stored::NoLocation => r matches Err(
                    LoadError::NoConfigDir(ConfigDirError::NoConfigDir),
                ),
                Stored::Missing => r matches Err(LoadError::NotFound),
                Stored::ReadFailed(e) => r matches Err(LoadError::ReadError(e2)) && e2 == e,
                Stored::ParseFailed(e) => r matches Err(LoadError::ParseError(e2)) && e2 == e,
                Stored::Found(config) => r matches Ok(config2) && config2 == config,
            },
    {
        match stored {
            Stored::NoLocation => Err(LoadError::NoConfigDir(ConfigDirError::NoConfigDir)),
            Stored::Missing => Err(LoadError::NotFound),
            Stored::ReadFailed(e) => Err(LoadError::ReadError(e)),
            Stored::ParseFailed(e) => Err(LoadError::ParseError(e)),
            Stored::Found(config) => Ok(config),
        }
    }
}

} // verus!
