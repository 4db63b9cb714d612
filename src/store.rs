//! What reading a stored file gave, as the stores of the configuration and
//! of the registry see it.

use vstd::prelude::*;

verus! {

/// An I/O error of std, carried through without being looked into.
#[verifier::external_type_specification]
#[verifier::external_body]
pub struct ExIoError(std::io::Error);

/// A parse error of toml, carried through without being looked into.
#[verifier::external_type_specification]
#[verifier::external_body]
pub struct ExTomlDeError(toml::de::Error);

/// The outcome of looking for a stored file and reading it.
pub enum Stored<T> {
    /// The platform defines no directory for the file.
    NoLocation,
    /// There is no such file.
    Missing,
    /// The file exists but could not be read.
    ReadFailed(std::io::Error),
    /// The file was read but its contents could not be parsed.
    ParseFailed(toml::de::Error),
    /// The file was read and parsed.
    Found(T),
}

} // verus!
