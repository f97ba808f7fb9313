use vstd::prelude::*;

verus! {

/// The failures that the engine itself decides; transport and filesystem
/// failures are reported by the caller that performs the I/O.
#[derive(Debug, Clone, PartialEq, Eq)]
pub enum InstallError {
    /// A requested version identifier matches no catalog entry.
    VersionNotFound(String),
    /// The install directory lacks the launcher's profile store.
    InvalidInstallDir(String),
    /// A launch descriptor lacks a field; carries the field's name.
    MalformedDescriptor(String),
    /// The launcher profile store is not an object with a `profiles` object.
    MalformedStore(String),
    /// A maven coordinate lacks its `group:artifact:version` separators.
    MalformedCoordinate(String),
    /// A loader version string is not a semantic version.
    InvalidVersion(String),
}

} // verus!
