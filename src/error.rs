use vstd::prelude::*;

verus! {

/// What can go wrong while provisioning, running or tearing down an install.
#[derive(Debug, Clone, PartialEq, Eq)]
pub enum WikiError {
    /// A branch spec lacks its owner or its repository.
    BranchSpec(String),
    /// A URL that the `url` crate refused.
    Url(String),
    /// A download failed: transport error or non-success status.
    Download(String),
    /// An archive whose extension is neither `.zip` nor `.tar.xz`.
    UnsupportedArchive(String),
    /// An archive that holds no entry, or whose first entry has an empty name.
    EmptyArchive(String),
    /// No runtime archive was found in the install directory.
    MissingArtifact,
    /// The target platform has no runtime distribution.
    UnsupportedPlatform,
    /// No runtime path has been recorded, so the package manager cannot be found.
    NoRuntime,
    /// The package manager exited with a non-zero code.
    Subprocess(i32),
    /// The package manager could not be started.
    Spawn(String),
    /// A filesystem operation failed.
    Io(String),
    /// The driver answered with an event that does not fit the requested action.
    UnexpectedEvent,
}

} // verus!
