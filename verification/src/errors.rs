use vstd::prelude::*;

verus! {

/// The failure taxonomy of the manager. Every operation that can fail
/// reports exactly one of these kinds; no failure is silently swallowed
/// and none terminates the process from inside the library.
#[derive(Clone, Debug, PartialEq, Eq)]
pub enum McsError {
    /// The version catalog could not be reached (transport failure or a
    /// non-success response).
    CatalogUnavailable,
    /// The catalog document did not have the expected shape.
    CatalogMalformed,
    /// No catalog entry carries the requested effective id.
    VersionNotFound(String),
    /// The per-version metadata document lacks the server-artifact URL.
    ArtifactUrlMissing,
    /// Transport or I/O failure while streaming the artifact.
    DownloadError,
    /// The stream delivered fewer bytes than the declared content length.
    DownloadIncomplete,
    /// `create` was asked for a name that already has a directory.
    InstanceAlreadyExists(String),
    /// An operation that needs an existing instance found none.
    InstanceNotFound(String),
    /// A filesystem operation on the base directory failed.
    IoError,
}

impl McsError {
    /// The single-line description `message` returns for each kind.
    pub open spec fn message_spec(&self) -> Seq<char> {
        match self {
            McsError::CatalogUnavailable => "could not reach the version catalog"@,
            McsError::CatalogMalformed => "the version catalog document is malformed"@,
            McsError::VersionNotFound(_) => "no such version in the catalog"@,
            McsError::ArtifactUrlMissing => "the version metadata lists no server artifact"@,
            McsError::DownloadError => "the artifact download failed"@,
            McsError::DownloadIncomplete => "the artifact download ended before the declared length"@,
            McsError::InstanceAlreadyExists(_) => "a server with this name already exists"@,
            McsError::InstanceNotFound(_) => "no server with this name exists"@,
            McsError::IoError => "a filesystem operation failed"@,
        }
    }

    /// A single-line human-readable description of the failure kind.
    pub fn message(&self) -> (r: &'static str)
        ensures
            r@ == self.message_spec(),
    {
        match self {
            McsError::CatalogUnavailable => "could not reach the version catalog",
            McsError::CatalogMalformed => "the version catalog document is malformed",
            McsError::VersionNotFound(_) => "no such version in the catalog",
            McsError::ArtifactUrlMissing => "the version metadata lists no server artifact",
            McsError::DownloadError => "the artifact download failed",
            McsError::DownloadIncomplete => "the artifact download ended before the declared length",
            McsError::InstanceAlreadyExists(_) => "a server with this name already exists",
            McsError::InstanceNotFound(_) => "no server with this name exists",
            McsError::IoError => "a filesystem operation failed",
        }
    }
}

} // verus!
