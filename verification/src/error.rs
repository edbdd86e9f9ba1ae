//! Failure taxonomy of the launcher core. Every fallible step reports one of
//! these instead of aborting; the surrounding application renders the
//! message and stops the launch attempt.

use vstd::prelude::*;

verus! {

/// Why a launch attempt failed.
#[derive(Debug)]
pub enum LaunchError {
    /// A transport or HTTP failure while fetching a remote artifact.
    NetworkError(String),
    /// A create, read, write or permission failure on local storage.
    FilesystemError(String),
    /// Malformed version metadata.
    ParseError(String),
    /// A corrupt or unsupported runtime archive.
    ArchiveError(String),
    /// No runtime download is known for this OS and architecture.
    UnsupportedPlatform,
    /// A required remote artifact has no source URL to fetch it from.
    ResolutionError,
}

impl LaunchError {
    /// The human-readable text for this failure.
    pub open spec fn spec_message(self) -> Seq<char> {
        match self {
            LaunchError::NetworkError(d) => "network error: "@ + d@,
            LaunchError::FilesystemError(d) => "filesystem error: "@ + d@,
            LaunchError::ParseError(d) => "could not parse version metadata: "@ + d@,
            LaunchError::ArchiveError(d) => "could not unpack runtime archive: "@ + d@,
            LaunchError::UnsupportedPlatform => "unsupported operating system"@,
            LaunchError::ResolutionError => "no source available for a required download"@,
        }
    }

    /// Renders the failure as one human-readable line.
    pub fn message(&self) -> (r: String)
        ensures
            r@ == self.spec_message(),
    {
        match self {
            LaunchError::NetworkError(d) => String::from_str("network error: ").concat(d.as_str()),
            LaunchError::FilesystemError(d) => String::from_str("filesystem error: ").concat(
                d.as_str(),
            ),
            LaunchError::ParseError(d) => String::from_str(
                "could not parse version metadata: ",
            ).concat(d.as_str()),
            LaunchError::ArchiveError(d) => String::from_str(
                "could not unpack runtime archive: ",
            ).concat(d.as_str()),
            LaunchError::UnsupportedPlatform => String::from_str("unsupported operating system"),
            LaunchError::ResolutionError => String::from_str(
                "no source available for a required download",
            ),
        }
    }
}

} // verus!
