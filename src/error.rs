//! The errors of the deployment tool and the process exit status of each.

use vstd::prelude::*;

verus! {

/// Everything that can end a command of the tool.
#[derive(Debug, Clone, Copy, PartialEq, Eq, Structural)]
pub enum DeployError {
    /// No stored profile has the requested name.
    ConfigNotFound,
    /// A profile of that name is stored already.
    ConfigAlreadyExists,
    /// A stored profile could not be parsed.
    ConfigCorrupt,
    /// The build-output directory holds no archive.
    ArtifactNotFound,
    /// A path is not representable as text.
    InvalidPath,
    /// Neither the environment nor the search path names a server installation.
    InstallationNotFound,
    /// The server's launcher could not be started.
    SpawnError,
    /// Any other failure of the filesystem.
    IoError,
    /// The process handle was found locked where it should not be.
    LockContention,
}

/// The exit status that reports an error: one distinct non-zero value each.
pub open spec fn status_of(e: DeployError) -> i32 {
    match e {
        DeployError::ConfigNotFound => 2,
        DeployError::ConfigAlreadyExists => 3,
        DeployError::ConfigCorrupt => 4,
        DeployError::ArtifactNotFound => 5,
        DeployError::InvalidPath => 6,
        DeployError::InstallationNotFound => 7,
        DeployError::SpawnError => 8,
        DeployError::IoError => 9,
        DeployError::LockContention => 10,
    }
}

impl DeployError {
    /// The process exit status that reports this error.
    pub fn exit_code(&self) -> (r: i32)
        ensures
            r == status_of(*self),
            r != 0,
    {
        match self {
            DeployError::ConfigNotFound => 2,
            DeployError::ConfigAlreadyExists => 3,
            DeployError::ConfigCorrupt => 4,
            DeployError::ArtifactNotFound => 5,
            DeployError::InvalidPath => 6,
            DeployError::InstallationNotFound => 7,
            DeployError::SpawnError => 8,
            DeployError::IoError => 9,
            DeployError::LockContention => 10,
        }
    }
}

/// Distinct errors end the process with distinct, non-zero statuses.
pub proof fn lemma_status_distinct(a: DeployError, b: DeployError)
    ensures
        status_of(a) != 0,
        a != b ==> status_of(a) != status_of(b),
{
}

} // verus!
