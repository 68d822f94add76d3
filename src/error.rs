use vstd::prelude::*;

verus! {

/// Every way a job run can fail.
#[derive(Debug, Clone, Copy, PartialEq, Eq, Structural)]
pub enum JobError {
    NoHomeDirectory,
    VcsLookupFailed,
    ConfigIncomplete,
    WorkspaceProvisioningFailed,
    PhaseExecutionFailed,
    ContainerSpawnFailed,
    ContainerIoFailed,
    InvalidPath,
}

/// The message of each error.
pub open spec fn message_of(e: JobError) -> Seq<char> {
    match e {
        JobError::NoHomeDirectory => "unable to find home dir"@,
        JobError::VcsLookupFailed => "unable to read the current git HEAD"@,
        JobError::ConfigIncomplete => "a required configuration value is missing"@,
        JobError::WorkspaceProvisioningFailed => "failed to provision the workspace"@,
        JobError::PhaseExecutionFailed => "a phase failed"@,
        JobError::ContainerSpawnFailed => "failed to execute container"@,
        JobError::ContainerIoFailed => "failed to read the container output"@,
        JobError::InvalidPath => "invalid path (non-unicode)"@,
    }
}

impl JobError {
    /// A short human readable message for the error.
    pub fn message(&self) -> (r: String)
        ensures
            r@ == message_of(*self),
    {
        let s = match self {
            JobError::NoHomeDirectory => "unable to find home dir",
            JobError::VcsLookupFailed => "unable to read the current git HEAD",
            JobError::ConfigIncomplete => "a required configuration value is missing",
            JobError::WorkspaceProvisioningFailed => "failed to provision the workspace",
            JobError::PhaseExecutionFailed => "a phase failed",
            JobError::ContainerSpawnFailed => "failed to execute container",
            JobError::ContainerIoFailed => "failed to read the container output",
            JobError::InvalidPath => "invalid path (non-unicode)",
        };
        s.to_owned()
    }
}

} // verus!
