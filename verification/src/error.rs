//! The error taxonomy of a snapshot run: every failure a run can
//! surface, each with a diagnostic line naming the failing step.

use vstd::prelude::*;
use vstd::string::StringExecFns;

verus! {

/// The pipeline step whose external subprocess failed.
#[derive(Clone, Copy, PartialEq, Eq, Debug)]
pub enum SubprocessStep {
    /// The clone operation that materializes the working copy.
    Materialize,
    /// The archiving operation that packs the working copy.
    Archive,
}

/// The first failure of a snapshot run. Every error surfaces
/// immediately, aborts the remaining pipeline stages, and is reported
/// as the process's failure outcome; none is retried.
#[derive(Clone, Copy, PartialEq, Eq, Debug)]
pub enum SnapshotError {
    /// The required bucket name is missing or empty.
    Configuration,
    /// Ambient cloud credentials could not be resolved.
    CredentialResolution,
    /// The scoped temporary workspace could not be created.
    Workspace,
    /// An external subprocess exited without producing usable output.
    Subprocess(SubprocessStep),
    /// The storage client reported a failure while publishing.
    Upload,
}

/// The diagnostic line for each error, naming the first failing step.
pub open spec fn spec_message(e: SnapshotError) -> Seq<char> {
    match e {
        SnapshotError::Configuration => "configuration error: the bucket name must not be empty"@,
        SnapshotError::CredentialResolution => "credential error: ambient cloud credentials could not be resolved"@,
        SnapshotError::Workspace => "workspace error: the scoped temporary directory could not be created"@,
        SnapshotError::Subprocess(SubprocessStep::Materialize) => "materialize error: the clone operation did not produce a working copy"@,
        SnapshotError::Subprocess(SubprocessStep::Archive) => "archive error: the archiving operation did not produce an archive"@,
        SnapshotError::Upload => "upload error: the storage client could not publish the archive"@,
    }
}

impl SnapshotError {
    /// Renders the diagnostic that describes this failure to the
    /// operator.
    pub fn message(&self) -> (r: String)
        ensures
            r@ == spec_message(*self),
    {
        match self {
            SnapshotError::Configuration => String::from_str(
                "configuration error: the bucket name must not be empty",
            ),
            SnapshotError::CredentialResolution => String::from_str(
                "credential error: ambient cloud credentials could not be resolved",
            ),
            SnapshotError::Workspace => String::from_str(
                "workspace error: the scoped temporary directory could not be created",
            ),
            SnapshotError::Subprocess(SubprocessStep::Materialize) => String::from_str(
                "materialize error: the clone operation did not produce a working copy",
            ),
            SnapshotError::Subprocess(SubprocessStep::Archive) => String::from_str(
                "archive error: the archiving operation did not produce an archive",
            ),
            SnapshotError::Upload => String::from_str(
                "upload error: the storage client could not publish the archive",
            ),
        }
    }
}

} // verus!
