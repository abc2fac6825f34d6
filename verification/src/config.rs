//! The run configuration: bucket name, key prefix and repository root,
//! supplied once at startup and immutable for the lifetime of the run.

use vstd::prelude::*;
use crate::error::SnapshotError;

verus! {

/// One run's configuration. The bucket name is required and must be
/// non-empty; the prefix is optional and an empty prefix suppresses
/// prefixing; the repository root defaults to the process's working
/// directory when none was supplied.
pub struct Config {
    pub bucket: String,
    pub prefix: String,
    pub root: String,
}

impl Config {
    /// A configuration is valid exactly when its bucket name is
    /// non-empty.
    pub open spec fn valid(self) -> bool {
        self.bucket@.len() > 0
    }

    /// Builds the configuration from the values the operator supplied.
    /// The repository root falls back to the supplied default (the
    /// process's working directory): the default is computed by the
    /// caller and passed in explicitly, never taken from ambient
    /// process state.
    pub fn resolve(bucket: String, prefix: String, root: Option<String>, default_root: String) -> (c:
        Config)
        ensures
            c.bucket == bucket,
            c.prefix == prefix,
            root matches Some(r) ==> c.root == r,
            root is None ==> c.root == default_root,
    {
        let root = match root {
            Some(r) => r,
            None => default_root,
        };
        Config { bucket, prefix, root }
    }

    /// Checks the configuration: accepts it exactly when the bucket
    /// name is non-empty, and rejects it with the configuration error
    /// otherwise.
    pub fn validate(&self) -> (r: Result<(), SnapshotError>)
        ensures
            r is Ok <==> self.valid(),
            r is Err ==> r == Err::<(), SnapshotError>(SnapshotError::Configuration),
    {
        if self.bucket.as_str().is_empty() {
            Err(SnapshotError::Configuration)
        } else {
            Ok(())
        }
    }
}

} // verus!
