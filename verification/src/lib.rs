//! A point-in-time snapshot of a source-control working tree, published
//! as one compressed archive to an object store under a configurable
//! key prefix.
//!
//! The library holds the run's verified logic: the derivation of the
//! destination object key, the configuration and its validation, the
//! error taxonomy, the orchestrator state machine that sequences the
//! pipeline — materialize, archive, publish — and the line reported on
//! success. The external work each stage calls for — the clone and
//! archive subprocesses, the network upload, the temporary workspace —
//! is performed by the driver around it, which reports each outcome
//! back to the machine.

pub mod config;
pub mod error;
pub mod key;
pub mod orchestrator;
pub mod report;
