//! Error types of the migration engine.
//!
//! Nothing here is retried: every failure is surfaced to the startup
//! sequence, which is expected to halt rather than run against a partially
//! migrated schema.

use vstd::prelude::*;

verus! {

/// A migration step failed. `position` identifies the failing step (1-based),
/// and `cause` carries the store's own error. The version marker is left at
/// the last step that completed, so the next startup resumes there.
#[derive(Debug, PartialEq)]
pub struct MigrationApplyError {
    pub position: usize,
    pub cause: rusqlite::Error,
}

/// Replaying the full migration sequence against a scratch store failed:
/// the sequence itself is internally inconsistent, or no scratch store could
/// be opened. Detected at build/test time, never during normal startup.
#[derive(Debug, PartialEq)]
pub enum ValidationError {
    /// The scratch store could not be opened.
    Connection(rusqlite::Error),
    /// A step of the sequence failed to apply.
    Migration(MigrationApplyError),
}

/// Startup could not read or establish the store's version marker.
#[derive(Debug, PartialEq)]
pub enum StoreError {
    /// The version marker could not be read or written.
    Connection(rusqlite::Error),
    /// Schema metadata could not be queried during legacy inference.
    Probe(rusqlite::Error),
}

} // verus!
