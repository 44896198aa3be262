//! The version store controller: startup orchestration.
//!
//! Startup reads the persisted version marker. A marker of 0 means the store
//! is untracked: brand new, or created before version tracking existed. For
//! such a store the controller asks the inferencer which version the schema
//! already represents and persists that as the baseline, so that a later
//! apply pass replays only the migrations the store truly lacks.

use vstd::prelude::*;
use crate::errors::StoreError;
use crate::infer::get_legacy_version;
use crate::registry::end_version;
use crate::registry::pending_steps;
use crate::sqlite::get_user_version;
use crate::sqlite::set_user_version;

verus! {

/// The baseline the controller persists for a store whose marker reads
/// `current` when inference reports `inferred`: an untracked store adopts
/// the inferred version, a tracked one keeps its marker.
pub open spec fn baseline(current: int, inferred: int) -> int {
    if current == 0 {
        inferred
    } else {
        current
    }
}

/// The executable twin of `baseline`. Never lowers the marker.
pub fn baseline_for(current: usize, inferred: usize) -> (v: usize)
    ensures
        v as int == baseline(current as int, inferred as int),
        v >= current,
{
    if current == 0 {
        inferred
    } else {
        current
    }
}

/// Version monotonicity: no write this engine makes lowers the persisted
/// version. Establishing a baseline keeps or raises the marker, every marker
/// an apply pass confirms lies above the version the pass started from and
/// they come in increasing order, and the version an apply pass ends at is
/// never below the starting one.
pub proof fn lemma_version_monotonic(current: int, inferred: int, target: int)
    requires
        0 <= current,
        0 <= inferred,
    ensures
        baseline(current, inferred) >= current,
        end_version(current, target) >= current,
        forall|i: int|
            0 <= i < pending_steps(current, target).len() ==> #[trigger] pending_steps(
                current,
                target,
            )[i] > current,
        forall|i: int, j: int|
            #![trigger pending_steps(current, target)[i], pending_steps(current, target)[j]]
            0 <= i < j < pending_steps(current, target).len() ==> pending_steps(current, target)[i]
                < pending_steps(current, target)[j],
{
}

/// Reads the persisted version marker; when it is unset (0), infers the
/// store's version from its schema shape and persists the result as the
/// baseline, without running any migration. A no-op on a store whose marker
/// is already set. Runs once per connection open, before migrations are
/// applied, so a legacy store is not mistakenly replayed from version 0.
pub fn ensure_version_is_set(conn: &rusqlite::Connection) -> (r: Result<(), StoreError>) {
    let current = match get_user_version(conn) {
        Ok(v) => v,
        Err(e) => {
            return Err(StoreError::Connection(e));
        },
    };
    if current == 0 {
        let inferred = match get_legacy_version(conn) {
            Ok(v) => v,
            Err(e) => {
                return Err(e);
            },
        };
        let new_marker = baseline_for(current as usize, inferred);
        match set_user_version(conn, new_marker as u32) {
            Ok(()) => {},
            Err(e) => {
                return Err(StoreError::Connection(e));
            },
        }
    }
    Ok(())
}

} // verus!
