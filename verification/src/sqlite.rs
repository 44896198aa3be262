//! The trusted boundary to the embedded relational store.
//!
//! Everything the engine needs from the store runs through the wrappers in
//! this module. Each doc comment names the outside function relied on. The
//! values read back depend on the store file itself, so the contracts promise
//! nothing about them; the verified callers state what holds whatever comes
//! back.

use vstd::prelude::*;

verus! {

#[verifier::external_type_specification]
#[verifier::external_body]
pub struct ExConnection(rusqlite::Connection);

#[verifier::external_type_specification]
#[verifier::external_body]
pub struct ExError(rusqlite::Error);

/// Relies on rusqlite::Connection::open_in_memory: opens a fresh, empty
/// in-memory store. Used only to replay the migration sequence against a
/// scratch store during validation.
#[verifier::external_body]
pub(crate) fn open_in_memory() -> (r: Result<rusqlite::Connection, rusqlite::Error>) {
    rusqlite::Connection::open_in_memory()
}

/// Relies on rusqlite::Connection::query_row running `PRAGMA user_version`:
/// reads the store's persisted version marker from its reserved metadata
/// slot, a 32-bit field. The value depends on the store on disk, so nothing
/// is promised of it.
#[verifier::external_body]
pub(crate) fn get_user_version(conn: &rusqlite::Connection) -> (r: Result<
    u32,
    rusqlite::Error,
>) {
    conn.query_row("PRAGMA user_version", [], |row| row.get(0))
}

/// Relies on rusqlite::Connection::pragma_update: writes `version` into the
/// store's `user_version` metadata slot, a 32-bit field.
#[verifier::external_body]
pub(crate) fn set_user_version(conn: &rusqlite::Connection, version: u32) -> (r: Result<
    (),
    rusqlite::Error,
>) {
    conn.pragma_update(None, "user_version", version)
}

/// Relies on rusqlite::Connection::unchecked_transaction,
/// rusqlite::Connection::execute_batch, rusqlite::Connection::pragma_update
/// and rusqlite::Transaction::commit: runs one migration step's batch of
/// schema statements, and the write of `version` into the store's
/// `user_version` slot, inside a single transaction. The transaction commits
/// only after every statement succeeded; on an error, or if the process
/// aborts before the commit, it rolls back, so the step and its marker apply
/// as one unit or not at all.
#[verifier::external_body]
pub(crate) fn apply_step(conn: &rusqlite::Connection, sql: &str, version: u32) -> (r: Result<
    (),
    rusqlite::Error,
>) {
    let tx = conn.unchecked_transaction()?;
    tx.execute_batch(sql)?;
    tx.pragma_update(None, "user_version", version)?;
    tx.commit()
}

/// Relies on rusqlite::Connection::prepare and rusqlite::Statement::exists,
/// querying `pragma_table_info`: reports whether `column` exists on `table`
/// in the live schema. The answer depends on the store on disk, so nothing is
/// promised of it.
#[verifier::external_body]
pub(crate) fn column_exists(conn: &rusqlite::Connection, table: &str, column: &str) -> (r: Result<
    bool,
    rusqlite::Error,
>) {
    let mut stmt = conn.prepare("SELECT 1 FROM pragma_table_info(?) WHERE name=?")?;
    stmt.exists([table, column])
}

} // verus!
