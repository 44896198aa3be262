//! A versioned schema-migration engine for an embedded relational store.
//!
//! The store carries a single persisted schema-version marker: the number of
//! migrations that have been applied to it. Startup reads the marker, infers a
//! baseline for stores that predate version tracking, and then applies every
//! pending migration in order, advancing the marker after each step.

pub mod controller;
pub mod errors;
pub mod infer;
pub mod registry;
pub mod sqlite;
