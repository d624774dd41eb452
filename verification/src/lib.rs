//! A safe, verified core for building 7-Zip format plugins.
//!
//! The host drives a plugin through fixed dispatch tables; this crate holds
//! the bridge logic behind those tables — object lifecycle and reference
//! counting, tagged-variant property marshaling, stream adaptation, and the
//! extraction and update protocols — as verified code over plain values.
//! The raw dispatch-table layer itself is ordinary foreign-interface glue
//! that a thin outer crate supplies.

pub mod error;
pub mod guid;
pub mod types;
pub mod variant;
pub mod traits;
pub mod com;
pub mod streams;
pub mod handler;
pub mod exports;
pub mod extract;
pub mod update;
pub mod testing;
