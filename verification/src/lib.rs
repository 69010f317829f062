//! An embedded query-execution session layer: code running inside a host
//! database engine issues SQL against an in-process engine model and consumes
//! typed results, under a reentrant stack of connection frames.
//!
//! The crate is organised leaves-first: typed datum marshalling, the SQL
//! statement forms the engine accepts, the engine's table store, result sets,
//! prepared statements, cursors, and finally the per-frame execution client
//! and the connection stack that hands clients out.

pub mod cursor;
pub mod datum;
pub mod engine;
pub mod error;
pub mod laws;
pub mod prepared;
pub mod result_set;
pub mod session;
pub mod sql;
pub mod target_info;
pub mod text;
