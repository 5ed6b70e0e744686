//! Core logic of a driver that exposes an embedded, optionally replicated SQL
//! engine to a dynamically typed host environment.
//!
//! The modules here hold the decision-making half of the driver: value
//! marshaling between the host's loose value model and the engine's typed
//! values, parameter binding, the error taxonomy, path-scheme recognition,
//! and the lifecycle state shared by a database handle and the statement and
//! cursor handles derived from it.  The engine itself (storage, replication,
//! query execution) and the host's object system are external collaborators;
//! the embedding layer performs those calls and feeds their plain-value
//! results through the functions of this crate.

pub mod driver;
pub mod error;
pub mod exclusion;
pub mod laws;
pub mod params;
pub mod path;
pub mod value;

pub use error::convert_sqlite_code;
pub use path::is_remote_path;
