//! Generates the crate that bridges a DataFission shim into DuckDB: from the plan
//! of what the shim publishes, the text of every file.

pub mod bridge;
pub mod capabilities;
pub mod emit;
pub mod laws;
pub mod lines;
pub mod names;
pub mod occurrence;
pub mod order;
pub mod outside;
pub mod plan;
pub mod signatures;
pub mod templates;
pub mod text;
pub mod walk;
