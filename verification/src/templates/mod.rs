//! The fixed text of the generated bridge crate.

pub mod aggregates;
pub mod cargo;
pub mod casts;
pub mod entry;
pub mod header;
pub mod listings;
pub mod readme;
pub mod registry;
pub mod scalars;
pub mod spatial_indexes;
pub mod table_functions;
pub mod types;
