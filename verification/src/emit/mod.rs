//! The files of a bridge crate, one function per file.

pub mod aggregates;
pub mod casts;
pub mod listings;
pub mod package;
pub mod scalars;
pub mod shared;
pub mod spatial_indexes;
pub mod table_functions;
pub mod types;

pub use aggregates::aggregates_rs;
pub use casts::casts_rs;
pub use listings::{operators_rs, preprocessors_rs, system_catalog_rs, window_functions_rs};
pub use package::{cargo_toml, lib_rs, readme, registry_rs};
pub use scalars::scalars_rs;
pub use shared::generated_header;
pub use spatial_indexes::spatial_indexes_rs;
pub use table_functions::table_functions_rs;
pub use types::types_rs;
