//! Text of the bridge manifest.

use vstd::prelude::*;

verus! {

/// Bridge manifest: from the start of the file to the package name.
pub const CARGO_1: &'static str = r##"[package]
"##;

/// Bridge manifest: from the package name to `name`.
pub const CARGO_2: &'static str = r##"
version = "0.1.0"
edition = "2021"
description = "Generated DuckDB extension that bridges the "##;

/// Bridge manifest: from `name` to the library name.
pub const CARGO_3: &'static str = r##" DataFission shim into DuckDB."
license = "Apache-2.0"

[lib]
"##;

/// Bridge manifest: from the library name to the end of the file.
pub const CARGO_4: &'static str = r##"
crate-type = ["cdylib", "rlib"]

[dependencies]
# Path-deps into the source DataFission tree so we can call the
# loader's wasm scalar-invoke surface directly. Move to git-deps
# when DataFission ships releases.
datafission-df-plugin-loader = { path = "../datafission/crates/df-plugin-loader" }
datafission-df-plugin-api    = { path = "../datafission/crates/df-plugin-api" }
datafission-functions        = { path = "../datafission/crates/functions" }
# Spatial-index build + query. The shim load in `registry.rs`
# installs the wasm-backed SpatialIndexBuilder into this crate's
# process registry (RuntimeWasmExtension::register ->
# register_spatial_builder), so `build_spatial_index(name, items)`
# routes to the REAL shim R-tree / STRtree. Its async build/query
# surface is driven from the sync DuckDB callbacks via a
# current-thread tokio runtime.
datafission-index            = { path = "../datafission/crates/index" }
tokio                        = { version = "1", features = ["rt"] }

# Stock duckdb-rs from crates.io. We use it for the typed
# `Connection` + `VScalar` trait (scalar dispatch). The
# aggregate / custom-type registration paths go directly
# through `libduckdb-sys` raw FFI — duckdb-rs doesn't surface
# those APIs in its safe wrapper but the C ABI is fully
# accessible via libduckdb-sys (a re-export of libduckdb-sys's
# `loadable-extension` feature).
duckdb         = { version = "~1.10504", features = ["vscalar", "vtab", "loadable-extension"] }
libduckdb-sys  = { version = "~1.10504", features = ["loadable-extension"] }

anyhow      = "1"
once_cell   = "1"
parking_lot = "0.12"
tracing     = "0.1"
serde_json  = "1"

[profile.release]
lto         = true
codegen-units = 1
opt-level   = "z"
strip       = true
"##;

} // verus!
