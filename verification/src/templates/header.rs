//! Lines that several generated source files share.

use vstd::prelude::*;

verus! {

/// The marker line and the lint allowances.
pub const HEADER: &'static str =
    "// === GENERATED by ducklink-shim-codegen — do not edit by hand ===\n#![allow(dead_code, unused_imports)]\n\n";

/// The opening of `register_all`, where it takes the raw connection.
pub const REGISTER_ALL: &'static str =
    "pub unsafe fn register_all(conn: duckdb_connection) {\n";

} // verus!
