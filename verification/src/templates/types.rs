//! Text of the column-type module.

use vstd::prelude::*;

verus! {

/// Module docs, imports and the opening of `register_all`.
pub const TYPES_HEAD: &'static str = r##"//! Custom column types — alias BLOB as GEOMETRY, GEOGRAPHY, …
//!
//! Each shim type is registered with DuckDB as an alias for
//! `BLOB`. After registration `CREATE TABLE t (g GEOMETRY)`
//! shows `GEOMETRY` in the schema; storage and the function
//! ABI stay BLOB so existing `ScalarFunctionSignature::exact`
//! signatures keep working unchanged.
//!
//! For each registered type name we call:
//!
//!     handle = duckdb_create_logical_type(DUCKDB_TYPE_BLOB)
//!     duckdb_logical_type_set_alias(handle, "GEOMETRY")
//!     duckdb_register_logical_type(con, handle, NULL)
//!     duckdb_destroy_logical_type(handle)
//!
//! `duckdb_create_type_info` is reserved-for-future-use per
//! upstream comments — we pass NULL. On a name clash with an
//! existing type DuckDB returns DuckDBError; we log+continue
//! to match the policy aggregates_rs uses for scalar/aggregate
//! collisions.

use libduckdb_sys as ffi;
use std::ffi::CString;

/// Register every shim-published custom type as a BLOB alias.
///
/// # Safety
///
/// `con` must be a valid `duckdb_connection` for the duration
/// of this call.
pub unsafe fn register_all(con: ffi::duckdb_connection) {
    if con.is_null() {
        return;
    }
"##;

/// The type registrar and the heading of the type listing.
pub const TYPES_RUNTIME: &'static str = r##"}

unsafe fn register_type(con: ffi::duckdb_connection, name: &str) {
    let handle = ffi::duckdb_create_logical_type(ffi::DUCKDB_TYPE_DUCKDB_TYPE_BLOB);
    if handle.is_null() {
        eprintln!("[shim-types] could not create logical type for {name}");
        return;
    }
    let c_name = match CString::new(name) {
        Ok(c) => c,
        Err(_) => {
            eprintln!("[shim-types] type name contains NUL: {name}");
            let mut h = handle;
            ffi::duckdb_destroy_logical_type(&mut h);
            return;
        }
    };
    ffi::duckdb_logical_type_set_alias(handle, c_name.as_ptr());
    let rc = ffi::duckdb_register_logical_type(con, handle, std::ptr::null_mut());
    if rc != ffi::DuckDBSuccess {
        // A non-success rc here means a type with this name already
        // exists in the catalog (e.g. DuckDB's built-in GEOMETRY
        // when the spatial extension is loaded, or a re-LOAD of
        // this bridge). Registration is IDEMPOTENT by design: the
        // type stays usable, and since both the pre-existing type
        // and our alias are BLOB-backed at the storage + ABI level,
        // `CREATE TABLE t (g {NAME})` and every BLOB-shaped scalar
        // signature keep working against the existing type. We
        // therefore reuse it rather than treat the clash as an
        // error. Downgraded to an informational note so it doesn't
        // read like a failure.
        eprintln!(
            "[shim-types] type {name} already registered (rc={rc}); reusing the \
             existing BLOB-compatible definition"
        );
    }
    let mut h = handle;
    ffi::duckdb_destroy_logical_type(&mut h);
}

// ----------------------------------------------------------------------
// Column types the shim publishes.
// ----------------------------------------------------------------------

"##;

} // verus!
