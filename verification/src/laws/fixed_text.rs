//! What holds of the fixed text of the scalar and the aggregate module.

use vstd::prelude::*;

use crate::emit::aggregates::{aggregates_opening, aggregates_runtime};
use crate::emit::scalars::{scalars_opening, scalars_runtime};
use crate::lines::{
    ends_line, lemma_line_at, lemma_picked_concat, lines, lines_with, picked,
};
use crate::templates::aggregates::{
    AGGREGATES_FINALIZE, AGGREGATES_HEAD, AGGREGATES_HELPERS, AGGREGATES_REGISTRAR,
    AGGREGATES_UPDATE,
};
use crate::templates::header::{HEADER, REGISTER_ALL};
use crate::templates::scalars::{
    SCALARS_CALLBACK, SCALARS_CELLS, SCALARS_HEAD, SCALARS_REGISTRAR,
};
use crate::text::Text;

verus! {

/// Whether `start` is the start of a registration line, `c` being the first letter
/// of what is registered.
pub open spec fn is_register_start(start: Text, c: char) -> bool {
    start.len() > 13 && start[0] == ' ' && start[4] == 'r' && start[5] == 'e' && start[13] == c
}

/// Text that ends a line and none of whose lines is a registration for `c`.
spec fn is_quiet(t: Text, c: char) -> bool {
    &&& t.len() > 0
    &&& t[0] != ' '
    &&& t.last() == '\n'
    &&& forall|i: int|
        0 <= i && i + 14 < t.len() && #[trigger] t[i] == '\n' ==> !(t[i + 1] == ' ' && t[i + 5]
            == 'r' && t[i + 6] == 'e' && t[i + 14] == c)
}

proof fn lemma_quiet(t: Text, c: char, start: Text)
    requires
        is_quiet(t, c),
        is_register_start(start, c),
    ensures
        lines_with(t, start) == Seq::<Text>::empty(),
{
    let p = |l: Text| start.is_prefix_of(l);
    let all = lines(t);
    let found = lines_with(t, start);
    if found.len() > 0 {
        all.lemma_filter_pred(p, 0);
        let l = found[0];
        assert(found.contains(l));
        all.lemma_filter_contains_rev(p, l);
        let k = choose|k: int| 0 <= k < all.len() && all[k] == l;
        let i = lemma_line_at(t, k);
        let at = t.subrange(i, i + l.len());
        let head = l.subrange(0, start.len() as int);
        assert(head[0] == ' ' && head[4] == 'r' && head[5] == 'e' && head[13] == c);
        assert(at[0] == ' ' && at[4] == 'r' && at[5] == 'e' && at[13] == c);
        assert(t[i] == ' ' && t[i + 4] == 'r' && t[i + 5] == 'e' && t[i + 13] == c);
        if i > 0 {
            assert(t[i - 1] == '\n');
        }
        assert(false);
    }
    assert(found =~= Seq::empty());
}

/// Quiet texts put together hold no registration.
proof fn lemma_quiet_concat(a: Text, b: Text, c: char, start: Text)
    requires
        ends_line(a),
        lines_with(a, start) == Seq::<Text>::empty(),
        is_quiet(b, c),
        is_register_start(start, c),
    ensures
        ends_line(a + b),
        lines_with(a + b, start) == Seq::<Text>::empty(),
{
    let p = |l: Text| start.is_prefix_of(l);
    lemma_quiet(b, c, start);
    lemma_picked_concat(a, b, p);
    assert(picked(a, p) + picked(b, p) =~= Seq::empty());
}

proof fn lemma_shared_lines_quiet()
    ensures
        is_quiet(HEADER@, 's'),
        is_quiet(HEADER@, 'a'),
        is_quiet(REGISTER_ALL@, 's'),
        is_quiet(REGISTER_ALL@, 'a'),
{
    reveal_strlit(
        "// === GENERATED by ducklink-shim-codegen — do not edit by hand ===\n#![allow(dead_code, unused_imports)]\n\n",
    );
    reveal_strlit("pub unsafe fn register_all(conn: duckdb_connection) {\n");
}

proof fn lemma_scalars_head_quiet()
    ensures
        is_quiet(SCALARS_HEAD@, 's'),
{
    reveal_strlit(
        r##"//! Scalar-function registration via raw libduckdb-sys.
//!
//! ## Generic dispatch (2026-06-25) — arbitrary shapes
//!
//! Every shim scalar is registered through DuckDB's C
//! scalar-function API as a function SET (one entry per
//! parameter-list overload). A SINGLE generic dispatcher serves
//! every scalar regardless of arity, parameter types, or return
//! type: it reads each argument by its declared `DataType` (from
//! the interface DB signature) into a `FunctionValue`, calls
//! `ScalarFunctionDef::execute`, and writes the return by its
//! declared `DataType`.
//!
//! This replaces the earlier enumerated (param-types,
//! return-type) shape table. There is NO BLOB fallback: a scalar
//! whose true signature is float64-first, int-first, mixed, or
//! arbitrary-arity now registers with its REAL parameter + return
//! types, so `duckdb_functions().parameter_types` reflects the
//! shim's actual ABI rather than collapsing everything to BLOB.
//!
//! ### Overloads
//!
//! Unlike the table-function C API, the scalar C API has a
//! function-SET abstraction (`duckdb_create_scalar_function_set`
//! + `duckdb_add_scalar_function_to_set`). Each positional
//! overload (e.g. `st_addface(a, b)` AND `st_addface(a, b, true)`)
//! is added to the set under one name, each carrying its own
//! parameter `DataType`s on its ExtraInfo so the dispatcher reads
//! every argument with the right getter.
//!
//! ### Scalar/aggregate name clash
//!
//! DuckDB's loadable C API forbids a scalar and an aggregate
//! sharing a name in the same catalog. The aggregate form is the
//! one users want for the clashing names (st_collect, st_union,
//! …), so this emit SKIPS any canonical name also published as an
//! aggregate, leaving the field clear for `aggregates.rs`. The set
//! is computed from the plan, so a future shim's clashes resolve
//! automatically.
//!
//! Dispatch goes through `registry::lookup_scalar(name)` ->
//! `Arc<dyn ScalarFunctionDef>` + `execute` (unchanged); only the
//! SIGNATURE registration + per-arg read / return write are
//! generic.

use std::ffi::{c_char, c_void, CString};
use std::sync::Arc;

use libduckdb_sys::{
    self as ffi, duckdb_add_scalar_function_to_set, duckdb_connection,
    duckdb_create_scalar_function, duckdb_create_scalar_function_set, duckdb_data_chunk,
    duckdb_data_chunk_get_size, duckdb_data_chunk_get_vector, duckdb_destroy_scalar_function,
    duckdb_destroy_scalar_function_set, duckdb_function_info, duckdb_register_scalar_function_set,
    duckdb_scalar_function_add_parameter, duckdb_scalar_function_get_extra_info,
    duckdb_scalar_function_set_error, duckdb_scalar_function_set_extra_info,
    duckdb_scalar_function_set_function, duckdb_scalar_function_set_name,
    duckdb_scalar_function_set_return_type, duckdb_string_t, duckdb_vector, idx_t, DuckDBSuccess,
};

use datafission_functions::traits::ScalarFunctionDef;
use datafission_functions::types::FunctionValue;
use datafission_functions::DataType;

use crate::registry;

/// Per-overload state stashed on each scalar-function entry via
/// `duckdb_scalar_function_set_extra_info`; recovered in `invoke`.
/// `param_types` is THIS overload's signature; `return_type` its
/// declared output type.
struct ScExtraInfo {
    def: Arc<dyn ScalarFunctionDef>,
    param_types: Vec<DataType>,
    return_type: DataType,
}

/// Register every scalar the shim publishes.
///
/// # Safety
///
/// `conn` must be a valid `duckdb_connection` for the duration of
/// this call.
"##,
    );
}

proof fn lemma_scalars_registrar_quiet()
    ensures
        is_quiet(SCALARS_REGISTRAR@, 's'),
{
    reveal_strlit(
        r##"}

/// Register one scalar (by canonical name or alias) as a function
/// SET, one entry per parameter-list overload, each driven by the
/// generic `invoke` dispatcher.
unsafe fn register_scalar(
    conn: duckdb_connection,
    sql_name: &str,
    overloads: &[(&[DataType], DataType)],
) {
    let def = match registry::lookup_scalar(sql_name) {
        Some(d) => d,
        None => {
            eprintln!("[shim-scalars] no shim entry for `{sql_name}` — skipping");
            return;
        }
    };

    let name_cs = match CString::new(sql_name) {
        Ok(c) => c,
        Err(_) => {
            eprintln!("[shim-scalars] name contains NUL: `{sql_name}` — skipping");
            return;
        }
    };

    let set = duckdb_create_scalar_function_set(name_cs.as_ptr());
    let mut added = 0usize;
    for (params, ret) in overloads {
        let func = duckdb_create_scalar_function();
        duckdb_scalar_function_set_name(func, name_cs.as_ptr());

        for dt in params.iter() {
            let lt = ffi::duckdb_create_logical_type(logical_type_id_for(dt));
            duckdb_scalar_function_add_parameter(func, lt);
            let mut to_destroy = lt;
            ffi::duckdb_destroy_logical_type(&mut to_destroy);
        }
        let ret_lt = ffi::duckdb_create_logical_type(logical_type_id_for(ret));
        duckdb_scalar_function_set_return_type(func, ret_lt);
        let mut ret_to_destroy = ret_lt;
        ffi::duckdb_destroy_logical_type(&mut ret_to_destroy);

        duckdb_scalar_function_set_function(func, Some(invoke_callback));

        let extra = Box::into_raw(Box::new(ScExtraInfo {
            def: Arc::clone(&def),
            param_types: params.to_vec(),
            return_type: ret.clone(),
        }));
        duckdb_scalar_function_set_extra_info(func, extra as *mut c_void, Some(drop_extra_info));

        let rc = duckdb_add_scalar_function_to_set(set, func);
        // The set takes a copy of the function; we destroy our handle.
        duckdb_destroy_scalar_function(&mut { func });
        if rc != DuckDBSuccess {
            // Reclaim the leaked extra-info for this overload — the
            // set never took ownership of it.
            drop(Box::from_raw(extra));
            eprintln!(
                "[shim-scalars] could not add overload (arity {}) to `{sql_name}` (rc={rc})",
                params.len()
            );
            continue;
        }
        added += 1;
    }

    if added == 0 {
        duckdb_destroy_scalar_function_set(&mut { set });
        eprintln!("[shim-scalars] `{sql_name}`: no overloads registered — skipping set");
        return;
    }

    let rc = duckdb_register_scalar_function_set(conn, set);
    duckdb_destroy_scalar_function_set(&mut { set });
    if rc != DuckDBSuccess {
        eprintln!("[shim-scalars] could not register `{sql_name}` (rc={rc})");
    }
}

/// Map a DataFission `DataType` to the DuckDB C `DUCKDB_TYPE_*`
/// id used for parameter declarations and the return type.
fn logical_type_id_for(dt: &DataType) -> ffi::duckdb_type {
    match dt {
        DataType::Boolean => ffi::DUCKDB_TYPE_DUCKDB_TYPE_BOOLEAN,
        DataType::Int8 => ffi::DUCKDB_TYPE_DUCKDB_TYPE_TINYINT,
        DataType::Int16 => ffi::DUCKDB_TYPE_DUCKDB_TYPE_SMALLINT,
        DataType::Int32 => ffi::DUCKDB_TYPE_DUCKDB_TYPE_INTEGER,
        DataType::Int64 => ffi::DUCKDB_TYPE_DUCKDB_TYPE_BIGINT,
        DataType::UInt8 => ffi::DUCKDB_TYPE_DUCKDB_TYPE_UTINYINT,
        DataType::UInt16 => ffi::DUCKDB_TYPE_DUCKDB_TYPE_USMALLINT,
        DataType::UInt32 => ffi::DUCKDB_TYPE_DUCKDB_TYPE_UINTEGER,
        DataType::UInt64 => ffi::DUCKDB_TYPE_DUCKDB_TYPE_UBIGINT,
        DataType::Float32 => ffi::DUCKDB_TYPE_DUCKDB_TYPE_FLOAT,
        DataType::Float64 => ffi::DUCKDB_TYPE_DUCKDB_TYPE_DOUBLE,
        DataType::Char { .. } | DataType::Varchar { .. } | DataType::Text => {
            ffi::DUCKDB_TYPE_DUCKDB_TYPE_VARCHAR
        }
        DataType::Binary => ffi::DUCKDB_TYPE_DUCKDB_TYPE_BLOB,
        // Byte-oriented fallback (BLOB round-trips any payload).
        _ => ffi::DUCKDB_TYPE_DUCKDB_TYPE_BLOB,
    }
}

"##,
    );
}

proof fn lemma_scalars_callback_quiet()
    ensures
        is_quiet(SCALARS_CALLBACK@, 's'),
{
    reveal_strlit(
        r##"// =====================================================================
// The one generic C callback. DuckDB hands a chunk of N input rows
// and an output vector; we read each row's args by their declared
// DataType, call execute, and write the result by the declared
// return DataType.
// =====================================================================

unsafe extern "C" fn invoke_callback(
    info: duckdb_function_info,
    input: duckdb_data_chunk,
    output: duckdb_vector,
) {
    match std::panic::catch_unwind(std::panic::AssertUnwindSafe(|| invoke_inner(info, input, output)))
    {
        Ok(Ok(())) => {}
        Ok(Err(msg)) => set_err(info, &msg),
        Err(_) => set_err(info, "panic in scalar invoke"),
    }
}

unsafe fn invoke_inner(
    info: duckdb_function_info,
    input: duckdb_data_chunk,
    output: duckdb_vector,
) -> std::result::Result<(), String> {
    let extra = &*(duckdb_scalar_function_get_extra_info(info) as *const ScExtraInfo);
    let def = &extra.def;
    let n = duckdb_data_chunk_get_size(input) as usize;
    let ncols = extra.param_types.len();
    let propagates_null = def.propagates_null();

    for row in 0..n {
        // NULL propagation: if any input is NULL and the def
        // propagates nulls, emit NULL without calling the shim.
        if propagates_null {
            let mut any_null = false;
            for c in 0..ncols {
                let vec = duckdb_data_chunk_get_vector(input, c as idx_t);
                if vector_row_is_null(vec, row) {
                    any_null = true;
                    break;
                }
            }
            if any_null {
                set_vector_null(output, row);
                continue;
            }
        }

        let mut args: Vec<FunctionValue> = Vec::with_capacity(ncols);
        for c in 0..ncols {
            let vec = duckdb_data_chunk_get_vector(input, c as idx_t);
            args.push(read_cell(vec, row, &extra.param_types[c]));
        }
        let r = def.execute(&args).map_err(|e| format!("{e:?}"))?;
        write_cell(output, row, &r, &extra.return_type)?;
    }
    Ok(())
}

/// Read one input vector cell into a FunctionValue, using the
/// declared `DataType` to pick the physical representation.
unsafe fn read_cell(vec: duckdb_vector, row: usize, dt: &DataType) -> FunctionValue {
    if vector_row_is_null(vec, row) {
        return FunctionValue::Null;
    }
    match dt {
        DataType::Boolean => FunctionValue::Boolean(read_prim::<bool>(vec, row)),
        DataType::Int8 => FunctionValue::Int8(read_prim::<i8>(vec, row)),
        DataType::Int16 => FunctionValue::Int16(read_prim::<i16>(vec, row)),
        DataType::Int32 => FunctionValue::Int32(read_prim::<i32>(vec, row)),
        DataType::Int64 => FunctionValue::Int64(read_prim::<i64>(vec, row)),
        DataType::UInt8 => FunctionValue::UInt8(read_prim::<u8>(vec, row)),
        DataType::UInt16 => FunctionValue::UInt16(read_prim::<u16>(vec, row)),
        DataType::UInt32 => FunctionValue::UInt32(read_prim::<u32>(vec, row)),
        DataType::UInt64 => FunctionValue::UInt64(read_prim::<u64>(vec, row)),
        DataType::Float32 => FunctionValue::Float32(read_prim::<f32>(vec, row)),
        DataType::Float64 => FunctionValue::Float64(read_prim::<f64>(vec, row)),
        DataType::Char { .. } | DataType::Varchar { .. } | DataType::Text => {
            FunctionValue::String(String::from_utf8_lossy(&read_string_bytes(vec, row)).into_owned())
        }
        // BLOB / fallback — raw bytes (WKB round-trips losslessly).
        _ => FunctionValue::Binary(read_string_bytes(vec, row)),
    }
}

"##,
    );
}

proof fn lemma_scalars_cells_quiet()
    ensures
        is_quiet(SCALARS_CELLS@, 's'),
{
    reveal_strlit(
        r##"/// Write a FunctionValue into the `row`-th slot of the output
/// vector, using the declared return `DataType`.
unsafe fn write_cell(
    vec: duckdb_vector,
    row: usize,
    val: &FunctionValue,
    out_ty: &DataType,
) -> std::result::Result<(), String> {
    if matches!(val, FunctionValue::Null) {
        set_vector_null(vec, row);
        return Ok(());
    }
    match out_ty {
        DataType::Boolean => write_prim::<bool>(vec, row, val.as_bool().unwrap_or(false)),
        DataType::Int8 => write_prim::<i8>(vec, row, val.as_i64().unwrap_or(0) as i8),
        DataType::Int16 => write_prim::<i16>(vec, row, val.as_i64().unwrap_or(0) as i16),
        DataType::Int32 => write_prim::<i32>(vec, row, val.as_i64().unwrap_or(0) as i32),
        DataType::Int64 => write_prim::<i64>(vec, row, val.as_i64().unwrap_or(0)),
        DataType::UInt8 => write_prim::<u8>(vec, row, val.as_i64().unwrap_or(0) as u8),
        DataType::UInt16 => write_prim::<u16>(vec, row, val.as_i64().unwrap_or(0) as u16),
        DataType::UInt32 => write_prim::<u32>(vec, row, val.as_i64().unwrap_or(0) as u32),
        DataType::UInt64 => write_prim::<u64>(vec, row, val.as_i64().unwrap_or(0) as u64),
        DataType::Float32 => write_prim::<f32>(vec, row, val.as_f64().unwrap_or(0.0) as f32),
        DataType::Float64 => write_prim::<f64>(vec, row, val.as_f64().unwrap_or(0.0)),
        DataType::Char { .. } | DataType::Varchar { .. } | DataType::Text => match val {
            FunctionValue::String(sv) => assign_bytes(vec, row, sv.as_bytes()),
            FunctionValue::Binary(b) => assign_bytes(vec, row, b),
            other => assign_bytes(vec, row, format!("{other:?}").as_bytes()),
        },
        // BLOB / fallback — raw bytes.
        _ => match val {
            FunctionValue::Binary(b) => assign_bytes(vec, row, b),
            FunctionValue::String(sv) => assign_bytes(vec, row, sv.as_bytes()),
            other => {
                return Err(format!(
                    "scalar return: unexpected variant `{}` for BLOB output",
                    other.type_name()
                ))
            }
        },
    }
    Ok(())
}

unsafe fn read_prim<T: Copy>(vec: duckdb_vector, row: usize) -> T {
    let data = ffi::duckdb_vector_get_data(vec) as *const T;
    std::ptr::read(data.add(row))
}

unsafe fn write_prim<T: Copy>(vec: duckdb_vector, row: usize, v: T) {
    let data = ffi::duckdb_vector_get_data(vec) as *mut T;
    std::ptr::write(data.add(row), v);
}

/// Read a `duckdb_string_t` cell (VARCHAR or BLOB share this
/// physical layout) into owned bytes, handling both the inline
/// short-string and the pointer long-string representations.
unsafe fn read_string_bytes(vec: duckdb_vector, row: usize) -> Vec<u8> {
    let data = ffi::duckdb_vector_get_data(vec) as *const duckdb_string_t;
    let s = &*data.add(row);
    let len = s.value.inlined.length as usize;
    // `length <= 12` => inlined bytes; else `ptr` points at the data.
    if len <= 12 {
        let inl = &s.value.inlined.inlined;
        let bytes = inl.as_ptr() as *const u8;
        std::slice::from_raw_parts(bytes, len).to_vec()
    } else {
        let p = s.value.pointer.ptr as *const u8;
        std::slice::from_raw_parts(p, len).to_vec()
    }
}

unsafe fn assign_bytes(vec: duckdb_vector, row: usize, bytes: &[u8]) {
    ffi::duckdb_vector_assign_string_element_len(
        vec,
        row as idx_t,
        bytes.as_ptr() as *const c_char,
        bytes.len() as idx_t,
    );
}

unsafe fn vector_row_is_null(vec: duckdb_vector, row: usize) -> bool {
    let validity = ffi::duckdb_vector_get_validity(vec);
    if validity.is_null() {
        return false;
    }
    !ffi::duckdb_validity_row_is_valid(validity, row as idx_t)
}

unsafe fn set_vector_null(vec: duckdb_vector, row: usize) {
    ffi::duckdb_vector_ensure_validity_writable(vec);
    let validity = ffi::duckdb_vector_get_validity(vec);
    if !validity.is_null() {
        ffi::duckdb_validity_set_row_invalid(validity, row as idx_t);
    }
}

unsafe extern "C" fn drop_extra_info(ptr: *mut c_void) {
    if ptr.is_null() {
        return;
    }
    drop(Box::from_raw(ptr as *mut ScExtraInfo));
}

unsafe fn set_err(info: duckdb_function_info, msg: &str) {
    if let Ok(cs) = CString::new(msg) {
        duckdb_scalar_function_set_error(info, cs.as_ptr() as *const c_char);
    }
}
"##,
    );
}

proof fn lemma_aggregates_head_quiet()
    ensures
        is_quiet(AGGREGATES_HEAD@, 'a'),
{
    reveal_strlit(
        r##"//! Aggregate-function registration via raw libduckdb-sys.
//!
//! Phase 3c (2026-06-24, unblocked once we forked duckdb-rs to
//! expose `Connection::handle()`): walks every shim aggregate
//! and wires it into DuckDB through the C API directly.
//!
//! Architecture
//!
//!   Per-aggregate-registration `ExtraInfo` allocation holds
//!   `Arc<dyn AggregateFunctionDef>`. The pointer is stashed on
//!   the duckdb_aggregate_function via
//!   `duckdb_aggregate_function_set_extra_info` and recovered
//!   in every callback via `duckdb_aggregate_function_get_extra_info`.
//!
//!   Per-group state (DuckDB allocates `state_size` bytes per
//!   group) is exactly 8 bytes: the thin pointer to a heap
//!   `Box<Box<dyn Accumulator>>`. `state_init` mints one;
//!   `state_destroy` drops it.
//!
//!   `update` walks the input chunk row-by-row, recovering the
//!   per-group accumulator via the thin pointer; `combine`
//!   merges source into target; `finalize` produces the result
//!   and writes it to the output vector slot.

use std::ffi::CString;
use std::os::raw::{c_char, c_void};
use std::sync::Arc;

use libduckdb_sys::{
    self as ffi, DuckDBSuccess, duckdb_aggregate_function_add_parameter,
    duckdb_aggregate_function_get_extra_info, duckdb_aggregate_function_set_error,
    duckdb_aggregate_function_set_extra_info, duckdb_aggregate_function_set_functions,
    duckdb_aggregate_function_set_name, duckdb_aggregate_function_set_return_type,
    duckdb_aggregate_state, duckdb_connection, duckdb_create_aggregate_function,
    duckdb_data_chunk, duckdb_destroy_aggregate_function, duckdb_function_info,
    duckdb_register_aggregate_function, duckdb_string_t, duckdb_vector, idx_t,
};

use datafission_functions::traits::{Accumulator, AggregateFunctionDef};
use datafission_functions::types::FunctionValue;

use crate::registry;

/// Per-registration state. Stashed on the aggregate via
/// duckdb_aggregate_function_set_extra_info; recovered in every
/// callback.
struct AggExtraInfo {
    def: Arc<dyn AggregateFunctionDef>,
}

/// Register every aggregate the shim publishes.
///
/// # Safety
///
/// `conn` must be a valid `duckdb_connection` for the duration
/// of this call.
"##,
    );
}

proof fn lemma_aggregates_registrar_quiet()
    ensures
        is_quiet(AGGREGATES_REGISTRAR@, 'a'),
{
    reveal_strlit(
        r##"}

unsafe fn register_aggregate(conn: duckdb_connection, sql_name: &str, input_ty: &str) {
    let def = match registry::lookup_aggregate(sql_name) {
        Some(d) => d,
        None => {
            eprintln!("[shim-aggregates] no shim entry for `{sql_name}` — skipping");
            return;
        }
    };

    let agg = duckdb_create_aggregate_function();
    let name_cs = match CString::new(sql_name) {
        Ok(c) => c,
        Err(_) => {
            eprintln!("[shim-aggregates] name contains NUL: `{sql_name}` — skipping");
            duckdb_destroy_aggregate_function(&mut { agg });
            return;
        }
    };
    duckdb_aggregate_function_set_name(agg, name_cs.as_ptr());

    // Input type from the shim's recorded param signature; most
    // postgis aggregates are unary blob (ST_Union, ST_Extent, ...)
    // but the mobilitydb F64 aggregates (tfloat_max_agg / etc.)
    // take a scalar f64. Return type stays BLOB by default — the
    // dispatch path converts every scalar result to bytes; users
    // who want the typed value can wrap with `tfloat_to_text` or
    // similar.
    let in_id = match input_ty {
        "float64" => ffi::DUCKDB_TYPE_DUCKDB_TYPE_DOUBLE,
        "float32" => ffi::DUCKDB_TYPE_DUCKDB_TYPE_FLOAT,
        "int64"   => ffi::DUCKDB_TYPE_DUCKDB_TYPE_BIGINT,
        "int32"   => ffi::DUCKDB_TYPE_DUCKDB_TYPE_INTEGER,
        "uint64"  => ffi::DUCKDB_TYPE_DUCKDB_TYPE_UBIGINT,
        "uint32"  => ffi::DUCKDB_TYPE_DUCKDB_TYPE_UINTEGER,
        "boolean" => ffi::DUCKDB_TYPE_DUCKDB_TYPE_BOOLEAN,
        "text"    => ffi::DUCKDB_TYPE_DUCKDB_TYPE_VARCHAR,
        _         => ffi::DUCKDB_TYPE_DUCKDB_TYPE_BLOB,
    };
    let in_lt = ffi::duckdb_create_logical_type(in_id);
    duckdb_aggregate_function_add_parameter(agg, in_lt);
    let ret_lt = ffi::duckdb_create_logical_type(ffi::DUCKDB_TYPE_DUCKDB_TYPE_BLOB);
    duckdb_aggregate_function_set_return_type(agg, ret_lt);
    // Both add_parameter and set_return_type take the type by
    // value and DuckDB clones it internally, so we still own
    // the handles and must destroy them after use.
    let mut in_to_destroy = in_lt;
    ffi::duckdb_destroy_logical_type(&mut in_to_destroy);
    let mut ret_to_destroy = ret_lt;
    ffi::duckdb_destroy_logical_type(&mut ret_to_destroy);

        // Wire the callbacks (state_size + state_init + update +
        // combine + finalize). state_destroy goes through the
        // separate set_destructor API — see drop_state below.
        duckdb_aggregate_function_set_functions(
            agg,
            Some(state_size),
            Some(state_init),
            Some(update_callback),
            Some(combine_callback),
            Some(finalize_callback),
        );
    ffi::duckdb_aggregate_function_set_destructor(agg, Some(state_destroy));

    // Park the per-registration state. The Box is leaked here
    // and reclaimed when DuckDB calls the destructor.
    let extra = Box::into_raw(Box::new(AggExtraInfo { def: Arc::clone(&def) }));
    duckdb_aggregate_function_set_extra_info(
        agg,
        extra as *mut c_void,
        Some(drop_extra_info),
    );

    let rc = duckdb_register_aggregate_function(conn, agg);
    duckdb_destroy_aggregate_function(&mut { agg });
    if rc != DuckDBSuccess {
        // Scalar/aggregate name clashes (st_collect, st_union,
        // st_clusterwithin, st_clusterdbscan,
        // st_clusterintersecting, tfloat_sum, tint_sum, …) are
        // resolved in favour of the AGGREGATE: scalars.rs skips
        // any name also published as an aggregate, so this
        // registration normally succeeds. A non-success rc here
        // therefore means a genuine catalog conflict (e.g. a
        // built-in DuckDB aggregate of the same name) — log and
        // continue so the rest still register.
        eprintln!(
            "[shim-aggregates] could not register aggregate `{sql_name}` (rc={rc}); \
             a built-in of the same name may already exist"
        );
    }
}

"##,
    );
}

proof fn lemma_aggregates_update_quiet()
    ensures
        is_quiet(AGGREGATES_UPDATE@, 'a'),
{
    reveal_strlit(
        r##"// =====================================================================
// C callbacks. All `unsafe extern "C"` because DuckDB calls them.
//
// State layout: each per-group state is exactly 8 bytes — a
// thin pointer to a heap-allocated `Box<dyn Accumulator>`.
// `state_init` mints one; `state_destroy` drops it. We use
// Box<dyn Accumulator> directly (fat ptr → 16 bytes) but stored
// behind one more Box layer so the THIN pointer is what lives
// in the state slot.
// =====================================================================

type AccBoxPtr = *mut Box<dyn Accumulator>;

unsafe extern "C" fn state_size(_info: duckdb_function_info) -> idx_t {
    std::mem::size_of::<AccBoxPtr>() as idx_t
}

unsafe extern "C" fn state_init(info: duckdb_function_info, state: duckdb_aggregate_state) {
    let extra = extra_info_typed(info);
    let acc: Box<dyn Accumulator> = extra.def.create_accumulator();
    let thin: AccBoxPtr = Box::into_raw(Box::new(acc));
    // The state pointer points to STATE_SIZE bytes that DuckDB
    // owns. Treat it as a slot for our thin pointer.
    let slot = state as *mut AccBoxPtr;
    std::ptr::write(slot, thin);
}

unsafe extern "C" fn state_destroy(states: *mut duckdb_aggregate_state, count: idx_t) {
    if states.is_null() { return; }
    for i in 0..count as usize {
        let state_ptr: duckdb_aggregate_state = std::ptr::read(states.add(i));
        if state_ptr.is_null() { continue; }
        let slot = state_ptr as *mut AccBoxPtr;
        let thin = std::ptr::read(slot);
        if !thin.is_null() {
            drop(Box::from_raw(thin));
        }
    }
}

unsafe extern "C" fn update_callback(
    info: duckdb_function_info,
    input: duckdb_data_chunk,
    states: *mut duckdb_aggregate_state,
) {
    match std::panic::catch_unwind(|| update_inner(info, input, states)) {
        Ok(Ok(())) => {}
        Ok(Err(msg)) => set_error(info, &msg),
        Err(_)      => set_error(info, "panic in aggregate update"),
    }
}

unsafe fn update_inner(
    info: duckdb_function_info,
    input: duckdb_data_chunk,
    states: *mut duckdb_aggregate_state,
) -> std::result::Result<(), String> {
    use datafission_functions::DataType;
    let n = ffi::duckdb_data_chunk_get_size(input) as usize;
    let v0 = ffi::duckdb_data_chunk_get_vector(input, 0);
    let validity = ffi::duckdb_vector_get_validity(v0);

    // Dispatch on the recorded input type. The aggregate's
    // ExtraInfo wraps `Arc<dyn AggregateFunctionDef>`; we read
    // its first parameter type to decide how to interpret the
    // vector's raw memory.
    let extra = extra_info_typed(info);
    let in_ty = extra.def.param_types()
        .first()
        .and_then(|sig| sig.first().cloned())
        .unwrap_or(DataType::Binary);

    macro_rules! prim_loop {
        ($ty:ty, $variant:ident) => {{
            let data = ffi::duckdb_vector_get_data(v0) as *const $ty;
            for i in 0..n {
                if !validity.is_null() && !ffi::duckdb_validity_row_is_valid(validity, i as idx_t) {
                    continue;
                }
                let val = std::ptr::read(data.add(i));
                let acc_ptr = read_state(states, i);
                let acc = &mut *acc_ptr;
                acc.accumulate(&FunctionValue::$variant(val))
                    .map_err(|e| format!("{e:?}"))?;
            }
        }};
    }

    match in_ty {
        DataType::Float64 => prim_loop!(f64, Float64),
        DataType::Float32 => prim_loop!(f32, Float32),
        DataType::Int64   => prim_loop!(i64, Int64),
        DataType::Int32   => prim_loop!(i32, Int32),
        DataType::UInt64  => prim_loop!(u64, UInt64),
        DataType::UInt32  => prim_loop!(u32, UInt32),
        DataType::Boolean => prim_loop!(bool, Boolean),
        DataType::Text => {
            let data = ffi::duckdb_vector_get_data(v0) as *const duckdb_string_t;
            for i in 0..n {
                if !validity.is_null() && !ffi::duckdb_validity_row_is_valid(validity, i as idx_t) {
                    continue;
                }
                let mut s_raw: duckdb_string_t = std::ptr::read(data.add(i));
                let bytes = read_string_t_bytes(&mut s_raw);
                let s = String::from_utf8_lossy(&bytes).into_owned();
                let acc_ptr = read_state(states, i);
                let acc = &mut *acc_ptr;
                acc.accumulate(&FunctionValue::String(s))
                    .map_err(|e| format!("{e:?}"))?;
            }
        }
        _ => {
            // Default: Binary/Blob — original path.
            let data = ffi::duckdb_vector_get_data(v0) as *const duckdb_string_t;
            for i in 0..n {
                if !validity.is_null() && !ffi::duckdb_validity_row_is_valid(validity, i as idx_t) {
                    continue;
                }
                let mut s_raw: duckdb_string_t = std::ptr::read(data.add(i));
                let bytes = read_string_t_bytes(&mut s_raw);
                let acc_ptr = read_state(states, i);
                let acc = &mut *acc_ptr;
                acc.accumulate(&FunctionValue::Binary(bytes))
                    .map_err(|e| format!("{e:?}"))?;
            }
        }
    }
    Ok(())
}

"##,
    );
}

proof fn lemma_aggregates_finalize_quiet()
    ensures
        is_quiet(AGGREGATES_FINALIZE@, 'a'),
{
    reveal_strlit(
        r##"/// Decode a `duckdb_string_t` (DuckDB's inline-or-pointer
/// string struct) into an owned `Vec<u8>`. Works for both
/// inlined (≤12 bytes) and pointer-backed strings; the C API
/// hides the discriminant for us.
unsafe fn read_string_t_bytes(s: &mut duckdb_string_t) -> Vec<u8> {
    let len = ffi::duckdb_string_t_length(*s) as usize;
    if len == 0 {
        return Vec::new();
    }
    let p = ffi::duckdb_string_t_data(s as *mut duckdb_string_t);
    std::slice::from_raw_parts(p as *const u8, len).to_vec()
}

unsafe extern "C" fn combine_callback(
    info: duckdb_function_info,
    source: *mut duckdb_aggregate_state,
    target: *mut duckdb_aggregate_state,
    count: idx_t,
) {
    let result = std::panic::catch_unwind(|| {
        for i in 0..count as usize {
            let src = read_state(source, i);
            let tgt = read_state(target, i);
            if src.is_null() || tgt.is_null() { continue; }
            let src_acc: &dyn Accumulator = &**src;
            let tgt_acc = &mut **tgt;
            tgt_acc.merge(src_acc).map_err(|e| format!("{e:?}"))?;
        }
        Ok::<(), String>(())
    });
    match result {
        Ok(Ok(())) => {}
        Ok(Err(msg)) => set_error(info, &msg),
        Err(_)      => set_error(info, "panic in aggregate combine"),
    }
}

unsafe extern "C" fn finalize_callback(
    info: duckdb_function_info,
    source: *mut duckdb_aggregate_state,
    result: duckdb_vector,
    count: idx_t,
    offset: idx_t,
) {
    match std::panic::catch_unwind(|| finalize_inner(info, source, result, count, offset)) {
        Ok(Ok(())) => {}
        Ok(Err(msg)) => set_error(info, &msg),
        Err(_)      => set_error(info, "panic in aggregate finalize"),
    }
}

unsafe fn finalize_inner(
    _info: duckdb_function_info,
    source: *mut duckdb_aggregate_state,
    result: duckdb_vector,
    count: idx_t,
    offset: idx_t,
) -> std::result::Result<(), String> {
    for i in 0..count as usize {
        let dst = offset as usize + i;
        let acc_ptr = read_state(source, i);
        if acc_ptr.is_null() {
            vector_set_null(result, dst);
            continue;
        }
        let acc = &**acc_ptr;
        let value = acc.finalize().map_err(|e| format!("{e:?}"))?;
        // Output type is BLOB by construction (aggregates_rs sets the
        // return type to LogicalTypeId::Blob unconditionally). Encode
        // primitives as their little-endian bytes — callers that want
        // the typed value can apply `octet_length()` to confirm width
        // or unhex back to a primitive via DuckDB's bit ops.
        match value {
            FunctionValue::Binary(b)  => vector_assign_bytes(result, dst, &b),
            FunctionValue::String(s)  => vector_assign_bytes(result, dst, s.as_bytes()),
            FunctionValue::Float64(v) => vector_assign_bytes(result, dst, &v.to_le_bytes()),
            FunctionValue::Float32(v) => vector_assign_bytes(result, dst, &v.to_le_bytes()),
            FunctionValue::Int64(v)   => vector_assign_bytes(result, dst, &v.to_le_bytes()),
            FunctionValue::Int32(v)   => vector_assign_bytes(result, dst, &v.to_le_bytes()),
            FunctionValue::UInt64(v)  => vector_assign_bytes(result, dst, &v.to_le_bytes()),
            FunctionValue::UInt32(v)  => vector_assign_bytes(result, dst, &v.to_le_bytes()),
            FunctionValue::Boolean(v) => vector_assign_bytes(result, dst, &[v as u8]),
            FunctionValue::Null => vector_set_null(result, dst),
            other => return Err(format!(
                "aggregate finalize: unexpected result variant `{}`",
                other.type_name()
            )),
        }
    }
    Ok(())
}

"##,
    );
}

proof fn lemma_aggregates_helpers_quiet()
    ensures
        is_quiet(AGGREGATES_HELPERS@, 'a'),
{
    reveal_strlit(
        r##"/// Write `bytes` into the `dst`-th slot of `result` (a BLOB or
/// VARCHAR output vector). DuckDB copies the bytes internally,
/// so the caller's `bytes` can be dropped after this call.
unsafe fn vector_assign_bytes(result: duckdb_vector, dst: usize, bytes: &[u8]) {
    ffi::duckdb_vector_assign_string_element_len(
        result,
        dst as idx_t,
        bytes.as_ptr() as *const c_char,
        bytes.len() as idx_t,
    );
}

/// Mark the `dst`-th slot of `result` as SQL NULL.
unsafe fn vector_set_null(result: duckdb_vector, dst: usize) {
    ffi::duckdb_vector_ensure_validity_writable(result);
    let validity = ffi::duckdb_vector_get_validity(result);
    if !validity.is_null() {
        ffi::duckdb_validity_set_row_invalid(validity, dst as idx_t);
    }
}

unsafe extern "C" fn drop_extra_info(ptr: *mut c_void) {
    if ptr.is_null() { return; }
    drop(Box::from_raw(ptr as *mut AggExtraInfo));
}

// =====================================================================
// State-slot accessors.
// =====================================================================

unsafe fn read_state(states: *mut duckdb_aggregate_state, idx: usize) -> AccBoxPtr {
    // `states[i]` is a duckdb_aggregate_state (a pointer to the
    // per-group state slot). Dereference to get the slot
    // address, then read our AccBoxPtr out of the slot.
    //
    // (Initial implementation skipped the dereference and
    // crashed DuckDB with SIGBUS — the C API docs say:
    //   "states – a pointer to states – Each element points to
    //    the state for the corresponding input row."
    //  i.e. it's an array of state pointers, not the states
    //  themselves laid out contiguously.)
    let state_ptr: duckdb_aggregate_state = std::ptr::read(states.add(idx));
    let slot = state_ptr as *mut AccBoxPtr;
    std::ptr::read(slot)
}

unsafe fn extra_info_typed<'a>(info: duckdb_function_info) -> &'a AggExtraInfo {
    let raw = duckdb_aggregate_function_get_extra_info(info);
    &*(raw as *const AggExtraInfo)
}

unsafe fn set_error(info: duckdb_function_info, msg: &str) {
    if let Ok(cs) = CString::new(msg) {
        duckdb_aggregate_function_set_error(info, cs.as_ptr() as *const c_char);
    }
}
"##,
    );
}

/// The fixed text of the scalar module registers nothing by itself.
pub proof fn law_scalar_fixed_text_registers_nothing(start: Text)
    requires
        is_register_start(start, 's'),
    ensures
        lines_with(scalars_opening(), start) == Seq::<Text>::empty(),
        lines_with(scalars_runtime(), start) == Seq::<Text>::empty(),
{
    lemma_shared_lines_quiet();
    lemma_scalars_head_quiet();
    lemma_scalars_registrar_quiet();
    lemma_scalars_callback_quiet();
    lemma_scalars_cells_quiet();
    lemma_quiet(HEADER@, 's', start);
    lemma_quiet_concat(HEADER@, SCALARS_HEAD@, 's', start);
    lemma_quiet_concat(HEADER@ + SCALARS_HEAD@, REGISTER_ALL@, 's', start);
    lemma_quiet(SCALARS_REGISTRAR@, 's', start);
    lemma_quiet_concat(SCALARS_REGISTRAR@, SCALARS_CALLBACK@, 's', start);
    lemma_quiet_concat(SCALARS_REGISTRAR@ + SCALARS_CALLBACK@, SCALARS_CELLS@, 's', start);
}

/// The fixed text of the aggregate module registers nothing by itself.
pub proof fn law_aggregate_fixed_text_registers_nothing(start: Text)
    requires
        is_register_start(start, 'a'),
    ensures
        lines_with(aggregates_opening(), start) == Seq::<Text>::empty(),
        lines_with(aggregates_runtime(), start) == Seq::<Text>::empty(),
{
    lemma_shared_lines_quiet();
    lemma_aggregates_head_quiet();
    lemma_aggregates_registrar_quiet();
    lemma_aggregates_update_quiet();
    lemma_aggregates_finalize_quiet();
    lemma_aggregates_helpers_quiet();
    lemma_quiet(HEADER@, 'a', start);
    lemma_quiet_concat(HEADER@, AGGREGATES_HEAD@, 'a', start);
    lemma_quiet_concat(HEADER@ + AGGREGATES_HEAD@, REGISTER_ALL@, 'a', start);
    lemma_quiet(AGGREGATES_REGISTRAR@, 'a', start);
    lemma_quiet_concat(AGGREGATES_REGISTRAR@, AGGREGATES_UPDATE@, 'a', start);
    lemma_quiet_concat(AGGREGATES_REGISTRAR@ + AGGREGATES_UPDATE@, AGGREGATES_FINALIZE@, 'a', start);
    lemma_quiet_concat(AGGREGATES_REGISTRAR@ + AGGREGATES_UPDATE@ + AGGREGATES_FINALIZE@, AGGREGATES_HELPERS@, 'a', start);
}

} // verus!
