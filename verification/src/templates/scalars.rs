//! Text of the scalar module.

use vstd::prelude::*;

verus! {

/// Module docs, imports and the docs of `register_all`.
pub const SCALARS_HEAD: &'static str = r##"//! Scalar-function registration via raw libduckdb-sys.
//!
//! ## Generic dispatch (2026-06-25) — arbitrary shapes
//!
//! Every shim scalar is registered through DuckDB's C
//! scalar-function API as a function SET (one entry per
//! parameter-list overload). A SINGLE generic dispatcher serves
//! every scalar regardless of arity, parameter types, or return
//! type: it reads each argument by its declared `DataType` (from
//! the interface DB signature) into a `FunctionValue`, calls
//! `ScalarFunctionDef::execute`, and writes the return by its
//! declared `DataType`.
//!
//! This replaces the earlier enumerated (param-types,
//! return-type) shape table. There is NO BLOB fallback: a scalar
//! whose true signature is float64-first, int-first, mixed, or
//! arbitrary-arity now registers with its REAL parameter + return
//! types, so `duckdb_functions().parameter_types` reflects the
//! shim's actual ABI rather than collapsing everything to BLOB.
//!
//! ### Overloads
//!
//! Unlike the table-function C API, the scalar C API has a
//! function-SET abstraction (`duckdb_create_scalar_function_set`
//! + `duckdb_add_scalar_function_to_set`). Each positional
//! overload (e.g. `st_addface(a, b)` AND `st_addface(a, b, true)`)
//! is added to the set under one name, each carrying its own
//! parameter `DataType`s on its ExtraInfo so the dispatcher reads
//! every argument with the right getter.
//!
//! ### Scalar/aggregate name clash
//!
//! DuckDB's loadable C API forbids a scalar and an aggregate
//! sharing a name in the same catalog. The aggregate form is the
//! one users want for the clashing names (st_collect, st_union,
//! …), so this emit SKIPS any canonical name also published as an
//! aggregate, leaving the field clear for `aggregates.rs`. The set
//! is computed from the plan, so a future shim's clashes resolve
//! automatically.
//!
//! Dispatch goes through `registry::lookup_scalar(name)` ->
//! `Arc<dyn ScalarFunctionDef>` + `execute` (unchanged); only the
//! SIGNATURE registration + per-arg read / return write are
//! generic.

use std::ffi::{c_char, c_void, CString};
use std::sync::Arc;

use libduckdb_sys::{
    self as ffi, duckdb_add_scalar_function_to_set, duckdb_connection,
    duckdb_create_scalar_function, duckdb_create_scalar_function_set, duckdb_data_chunk,
    duckdb_data_chunk_get_size, duckdb_data_chunk_get_vector, duckdb_destroy_scalar_function,
    duckdb_destroy_scalar_function_set, duckdb_function_info, duckdb_register_scalar_function_set,
    duckdb_scalar_function_add_parameter, duckdb_scalar_function_get_extra_info,
    duckdb_scalar_function_set_error, duckdb_scalar_function_set_extra_info,
    duckdb_scalar_function_set_function, duckdb_scalar_function_set_name,
    duckdb_scalar_function_set_return_type, duckdb_string_t, duckdb_vector, idx_t, DuckDBSuccess,
};

use datafission_functions::traits::ScalarFunctionDef;
use datafission_functions::types::FunctionValue;
use datafission_functions::DataType;

use crate::registry;

/// Per-overload state stashed on each scalar-function entry via
/// `duckdb_scalar_function_set_extra_info`; recovered in `invoke`.
/// `param_types` is THIS overload's signature; `return_type` its
/// declared output type.
struct ScExtraInfo {
    def: Arc<dyn ScalarFunctionDef>,
    param_types: Vec<DataType>,
    return_type: DataType,
}

/// Register every scalar the shim publishes.
///
/// # Safety
///
/// `conn` must be a valid `duckdb_connection` for the duration of
/// this call.
"##;

/// The end of `register_all` and the registrar of one function set.
pub const SCALARS_REGISTRAR: &'static str = r##"}

/// Register one scalar (by canonical name or alias) as a function
/// SET, one entry per parameter-list overload, each driven by the
/// generic `invoke` dispatcher.
unsafe fn register_scalar(
    conn: duckdb_connection,
    sql_name: &str,
    overloads: &[(&[DataType], DataType)],
) {
    let def = match registry::lookup_scalar(sql_name) {
        Some(d) => d,
        None => {
            eprintln!("[shim-scalars] no shim entry for `{sql_name}` — skipping");
            return;
        }
    };

    let name_cs = match CString::new(sql_name) {
        Ok(c) => c,
        Err(_) => {
            eprintln!("[shim-scalars] name contains NUL: `{sql_name}` — skipping");
            return;
        }
    };

    let set = duckdb_create_scalar_function_set(name_cs.as_ptr());
    let mut added = 0usize;
    for (params, ret) in overloads {
        let func = duckdb_create_scalar_function();
        duckdb_scalar_function_set_name(func, name_cs.as_ptr());

        for dt in params.iter() {
            let lt = ffi::duckdb_create_logical_type(logical_type_id_for(dt));
            duckdb_scalar_function_add_parameter(func, lt);
            let mut to_destroy = lt;
            ffi::duckdb_destroy_logical_type(&mut to_destroy);
        }
        let ret_lt = ffi::duckdb_create_logical_type(logical_type_id_for(ret));
        duckdb_scalar_function_set_return_type(func, ret_lt);
        let mut ret_to_destroy = ret_lt;
        ffi::duckdb_destroy_logical_type(&mut ret_to_destroy);

        duckdb_scalar_function_set_function(func, Some(invoke_callback));

        let extra = Box::into_raw(Box::new(ScExtraInfo {
            def: Arc::clone(&def),
            param_types: params.to_vec(),
            return_type: ret.clone(),
        }));
        duckdb_scalar_function_set_extra_info(func, extra as *mut c_void, Some(drop_extra_info));

        let rc = duckdb_add_scalar_function_to_set(set, func);
        // The set takes a copy of the function; we destroy our handle.
        duckdb_destroy_scalar_function(&mut { func });
        if rc != DuckDBSuccess {
            // Reclaim the leaked extra-info for this overload — the
            // set never took ownership of it.
            drop(Box::from_raw(extra));
            eprintln!(
                "[shim-scalars] could not add overload (arity {}) to `{sql_name}` (rc={rc})",
                params.len()
            );
            continue;
        }
        added += 1;
    }

    if added == 0 {
        duckdb_destroy_scalar_function_set(&mut { set });
        eprintln!("[shim-scalars] `{sql_name}`: no overloads registered — skipping set");
        return;
    }

    let rc = duckdb_register_scalar_function_set(conn, set);
    duckdb_destroy_scalar_function_set(&mut { set });
    if rc != DuckDBSuccess {
        eprintln!("[shim-scalars] could not register `{sql_name}` (rc={rc})");
    }
}

/// Map a DataFission `DataType` to the DuckDB C `DUCKDB_TYPE_*`
/// id used for parameter declarations and the return type.
fn logical_type_id_for(dt: &DataType) -> ffi::duckdb_type {
    match dt {
        DataType::Boolean => ffi::DUCKDB_TYPE_DUCKDB_TYPE_BOOLEAN,
        DataType::Int8 => ffi::DUCKDB_TYPE_DUCKDB_TYPE_TINYINT,
        DataType::Int16 => ffi::DUCKDB_TYPE_DUCKDB_TYPE_SMALLINT,
        DataType::Int32 => ffi::DUCKDB_TYPE_DUCKDB_TYPE_INTEGER,
        DataType::Int64 => ffi::DUCKDB_TYPE_DUCKDB_TYPE_BIGINT,
        DataType::UInt8 => ffi::DUCKDB_TYPE_DUCKDB_TYPE_UTINYINT,
        DataType::UInt16 => ffi::DUCKDB_TYPE_DUCKDB_TYPE_USMALLINT,
        DataType::UInt32 => ffi::DUCKDB_TYPE_DUCKDB_TYPE_UINTEGER,
        DataType::UInt64 => ffi::DUCKDB_TYPE_DUCKDB_TYPE_UBIGINT,
        DataType::Float32 => ffi::DUCKDB_TYPE_DUCKDB_TYPE_FLOAT,
        DataType::Float64 => ffi::DUCKDB_TYPE_DUCKDB_TYPE_DOUBLE,
        DataType::Char { .. } | DataType::Varchar { .. } | DataType::Text => {
            ffi::DUCKDB_TYPE_DUCKDB_TYPE_VARCHAR
        }
        DataType::Binary => ffi::DUCKDB_TYPE_DUCKDB_TYPE_BLOB,
        // Byte-oriented fallback (BLOB round-trips any payload).
        _ => ffi::DUCKDB_TYPE_DUCKDB_TYPE_BLOB,
    }
}

"##;

/// The one generic C callback and how it reads a cell.
pub const SCALARS_CALLBACK: &'static str = r##"// =====================================================================
// The one generic C callback. DuckDB hands a chunk of N input rows
// and an output vector; we read each row's args by their declared
// DataType, call execute, and write the result by the declared
// return DataType.
// =====================================================================

unsafe extern "C" fn invoke_callback(
    info: duckdb_function_info,
    input: duckdb_data_chunk,
    output: duckdb_vector,
) {
    match std::panic::catch_unwind(std::panic::AssertUnwindSafe(|| invoke_inner(info, input, output)))
    {
        Ok(Ok(())) => {}
        Ok(Err(msg)) => set_err(info, &msg),
        Err(_) => set_err(info, "panic in scalar invoke"),
    }
}

unsafe fn invoke_inner(
    info: duckdb_function_info,
    input: duckdb_data_chunk,
    output: duckdb_vector,
) -> std::result::Result<(), String> {
    let extra = &*(duckdb_scalar_function_get_extra_info(info) as *const ScExtraInfo);
    let def = &extra.def;
    let n = duckdb_data_chunk_get_size(input) as usize;
    let ncols = extra.param_types.len();
    let propagates_null = def.propagates_null();

    for row in 0..n {
        // NULL propagation: if any input is NULL and the def
        // propagates nulls, emit NULL without calling the shim.
        if propagates_null {
            let mut any_null = false;
            for c in 0..ncols {
                let vec = duckdb_data_chunk_get_vector(input, c as idx_t);
                if vector_row_is_null(vec, row) {
                    any_null = true;
                    break;
                }
            }
            if any_null {
                set_vector_null(output, row);
                continue;
            }
        }

        let mut args: Vec<FunctionValue> = Vec::with_capacity(ncols);
        for c in 0..ncols {
            let vec = duckdb_data_chunk_get_vector(input, c as idx_t);
            args.push(read_cell(vec, row, &extra.param_types[c]));
        }
        let r = def.execute(&args).map_err(|e| format!("{e:?}"))?;
        write_cell(output, row, &r, &extra.return_type)?;
    }
    Ok(())
}

/// Read one input vector cell into a FunctionValue, using the
/// declared `DataType` to pick the physical representation.
unsafe fn read_cell(vec: duckdb_vector, row: usize, dt: &DataType) -> FunctionValue {
    if vector_row_is_null(vec, row) {
        return FunctionValue::Null;
    }
    match dt {
        DataType::Boolean => FunctionValue::Boolean(read_prim::<bool>(vec, row)),
        DataType::Int8 => FunctionValue::Int8(read_prim::<i8>(vec, row)),
        DataType::Int16 => FunctionValue::Int16(read_prim::<i16>(vec, row)),
        DataType::Int32 => FunctionValue::Int32(read_prim::<i32>(vec, row)),
        DataType::Int64 => FunctionValue::Int64(read_prim::<i64>(vec, row)),
        DataType::UInt8 => FunctionValue::UInt8(read_prim::<u8>(vec, row)),
        DataType::UInt16 => FunctionValue::UInt16(read_prim::<u16>(vec, row)),
        DataType::UInt32 => FunctionValue::UInt32(read_prim::<u32>(vec, row)),
        DataType::UInt64 => FunctionValue::UInt64(read_prim::<u64>(vec, row)),
        DataType::Float32 => FunctionValue::Float32(read_prim::<f32>(vec, row)),
        DataType::Float64 => FunctionValue::Float64(read_prim::<f64>(vec, row)),
        DataType::Char { .. } | DataType::Varchar { .. } | DataType::Text => {
            FunctionValue::String(String::from_utf8_lossy(&read_string_bytes(vec, row)).into_owned())
        }
        // BLOB / fallback — raw bytes (WKB round-trips losslessly).
        _ => FunctionValue::Binary(read_string_bytes(vec, row)),
    }
}

"##;

/// How a cell is written, and the helpers around cells.
pub const SCALARS_CELLS: &'static str = r##"/// Write a FunctionValue into the `row`-th slot of the output
/// vector, using the declared return `DataType`.
unsafe fn write_cell(
    vec: duckdb_vector,
    row: usize,
    val: &FunctionValue,
    out_ty: &DataType,
) -> std::result::Result<(), String> {
    if matches!(val, FunctionValue::Null) {
        set_vector_null(vec, row);
        return Ok(());
    }
    match out_ty {
        DataType::Boolean => write_prim::<bool>(vec, row, val.as_bool().unwrap_or(false)),
        DataType::Int8 => write_prim::<i8>(vec, row, val.as_i64().unwrap_or(0) as i8),
        DataType::Int16 => write_prim::<i16>(vec, row, val.as_i64().unwrap_or(0) as i16),
        DataType::Int32 => write_prim::<i32>(vec, row, val.as_i64().unwrap_or(0) as i32),
        DataType::Int64 => write_prim::<i64>(vec, row, val.as_i64().unwrap_or(0)),
        DataType::UInt8 => write_prim::<u8>(vec, row, val.as_i64().unwrap_or(0) as u8),
        DataType::UInt16 => write_prim::<u16>(vec, row, val.as_i64().unwrap_or(0) as u16),
        DataType::UInt32 => write_prim::<u32>(vec, row, val.as_i64().unwrap_or(0) as u32),
        DataType::UInt64 => write_prim::<u64>(vec, row, val.as_i64().unwrap_or(0) as u64),
        DataType::Float32 => write_prim::<f32>(vec, row, val.as_f64().unwrap_or(0.0) as f32),
        DataType::Float64 => write_prim::<f64>(vec, row, val.as_f64().unwrap_or(0.0)),
        DataType::Char { .. } | DataType::Varchar { .. } | DataType::Text => match val {
            FunctionValue::String(sv) => assign_bytes(vec, row, sv.as_bytes()),
            FunctionValue::Binary(b) => assign_bytes(vec, row, b),
            other => assign_bytes(vec, row, format!("{other:?}").as_bytes()),
        },
        // BLOB / fallback — raw bytes.
        _ => match val {
            FunctionValue::Binary(b) => assign_bytes(vec, row, b),
            FunctionValue::String(sv) => assign_bytes(vec, row, sv.as_bytes()),
            other => {
                return Err(format!(
                    "scalar return: unexpected variant `{}` for BLOB output",
                    other.type_name()
                ))
            }
        },
    }
    Ok(())
}

unsafe fn read_prim<T: Copy>(vec: duckdb_vector, row: usize) -> T {
    let data = ffi::duckdb_vector_get_data(vec) as *const T;
    std::ptr::read(data.add(row))
}

unsafe fn write_prim<T: Copy>(vec: duckdb_vector, row: usize, v: T) {
    let data = ffi::duckdb_vector_get_data(vec) as *mut T;
    std::ptr::write(data.add(row), v);
}

/// Read a `duckdb_string_t` cell (VARCHAR or BLOB share this
/// physical layout) into owned bytes, handling both the inline
/// short-string and the pointer long-string representations.
unsafe fn read_string_bytes(vec: duckdb_vector, row: usize) -> Vec<u8> {
    let data = ffi::duckdb_vector_get_data(vec) as *const duckdb_string_t;
    let s = &*data.add(row);
    let len = s.value.inlined.length as usize;
    // `length <= 12` => inlined bytes; else `ptr` points at the data.
    if len <= 12 {
        let inl = &s.value.inlined.inlined;
        let bytes = inl.as_ptr() as *const u8;
        std::slice::from_raw_parts(bytes, len).to_vec()
    } else {
        let p = s.value.pointer.ptr as *const u8;
        std::slice::from_raw_parts(p, len).to_vec()
    }
}

unsafe fn assign_bytes(vec: duckdb_vector, row: usize, bytes: &[u8]) {
    ffi::duckdb_vector_assign_string_element_len(
        vec,
        row as idx_t,
        bytes.as_ptr() as *const c_char,
        bytes.len() as idx_t,
    );
}

unsafe fn vector_row_is_null(vec: duckdb_vector, row: usize) -> bool {
    let validity = ffi::duckdb_vector_get_validity(vec);
    if validity.is_null() {
        return false;
    }
    !ffi::duckdb_validity_row_is_valid(validity, row as idx_t)
}

unsafe fn set_vector_null(vec: duckdb_vector, row: usize) {
    ffi::duckdb_vector_ensure_validity_writable(vec);
    let validity = ffi::duckdb_vector_get_validity(vec);
    if !validity.is_null() {
        ffi::duckdb_validity_set_row_invalid(validity, row as idx_t);
    }
}

unsafe extern "C" fn drop_extra_info(ptr: *mut c_void) {
    if ptr.is_null() {
        return;
    }
    drop(Box::from_raw(ptr as *mut ScExtraInfo));
}

unsafe fn set_err(info: duckdb_function_info, msg: &str) {
    if let Ok(cs) = CString::new(msg) {
        duckdb_scalar_function_set_error(info, cs.as_ptr() as *const c_char);
    }
}
"##;

} // verus!
