//! Whole files, compared by length and checksum.

use ducklink_shim_codegen::bridge::bridge_files;
use ducklink_shim_codegen::plan::{
    AggregateFunction, BridgePlan, CastRewrite, CatalogColumn, ColumnType, Extension, Operator,
    PreprocessorPattern, ScalarFunction, SpatialIndex, SystemCatalogTable, TableFunction,
    WindowFunction,
};

fn strings(items: &[&str]) -> Vec<String> {
    items.iter().map(|s| s.to_string()).collect()
}

fn signatures(items: &[&[&str]]) -> Vec<Vec<String>> {
    items.iter().map(|s| strings(s)).collect()
}

/// The 64-bit FNV-1a checksum of `text`.
fn checksum(text: &str) -> u64 {
    let mut h: u64 = 0xcbf29ce484222325;
    for b in text.bytes() {
        h = (h ^ b as u64).wrapping_mul(0x100000001b3);
    }
    h
}

fn assert_files(plan: &BridgePlan, expected: &[(&str, usize, u64)]) {
    let files = bridge_files(plan);
    assert_eq!(files.len(), expected.len());
    for (file, (path, len, sum)) in files.iter().zip(expected) {
        assert_eq!(file.path, *path);
        assert_eq!(file.contents.len(), *len, "length of {path}");
        assert_eq!(checksum(&file.contents), *sum, "checksum of {path}");
    }
}

fn first_extension() -> Extension {
    Extension {
        name: "my-ext".to_string(),
        version: "3.4.1".to_string(),
        scalars: vec![ScalarFunction { canonical_name: "st_union".to_string(), aliases: strings(&["st_merge"]), param_signatures: signatures(&[&["binary", "binary"]]), return_type: "binary".to_string() }, ScalarFunction { canonical_name: "st_addface".to_string(), aliases: strings(&["addface", "Add \"Face\""]), param_signatures: signatures(&[&["text", "text"], &["text", "text", "boolean"]]), return_type: "int32".to_string() }, ScalarFunction { canonical_name: "st_now".to_string(), aliases: strings(&["st_extent", "now"]), param_signatures: signatures(&[]), return_type: "geometry".to_string() }, ScalarFunction { canonical_name: "t_count".to_string(), aliases: strings(&["counted"]), param_signatures: signatures(&[&["text"]]), return_type: "int64".to_string() }, ScalarFunction { canonical_name: "st_pi".to_string(), aliases: strings(&[]), param_signatures: signatures(&[&[]]), return_type: "float64".to_string() }],
        aggregates: vec![AggregateFunction { canonical_name: "st_extent".to_string(), aliases: strings(&["st_box"]), param_signatures: signatures(&[&["float64", "text"]]) }],
        table_functions: vec![TableFunction { canonical_name: "st_subdivide".to_string(), aliases: strings(&["st_split", "st_cut"]), param_signatures: signatures(&[&["binary", "int32"], &["binary"], &["text"]]) }, TableFunction { canonical_name: "st_dump".to_string(), aliases: strings(&[]), param_signatures: signatures(&[]) }],
        window_functions: vec![WindowFunction { canonical_name: "st_clusterdbscan".to_string() }],
        column_types: vec![ColumnType { type_id: 17, name: " GEOMETRY ".to_string(), storage_size: -1, cast_from: strings(&["text", "binary"]), cast_to: strings(&[]) }, ColumnType { type_id: 123456, name: "STBOX".to_string(), storage_size: 80, cast_from: strings(&[]), cast_to: strings(&["a\"b"]) }, ColumnType { type_id: -3, name: "\u{3000}\t".to_string(), storage_size: 12345, cast_from: strings(&[]), cast_to: strings(&[]) }],
        operators: vec![Operator { symbol: "&&".to_string(), lhs_type_id: Some(17), rhs_type_id: None, function_name: "st_bboxintersects".to_string() }],
        cast_rewrites: vec![CastRewrite { source_kind: "text".to_string(), target_type: "GEOMETRY".to_string(), function_name: "st_geomfromtext".to_string(), source_fn_hint: "wkt".to_string() }],
        preprocessor_patterns: vec![PreprocessorPattern { op_token: "<->".to_string(), function_name: "st_distance".to_string() }],
        system_catalog_tables: vec![SystemCatalogTable { catalog_name: "public".to_string(), table_name: "spatial_ref_sys".to_string(), columns: vec![CatalogColumn { name: "srid".to_string(), data_type: "int32".to_string(), nullable: false }, CatalogColumn { name: "proj4text".to_string(), data_type: "text".to_string(), nullable: true }] }],
        spatial_indexes: vec![SpatialIndex { name: "plain".to_string(), type_id: 17, capabilities_json: None }, SpatialIndex { name: "my-rtree".to_string(), type_id: 17, capabilities_json: Some("{\"knn\":true,\"within_distance_wkb\":false}".to_string()) }, SpatialIndex { name: "later".to_string(), type_id: 18, capabilities_json: Some("{\"within_distance_wkb\":true}".to_string()) }],
    }
}

fn second_extension() -> Extension {
    Extension {
        name: " Möbile  DB! ".to_string(),
        version: "0.1".to_string(),
        scalars: vec![ScalarFunction { canonical_name: "tpoint".to_string(), aliases: strings(&[]), param_signatures: signatures(&[&["uint64", "float32", "int8", "int16", "int64", "uint8", "uint16", "uint32", "nope"]]), return_type: "text".to_string() }],
        aggregates: vec![AggregateFunction { canonical_name: "st_union".to_string(), aliases: strings(&[]), param_signatures: signatures(&[]) }, AggregateFunction { canonical_name: "tcount".to_string(), aliases: strings(&["t_count"]), param_signatures: signatures(&[&[]]) }],
        table_functions: vec![],
        window_functions: vec![],
        column_types: vec![ColumnType { type_id: 5, name: "GEOMETRY".to_string(), storage_size: 0, cast_from: strings(&[]), cast_to: strings(&[]) }, ColumnType { type_id: 6, name: "Ångström type with a long name".to_string(), storage_size: 1, cast_from: strings(&[]), cast_to: strings(&[]) }],
        operators: vec![],
        cast_rewrites: vec![],
        preprocessor_patterns: vec![],
        system_catalog_tables: vec![],
        spatial_indexes: vec![SpatialIndex { name: "strtree".to_string(), type_id: -9, capabilities_json: Some("{ \"knn\" : false,\n \"within_distance_wkb\" : true }".to_string()) }],
    }
}

#[test]
fn files_of_a_full_plan() {
    let plan = BridgePlan { extensions: vec![first_extension(), second_extension()] };
    assert_files(
        &plan,
        &[
            ("Cargo.toml", 1976, 0xfa1bcd4299c319f8),
            ("README.md", 3021, 0xa4ace10dca9c007e),
            ("src/lib.rs", 5685, 0x6745b5af280085f7),
            ("src/registry.rs", 5209, 0x3fb353b4b672ca13),
            ("src/scalars.rs", 17214, 0x0f40363fb12c7a64),
            ("src/aggregates.rs", 17896, 0x352d0d17725fb80d),
            ("src/table_functions.rs", 23349, 0x071e29d753582674),
            ("src/window_functions.rs", 335, 0xd0d3990845f91bfb),
            ("src/types.rs", 3832, 0xa74bf71f895a44e2),
            ("src/operators.rs", 1556, 0x59cc407624d91b25),
            ("src/casts.rs", 6551, 0xac455cf6f21872b7),
            ("src/preprocessors.rs", 617, 0x843ad599e15c7bf2),
            ("src/system_catalog.rs", 381, 0x5a6cfe29d1d75ed8),
            ("src/spatial_indexes.rs", 26981, 0xb5892afc847c2147),
        ],
    );
}

#[test]
fn files_of_the_second_extension_alone() {
    let plan = BridgePlan { extensions: vec![second_extension()] };
    assert_files(
        &plan,
        &[
            ("Cargo.toml", 1997, 0x696ee4b391a23f7b),
            ("README.md", 3060, 0xd8a592b9483c66ee),
            ("src/lib.rs", 5599, 0xc48af27b038e02df),
            ("src/registry.rs", 5233, 0x42e25babc20814ae),
            ("src/scalars.rs", 16174, 0xef3de247f6c4cd77),
            ("src/aggregates.rs", 17769, 0x9924b77c9c681509),
            ("src/table_functions.rs", 22731, 0x7ba1d30debef8c19),
            ("src/window_functions.rs", 306, 0x1450c122cf27664e),
            ("src/types.rs", 3495, 0xb2d34c2efab6e4c8),
            ("src/operators.rs", 1470, 0xd2a3ed423349a255),
            ("src/casts.rs", 6420, 0x526681e4ea0cfe66),
            ("src/preprocessors.rs", 557, 0x7ffac248b5c11082),
            ("src/system_catalog.rs", 287, 0x381f440332ba7910),
            ("src/spatial_indexes.rs", 26527, 0x007366322746aaa4),
        ],
    );
}

#[test]
fn files_of_an_empty_plan() {
    let plan = BridgePlan { extensions: vec![] };
    assert_files(
        &plan,
        &[
            ("Cargo.toml", 1970, 0x251af0a8cd76f7cd),
            ("README.md", 2871, 0xcc8e954ca5b92cba),
            ("src/lib.rs", 5442, 0x7e20a58ddd8b3258),
            ("src/registry.rs", 5203, 0xffac049aeb39f95c),
            ("src/scalars.rs", 15996, 0x98878c64dc63edea),
            ("src/aggregates.rs", 17641, 0x504e26e052ac030c),
            ("src/table_functions.rs", 22694, 0x551bde1061b2948b),
            ("src/window_functions.rs", 306, 0x1450c122cf27664e),
            ("src/types.rs", 3188, 0x9afeecf62e45f248),
            ("src/operators.rs", 1433, 0xbbd4f950b8a9edb7),
            ("src/casts.rs", 6269, 0x70f86361fa5d35ba),
            ("src/preprocessors.rs", 520, 0xce5765bb7a841652),
            ("src/system_catalog.rs", 287, 0x381f440332ba7910),
            ("src/spatial_indexes.rs", 26178, 0xe05383863a24d6db),
        ],
    );
}
