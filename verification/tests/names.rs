//! The names that a bridge derives from its plan.

use ducklink_shim_codegen::names::{
    env_var_from_upper, primary_extension_name, replace_char, sanitize_crate_name,
    sanitize_fn_prefix, shim_env_var, type_name_to_datatype_expr,
};
use ducklink_shim_codegen::plan::{BridgePlan, Extension};

fn named(name: &str) -> Extension {
    Extension {
        name: name.to_string(),
        version: "1.0".to_string(),
        scalars: vec![],
        aggregates: vec![],
        table_functions: vec![],
        window_functions: vec![],
        column_types: vec![],
        operators: vec![],
        cast_rewrites: vec![],
        preprocessor_patterns: vec![],
        system_catalog_tables: vec![],
        spatial_indexes: vec![],
    }
}

fn plan_of(names: &[&str]) -> BridgePlan {
    BridgePlan { extensions: names.iter().map(|n| named(n)).collect() }
}

#[test]
fn crate_names() {
    assert_eq!(sanitize_crate_name("postgis"), "postgis");
    assert_eq!(sanitize_crate_name("My Ext_2"), "My-Ext-2");
    assert_eq!(sanitize_crate_name("möbile"), "m-bile");
    assert_eq!(sanitize_crate_name("--"), "--");
    assert_eq!(sanitize_crate_name(""), "");
}

#[test]
fn crate_names_are_kept() {
    for s in ["a b", "é!", "x-y", "Z9"] {
        let once = sanitize_crate_name(s);
        assert_eq!(once.chars().count(), s.chars().count());
        assert_eq!(sanitize_crate_name(&once), once);
    }
}

#[test]
fn function_prefixes() {
    assert_eq!(sanitize_fn_prefix("postgis"), "postgis");
    assert_eq!(sanitize_fn_prefix("mobilitydb"), "mobilitydb");
    assert_eq!(sanitize_fn_prefix("My Ext"), "my_ext");
    assert_eq!(sanitize_fn_prefix("a--b__c"), "a_b_c");
    assert_eq!(sanitize_fn_prefix("__Post-GIS 3!"), "_post_gis_3_");
    assert_eq!(sanitize_fn_prefix("Möbile"), "m_bile");
    assert_eq!(sanitize_fn_prefix("-ext-"), "_ext_");
    assert_eq!(sanitize_fn_prefix("--"), "_");
    assert_eq!(sanitize_fn_prefix(""), "");
}

#[test]
fn function_prefixes_are_kept() {
    for s in ["My Ext", "_a_", "x1 - y2", "ÄB", "a_b"] {
        let once = sanitize_fn_prefix(s);
        assert_eq!(sanitize_fn_prefix(&once), once);
        assert!(!once.contains("__"));
        let first = s.chars().next().unwrap();
        let last = s.chars().last().unwrap();
        assert_eq!(once.starts_with('_'), !first.is_ascii_alphanumeric());
        assert_eq!(once.ends_with('_'), !last.is_ascii_alphanumeric());
    }
}

#[test]
fn function_prefixes_keep_letters_and_digits() {
    let s = "Post-GIS 3.4 (Ünder_score)";
    let kept: String =
        s.chars().filter(|c| c.is_ascii_alphanumeric()).map(|c| c.to_ascii_lowercase()).collect();
    assert_eq!(sanitize_fn_prefix(s).replace('_', ""), kept);
}

#[test]
fn primary_extension() {
    assert_eq!(primary_extension_name(&plan_of(&[])), "shim");
    assert_eq!(primary_extension_name(&plan_of(&["postgis", "raster"])), "postgis");
}

#[test]
fn environment_variables() {
    assert_eq!(shim_env_var(&plan_of(&[])), "SHIM_SHIM_WASM");
    assert_eq!(shim_env_var(&plan_of(&["postgis"])), "POSTGIS_SHIM_WASM");
    assert_eq!(shim_env_var(&plan_of(&["my-ext"])), "MY_EXT_SHIM_WASM");
    assert_eq!(shim_env_var(&plan_of(&["my ext"])), "MY EXT_SHIM_WASM");
    assert_eq!(shim_env_var(&plan_of(&["straße"])), "STRASSE_SHIM_WASM");
}

#[test]
fn environment_variables_from_upper_case() {
    assert_eq!(env_var_from_upper("A-B-C"), "A_B_C_SHIM_WASM");
    assert_eq!(env_var_from_upper(""), "_SHIM_WASM");
    assert!(!env_var_from_upper("-x-").contains('-'));
}

#[test]
fn replacing_characters() {
    assert_eq!(replace_char("a-b-", '-', '_'), "a_b_");
    assert_eq!(replace_char("abc", '-', '_'), "abc");
}

#[test]
fn datatypes() {
    let known = [
        ("boolean", "DataType::Boolean"),
        ("int8", "DataType::Int8"),
        ("int16", "DataType::Int16"),
        ("int32", "DataType::Int32"),
        ("int64", "DataType::Int64"),
        ("uint8", "DataType::UInt8"),
        ("uint16", "DataType::UInt16"),
        ("uint32", "DataType::UInt32"),
        ("uint64", "DataType::UInt64"),
        ("float32", "DataType::Float32"),
        ("float64", "DataType::Float64"),
        ("text", "DataType::Text"),
    ];
    for (name, expr) in known {
        assert_eq!(type_name_to_datatype_expr(name), expr);
    }
    for (i, (_, a)) in known.iter().enumerate() {
        for (_, b) in &known[..i] {
            assert_ne!(a, b);
        }
    }
}

#[test]
fn unrecognised_datatypes_are_bytes() {
    for name in ["binary", "geometry", "", "INT32", "int32 "] {
        assert_eq!(type_name_to_datatype_expr(name), "DataType::Binary");
    }
}
