//! The manifest, the entry point, the registry, the readme and the set of files.

use ducklink_shim_codegen::bridge::bridge_files;
use ducklink_shim_codegen::emit::package::{
    bridge_name_text, cargo_toml, entry_point_text, extension_summary_text, lib_rs, readme,
    readme_head_text, readme_tail_text, registry_for, registry_rs, surface_row_text,
};
use ducklink_shim_codegen::emit::shared::{extension_heading_text, generated_header};
use ducklink_shim_codegen::plan::{BridgePlan, Extension, WindowFunction};

fn bare(name: &str) -> Extension {
    Extension {
        name: name.to_string(),
        version: "3.4".to_string(),
        scalars: vec![],
        aggregates: vec![],
        table_functions: vec![],
        window_functions: vec![],
        column_types: vec![],
        operators: vec![],
        cast_rewrites: vec![],
        preprocessor_patterns: vec![],
        system_catalog_tables: vec![],
        spatial_indexes: vec![],
    }
}

fn windowed(name: &str) -> Extension {
    let mut ext = bare(name);
    ext.window_functions = vec![
        WindowFunction { canonical_name: "a".to_string() },
        WindowFunction { canonical_name: "b".to_string() },
    ];
    ext
}

fn plan() -> BridgePlan {
    BridgePlan { extensions: vec![windowed("my-ext"), bare("raster")] }
}

#[test]
fn sources_start_with_the_header() {
    let header = generated_header();
    assert_eq!(
        header,
        "// === GENERATED by ducklink-shim-codegen — do not edit by hand ===\n#![allow(dead_code, unused_imports)]\n\n"
    );
    for file in bridge_files(&plan()) {
        if file.path.ends_with(".rs") {
            assert!(file.contents.starts_with(&header), "{}", file.path);
        }
    }
}

#[test]
fn paths_are_distinct() {
    let files = bridge_files(&plan());
    for (i, a) in files.iter().enumerate() {
        for b in &files[..i] {
            assert_ne!(a.path, b.path);
        }
    }
}

#[test]
fn the_entry_point_declares_every_module() {
    let files = bridge_files(&plan());
    let entry = lib_rs(&plan());
    let declared: Vec<String> = entry
        .lines()
        .filter_map(|l| l.strip_prefix("mod ").or(l.strip_prefix("pub mod ")))
        .filter_map(|l| l.strip_suffix(';'))
        .map(|m| format!("src/{m}.rs"))
        .collect();
    let written: Vec<String> = files.iter().skip(3).map(|f| f.path.clone()).collect();
    assert_eq!(declared, written);
    assert_eq!(files[2].path, "src/lib.rs");
    assert_eq!(files[2].contents, entry);
}

#[test]
fn names_agree() {
    let plan = plan();
    assert_eq!(bridge_name_text(&plan), "my-ext");
    let manifest = cargo_toml(&plan);
    assert!(manifest.starts_with("[package]\nname = \"my-ext-duckdb-bridge\"\n"));
    assert!(manifest.contains("\nname = \"my-ext_duckdb_bridge\"\n"));
    assert!(lib_rs(&plan).contains(" fn my-ext_duckdb_bridge_init_c_api("));
    assert!(readme(&plan).contains("`my-ext_duckdb_bridge_init_c_api`"));
    assert!(readme(&plan).contains("`cargo fmt -p my-ext-duckdb-bridge -- --check`"));
    assert!(readme(&plan).contains("MY_EXT_SHIM_WASM=/path/to/my-ext"));
    assert!(registry_rs(&plan).contains("std::env::var(\"MY_EXT_SHIM_WASM\")"));
    assert!(readme(&plan).contains("libmy_ext_duckdb_bridge.dylib"));
    assert!(readme(&plan).contains("my-ext_duckdb_bridge.duckdb_extension"));
    for text in [lib_rs(&plan), registry_rs(&plan), readme(&plan)] {
        assert!(text.contains("MY_EXT_SHIM_WASM"));
    }
}

#[test]
fn an_empty_plan_is_named_shim() {
    let plan = BridgePlan { extensions: vec![] };
    assert!(cargo_toml(&plan).contains("name = \"shim-duckdb-bridge\""));
    assert!(registry_rs(&plan).contains("SHIM_SHIM_WASM"));
    assert!(readme(&plan).starts_with("# shim-duckdb-bridge\n"));
    assert!(lib_rs(&plan).ends_with("// Extensions loaded by this bridge:\n//\n\n"));
}

#[test]
fn summaries_count_what_an_extension_publishes() {
    let summary = "//   - my-ext v3.4  (0 scalars, 0 agg, 0 udtf, 2 window, 0 types, 0 ops, 0 casts, 0 preps, 0 catalog, 0 indexes)";
    assert_eq!(extension_summary_text(&windowed("my-ext")), summary);
    let row = "| my-ext | 3.4 | 0 | 0 | 0 | 2 | 0 | 0 | 0 | 0 | 0 | 0 |\n";
    assert_eq!(surface_row_text(&windowed("my-ext")), row);
    assert!(lib_rs(&plan()).contains(summary));
    assert!(readme(&plan()).contains(row));
    assert!(readme(&plan()).contains("| raster | 3.4 | 0 | 0 |"));
}

#[test]
fn extensions_have_headings() {
    assert_eq!(extension_heading_text(&bare("raster")), "// === extension: raster ===\n");
}

#[test]
fn the_registry_reads_the_given_variable() {
    let text = registry_for("X_SHIM_WASM");
    assert_eq!(text.matches("X_SHIM_WASM").count(), 3);
    assert_eq!(text.replace("X_SHIM_WASM", "MY_EXT_SHIM_WASM"), registry_rs(&plan()));
}

#[test]
fn the_entry_point_is_made_of_a_name_and_a_variable() {
    let text = entry_point_text("my-ext", "MY_EXT_SHIM_WASM");
    assert!(lib_rs(&plan()).starts_with(&text));
    assert_eq!(text.matches("MY_EXT_SHIM_WASM").count(), 1);
}

#[test]
fn the_readme_is_made_of_its_parts() {
    let rows: String = plan().extensions.iter().map(surface_row_text).collect();
    assert_eq!(
        readme(&plan()),
        format!(
            "{}{}{}",
            readme_head_text("my-ext"),
            rows,
            readme_tail_text("my-ext", "my-ext", "MY_EXT_SHIM_WASM")
        )
    );
}
