//! Scalars, aggregates and table functions.

use ducklink_shim_codegen::emit::aggregates::{
    aggregate_alias_line_text, aggregate_block_text, aggregate_line_text, aggregate_summary_text,
    aggregates_rs, input_type_text,
};
use ducklink_shim_codegen::emit::scalars::{
    overload_list_text, overload_text, scalar_alias_line_text, scalar_block_text, scalar_line_text,
    scalar_section_text, scalar_summary_text, scalars_rs,
};
use ducklink_shim_codegen::emit::shared::datatype_list_text;
use ducklink_shim_codegen::emit::table_functions::{
    dropped_line_text, registered_types_text, table_function_alias_line_text,
    table_function_block_text, table_function_line_text, table_function_summary_text,
    table_functions_rs, udtf_entry_text, udtf_section_text,
};
use ducklink_shim_codegen::plan::{
    AggregateFunction, BridgePlan, Extension, ScalarFunction, TableFunction,
};
use ducklink_shim_codegen::signatures::narrowest_first;
use ducklink_shim_codegen::walk::{every_aggregate, every_scalar, every_table_function};

fn strings(items: &[&str]) -> Vec<String> {
    items.iter().map(|s| s.to_string()).collect()
}

fn signatures(items: &[&[&str]]) -> Vec<Vec<String>> {
    items.iter().map(|s| strings(s)).collect()
}

fn scalar(name: &str, aliases: &[&str], sigs: &[&[&str]], ret: &str) -> ScalarFunction {
    ScalarFunction {
        canonical_name: name.to_string(),
        aliases: strings(aliases),
        param_signatures: signatures(sigs),
        return_type: ret.to_string(),
    }
}

fn aggregate(name: &str, aliases: &[&str], sigs: &[&[&str]]) -> AggregateFunction {
    AggregateFunction {
        canonical_name: name.to_string(),
        aliases: strings(aliases),
        param_signatures: signatures(sigs),
    }
}

fn table(name: &str, aliases: &[&str], sigs: &[&[&str]]) -> TableFunction {
    TableFunction {
        canonical_name: name.to_string(),
        aliases: strings(aliases),
        param_signatures: signatures(sigs),
    }
}

fn extension(
    name: &str,
    scalars: Vec<ScalarFunction>,
    aggregates: Vec<AggregateFunction>,
    table_functions: Vec<TableFunction>,
) -> Extension {
    Extension {
        name: name.to_string(),
        version: "1.0".to_string(),
        scalars,
        aggregates,
        table_functions,
        window_functions: vec![],
        column_types: vec![],
        operators: vec![],
        cast_rewrites: vec![],
        preprocessor_patterns: vec![],
        system_catalog_tables: vec![],
        spatial_indexes: vec![],
    }
}

#[test]
fn overloads_carry_their_types() {
    assert_eq!(
        overload_text(&strings(&["text", "geometry"]), &"int32".to_string()),
        "(&[DataType::Text, DataType::Binary], DataType::Int32)"
    );
    assert_eq!(datatype_list_text(&strings(&["boolean", "uint8"])), "DataType::Boolean, DataType::UInt8");
    assert_eq!(datatype_list_text(&strings(&[])), "");
}

#[test]
fn every_overload_is_kept() {
    let sc = scalar("st_addface", &[], &[&["text", "text"], &["text", "text", "boolean"]], "int32");
    assert_eq!(
        overload_list_text(&sc),
        "(&[DataType::Text, DataType::Text], DataType::Int32), \
         (&[DataType::Text, DataType::Text, DataType::Boolean], DataType::Int32)"
    );
}

#[test]
fn a_scalar_without_signatures_takes_no_arguments() {
    let sc = scalar("st_now", &[], &[], "text");
    assert_eq!(overload_list_text(&sc), "(&[], DataType::Text)");
    let none = scalar("st_now", &[], &[&[]], "text");
    assert_eq!(overload_list_text(&none), "(&[], DataType::Text)");
}

#[test]
fn scalar_lines() {
    assert_eq!(scalar_line_text("\"f\"", "L"), "    register_scalar(conn, \"f\", &[L]);\n");
    assert_eq!(
        scalar_alias_line_text("\"g\"", "L", "f"),
        "    register_scalar(conn, \"g\", &[L]); // alias of f\n"
    );
    assert_eq!(
        scalar_summary_text(3, 12, 100),
        "    // Generic dispatch: 3 canonical + 12 alias scalars (100 parameter-list overloads), all registered with their REAL param + return types.\n"
    );
}

#[test]
fn scalar_names_are_escaped() {
    let sc = scalar("a\"b", &["c\nd"], &[&["text"]], "text");
    assert_eq!(
        scalar_block_text(&vec![], &sc),
        "    register_scalar(conn, \"a\\\"b\", &[(&[DataType::Text], DataType::Text)]);\n    \
         register_scalar(conn, \"c\\nd\", &[(&[DataType::Text], DataType::Text)]); // alias of a\"b\n"
    );
}

#[test]
fn an_aggregate_takes_the_place_of_a_scalar() {
    let plan = BridgePlan {
        extensions: vec![
            extension(
                "one",
                vec![
                    scalar("st_union", &["st_merge"], &[&["binary"]], "binary"),
                    scalar("st_area", &["area"], &[&["binary"], &["text"]], "float64"),
                ],
                vec![],
                vec![],
            ),
            extension("two", vec![], vec![aggregate("st_union", &[], &[&["binary"]])], vec![]),
        ],
    };
    let text = scalars_rs(&plan);
    assert!(text.contains("    // scalar `st_union` skipped — name also published as an aggregate; the aggregate form is registered instead (see aggregates.rs).\n"));
    assert!(!text.contains("register_scalar(conn, \"st_union\""));
    assert!(!text.contains("st_merge"));
    assert!(text.contains("    register_scalar(conn, \"st_area\", &[(&[DataType::Binary], DataType::Float64), (&[DataType::Text], DataType::Float64)]);\n"));
    assert!(text.contains("    register_scalar(conn, \"area\", "));
    assert!(text.contains("    // Generic dispatch: 1 canonical + 1 alias scalars (2 parameter-list overloads)"));
    assert!(!text.contains("(no scalars in this interface DB)"));
    assert!(aggregates_rs(&plan).contains("    register_aggregate(conn, \"st_union\", \"binary\");\n"));
}

#[test]
fn only_an_equal_name_takes_the_place_of_a_scalar() {
    let upper = aggregate("ST_UNION", &["st_unio", "st_union_"], &[]);
    let sc = scalar("st_union", &[], &[], "text");
    assert_eq!(
        scalar_block_text(&vec![&upper], &sc),
        "    register_scalar(conn, \"st_union\", &[(&[], DataType::Text)]);\n"
    );
}

#[test]
fn an_aggregate_alias_takes_the_place_of_a_scalar() {
    let plan = BridgePlan {
        extensions: vec![extension(
            "a",
            vec![scalar("st_union", &["st_merge"], &[&["binary"]], "binary")],
            vec![aggregate("st_union_agg", &["st_union"], &[&["binary"]])],
            vec![],
        )],
    };
    let text = scalars_rs(&plan);
    assert!(!text.contains("\n    register_scalar(conn, \"st_union\", "));
    assert!(text.contains("\n    // scalar `st_union` skipped — "));
    assert!(!text.contains("st_merge"));
    assert!(aggregates_rs(&plan).contains("\n    register_aggregate(conn, \"st_union\", \"binary\"); // alias of st_union_agg\n"));
}

#[test]
fn an_aggregate_takes_the_place_of_a_scalar_alias() {
    let plan = BridgePlan {
        extensions: vec![extension(
            "a",
            vec![scalar("st_area", &["area", "st_sum", "total"], &[&["text"]], "float64")],
            vec![aggregate("st_sum", &["total"], &[])],
            vec![],
        )],
    };
    let section = scalar_section_text(&plan);
    assert_eq!(
        section,
        "    register_scalar(conn, \"st_area\", &[(&[DataType::Text], DataType::Float64)]);\n    \
         register_scalar(conn, \"area\", &[(&[DataType::Text], DataType::Float64)]); // alias of st_area\n    \
         // Generic dispatch: 1 canonical + 1 alias scalars (1 parameter-list overloads), all registered with their REAL param + return types.\n"
    );
    assert!(scalars_rs(&plan).contains(&section));
}

/// The lines of `text` that start with `start`.
fn lines_with<'a>(text: &'a str, start: &str) -> Vec<&'a str> {
    text.lines().filter(|l| l.starts_with(start)).collect()
}

fn clashing_plan(aggregates: Vec<AggregateFunction>) -> BridgePlan {
    BridgePlan {
        extensions: vec![extension(
            "a",
            vec![
                scalar("one", &["uno", "eins"], &[&["text"]], "text"),
                scalar("two", &["due"], &[&["text"]], "text"),
                scalar("three", &["one"], &[&["text"]], "text"),
            ],
            aggregates,
            vec![],
        )],
    }
}

#[test]
fn one_module_registers_the_name_of_a_scalar() {
    let plan = clashing_plan(vec![aggregate("sum", &["one"], &[]), aggregate("due", &[], &[])]);
    let scalars = scalars_rs(&plan);
    let aggregates = aggregates_rs(&plan);
    for name in ["one", "two", "three"] {
        let as_scalar = lines_with(&scalars, &format!("    register_scalar(conn, \"{name}\", "));
        let as_aggregate =
            lines_with(&aggregates, &format!("    register_aggregate(conn, \"{name}\", "));
        assert_ne!(as_scalar.is_empty(), as_aggregate.is_empty(), "{name}");
    }
    assert!(!scalars.contains("uno"));
    assert!(!scalars.contains("register_scalar(conn, \"due\""));
}

#[test]
fn the_fixed_text_registers_no_function_by_name() {
    let empty = BridgePlan { extensions: vec![] };
    assert!(lines_with(&scalars_rs(&empty), "    register_scalar(conn, \"").is_empty());
    assert!(lines_with(&aggregates_rs(&empty), "    register_aggregate(conn, \"").is_empty());
}

#[test]
fn more_aggregates_only_take_scalars_away() {
    let start = "    register_scalar(";
    let before = scalars_rs(&clashing_plan(vec![aggregate("sum", &[], &[])]));
    let after = scalars_rs(&clashing_plan(vec![
        aggregate("sum", &[], &[]),
        aggregate("two", &["eins"], &[]),
    ]));
    let mut kept = lines_with(&before, start);
    kept.retain(|l| !l.contains("\"two\"") && !l.contains("\"due\"") && !l.contains("\"eins\""));
    assert_eq!(lines_with(&after, start), kept);
}

#[test]
fn scalars_are_registered_or_skipped() {
    let plan = BridgePlan {
        extensions: vec![extension(
            "one",
            vec![scalar("a", &[], &[], "text"), scalar("b", &[], &[], "text"), scalar("a", &[], &[], "text")],
            vec![aggregate("a", &[], &[])],
            vec![],
        )],
    };
    let text = scalars_rs(&plan);
    assert_eq!(text.matches("` skipped — ").count(), 2);
    assert!(text.contains("Generic dispatch: 1 canonical + 0 alias"));
}

#[test]
fn a_plan_without_functions_says_so() {
    let plan = BridgePlan { extensions: vec![extension("one", vec![], vec![], vec![])] };
    assert!(scalars_rs(&plan).contains("    // (no scalars in this interface DB)\n"));
    assert!(aggregates_rs(&plan).contains("    // (no aggregates in this interface DB)\n"));
    assert!(table_functions_rs(&plan).contains("    // (no table functions in this interface DB)\n"));
}

#[test]
fn aggregate_input_types() {
    assert_eq!(input_type_text(&aggregate("f", &[], &[&["float64", "text"], &["int8"]])), "float64");
    assert_eq!(input_type_text(&aggregate("f", &[], &[])), "binary");
    assert_eq!(input_type_text(&aggregate("f", &[], &[&[], &["int8"]])), "binary");
}

#[test]
fn aggregate_lines() {
    assert_eq!(aggregate_line_text("f", "\"text\""), "    register_aggregate(conn, \"f\", \"text\");\n");
    assert_eq!(
        aggregate_alias_line_text("g", "\"text\"", "f"),
        "    register_aggregate(conn, \"g\", \"text\"); // alias of f\n"
    );
    assert_eq!(
        aggregate_block_text(&aggregate("f", &["g", "h"], &[&["a\"b"]])),
        "    register_aggregate(conn, \"f\", \"a\\\"b\");\n    \
         register_aggregate(conn, \"g\", \"a\\\"b\"); // alias of f\n    \
         register_aggregate(conn, \"h\", \"a\\\"b\"); // alias of f\n"
    );
    assert_eq!(
        aggregate_summary_text(2, 10),
        "    // Phase 3c: 2 canonical + 10 alias names registered.\n"
    );
}

#[test]
fn narrower_signatures_come_first_and_ties_keep_their_order() {
    let sigs = signatures(&[&["a", "b"], &["c"], &["d", "e"], &["f"], &[]]);
    let sorted: Vec<Vec<String>> = narrowest_first(&sigs).into_iter().cloned().collect();
    assert_eq!(sorted, signatures(&[&[], &["c"], &["f"], &["a", "b"], &["d", "e"]]));
    assert!(narrowest_first(&signatures(&[])).is_empty());
}

#[test]
fn the_narrowest_signature_is_registered() {
    let tf = table("st_subdivide", &["st_split"], &[&["binary", "int32"], &["binary"], &["text"]]);
    assert_eq!(registered_types_text(&tf), "DataType::Binary");
    assert_eq!(
        table_function_block_text(&tf),
        "    register_table_function(conn, \"st_subdivide\", &[DataType::Binary]);\n    \
         register_table_function(conn, \"st_split\", &[DataType::Binary]); // alias of st_subdivide\n    \
         // overload `st_subdivide(text)` not registerable (DuckDB C API: one positional arity per table-function name)\n    \
         // overload `st_subdivide(binary, int32)` not registerable (DuckDB C API: one positional arity per table-function name)\n"
    );
}

#[test]
fn a_table_function_without_signatures_takes_no_arguments() {
    let tf = table("st_dump", &[], &[]);
    assert_eq!(registered_types_text(&tf), "");
    assert_eq!(
        table_function_block_text(&tf),
        "    register_table_function(conn, \"st_dump\", &[]);\n"
    );
}

#[test]
fn table_function_lines() {
    assert_eq!(
        table_function_line_text("\"f\"", "T"),
        "    register_table_function(conn, \"f\", &[T]);\n"
    );
    assert_eq!(
        table_function_alias_line_text("\"g\"", "T", "f"),
        "    register_table_function(conn, \"g\", &[T]); // alias of f\n"
    );
    assert_eq!(
        dropped_line_text("f", &strings(&["text", "int8"])),
        "    // overload `f(text, int8)` not registerable (DuckDB C API: one positional arity per table-function name)\n"
    );
    assert_eq!(
        table_function_summary_text(1, 2, 3),
        "    // Phase 5: 1 canonical UDTFs + 2 alias registrations (3 wider positional overloads not expressible via the C API).\n"
    );
}

#[test]
fn table_function_listing_shows_the_first_arity() {
    let tf = table("st_subdivide", &["st_split", "st_cut"], &[&["binary", "int32"], &["binary"]]);
    assert_eq!(
        udtf_entry_text(&tf),
        "// udtf `st_subdivide` (arity=2)\n//   aliases: st_split, st_cut\n"
    );
    assert_eq!(udtf_entry_text(&table("st_dump", &[], &[])), "// udtf `st_dump` (arity=0)\n");
    let ext = extension("one", vec![], vec![], vec![tf]);
    assert_eq!(
        udtf_section_text(&ext),
        "// === extension: one ===\n// udtf `st_subdivide` (arity=2)\n//   aliases: st_split, st_cut\n"
    );
}

#[test]
fn table_functions_are_counted() {
    let plan = BridgePlan {
        extensions: vec![
            extension("one", vec![], vec![], vec![table("a", &["b"], &[&["text"], &[]])]),
            extension("two", vec![], vec![], vec![table("c", &["d", "e"], &[&["text"], &["int8"], &["int8", "int8"]])]),
        ],
    };
    assert!(table_functions_rs(&plan).contains("    // Phase 5: 2 canonical UDTFs + 3 alias registrations (3 wider"));
}

#[test]
fn walks_go_through_all_extensions_in_order() {
    let plan = BridgePlan {
        extensions: vec![
            extension(
                "one",
                vec![scalar("a", &[], &[], "text"), scalar("b", &[], &[], "text")],
                vec![aggregate("c", &[], &[])],
                vec![],
            ),
            extension("two", vec![], vec![], vec![table("d", &[], &[])]),
            extension(
                "three",
                vec![scalar("e", &[], &[], "text")],
                vec![aggregate("f", &[], &[])],
                vec![table("g", &[], &[])],
            ),
        ],
    };
    let scalars: Vec<&str> = every_scalar(&plan).iter().map(|f| f.canonical_name.as_str()).collect();
    assert_eq!(scalars, ["a", "b", "e"]);
    let aggregates: Vec<&str> = every_aggregate(&plan).iter().map(|f| f.canonical_name.as_str()).collect();
    assert_eq!(aggregates, ["c", "f"]);
    let tables: Vec<&str> = every_table_function(&plan).iter().map(|f| f.canonical_name.as_str()).collect();
    assert_eq!(tables, ["d", "g"]);
}
