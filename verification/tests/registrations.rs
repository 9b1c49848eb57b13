//! Types, casts, spatial indexes and the listings.

use ducklink_shim_codegen::capabilities::flag_set;
use ducklink_shim_codegen::emit::casts::{
    cast_entry_text, cast_line_text, cast_section_text, casts_rs,
};
use ducklink_shim_codegen::emit::listings::{
    catalog_entry_text, catalog_section_text, column_entry_text, operator_entry_text,
    operator_section_text, operators_rs, pattern_entry_text, pattern_section_text,
    preprocessors_rs, system_catalog_rs, window_entry_text, window_functions_rs,
    window_section_text,
};
use ducklink_shim_codegen::emit::spatial_indexes::{
    find_primary, index_block_text, index_entry_text, index_lines_text, index_section_text,
    spatial_indexes_rs,
};
use ducklink_shim_codegen::emit::types::{
    registered_type_names, type_entry_from, type_entry_text, type_line_text, type_section_text,
    types_rs,
};
use ducklink_shim_codegen::plan::{
    BridgePlan, CastRewrite, CatalogColumn, ColumnType, Extension, Operator, PreprocessorPattern,
    SpatialIndex, SystemCatalogTable, WindowFunction,
};
use ducklink_shim_codegen::walk::every_column_type;

fn strings(items: &[&str]) -> Vec<String> {
    items.iter().map(|s| s.to_string()).collect()
}

fn bare(name: &str) -> Extension {
    Extension {
        name: name.to_string(),
        version: "1.0".to_string(),
        scalars: vec![],
        aggregates: vec![],
        table_functions: vec![],
        window_functions: vec![],
        column_types: vec![],
        operators: vec![],
        cast_rewrites: vec![],
        preprocessor_patterns: vec![],
        system_catalog_tables: vec![],
        spatial_indexes: vec![],
    }
}

fn column_type(type_id: i64, name: &str) -> ColumnType {
    ColumnType {
        type_id,
        name: name.to_string(),
        storage_size: -1,
        cast_from: strings(&["text", "a\"b"]),
        cast_to: vec![],
    }
}

fn index(name: &str, caps: Option<&str>) -> SpatialIndex {
    SpatialIndex {
        name: name.to_string(),
        type_id: 17,
        capabilities_json: caps.map(|c| c.to_string()),
    }
}

/// The lines of `text` that start with `start`, without it.
fn lines_with<'a>(text: &'a str, start: &str) -> Vec<&'a str> {
    text.lines().filter_map(|l| l.strip_prefix(start)).collect()
}

fn typed_plan() -> BridgePlan {
    let mut one = bare("one");
    one.column_types = vec![column_type(1, " STBOX"), column_type(2, "GEOMETRY"), column_type(3, "\t ")];
    let mut two = bare("two");
    two.column_types = vec![column_type(4, "GEOMETRY\n"), column_type(5, ""), column_type(6, "Box\"")];
    BridgePlan { extensions: vec![one, two] }
}

#[test]
fn type_names_are_trimmed_sorted_and_unique() {
    let plan = typed_plan();
    assert_eq!(registered_type_names(&plan), strings(&["Box\"", "GEOMETRY", "STBOX"]));
    let names: Vec<&str> = every_column_type(&plan).iter().map(|t| t.name.as_str()).collect();
    assert_eq!(names, [" STBOX", "GEOMETRY", "\t ", "GEOMETRY\n", "", "Box\""]);
}

#[test]
fn type_names_ignore_publication_order() {
    let mut reversed = typed_plan();
    reversed.extensions.reverse();
    for ext in &mut reversed.extensions {
        ext.column_types.reverse();
        ext.column_types.push(column_type(7, "STBOX "));
    }
    assert_eq!(registered_type_names(&reversed), registered_type_names(&typed_plan()));
}

#[test]
fn every_registered_type_has_its_casts() {
    let plan = typed_plan();
    let types = types_rs(&plan);
    let casts = casts_rs(&plan);
    let expected = ["\"Box\\\"\");", "\"GEOMETRY\");", "\"STBOX\");"];
    assert_eq!(lines_with(&types, "    register_type(con, "), expected);
    assert_eq!(lines_with(&casts, "    register_identity_cast(con, "), expected);
}

#[test]
fn type_and_cast_lines() {
    assert_eq!(type_line_text("\"T\""), "    register_type(con, \"T\");\n");
    assert_eq!(cast_line_text("\"T\""), "    register_identity_cast(con, \"T\");\n");
}

#[test]
fn type_entries() {
    assert_eq!(
        type_entry_text(&column_type(17, "GEOMETRY")),
        "// type_id=   17 name=GEOMETRY                 size=  -1  cast_from=[\"text\", \"a\\\"b\"]  cast_to=[]\n"
    );
    assert_eq!(
        type_entry_from(123456, "a name of more than two dozen", 10000, "F", "T"),
        "// type_id=123456 name=a name of more than two dozen size=10000  cast_from=F  cast_to=T\n"
    );
    let mut ext = bare("one");
    ext.column_types = vec![column_type(1, "A")];
    assert_eq!(
        type_section_text(&ext),
        "// === extension: one ===\n// type_id=    1 name=A                        size=  -1  cast_from=[\"text\", \"a\\\"b\"]  cast_to=[]\n"
    );
}

#[test]
fn cast_entries() {
    let rewrite = CastRewrite {
        source_kind: "text".to_string(),
        target_type: "GEOMETRY".to_string(),
        function_name: "st_geomfromtext".to_string(),
        source_fn_hint: "wkt".to_string(),
    };
    let entry = "// CAST(<text> AS GEOMETRY) → st_geomfromtext (hint: wkt)\n";
    assert_eq!(cast_entry_text(&rewrite), entry);
    let mut ext = bare("one");
    ext.cast_rewrites = vec![rewrite];
    assert_eq!(cast_section_text(&ext), format!("// === extension: one ===\n{entry}"));
    assert!(casts_rs(&BridgePlan { extensions: vec![ext] }).ends_with(entry));
}

#[test]
fn the_primary_index_is_the_first_with_capabilities() {
    let indexes = vec![index("a", None), index("b", Some("{}")), index("c", Some("{}"))];
    assert_eq!(find_primary(&indexes).unwrap().name, "b");
    assert!(find_primary(&vec![index("a", None)]).is_none());
    assert!(find_primary(&vec![]).is_none());
}

#[test]
fn flags_of_capabilities() {
    let caps = "{\"knn\":true,\"within_distance_wkb\":false}";
    assert!(flag_set(caps, "knn"));
    assert!(!flag_set(caps, "within_distance_wkb"));
    assert!(!flag_set(caps, "nn"));
    assert!(!flag_set("{}", "knn"));
    assert!(!flag_set("", "knn"));
}

#[test]
fn flags_may_be_spaced() {
    assert!(flag_set("{\"knn\": true}", "knn"));
    assert!(flag_set(" {\n\t\"knn\"\r: true\n} ", "knn"));
    assert!(flag_set("{\"a\" : false , \"knn\" : true , \"b\" : true}", "knn"));
    assert!(!flag_set("{ }", "knn"));
    assert!(!flag_set("{\"k nn\":true}", "knn"));
}

#[test]
fn flags_are_whole_keys() {
    assert!(!flag_set("{\"x\\\"knn\":true}", "knn"));
    assert!(flag_set("{\"x\\\"knn\":true}", "x\"knn"));
    assert!(!flag_set("{\"xknn\":true,\"knnx\":true}", "knn"));
    assert!(flag_set("{\"\\u006bn\\u006E\":true}", "knn"));
    assert!(flag_set("{\"\\ud83e\\uDD86\":true}", "🦆"));
    assert!(flag_set("{\"🦆\":true}", "🦆"));
    assert!(!flag_set("{\"\\ud83e\":true}", "🦆"));
    assert!(flag_set("{\"\\\\\\/\\b\\f\\n\\r\\t\":true}", "\\/\u{8}\u{c}\n\r\t"));
    assert!(flag_set("{\"\":true}", ""));
}

#[test]
fn flags_take_the_value_of_their_key() {
    assert!(!flag_set("{\"knn\":false,\"other\":true}", "knn"));
    assert!(!flag_set("{\"note\":\"\\\"knn\\\":true\"}", "knn"));
    assert!(!flag_set("{\"knn\":\"true\"}", "knn"));
    assert!(!flag_set("{\"knn\":null}", "knn"));
    assert!(flag_set("{\"name\":\"a,}b\",\"knn\" :true}", "knn"));
}

#[test]
fn other_members_may_stand_beside_flags() {
    for number in ["0", "-1", "10", "1.50", "-0.25e+3", "2E-7", "3e5"] {
        assert!(flag_set(&format!("{{\"n\": {number}, \"knn\": true}}"), "knn"), "{}", number);
        assert!(!flag_set(&format!("{{\"knn\": {number}}}"), "knn"), "{}", number);
    }
    assert!(flag_set("{\"a\": null, \"b\": \"x\", \"knn\": true}", "knn"));
}

#[test]
fn text_that_is_no_flat_object_is_searched() {
    for caps in [
        "\"knn\":true",
        "{\"knn\":true",
        "{\"knn\":truest}",
        "{\"depth\":{\"knn\":true}}",
        "[{\"knn\":true}]",
        "{\"\\x\":1,\"knn\":true}",
        "{\"n\":01,\"knn\":true}",
        "{\"n\":1.,\"knn\":true}",
        "{\"n\":1e,\"knn\":true}",
        "{\"n\":-,\"knn\":true}",
        "{\"knn\":true,}",
        "{\"knn\":true} x",
        "{\"a\nb\":1,\"knn\":true}",
    ] {
        assert!(flag_set(caps, "knn"), "{}", caps);
    }
    for caps in [
        "",
        "[\"knn\",true]",
        "{knn:true}",
        "{\"knn\" true}",
        "{\"knn\": true",
        "{\"depth\":{\"knn\": true}}",
        "{\"knn\": true,}",
        "{\"knn",
        "{} {",
    ] {
        assert!(!flag_set(caps, "knn"), "{}", caps);
    }
}

#[test]
fn queries_follow_capabilities() {
    let build = "    register_build_aggregate(conn, \"p_spatial_index_build\", \"ix\");\n";
    let envelope = "    register_query_tf(conn, \"p_spatial_index_query_envelope\", QueryKind::Envelope);\n";
    let knn = "    register_query_tf(conn, \"p_spatial_index_query_knn\", QueryKind::Knn);\n";
    let within = "    register_query_tf(conn, \"p_spatial_index_within_distance\", QueryKind::WithinDistance);\n";
    assert_eq!(index_lines_text("p", "\"ix\"", "{}"), format!("{build}{envelope}"));
    assert_eq!(index_lines_text("p", "\"ix\"", "{\"knn\":true}"), format!("{build}{envelope}{knn}"));
    assert_eq!(
        index_lines_text("p", "\"ix\"", "{\"within_distance_wkb\":true}"),
        format!("{build}{envelope}{within}")
    );
    assert_eq!(
        index_lines_text("p", "\"ix\"", "{\"within_distance_wkb\":true,\"knn\":true}"),
        format!("{build}{envelope}{knn}{within}")
    );
}

#[test]
fn spaced_capabilities_get_their_queries() {
    let mut ext = bare("postgis");
    ext.spatial_indexes = vec![index("rtree", Some("{\"knn\": true}"))];
    let text = spatial_indexes_rs(&BridgePlan { extensions: vec![ext] });
    assert!(text.contains("\n    register_query_tf(conn, \"postgis_spatial_index_query_knn\", QueryKind::Knn);\n"));
    assert!(!text.contains("\"postgis_spatial_index_within_distance\""));
}

#[test]
fn only_primary_indexes_register() {
    let plan = |indexes: Vec<SpatialIndex>| {
        let mut ext = bare("one");
        ext.spatial_indexes = indexes;
        BridgePlan { extensions: vec![ext] }
    };
    let alone = spatial_indexes_rs(&plan(vec![index("b", Some("{\"knn\":true}"))]));
    let among = spatial_indexes_rs(&plan(vec![
        index("a", None),
        index("b", Some("{\"knn\":true}")),
        index("c", Some("{\"within_distance_wkb\":true}")),
    ]));
    assert_eq!(lines_with(&alone, "    register_"), lines_with(&among, "    register_"));
    assert!(!lines_with(&alone, "    register_").is_empty());
}

#[test]
fn rewrites_show_up_as_comments_alone() {
    let rewrite = CastRewrite {
        source_kind: "text".to_string(),
        target_type: "A".to_string(),
        function_name: "f".to_string(),
        source_fn_hint: "h".to_string(),
    };
    let mut with = typed_plan();
    with.extensions[1].cast_rewrites = vec![rewrite];
    let plain: Vec<String> = casts_rs(&typed_plan()).lines().map(|l| l.to_string()).collect();
    let text = casts_rs(&with);
    let rest: Vec<String> =
        text.lines().filter(|l| !l.starts_with("// CAST(<")).map(|l| l.to_string()).collect();
    assert_eq!(rest, plain);
    assert!(text.contains("// CAST(<text> AS A) → f (hint: h)\n"));
}

#[test]
fn index_functions_are_named_after_the_extension() {
    let mut ext = bare("My Ext");
    ext.spatial_indexes = vec![index("r\"tree", Some("{}"))];
    assert_eq!(
        index_block_text(&ext),
        "    register_build_aggregate(conn, \"my_ext_spatial_index_build\", \"r\\\"tree\");\n    \
         register_query_tf(conn, \"my_ext_spatial_index_query_envelope\", QueryKind::Envelope);\n"
    );
    let text = spatial_indexes_rs(&BridgePlan { extensions: vec![bare("other"), ext] });
    assert!(text.contains("    register_build_aggregate(conn, \"my_ext_spatial_index_build\", "));
    assert!(!text.contains("(no spatial indexes in this interface DB)"));
}

#[test]
fn without_a_primary_index_nothing_is_registered() {
    let mut ext = bare("one");
    ext.spatial_indexes = vec![index("plain", None)];
    assert_eq!(index_block_text(&ext), "");
    let text = spatial_indexes_rs(&BridgePlan { extensions: vec![ext] });
    assert!(text.contains("    // (no spatial indexes in this interface DB)\n"));
    assert!(lines_with(&text, "    register_build_aggregate(conn, ").is_empty());
    assert!(text.ends_with("// === extension: one ===\n// index `plain` type_id=17 caps=(none)\n"));
}

#[test]
fn index_entries() {
    assert_eq!(
        index_entry_text(&index("rtree", Some("{\"knn\":true}"))),
        "// index `rtree` type_id=17 caps={\"knn\":true}\n"
    );
    let mut ext = bare("one");
    ext.spatial_indexes = vec![index("a", None), index("b", Some("{}"))];
    assert_eq!(
        index_section_text(&ext),
        "// === extension: one ===\n// index `a` type_id=17 caps=(none)\n// index `b` type_id=17 caps={}\n"
    );
}

#[test]
fn window_functions() {
    let mut ext = bare("one");
    ext.window_functions = vec![WindowFunction { canonical_name: "st_cluster".to_string() }];
    assert_eq!(window_entry_text(&ext.window_functions[0]), "// window `st_cluster`\n");
    assert_eq!(window_section_text(&ext), "// window `st_cluster`\n");
    let text = window_functions_rs(&BridgePlan { extensions: vec![ext] });
    assert!(text.ends_with("// window `st_cluster`\n\n// TODO: wire window-capable aggregates.\n"));
}

#[test]
fn operators() {
    let op = Operator {
        symbol: "&&".to_string(),
        lhs_type_id: Some(-17),
        rhs_type_id: None,
        function_name: "st_bboxintersects".to_string(),
    };
    let entry = "// `&&` (lhs=Some(-17), rhs=None)  →  st_bboxintersects\n";
    assert_eq!(operator_entry_text(&op), entry);
    let mut ext = bare("one");
    ext.operators = vec![op];
    assert_eq!(operator_section_text(&ext), format!("// === extension: one ===\n{entry}"));
    assert!(operators_rs(&BridgePlan { extensions: vec![ext] }).ends_with(entry));
}

#[test]
fn preprocessor_patterns() {
    let pattern = PreprocessorPattern {
        op_token: "<->".to_string(),
        function_name: "st_distance".to_string(),
    };
    let entry = "// token `<->` → st_distance\n";
    assert_eq!(pattern_entry_text(&pattern), entry);
    let mut ext = bare("one");
    ext.preprocessor_patterns = vec![pattern];
    assert_eq!(pattern_section_text(&ext), format!("// === extension: one ===\n{entry}"));
    assert!(preprocessors_rs(&BridgePlan { extensions: vec![ext] }).ends_with(entry));
}

#[test]
fn system_catalog() {
    let column = |name: &str, nullable: bool| CatalogColumn {
        name: name.to_string(),
        data_type: "int32".to_string(),
        nullable,
    };
    assert_eq!(column_entry_text(&column("srid", false)), "//   srid int32 (not null)\n");
    assert_eq!(column_entry_text(&column("auth", true)), "//   auth int32 (nullable)\n");
    let table = SystemCatalogTable {
        catalog_name: "public".to_string(),
        table_name: "spatial_ref_sys".to_string(),
        columns: vec![column("srid", false), column("auth", true)],
    };
    let entry = "// catalog `public.spatial_ref_sys`\n//   srid int32 (not null)\n//   auth int32 (nullable)\n";
    assert_eq!(catalog_entry_text(&table), entry);
    let mut ext = bare("one");
    ext.system_catalog_tables = vec![table];
    assert_eq!(catalog_section_text(&ext), entry);
    let text = system_catalog_rs(&BridgePlan { extensions: vec![ext] });
    assert!(text.contains(entry));
    assert!(text.ends_with("\n// TODO: emit one register_table_function per catalog entry.\n"));
}

#[test]
fn listings_compose() {
    let make = |name: &str, symbol: &str| {
        let mut ext = bare(name);
        ext.operators = vec![Operator {
            symbol: symbol.to_string(),
            lhs_type_id: None,
            rhs_type_id: Some(1),
            function_name: "f".to_string(),
        }];
        ext
    };
    let empty = operators_rs(&BridgePlan { extensions: vec![] });
    let first = operators_rs(&BridgePlan { extensions: vec![make("a", "+")] });
    let second = operators_rs(&BridgePlan { extensions: vec![make("b", "-")] });
    let both = operators_rs(&BridgePlan { extensions: vec![make("a", "+"), make("b", "-")] });
    let listed = |text: &str| text.strip_prefix(empty.as_str()).unwrap().to_string();
    assert_eq!(listed(&both), format!("{}{}", listed(&first), listed(&second)));
}
