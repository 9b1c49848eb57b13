//! The files that make a bridge a crate: the manifest, the entry point, the shim
//! registry and the readme.

use vstd::prelude::*;

use crate::emit::shared::generated_header;
use crate::names::{
    crate_name, env_var, primary_extension_name, primary_name, replace_char, replaced,
    sanitize_crate_name, shim_env_var,
};
use crate::plan::{BridgePlan, BridgePlanView, Extension, ExtensionView};
use crate::templates::cargo::{CARGO_1, CARGO_2, CARGO_3, CARGO_4};
use crate::templates::entry::{
    ENTRY_1, ENTRY_2, ENTRY_3, ENTRY_4, ENTRY_5, ENTRY_6, ENTRY_MODULES,
};
use crate::templates::header::HEADER;
use crate::templates::readme::{
    README_1, README_10, README_11, README_2, README_3, README_4, README_5, README_6, README_7,
    README_8, README_9,
};
use crate::templates::registry::{REGISTRY_1, REGISTRY_2, REGISTRY_3, REGISTRY_4};
use crate::text::{concat_texts, decimal, decimal_text, join, join_texts, Text};
use crate::walk::{map_texts, refs};

verus! {

/// The crate name of the bridge, without its suffix.
pub open spec fn bridge_name(plan: BridgePlanView) -> Text {
    crate_name(primary_name(plan))
}

/// The package name of a bridge.
pub open spec fn package_name(name: Text) -> Text {
    name + "-duckdb-bridge"@
}

/// The library name of a bridge.
pub open spec fn library_name(name: Text) -> Text {
    name + "_duckdb_bridge"@
}

/// The symbol that DuckDB calls when it loads a bridge.
pub open spec fn entry_symbol(name: Text) -> Text {
    library_name(name) + "_init_c_api"@
}

/// The manifest line that gives a name.
pub open spec fn name_key(name: Text) -> Text {
    "name = \""@ + name + "\""@
}

/// The manifest of a bridge of the given name.
pub open spec fn manifest(name: Text) -> Text {
    CARGO_1@ + name_key(package_name(name)) + CARGO_2@ + name + CARGO_3@ + name_key(
        library_name(name),
    ) + CARGO_4@
}

/// The manifest for `plan`.
pub open spec fn cargo_toml_text(plan: BridgePlanView) -> Text {
    manifest(bridge_name(plan))
}

/// The summary of one extension at the end of the entry point.
pub open spec fn extension_summary(ext: ExtensionView) -> Text {
    "//   - "@ + ext.name + " v"@ + ext.version + "  ("@ + decimal(ext.scalars.len())
        + " scalars, "@ + decimal(ext.aggregates.len()) + " agg, "@ + decimal(
        ext.table_functions.len(),
    ) + " udtf, "@ + decimal(ext.window_functions.len()) + " window, "@ + decimal(
        ext.column_types.len(),
    ) + " types, "@ + decimal(ext.operators.len()) + " ops, "@ + decimal(ext.cast_rewrites.len())
        + " casts, "@ + decimal(ext.preprocessor_patterns.len()) + " preps, "@ + decimal(
        ext.system_catalog_tables.len(),
    ) + " catalog, "@ + decimal(ext.spatial_indexes.len()) + " indexes)"@
}

/// The summaries of all extensions, in order.
pub open spec fn extension_summaries(plan: BridgePlanView) -> Seq<Text> {
    Seq::new(plan.extensions.len(), |i: int| extension_summary(plan.extensions[i]))
}

/// The declaration of the entry function, up to its parameters.
pub open spec fn entry_declaration(name: Text) -> Text {
    "fn "@ + entry_symbol(name) + "("@
}

/// The entry point for a bridge of the given name and environment variable.
pub open spec fn entry_point(name: Text, env: Text) -> Text {
    HEADER@ + ENTRY_1@ + library_name(name) + ENTRY_2@ + library_name(name) + ENTRY_3@
        + ENTRY_MODULES@ + ENTRY_4@ + env + ENTRY_5@ + entry_declaration(name) + ENTRY_6@
}

/// The entry point for `plan`.
pub open spec fn lib_text(plan: BridgePlanView) -> Text {
    entry_point(bridge_name(plan), env_var(plan)) + "// Extensions loaded by this bridge:\n//\n"@
        + join(extension_summaries(plan), "\n"@) + "\n"@
}

/// The expression that reads the environment variable `env`.
pub open spec fn env_lookup(env: Text) -> Text {
    "std::env::var(\""@ + env + "\")"@
}

/// The shim registry that reads the path of the shim from `env`.
pub open spec fn registry(env: Text) -> Text {
    HEADER@ + REGISTRY_1@ + env + REGISTRY_2@ + env_lookup(env) + REGISTRY_3@ + env + REGISTRY_4@
}

/// The shim registry for `plan`.
pub open spec fn registry_text(plan: BridgePlanView) -> Text {
    registry(env_var(plan))
}

/// The row of one extension in the surface table.
pub open spec fn surface_row(ext: ExtensionView) -> Text {
    "| "@ + ext.name + " | "@ + ext.version + " | "@ + decimal(ext.scalars.len()) + " | "@
        + decimal(ext.aggregates.len()) + " | "@ + decimal(ext.table_functions.len()) + " | "@
        + decimal(ext.window_functions.len()) + " | "@ + decimal(ext.column_types.len()) + " | "@
        + decimal(ext.operators.len()) + " | "@ + decimal(ext.cast_rewrites.len()) + " | "@
        + decimal(ext.preprocessor_patterns.len()) + " | "@ + decimal(
        ext.system_catalog_tables.len(),
    ) + " | "@ + decimal(ext.spatial_indexes.len()) + " |\n"@
}

/// The rows of all extensions, in order.
pub open spec fn surface_rows(plan: BridgePlanView) -> Seq<Text> {
    Seq::new(plan.extensions.len(), |i: int| surface_row(plan.extensions[i]))
}

/// The title, the introduction and the heading of the surface table.
pub open spec fn readme_head(primary: Text) -> Text {
    "# "@ + primary
        + "-duckdb-bridge\n\nGenerated DuckDB loadable extension that bridges the **"@ + primary
        + "** DataFission wasm shim into DuckDB as native scalar functions, aggregates, UDTFs, custom column types, and identity casts.\n\n"@
        + "Produced by [`ducklink-shim-codegen`](https://github.com/zacharywhitley/ducklink-shim-codegen) from a shim-interface SQLite database. **Do not edit by hand** — regenerate from the source.\n\n"@
        + "## Surface\n\n| Extension | Version | Scalars | Aggregates | UDTFs | Windows | Types | Operators | Casts | Preprocessors | Catalog | Indexes |\n|---|---|---:|---:|---:|---:|---:|---:|---:|---:|---:|---:|\n"@
}

/// The file that the packaged extension is written to.
pub open spec fn packaged_name(name: Text) -> Text {
    library_name(name) + ".duckdb_extension"@
}

/// The file that the build leaves.
pub open spec fn library_file(name: Text) -> Text {
    "lib"@ + replaced(name, '-', '_') + "_duckdb_bridge.dylib"@
}

/// How to build and package a bridge, up to the environment variable.
pub open spec fn readme_build(name: Text) -> Text {
    README_1@ + library_file(name) + README_2@ + library_name(name) + README_3@ + packaged_name(
        name,
    ) + README_4@
}

/// The setting of the environment variable, up to the file name.
pub open spec fn env_setting(env: Text) -> Text {
    env + "=/path/to/"@
}

/// How to load a bridge.
pub open spec fn readme_load(primary: Text, name: Text, env: Text) -> Text {
    env + README_5@ + env_setting(env) + primary + README_6@ + packaged_name(name)
}

/// The command that checks the format of a bridge.
pub open spec fn format_command(name: Text) -> Text {
    "cargo fmt -p "@ + package_name(name) + " -- --check"@
}

/// The symbol that DuckDB calls, in code style.
pub open spec fn symbol_mention(name: Text) -> Text {
    "`"@ + entry_symbol(name) + "`"@
}

/// How to generate a bridge anew, and how it is built up.
pub open spec fn readme_upkeep(primary: Text, name: Text) -> Text {
    README_7@ + primary + README_8@ + primary + README_9@ + format_command(name) + README_10@
        + symbol_mention(name) + README_11@
}

/// What follows the surface table, for a bridge of the given names.
pub open spec fn readme_tail(primary: Text, name: Text, env: Text) -> Text {
    readme_build(name) + readme_load(primary, name, env) + readme_upkeep(primary, name)
}

/// The readme for `plan`.
pub open spec fn readme_text(plan: BridgePlanView) -> Text {
    readme_head(primary_name(plan)) + surface_rows(plan).flatten() + readme_tail(
        primary_name(plan),
        bridge_name(plan),
        env_var(plan),
    )
}

/// The crate name of the bridge, without its suffix.
pub fn bridge_name_text(plan: &BridgePlan) -> (r: String)
    ensures
        r@ == bridge_name(plan@),
{
    sanitize_crate_name(primary_extension_name(plan).as_str())
}

/// The library name of a bridge.
fn library_name_text(name: &str) -> (r: String)
    ensures
        r@ == library_name(name@),
{
    let mut out = name.to_owned();
    out.append("_duckdb_bridge");
    out
}

/// The package name of a bridge.
fn package_name_text(name: &str) -> (r: String)
    ensures
        r@ == package_name(name@),
{
    let mut out = name.to_owned();
    out.append("-duckdb-bridge");
    out
}

/// The symbol that DuckDB calls when it loads a bridge.
fn entry_symbol_text(name: &str) -> (r: String)
    ensures
        r@ == entry_symbol(name@),
{
    let mut out = library_name_text(name);
    out.append("_init_c_api");
    out
}

/// The file that the packaged extension is written to.
fn packaged_name_text(name: &str) -> (r: String)
    ensures
        r@ == packaged_name(name@),
{
    let mut out = library_name_text(name);
    out.append(".duckdb_extension");
    out
}

/// `x` between `before` and `after`.
fn enclosed(before: &str, x: &str, after: &str) -> (r: String)
    ensures
        r@ == before@ + x@ + after@,
{
    let mut out = before.to_owned();
    out.append(x);
    out.append(after);
    out
}

/// The manifest for `plan`.
pub fn cargo_toml(plan: &BridgePlan) -> (r: String)
    ensures
        r@ == cargo_toml_text(plan@),
{
    let name = bridge_name_text(plan);
    let package = package_name_text(name.as_str());
    let library = library_name_text(name.as_str());
    let mut s = CARGO_1.to_owned();
    s.append(enclosed("name = \"", package.as_str(), "\"").as_str());
    s.append(CARGO_2);
    s.append(name.as_str());
    s.append(CARGO_3);
    s.append(enclosed("name = \"", library.as_str(), "\"").as_str());
    s.append(CARGO_4);
    s
}

/// The summary of one extension at the end of the entry point.
pub fn extension_summary_text(ext: &Extension) -> (r: String)
    ensures
        r@ == extension_summary(ext@),
{
    let mut out = "//   - ".to_owned();
    out.append(ext.name.as_str());
    out.append(" v");
    out.append(ext.version.as_str());
    out.append("  (");
    out.append(decimal_text(ext.scalars.len()).as_str());
    out.append(" scalars, ");
    out.append(decimal_text(ext.aggregates.len()).as_str());
    out.append(" agg, ");
    out.append(decimal_text(ext.table_functions.len()).as_str());
    out.append(" udtf, ");
    out.append(decimal_text(ext.window_functions.len()).as_str());
    out.append(" window, ");
    out.append(decimal_text(ext.column_types.len()).as_str());
    out.append(" types, ");
    out.append(decimal_text(ext.operators.len()).as_str());
    out.append(" ops, ");
    out.append(decimal_text(ext.cast_rewrites.len()).as_str());
    out.append(" casts, ");
    out.append(decimal_text(ext.preprocessor_patterns.len()).as_str());
    out.append(" preps, ");
    out.append(decimal_text(ext.system_catalog_tables.len()).as_str());
    out.append(" catalog, ");
    out.append(decimal_text(ext.spatial_indexes.len()).as_str());
    out.append(" indexes)");
    out
}

/// The entry point for a bridge of the given name and environment variable.
pub fn entry_point_text(name: &str, env: &str) -> (r: String)
    ensures
        r@ == entry_point(name@, env@),
{
    let library = library_name_text(name);
    let mut s = generated_header();
    s.append(ENTRY_1);
    s.append(library.as_str());
    s.append(ENTRY_2);
    s.append(library.as_str());
    s.append(ENTRY_3);
    s.append(ENTRY_MODULES);
    s.append(ENTRY_4);
    s.append(env);
    s.append(ENTRY_5);
    s.append(enclosed("fn ", entry_symbol_text(name).as_str(), "(").as_str());
    s.append(ENTRY_6);
    s
}

/// The entry point for `plan`, with a summary of every extension it loads.
pub fn lib_rs(plan: &BridgePlan) -> (r: String)
    ensures
        r@ == lib_text(plan@),
{
    let name = bridge_name_text(plan);
    let env = shim_env_var(plan);
    let mut s = entry_point_text(name.as_str(), env.as_str());
    s.append("// Extensions loaded by this bridge:\n//\n");
    let summaries = map_texts(
        &refs(&plan.extensions),
        extension_summary_text,
        Ghost(extension_summaries(plan@)),
    );
    s.append(join_texts(&summaries, "\n").as_str());
    s.append("\n");
    s
}

/// The shim registry that reads the path of the shim from `env`.
pub fn registry_for(env: &str) -> (r: String)
    ensures
        r@ == registry(env@),
{
    let mut s = generated_header();
    s.append(REGISTRY_1);
    s.append(env);
    s.append(REGISTRY_2);
    s.append(enclosed("std::env::var(\"", env, "\")").as_str());
    s.append(REGISTRY_3);
    s.append(env);
    s.append(REGISTRY_4);
    s
}

/// The shim registry for `plan`.
pub fn registry_rs(plan: &BridgePlan) -> (r: String)
    ensures
        r@ == registry_text(plan@),
{
    registry_for(shim_env_var(plan).as_str())
}

/// The row of one extension in the surface table.
pub fn surface_row_text(ext: &Extension) -> (r: String)
    ensures
        r@ == surface_row(ext@),
{
    let mut out = "| ".to_owned();
    out.append(ext.name.as_str());
    out.append(" | ");
    out.append(ext.version.as_str());
    out.append(" | ");
    out.append(decimal_text(ext.scalars.len()).as_str());
    out.append(" | ");
    out.append(decimal_text(ext.aggregates.len()).as_str());
    out.append(" | ");
    out.append(decimal_text(ext.table_functions.len()).as_str());
    out.append(" | ");
    out.append(decimal_text(ext.window_functions.len()).as_str());
    out.append(" | ");
    out.append(decimal_text(ext.column_types.len()).as_str());
    out.append(" | ");
    out.append(decimal_text(ext.operators.len()).as_str());
    out.append(" | ");
    out.append(decimal_text(ext.cast_rewrites.len()).as_str());
    out.append(" | ");
    out.append(decimal_text(ext.preprocessor_patterns.len()).as_str());
    out.append(" | ");
    out.append(decimal_text(ext.system_catalog_tables.len()).as_str());
    out.append(" | ");
    out.append(decimal_text(ext.spatial_indexes.len()).as_str());
    out.append(" |\n");
    out
}

/// The title, the introduction and the heading of the surface table.
pub fn readme_head_text(primary: &str) -> (r: String)
    ensures
        r@ == readme_head(primary@),
{
    let mut s = "# ".to_owned();
    s.append(primary);
    s.append("-duckdb-bridge\n\nGenerated DuckDB loadable extension that bridges the **");
    s.append(primary);
    s.append(
        "** DataFission wasm shim into DuckDB as native scalar functions, aggregates, UDTFs, custom column types, and identity casts.\n\n",
    );
    s.append(
        "Produced by [`ducklink-shim-codegen`](https://github.com/zacharywhitley/ducklink-shim-codegen) from a shim-interface SQLite database. **Do not edit by hand** — regenerate from the source.\n\n",
    );
    s.append(
        "## Surface\n\n| Extension | Version | Scalars | Aggregates | UDTFs | Windows | Types | Operators | Casts | Preprocessors | Catalog | Indexes |\n|---|---|---:|---:|---:|---:|---:|---:|---:|---:|---:|---:|\n",
    );
    s
}

/// How to build and package a bridge, up to the environment variable.
fn readme_build_text(name: &str) -> (r: String)
    ensures
        r@ == readme_build(name@),
{
    let plain = replace_char(name, '-', '_');
    let mut s = README_1.to_owned();
    s.append(enclosed("lib", plain.as_str(), "_duckdb_bridge.dylib").as_str());
    s.append(README_2);
    s.append(library_name_text(name).as_str());
    s.append(README_3);
    s.append(packaged_name_text(name).as_str());
    s.append(README_4);
    s
}

/// How to load a bridge.
fn readme_load_text(primary: &str, name: &str, env: &str) -> (r: String)
    ensures
        r@ == readme_load(primary@, name@, env@),
{
    let mut s = env.to_owned();
    s.append(README_5);
    let mut setting = env.to_owned();
    setting.append("=/path/to/");
    s.append(setting.as_str());
    s.append(primary);
    s.append(README_6);
    s.append(packaged_name_text(name).as_str());
    s
}

/// How to generate a bridge anew, and how it is built up.
fn readme_upkeep_text(primary: &str, name: &str) -> (r: String)
    ensures
        r@ == readme_upkeep(primary@, name@),
{
    let mut s = README_7.to_owned();
    s.append(primary);
    s.append(README_8);
    s.append(primary);
    s.append(README_9);
    s.append(enclosed("cargo fmt -p ", package_name_text(name).as_str(), " -- --check").as_str());
    s.append(README_10);
    s.append(enclosed("`", entry_symbol_text(name).as_str(), "`").as_str());
    s.append(README_11);
    s
}

/// What follows the surface table, for a bridge of the given names.
pub fn readme_tail_text(primary: &str, name: &str, env: &str) -> (r: String)
    ensures
        r@ == readme_tail(primary@, name@, env@),
{
    let mut s = readme_build_text(name);
    s.append(readme_load_text(primary, name, env).as_str());
    s.append(readme_upkeep_text(primary, name).as_str());
    s
}

/// The readme for `plan`: what the bridge offers, and how to build and load it.
pub fn readme(plan: &BridgePlan) -> (r: String)
    ensures
        r@ == readme_text(plan@),
{
    let primary = primary_extension_name(plan);
    let name = bridge_name_text(plan);
    let env = shim_env_var(plan);
    let mut s = readme_head_text(primary.as_str());
    let rows = map_texts(&refs(&plan.extensions), surface_row_text, Ghost(surface_rows(plan@)));
    s.append(concat_texts(&rows).as_str());
    s.append(readme_tail_text(primary.as_str(), name.as_str(), env.as_str()).as_str());
    s
}

} // verus!
