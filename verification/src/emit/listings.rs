//! The modules of a bridge that only list what the shim publishes.

use vstd::prelude::*;

use crate::emit::shared::{extension_heading, extension_heading_text, generated_header};
use crate::plan::{
    BridgePlan, BridgePlanView, CatalogColumn, CatalogColumnView, Extension, ExtensionView,
    Operator, OperatorView, PreprocessorPattern, PreprocessorPatternView, SystemCatalogTable,
    SystemCatalogTableView, WindowFunction, WindowFunctionView,
};
use crate::templates::header::HEADER;
use crate::templates::listings::{
    OPERATORS_HEAD, PREPROCESSORS_HEAD, SYSTEM_CATALOG_HEAD, WINDOW_FUNCTIONS_HEAD,
};
use crate::text::{concat_texts, optional_number, optional_number_text, Text};
use crate::walk::{map_texts, refs};

verus! {

/// The entry of one window function.
pub open spec fn window_entry(w: WindowFunctionView) -> Text {
    "// window `"@ + w.canonical_name + "`\n"@
}

/// The entries of one extension, in order.
pub open spec fn window_entries(ext: ExtensionView) -> Seq<Text> {
    Seq::new(ext.window_functions.len(), |i: int| window_entry(ext.window_functions[i]))
}

/// The window functions of each extension, in order.
pub open spec fn window_sections(plan: BridgePlanView) -> Seq<Text> {
    Seq::new(plan.extensions.len(), |i: int| window_entries(plan.extensions[i]).flatten())
}

/// The window-function module for `plan`.
pub open spec fn window_functions_text(plan: BridgePlanView) -> Text {
    HEADER@ + WINDOW_FUNCTIONS_HEAD@ + window_sections(plan).flatten()
        + "\n// TODO: wire window-capable aggregates.\n"@
}

/// The entry of one operator.
pub open spec fn operator_entry(op: OperatorView) -> Text {
    "// `"@ + op.symbol + "` (lhs="@ + optional_number(op.lhs_type_id) + ", rhs="@
        + optional_number(op.rhs_type_id) + ")  →  "@ + op.function_name + "\n"@
}

/// The entries of one extension, in order.
pub open spec fn operator_entries(ext: ExtensionView) -> Seq<Text> {
    Seq::new(ext.operators.len(), |i: int| operator_entry(ext.operators[i]))
}

/// The listing of one extension.
pub open spec fn operator_section(ext: ExtensionView) -> Text {
    extension_heading(ext.name) + operator_entries(ext).flatten()
}

/// The listings of all extensions, in order.
pub open spec fn operator_sections(plan: BridgePlanView) -> Seq<Text> {
    Seq::new(plan.extensions.len(), |i: int| operator_section(plan.extensions[i]))
}

/// The operator module for `plan`.
pub open spec fn operators_text(plan: BridgePlanView) -> Text {
    HEADER@ + OPERATORS_HEAD@ + operator_sections(plan).flatten()
}

/// The entry of one token rewrite.
pub open spec fn pattern_entry(p: PreprocessorPatternView) -> Text {
    "// token `"@ + p.op_token + "` → "@ + p.function_name + "\n"@
}

/// The entries of one extension, in order.
pub open spec fn pattern_entries(ext: ExtensionView) -> Seq<Text> {
    Seq::new(ext.preprocessor_patterns.len(), |i: int| pattern_entry(ext.preprocessor_patterns[i]))
}

/// The listing of one extension.
pub open spec fn pattern_section(ext: ExtensionView) -> Text {
    extension_heading(ext.name) + pattern_entries(ext).flatten()
}

/// The listings of all extensions, in order.
pub open spec fn pattern_sections(plan: BridgePlanView) -> Seq<Text> {
    Seq::new(plan.extensions.len(), |i: int| pattern_section(plan.extensions[i]))
}

/// The preprocessor module for `plan`.
pub open spec fn preprocessors_text(plan: BridgePlanView) -> Text {
    HEADER@ + PREPROCESSORS_HEAD@ + pattern_sections(plan).flatten()
}

/// The entry of one catalog column.
pub open spec fn column_entry(col: CatalogColumnView) -> Text {
    "//   "@ + col.name + " "@ + col.data_type + " ("@ + (if col.nullable {
        "nullable"@
    } else {
        "not null"@
    }) + ")\n"@
}

/// The columns of one table, in order.
pub open spec fn column_entries(table: SystemCatalogTableView) -> Seq<Text> {
    Seq::new(table.columns.len(), |i: int| column_entry(table.columns[i]))
}

/// The entry of one catalog table with its columns.
pub open spec fn catalog_entry(table: SystemCatalogTableView) -> Text {
    "// catalog `"@ + table.catalog_name + "."@ + table.table_name + "`\n"@ + column_entries(
        table,
    ).flatten()
}

/// The entries of one extension, in order.
pub open spec fn catalog_entries(ext: ExtensionView) -> Seq<Text> {
    Seq::new(ext.system_catalog_tables.len(), |i: int| catalog_entry(ext.system_catalog_tables[i]))
}

/// The catalog tables of each extension, in order.
pub open spec fn catalog_sections(plan: BridgePlanView) -> Seq<Text> {
    Seq::new(plan.extensions.len(), |i: int| catalog_entries(plan.extensions[i]).flatten())
}

/// The system-catalog module for `plan`.
pub open spec fn system_catalog_text(plan: BridgePlanView) -> Text {
    HEADER@ + SYSTEM_CATALOG_HEAD@ + catalog_sections(plan).flatten()
        + "\n// TODO: emit one register_table_function per catalog entry.\n"@
}

/// The entry of one window function.
pub fn window_entry_text(w: &WindowFunction) -> (r: String)
    ensures
        r@ == window_entry(w@),
{
    let mut out = "// window `".to_owned();
    out.append(w.canonical_name.as_str());
    out.append("`\n");
    out
}

/// The window functions of one extension.
pub fn window_section_text(ext: &Extension) -> (r: String)
    ensures
        r@ == window_entries(ext@).flatten(),
{
    let entries = map_texts(
        &refs(&ext.window_functions),
        window_entry_text,
        Ghost(window_entries(ext@)),
    );
    concat_texts(&entries)
}

/// The window-function module for `plan`.
pub fn window_functions_rs(plan: &BridgePlan) -> (r: String)
    ensures
        r@ == window_functions_text(plan@),
{
    let mut s = generated_header();
    s.append(WINDOW_FUNCTIONS_HEAD);
    let sections = map_texts(
        &refs(&plan.extensions),
        window_section_text,
        Ghost(window_sections(plan@)),
    );
    s.append(concat_texts(&sections).as_str());
    s.append("\n// TODO: wire window-capable aggregates.\n");
    s
}

/// The entry of one operator.
pub fn operator_entry_text(op: &Operator) -> (r: String)
    ensures
        r@ == operator_entry(op@),
{
    let mut out = "// `".to_owned();
    out.append(op.symbol.as_str());
    out.append("` (lhs=");
    out.append(optional_number_text(op.lhs_type_id).as_str());
    out.append(", rhs=");
    out.append(optional_number_text(op.rhs_type_id).as_str());
    out.append(")  →  ");
    out.append(op.function_name.as_str());
    out.append("\n");
    out
}

/// The listing of one extension.
pub fn operator_section_text(ext: &Extension) -> (r: String)
    ensures
        r@ == operator_section(ext@),
{
    let mut out = extension_heading_text(ext);
    let entries = map_texts(
        &refs(&ext.operators),
        operator_entry_text,
        Ghost(operator_entries(ext@)),
    );
    out.append(concat_texts(&entries).as_str());
    out
}

/// The operator module for `plan`.
pub fn operators_rs(plan: &BridgePlan) -> (r: String)
    ensures
        r@ == operators_text(plan@),
{
    let mut s = generated_header();
    s.append(OPERATORS_HEAD);
    let sections = map_texts(
        &refs(&plan.extensions),
        operator_section_text,
        Ghost(operator_sections(plan@)),
    );
    s.append(concat_texts(&sections).as_str());
    s
}

/// The entry of one token rewrite.
pub fn pattern_entry_text(p: &PreprocessorPattern) -> (r: String)
    ensures
        r@ == pattern_entry(p@),
{
    let mut out = "// token `".to_owned();
    out.append(p.op_token.as_str());
    out.append("` → ");
    out.append(p.function_name.as_str());
    out.append("\n");
    out
}

/// The listing of one extension.
pub fn pattern_section_text(ext: &Extension) -> (r: String)
    ensures
        r@ == pattern_section(ext@),
{
    let mut out = extension_heading_text(ext);
    let entries = map_texts(
        &refs(&ext.preprocessor_patterns),
        pattern_entry_text,
        Ghost(pattern_entries(ext@)),
    );
    out.append(concat_texts(&entries).as_str());
    out
}

/// The preprocessor module for `plan`.
pub fn preprocessors_rs(plan: &BridgePlan) -> (r: String)
    ensures
        r@ == preprocessors_text(plan@),
{
    let mut s = generated_header();
    s.append(PREPROCESSORS_HEAD);
    let sections = map_texts(
        &refs(&plan.extensions),
        pattern_section_text,
        Ghost(pattern_sections(plan@)),
    );
    s.append(concat_texts(&sections).as_str());
    s
}

/// The entry of one catalog column.
pub fn column_entry_text(col: &CatalogColumn) -> (r: String)
    ensures
        r@ == column_entry(col@),
{
    let mut out = "//   ".to_owned();
    out.append(col.name.as_str());
    out.append(" ");
    out.append(col.data_type.as_str());
    out.append(" (");
    if col.nullable {
        out.append("nullable");
    } else {
        out.append("not null");
    }
    out.append(")\n");
    out
}

/// The entry of one catalog table with its columns.
pub fn catalog_entry_text(table: &SystemCatalogTable) -> (r: String)
    ensures
        r@ == catalog_entry(table@),
{
    let mut out = "// catalog `".to_owned();
    out.append(table.catalog_name.as_str());
    out.append(".");
    out.append(table.table_name.as_str());
    out.append("`\n");
    let columns = map_texts(
        &refs(&table.columns),
        column_entry_text,
        Ghost(column_entries(table@)),
    );
    out.append(concat_texts(&columns).as_str());
    out
}

/// The catalog tables of one extension.
pub fn catalog_section_text(ext: &Extension) -> (r: String)
    ensures
        r@ == catalog_entries(ext@).flatten(),
{
    let entries = map_texts(
        &refs(&ext.system_catalog_tables),
        catalog_entry_text,
        Ghost(catalog_entries(ext@)),
    );
    concat_texts(&entries)
}

/// The system-catalog module for `plan`.
pub fn system_catalog_rs(plan: &BridgePlan) -> (r: String)
    ensures
        r@ == system_catalog_text(plan@),
{
    let mut s = generated_header();
    s.append(SYSTEM_CATALOG_HEAD);
    let sections = map_texts(
        &refs(&plan.extensions),
        catalog_section_text,
        Ghost(catalog_sections(plan@)),
    );
    s.append(concat_texts(&sections).as_str());
    s.append("\n// TODO: emit one register_table_function per catalog entry.\n");
    s
}

} // verus!
