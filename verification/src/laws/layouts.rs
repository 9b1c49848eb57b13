//! How the files of a bridge are made up, and how they grow with the plan.

use vstd::prelude::*;

use crate::bridge::{files, module_file, modules, path_of_module, BridgeFileView};
use crate::capabilities::has_flag;
use crate::emit::aggregates::{
    aggregate_aliases, aggregate_block, aggregate_blocks, aggregates_text,
};
use crate::emit::casts::{
    cast_entries, cast_entry, cast_line, cast_lines, cast_section, cast_sections, casts_text,
};
use crate::emit::listings::{
    catalog_entries, catalog_entry, catalog_sections, operator_entries, operator_entry,
    operator_section, operator_sections, operators_text, pattern_entries, pattern_entry,
    pattern_section, pattern_sections, preprocessors_text, system_catalog_text, window_entries,
    window_entry, window_functions_text, window_sections,
};
use crate::emit::package::{
    cargo_toml_text, extension_summaries, extension_summary, lib_text, readme_head, readme_tail,
    readme_text, registry_text, surface_row, surface_rows,
};
use crate::emit::scalars::{
    registered, scalar_aliases, scalar_block, scalar_blocks, scalar_signatures, scalars_text,
};
use crate::emit::shared::extension_heading;
use crate::emit::spatial_indexes::{
    build_line, envelope_line, has_primary, index_block, index_blocks, index_entries, index_entry,
    index_section, index_sections, knn_line, primary_index, spatial_indexes_text,
    within_distance_line,
};
use crate::emit::table_functions::{
    all_dropped, table_function_aliases, table_function_block, table_function_blocks,
    table_functions_text, udtf_entries, udtf_entry, udtf_section, udtf_sections,
};
use crate::emit::types::{
    registered_names, type_entries, type_entry, type_line, type_lines, type_section, type_sections,
    types_text,
};
use crate::laws::indexes::{law_primary_index, law_queries_follow_capabilities};
use crate::laws::reading::{shows, woven};
use crate::names::{crate_name, env_var, fn_prefix, primary_name, replaced};
use crate::order::precedes;
use crate::plan::{
    BridgePlanView, CastRewriteView, ColumnTypeView, ExtensionView, OperatorView,
    PreprocessorPatternView, SpatialIndexView, SystemCatalogTableView, TableFunctionView,
    WindowFunctionView,
};
use crate::templates::aggregates::{
    AGGREGATES_FINALIZE, AGGREGATES_HEAD, AGGREGATES_HELPERS, AGGREGATES_REGISTRAR,
    AGGREGATES_UPDATE,
};
use crate::templates::cargo::{CARGO_1, CARGO_2, CARGO_3, CARGO_4};
use crate::templates::casts::{CASTS_HEAD, CASTS_LISTING, CASTS_RUNTIME};
use crate::templates::entry::{
    ENTRY_1, ENTRY_2, ENTRY_3, ENTRY_4, ENTRY_5, ENTRY_6, ENTRY_MODULES,
};
use crate::templates::header::{HEADER, REGISTER_ALL};
use crate::templates::listings::{
    OPERATORS_HEAD, PREPROCESSORS_HEAD, SYSTEM_CATALOG_HEAD, WINDOW_FUNCTIONS_HEAD,
};
use crate::templates::readme::{
    README_1, README_10, README_11, README_2, README_3, README_4, README_5, README_6, README_7,
    README_8, README_9,
};
use crate::templates::registry::{REGISTRY_1, REGISTRY_2, REGISTRY_3, REGISTRY_4};
use crate::templates::scalars::{
    SCALARS_CALLBACK, SCALARS_CELLS, SCALARS_HEAD, SCALARS_REGISTRAR,
};
use crate::templates::spatial_indexes::{
    SPATIAL_BUILD_RUNTIME, SPATIAL_INDEXES_HEAD, SPATIAL_QUERY_RUNTIME, SPATIAL_SHARED_RUNTIME,
};
use crate::templates::table_functions::{TABLE_FUNCTIONS_HEAD, TABLE_FUNCTIONS_RUNTIME};
use crate::templates::types::{TYPES_HEAD, TYPES_RUNTIME};
use crate::text::{decimal, join, literal, Text};
use crate::walk::{all_aggregates, all_column_types, all_scalars, all_table_functions};

verus! {

/// `plan` with `ext` as its last extension.
pub open spec fn with_extension(plan: BridgePlanView, ext: ExtensionView) -> BridgePlanView {
    BridgePlanView { extensions: plan.extensions.push(ext) }
}

/// The plan without extensions.
pub open spec fn empty_plan() -> BridgePlanView {
    BridgePlanView { extensions: Seq::empty() }
}

/// A text for each number below `n`, one after the other.
pub open spec fn each(n: nat, f: spec_fn(int) -> Text) -> Text {
    Seq::new(n, f).flatten()
}

/// The listing of table functions grows with the plan: an extension without any adds its
/// heading, and one more table function at the end adds its entry; nothing else
/// changes.
pub proof fn law_listed_table_functions_grow(
    plan: BridgePlanView,
    ext: ExtensionView,
    item: TableFunctionView,
)
    ensures
        udtf_sections(empty_plan()).flatten() == Seq::<char>::empty(),
        ext.table_functions.len() == 0 ==> udtf_sections(with_extension(plan, ext)).flatten()
            == udtf_sections(plan).flatten() + extension_heading(ext.name),
        ({
            let more = ExtensionView { table_functions: ext.table_functions.push(item), ..ext };
            udtf_sections(with_extension(plan, more)).flatten() == udtf_sections(
                with_extension(plan, ext),
            ).flatten() + udtf_entry(item)
        }),
{
    let more = ExtensionView { table_functions: ext.table_functions.push(item), ..ext };
    let p = with_extension(plan, ext);
    let q = with_extension(plan, more);
    let all = udtf_sections(plan);
    let entries = udtf_entries(ext);
    let heading = extension_heading(ext.name);
    let short = udtf_section(ext);
    let long = udtf_section(more);
    assert(udtf_sections(empty_plan()).flatten() =~= Seq::empty());
    assert(udtf_sections(p) =~= all.push(short));
    assert(udtf_sections(q) =~= all.push(long));
    all.lemma_flatten_push(short);
    all.lemma_flatten_push(long);
    assert(udtf_entries(more) =~= entries.push(udtf_entry(item)));
    entries.lemma_flatten_push(udtf_entry(item));
    assert(heading + (entries.flatten() + udtf_entry(item))
        =~= heading + entries.flatten() + udtf_entry(
        item,
    ));
    assert(all.flatten() + (short + udtf_entry(item)) =~= all.flatten() + short + udtf_entry(item));
    if ext.table_functions.len() == 0 {
        assert(entries.flatten() =~= Seq::empty());
        assert(heading + entries.flatten() =~= heading);
    }
}

/// The listing of column types grows with the plan: an extension without any adds its
/// heading, and one more column type at the end adds its entry; nothing else
/// changes.
pub proof fn law_listed_types_grow(plan: BridgePlanView, ext: ExtensionView, item: ColumnTypeView)
    ensures
        type_sections(empty_plan()).flatten() == Seq::<char>::empty(),
        ext.column_types.len() == 0 ==> type_sections(with_extension(plan, ext)).flatten()
            == type_sections(plan).flatten() + extension_heading(ext.name),
        ({
            let more = ExtensionView { column_types: ext.column_types.push(item), ..ext };
            type_sections(with_extension(plan, more)).flatten() == type_sections(
                with_extension(plan, ext),
            ).flatten() + type_entry(item)
        }),
{
    let more = ExtensionView { column_types: ext.column_types.push(item), ..ext };
    let p = with_extension(plan, ext);
    let q = with_extension(plan, more);
    let all = type_sections(plan);
    let entries = type_entries(ext);
    let heading = extension_heading(ext.name);
    let short = type_section(ext);
    let long = type_section(more);
    assert(type_sections(empty_plan()).flatten() =~= Seq::empty());
    assert(type_sections(p) =~= all.push(short));
    assert(type_sections(q) =~= all.push(long));
    all.lemma_flatten_push(short);
    all.lemma_flatten_push(long);
    assert(type_entries(more) =~= entries.push(type_entry(item)));
    entries.lemma_flatten_push(type_entry(item));
    assert(heading + (entries.flatten() + type_entry(item))
        =~= heading + entries.flatten() + type_entry(
        item,
    ));
    assert(all.flatten() + (short + type_entry(item)) =~= all.flatten() + short + type_entry(item));
    if ext.column_types.len() == 0 {
        assert(entries.flatten() =~= Seq::empty());
        assert(heading + entries.flatten() =~= heading);
    }
}

/// The listing of operators grows with the plan: an extension without any adds its
/// heading, and one more operator at the end adds its entry; nothing else
/// changes.
pub proof fn law_listed_operators_grow(plan: BridgePlanView, ext: ExtensionView, item: OperatorView)
    ensures
        operator_sections(empty_plan()).flatten() == Seq::<char>::empty(),
        ext.operators.len() == 0 ==> operator_sections(with_extension(plan, ext)).flatten()
            == operator_sections(plan).flatten() + extension_heading(ext.name),
        ({
            let more = ExtensionView { operators: ext.operators.push(item), ..ext };
            operator_sections(with_extension(plan, more)).flatten() == operator_sections(
                with_extension(plan, ext),
            ).flatten() + operator_entry(item)
        }),
{
    let more = ExtensionView { operators: ext.operators.push(item), ..ext };
    let p = with_extension(plan, ext);
    let q = with_extension(plan, more);
    let all = operator_sections(plan);
    let entries = operator_entries(ext);
    let heading = extension_heading(ext.name);
    let short = operator_section(ext);
    let long = operator_section(more);
    assert(operator_sections(empty_plan()).flatten() =~= Seq::empty());
    assert(operator_sections(p) =~= all.push(short));
    assert(operator_sections(q) =~= all.push(long));
    all.lemma_flatten_push(short);
    all.lemma_flatten_push(long);
    assert(operator_entries(more) =~= entries.push(operator_entry(item)));
    entries.lemma_flatten_push(operator_entry(item));
    assert(heading + (entries.flatten() + operator_entry(item))
        =~= heading + entries.flatten() + operator_entry(
        item,
    ));
    assert(all.flatten() + (short + operator_entry(item))
        =~= all.flatten() + short + operator_entry(item));
    if ext.operators.len() == 0 {
        assert(entries.flatten() =~= Seq::empty());
        assert(heading + entries.flatten() =~= heading);
    }
}

/// The listing of cast rewrites grows with the plan: an extension without any adds its
/// heading, and one more cast rewrite at the end adds its entry; nothing else
/// changes.
pub proof fn law_listed_casts_grow(plan: BridgePlanView, ext: ExtensionView, item: CastRewriteView)
    ensures
        cast_sections(empty_plan()).flatten() == Seq::<char>::empty(),
        ext.cast_rewrites.len() == 0 ==> cast_sections(with_extension(plan, ext)).flatten()
            == cast_sections(plan).flatten() + extension_heading(ext.name),
        ({
            let more = ExtensionView { cast_rewrites: ext.cast_rewrites.push(item), ..ext };
            cast_sections(with_extension(plan, more)).flatten() == cast_sections(
                with_extension(plan, ext),
            ).flatten() + cast_entry(item)
        }),
{
    let more = ExtensionView { cast_rewrites: ext.cast_rewrites.push(item), ..ext };
    let p = with_extension(plan, ext);
    let q = with_extension(plan, more);
    let all = cast_sections(plan);
    let entries = cast_entries(ext);
    let heading = extension_heading(ext.name);
    let short = cast_section(ext);
    let long = cast_section(more);
    assert(cast_sections(empty_plan()).flatten() =~= Seq::empty());
    assert(cast_sections(p) =~= all.push(short));
    assert(cast_sections(q) =~= all.push(long));
    all.lemma_flatten_push(short);
    all.lemma_flatten_push(long);
    assert(cast_entries(more) =~= entries.push(cast_entry(item)));
    entries.lemma_flatten_push(cast_entry(item));
    assert(heading + (entries.flatten() + cast_entry(item))
        =~= heading + entries.flatten() + cast_entry(
        item,
    ));
    assert(all.flatten() + (short + cast_entry(item)) =~= all.flatten() + short + cast_entry(item));
    if ext.cast_rewrites.len() == 0 {
        assert(entries.flatten() =~= Seq::empty());
        assert(heading + entries.flatten() =~= heading);
    }
}

/// The listing of token rewrites grows with the plan: an extension without any adds its
/// heading, and one more token rewrite at the end adds its entry; nothing else
/// changes.
pub proof fn law_listed_patterns_grow(
    plan: BridgePlanView,
    ext: ExtensionView,
    item: PreprocessorPatternView,
)
    ensures
        pattern_sections(empty_plan()).flatten() == Seq::<char>::empty(),
        ext.preprocessor_patterns.len() == 0 ==> pattern_sections(
            with_extension(plan, ext),
        ).flatten()
            == pattern_sections(plan).flatten() + extension_heading(ext.name),
        ({
            let more = ExtensionView {
                preprocessor_patterns: ext.preprocessor_patterns.push(item),
                ..ext
            };
            pattern_sections(with_extension(plan, more)).flatten() == pattern_sections(
                with_extension(plan, ext),
            ).flatten() + pattern_entry(item)
        }),
{
    let more = ExtensionView { preprocessor_patterns: ext.preprocessor_patterns.push(item), ..ext };
    let p = with_extension(plan, ext);
    let q = with_extension(plan, more);
    let all = pattern_sections(plan);
    let entries = pattern_entries(ext);
    let heading = extension_heading(ext.name);
    let short = pattern_section(ext);
    let long = pattern_section(more);
    assert(pattern_sections(empty_plan()).flatten() =~= Seq::empty());
    assert(pattern_sections(p) =~= all.push(short));
    assert(pattern_sections(q) =~= all.push(long));
    all.lemma_flatten_push(short);
    all.lemma_flatten_push(long);
    assert(pattern_entries(more) =~= entries.push(pattern_entry(item)));
    entries.lemma_flatten_push(pattern_entry(item));
    assert(heading + (entries.flatten() + pattern_entry(item))
        =~= heading + entries.flatten() + pattern_entry(
        item,
    ));
    assert(all.flatten() + (short + pattern_entry(item))
        =~= all.flatten() + short + pattern_entry(item));
    if ext.preprocessor_patterns.len() == 0 {
        assert(entries.flatten() =~= Seq::empty());
        assert(heading + entries.flatten() =~= heading);
    }
}

/// The listing of spatial indexs grows with the plan: an extension without any adds its
/// heading, and one more spatial index at the end adds its entry; nothing else
/// changes.
pub proof fn law_listed_indexes_grow(
    plan: BridgePlanView,
    ext: ExtensionView,
    item: SpatialIndexView,
)
    ensures
        index_sections(empty_plan()).flatten() == Seq::<char>::empty(),
        ext.spatial_indexes.len() == 0 ==> index_sections(with_extension(plan, ext)).flatten()
            == index_sections(plan).flatten() + extension_heading(ext.name),
        ({
            let more = ExtensionView { spatial_indexes: ext.spatial_indexes.push(item), ..ext };
            index_sections(with_extension(plan, more)).flatten() == index_sections(
                with_extension(plan, ext),
            ).flatten() + index_entry(item)
        }),
{
    let more = ExtensionView { spatial_indexes: ext.spatial_indexes.push(item), ..ext };
    let p = with_extension(plan, ext);
    let q = with_extension(plan, more);
    let all = index_sections(plan);
    let entries = index_entries(ext);
    let heading = extension_heading(ext.name);
    let short = index_section(ext);
    let long = index_section(more);
    assert(index_sections(empty_plan()).flatten() =~= Seq::empty());
    assert(index_sections(p) =~= all.push(short));
    assert(index_sections(q) =~= all.push(long));
    all.lemma_flatten_push(short);
    all.lemma_flatten_push(long);
    assert(index_entries(more) =~= entries.push(index_entry(item)));
    entries.lemma_flatten_push(index_entry(item));
    assert(heading + (entries.flatten() + index_entry(item))
        =~= heading + entries.flatten() + index_entry(
        item,
    ));
    assert(all.flatten() + (short + index_entry(item))
        =~= all.flatten() + short + index_entry(item));
    if ext.spatial_indexes.len() == 0 {
        assert(entries.flatten() =~= Seq::empty());
        assert(heading + entries.flatten() =~= heading);
    }
}

/// The listing of window functions grows with the plan: an extension without any adds
/// nothing, and one more window function at the end adds its entry; nothing else
/// changes.
pub proof fn law_listed_windows_grow(
    plan: BridgePlanView,
    ext: ExtensionView,
    item: WindowFunctionView,
)
    ensures
        window_sections(empty_plan()).flatten() == Seq::<char>::empty(),
        ext.window_functions.len() == 0 ==> window_sections(with_extension(plan, ext)).flatten()
            == window_sections(plan).flatten(),
        ({
            let more = ExtensionView { window_functions: ext.window_functions.push(item), ..ext };
            window_sections(with_extension(plan, more)).flatten() == window_sections(
                with_extension(plan, ext),
            ).flatten() + window_entry(item)
        }),
{
    let more = ExtensionView { window_functions: ext.window_functions.push(item), ..ext };
    let p = with_extension(plan, ext);
    let q = with_extension(plan, more);
    let all = window_sections(plan);
    let entries = window_entries(ext);
    let short = entries.flatten();
    let long = window_entries(more).flatten();
    assert(window_sections(empty_plan()).flatten() =~= Seq::empty());
    assert(window_sections(p) =~= all.push(short));
    assert(window_sections(q) =~= all.push(long));
    all.lemma_flatten_push(short);
    all.lemma_flatten_push(long);
    assert(window_entries(more) =~= entries.push(window_entry(item)));
    entries.lemma_flatten_push(window_entry(item));
    assert(all.flatten() + (short + window_entry(item))
        =~= all.flatten() + short + window_entry(item));
    if ext.window_functions.len() == 0 {
        assert(entries.flatten() =~= Seq::empty());
        assert(all.flatten() + short =~= all.flatten());
    }
}

/// The listing of catalog tables grows with the plan: an extension without any adds
/// nothing, and one more catalog table at the end adds its entry; nothing else
/// changes.
pub proof fn law_listed_catalog_grow(
    plan: BridgePlanView,
    ext: ExtensionView,
    item: SystemCatalogTableView,
)
    ensures
        catalog_sections(empty_plan()).flatten() == Seq::<char>::empty(),
        ext.system_catalog_tables.len() == 0 ==> catalog_sections(
            with_extension(plan, ext),
        ).flatten()
            == catalog_sections(plan).flatten(),
        ({
            let more = ExtensionView {
                system_catalog_tables: ext.system_catalog_tables.push(item),
                ..ext
            };
            catalog_sections(with_extension(plan, more)).flatten() == catalog_sections(
                with_extension(plan, ext),
            ).flatten() + catalog_entry(item)
        }),
{
    let more = ExtensionView { system_catalog_tables: ext.system_catalog_tables.push(item), ..ext };
    let p = with_extension(plan, ext);
    let q = with_extension(plan, more);
    let all = catalog_sections(plan);
    let entries = catalog_entries(ext);
    let short = entries.flatten();
    let long = catalog_entries(more).flatten();
    assert(catalog_sections(empty_plan()).flatten() =~= Seq::empty());
    assert(catalog_sections(p) =~= all.push(short));
    assert(catalog_sections(q) =~= all.push(long));
    all.lemma_flatten_push(short);
    all.lemma_flatten_push(long);
    assert(catalog_entries(more) =~= entries.push(catalog_entry(item)));
    entries.lemma_flatten_push(catalog_entry(item));
    assert(all.flatten() + (short + catalog_entry(item))
        =~= all.flatten() + short + catalog_entry(item));
    if ext.system_catalog_tables.len() == 0 {
        assert(entries.flatten() =~= Seq::empty());
        assert(all.flatten() + short =~= all.flatten());
    }
}

/// The items of a plan are those of its extensions, one after the other: none for
/// the empty plan, and an extension at the end adds its own.
pub proof fn law_items_of_a_plan(plan: BridgePlanView, ext: ExtensionView)
    ensures
        all_scalars(empty_plan()).len() == 0,
        all_scalars(with_extension(plan, ext)) == all_scalars(plan) + ext.scalars,
        all_aggregates(empty_plan()).len() == 0,
        all_aggregates(with_extension(plan, ext)) == all_aggregates(plan) + ext.aggregates,
        all_table_functions(empty_plan()).len() == 0,
        all_table_functions(with_extension(plan, ext))
            == all_table_functions(plan) + ext.table_functions,
        all_column_types(empty_plan()).len() == 0,
        all_column_types(with_extension(plan, ext)) == all_column_types(plan) + ext.column_types,
{
    let p = with_extension(plan, ext);
    let scalars = Seq::new(plan.extensions.len(), |i: int| plan.extensions[i].scalars);
    assert(all_scalars(empty_plan()) =~= Seq::empty());
    assert(Seq::new(p.extensions.len(), |i: int| p.extensions[i].scalars)
        =~= scalars.push(ext.scalars));
    scalars.lemma_flatten_push(ext.scalars);
    let aggregates = Seq::new(plan.extensions.len(), |i: int| plan.extensions[i].aggregates);
    assert(all_aggregates(empty_plan()) =~= Seq::empty());
    assert(Seq::new(p.extensions.len(), |i: int| p.extensions[i].aggregates)
        =~= aggregates.push(ext.aggregates));
    aggregates.lemma_flatten_push(ext.aggregates);
    let table_functions = Seq::new(
        plan.extensions.len(),
        |i: int| plan.extensions[i].table_functions,
    );
    assert(all_table_functions(empty_plan()) =~= Seq::empty());
    assert(Seq::new(p.extensions.len(), |i: int| p.extensions[i].table_functions)
        =~= table_functions.push(ext.table_functions));
    table_functions.lemma_flatten_push(ext.table_functions);
    let column_types = Seq::new(plan.extensions.len(), |i: int| plan.extensions[i].column_types);
    assert(all_column_types(empty_plan()) =~= Seq::empty());
    assert(Seq::new(p.extensions.len(), |i: int| p.extensions[i].column_types)
        =~= column_types.push(ext.column_types));
    column_types.lemma_flatten_push(ext.column_types);
}

/// The scalar module is its fixed opening, the lines of every scalar in order, the
/// note with its three numbers, a remark where no scalar is registered, and its fixed
/// runtime.
#[verifier::spinoff_prover]
#[verifier::rlimit(40)]
pub proof fn law_scalar_module(plan: BridgePlanView)
    ensures
        ({
            let aggs = all_aggregates(plan);
            let scs = all_scalars(plan);
            let done = registered(aggs, scs);
            let remark = if done.len() == 0 {
                "    // (no scalars in this interface DB)\n"@
            } else {
                Seq::empty()
            };
            shows(
                scalars_text(plan),
                seq![
                    HEADER@ + SCALARS_HEAD@ + REGISTER_ALL@,
                    "    // Generic dispatch: "@,
                    " canonical + "@,
                    " alias scalars ("@,
                    " parameter-list overloads), all registered with their REAL param + return types.\n"@
                        + remark + (SCALARS_REGISTRAR@ + SCALARS_CALLBACK@ + SCALARS_CELLS@),
                ],
                seq![
                    each(scs.len(), |i: int| scalar_block(aggs, scs[i])),
                    decimal(done.len()),
                    decimal(scalar_aliases(aggs, done).len()),
                    decimal(scalar_signatures(done).len()),
                ],
            )
        }),
{
    reveal_with_fuel(woven, 6);
    let aggs = all_aggregates(plan);
    let scs = all_scalars(plan);
    let done = registered(aggs, scs);
    assert(scalar_blocks(plan) =~= Seq::new(scs.len(), |i: int| scalar_block(aggs, scs[i])));
    let opening = HEADER@ + SCALARS_HEAD@ + REGISTER_ALL@;
    let blocks = each(scs.len(), |i: int| scalar_block(aggs, scs[i]));
    let last =
        " parameter-list overloads), all registered with their REAL param + return types.\n"@;
    let runtime = SCALARS_REGISTRAR@ + SCALARS_CALLBACK@ + SCALARS_CELLS@;
    let a = decimal(done.len());
    let b = decimal(scalar_aliases(aggs, done).len());
    let c = decimal(scalar_signatures(done).len());
    let t1 = "    // Generic dispatch: "@;
    let t2 = " canonical + "@;
    let t3 = " alias scalars ("@;
    let summary = t1 + a + t2 + b + t3 + c + last;
    let note = "    // (no scalars in this interface DB)\n"@;
    let none = Seq::<char>::empty();
    let front = opening + blocks + t1 + a + t2 + b + t3 + c;
    assert(opening + (blocks + summary) =~= front + last);
    assert(opening + (blocks + summary + note) =~= front + last + note);
    assert(front + last + note + runtime =~= front + (last + note + runtime));
    assert(front + last + runtime =~= front + (last + none + runtime));
}

/// The aggregate module is its fixed opening, the lines of every aggregate in order,
/// the note with its two numbers, a remark where there is none, and its fixed
/// runtime.
#[verifier::spinoff_prover]
#[verifier::rlimit(40)]
pub proof fn law_aggregate_module(plan: BridgePlanView)
    ensures
        ({
            let aggs = all_aggregates(plan);
            let remark = if aggs.len() == 0 {
                "    // (no aggregates in this interface DB)\n"@
            } else {
                Seq::empty()
            };
            shows(
                aggregates_text(plan),
                seq![
                    HEADER@ + AGGREGATES_HEAD@ + REGISTER_ALL@,
                    "    // Phase 3c: "@,
                    " canonical + "@,
                    " alias names registered.\n"@ + remark + (AGGREGATES_REGISTRAR@
                        + AGGREGATES_UPDATE@ + AGGREGATES_FINALIZE@ + AGGREGATES_HELPERS@),
                ],
                seq![
                    each(aggs.len(), |i: int| aggregate_block(aggs[i])),
                    decimal(aggs.len()),
                    decimal(aggregate_aliases(aggs).len()),
                ],
            )
        }),
{
    reveal_with_fuel(woven, 5);
    let aggs = all_aggregates(plan);
    assert(aggregate_blocks(plan) =~= Seq::new(aggs.len(), |i: int| aggregate_block(aggs[i])));
    let opening = HEADER@ + AGGREGATES_HEAD@ + REGISTER_ALL@;
    let blocks = each(aggs.len(), |i: int| aggregate_block(aggs[i]));
    let runtime = AGGREGATES_REGISTRAR@ + AGGREGATES_UPDATE@ + AGGREGATES_FINALIZE@
        + AGGREGATES_HELPERS@;
    let a = decimal(aggs.len());
    let b = decimal(aggregate_aliases(aggs).len());
    let t1 = "    // Phase 3c: "@;
    let t2 = " canonical + "@;
    let last = " alias names registered.\n"@;
    let note = "    // (no aggregates in this interface DB)\n"@;
    let none = Seq::<char>::empty();
    let front = opening + blocks + t1 + a + t2 + b;
    assert(opening + (blocks + (t1 + a + t2 + b + last)) =~= front + last);
    assert(opening + (blocks + (t1 + a + t2 + b + last) + note) =~= front + last + note);
    assert(front + last + note + runtime =~= front + (last + note + runtime));
    assert(front + last + runtime =~= front + (last + none + runtime));
}

/// The table-function module is its fixed opening, the lines of every table function
/// in order, the note with its three numbers, a remark where there is none, its fixed
/// runtime and the listing.
#[verifier::spinoff_prover]
#[verifier::rlimit(40)]
pub proof fn law_table_function_module(plan: BridgePlanView)
    ensures
        ({
            let tfs = all_table_functions(plan);
            let remark = if tfs.len() == 0 {
                "    // (no table functions in this interface DB)\n"@
            } else {
                Seq::empty()
            };
            shows(
                table_functions_text(plan),
                seq![
                    HEADER@ + TABLE_FUNCTIONS_HEAD@,
                    "    // Phase 5: "@,
                    " canonical UDTFs + "@,
                    " alias registrations ("@,
                    " wider positional overloads not expressible via the C API).\n"@ + remark
                        + TABLE_FUNCTIONS_RUNTIME@ + "\n// ----------------------------------------------------------------------\n// UDTFs the shim publishes.\n// ----------------------------------------------------------------------\n\n"@,
                    Seq::empty(),
                ],
                seq![
                    each(tfs.len(), |i: int| table_function_block(tfs[i])),
                    decimal(tfs.len()),
                    decimal(table_function_aliases(tfs).len()),
                    decimal(all_dropped(tfs).len()),
                    udtf_sections(plan).flatten(),
                ],
            )
        }),
{
    reveal_with_fuel(woven, 7);
    let tfs = all_table_functions(plan);
    assert(table_function_blocks(plan) =~= Seq::new(
        tfs.len(),
        |i: int| table_function_block(tfs[i]),
    ));
    let opening = HEADER@ + TABLE_FUNCTIONS_HEAD@;
    let blocks = each(tfs.len(), |i: int| table_function_block(tfs[i]));
    let a = decimal(tfs.len());
    let b = decimal(table_function_aliases(tfs).len());
    let c = decimal(all_dropped(tfs).len());
    let t1 = "    // Phase 5: "@;
    let t2 = " canonical UDTFs + "@;
    let t3 = " alias registrations ("@;
    let last = " wider positional overloads not expressible via the C API).\n"@;
    let note = "    // (no table functions in this interface DB)\n"@;
    let runtime = TABLE_FUNCTIONS_RUNTIME@;
    let h = "\n// ----------------------------------------------------------------------\n// UDTFs the shim publishes.\n// ----------------------------------------------------------------------\n\n"@;
    let listing = udtf_sections(plan).flatten();
    let none = Seq::<char>::empty();
    let front = opening + blocks + t1 + a + t2 + b + t3 + c;
    assert(opening + blocks + (t1 + a + t2 + b + t3 + c + last) =~= front + last);
    assert(front + last + note + runtime + h =~= front + (last + note + runtime + h));
    assert(front + last + runtime + h =~= front + (last + none + runtime + h));
    let x = front + (last + (if tfs.len() == 0 {
        note
    } else {
        none
    }) + runtime + h) + listing;
    assert(x + none =~= x);
}

/// The type module is its fixed opening, one registration for each registered name in
/// order, its fixed runtime and the listing; the cast module has one registration for
/// each of the same names.
pub proof fn law_type_and_cast_modules(plan: BridgePlanView)
    ensures
        ({
            let names = registered_names(plan);
            &&& shows(
                types_text(plan),
                seq![HEADER@ + TYPES_HEAD@, TYPES_RUNTIME@, Seq::empty()],
                seq![
                    each(names.len(), |i: int| type_line(literal(names[i]))),
                    type_sections(plan).flatten(),
                ],
            )
            &&& shows(
                casts_text(plan),
                seq![HEADER@ + CASTS_HEAD@, CASTS_RUNTIME@ + CASTS_LISTING@, Seq::empty()],
                seq![
                    each(names.len(), |i: int| cast_line(literal(names[i]))),
                    cast_sections(plan).flatten(),
                ],
            )
        }),
{
    reveal_with_fuel(woven, 4);
    let names = registered_names(plan);
    assert(type_lines(plan) =~= Seq::new(names.len(), |i: int| type_line(literal(names[i]))));
    assert(cast_lines(plan) =~= Seq::new(names.len(), |i: int| cast_line(literal(names[i]))));
    let none = Seq::<char>::empty();
    assert(types_text(plan) + none =~= types_text(plan));
    assert(casts_text(plan) + none =~= casts_text(plan));
    let c = HEADER@ + CASTS_HEAD@ + cast_lines(plan).flatten();
    assert(c + CASTS_RUNTIME@ + CASTS_LISTING@ =~= c + (CASTS_RUNTIME@ + CASTS_LISTING@));
}

/// The modules that only list what the shim publishes are their fixed text around the
/// listing.
pub proof fn law_listing_modules(plan: BridgePlanView)
    ensures
        shows(
            window_functions_text(plan),
            seq![
                HEADER@ + WINDOW_FUNCTIONS_HEAD@,
                "\n// TODO: wire window-capable aggregates.\n"@,
            ],
            seq![window_sections(plan).flatten()],
        ),
        shows(
            operators_text(plan),
            seq![HEADER@ + OPERATORS_HEAD@, Seq::empty()],
            seq![operator_sections(plan).flatten()],
        ),
        shows(
            preprocessors_text(plan),
            seq![HEADER@ + PREPROCESSORS_HEAD@, Seq::empty()],
            seq![pattern_sections(plan).flatten()],
        ),
        shows(
            system_catalog_text(plan),
            seq![
                HEADER@ + SYSTEM_CATALOG_HEAD@,
                "\n// TODO: emit one register_table_function per catalog entry.\n"@,
            ],
            seq![catalog_sections(plan).flatten()],
        ),
{
    reveal_with_fuel(woven, 3);
    let none = Seq::<char>::empty();
    assert(operators_text(plan) + none =~= operators_text(plan));
    assert(preprocessors_text(plan) + none =~= preprocessors_text(plan));
}

/// An extension registers index functions for the first of its indexes that declares
/// capabilities, under the prefix of its own name: the build aggregate and the
/// envelope query, and the two other queries where the capabilities set their flags.
/// Without such an index it registers nothing.
pub proof fn law_index_registrations(ext: ExtensionView, k: int)
    requires
        0 <= k <= ext.spatial_indexes.len(),
        forall|j: int|
            0 <= j < k ==> (#[trigger] ext.spatial_indexes[j]).capabilities_json is None,
        k < ext.spatial_indexes.len() ==> ext.spatial_indexes[k].capabilities_json is Some,
    ensures
        k == ext.spatial_indexes.len() ==> index_block(ext) == Seq::<char>::empty(),
        k < ext.spatial_indexes.len() ==> ({
            let ix = ext.spatial_indexes[k];
            let caps = ix.capabilities_json->0;
            let prefix = fn_prefix(ext.name);
            let knn = if has_flag(caps, "knn"@) {
                knn_line(prefix)
            } else {
                Seq::empty()
            };
            let within = if has_flag(caps, "within_distance_wkb"@) {
                within_distance_line(prefix)
            } else {
                Seq::empty()
            };
            index_block(ext) == build_line(prefix, literal(ix.name)) + envelope_line(prefix) + knn
                + within
        }),
{
    lemma_primary(ext.spatial_indexes, k);
    if k < ext.spatial_indexes.len() {
        let ix = ext.spatial_indexes[k];
        law_queries_follow_capabilities(
            fn_prefix(ext.name),
            literal(ix.name),
            ix.capabilities_json->0,
        );
    }
}

proof fn lemma_primary(indexes: Seq<SpatialIndexView>, k: int)
    requires
        0 <= k <= indexes.len(),
        forall|j: int| 0 <= j < k ==> (#[trigger] indexes[j]).capabilities_json is None,
        k < indexes.len() ==> indexes[k].capabilities_json is Some,
    ensures
        primary_index(indexes) == (if k < indexes.len() {
            Some(indexes[k])
        } else {
            None
        }),
    decreases indexes.len(),
{
    if indexes.len() > 0 && k > 0 {
        let rest = indexes.drop_first();
        assert forall|j: int| 0 <= j < k - 1 implies (
        #[trigger] rest[j]).capabilities_json is None by {
            assert(rest[j] == indexes[j + 1]);
        }
        assert(indexes[0].capabilities_json is None);
        lemma_primary(rest, k - 1);
    }
}

/// The spatial-index module is its fixed opening, a remark where no extension has a
/// primary index, the registrations of every extension in order, its fixed runtime
/// and the listing.
#[verifier::spinoff_prover]
#[verifier::rlimit(40)]
pub proof fn law_spatial_index_module(plan: BridgePlanView)
    ensures
        ({
            let exts = plan.extensions;
            let some = exists|i: int, j: int|
                0 <= i < exts.len() && 0 <= j < exts[i].spatial_indexes.len() && (
                #[trigger] exts[i].spatial_indexes[j]).capabilities_json is Some;
            let remark = if some {
                Seq::empty()
            } else {
                "    // (no spatial indexes in this interface DB)\n"@
            };
            shows(
                spatial_indexes_text(plan),
                seq![
                    HEADER@ + SPATIAL_INDEXES_HEAD@ + remark,
                    SPATIAL_BUILD_RUNTIME@ + SPATIAL_QUERY_RUNTIME@ + SPATIAL_SHARED_RUNTIME@
                        + "\n// ----------------------------------------------------------------------\n// Spatial indexes the shim advertises.\n// ----------------------------------------------------------------------\n\n"@,
                    Seq::empty(),
                ],
                seq![
                    each(exts.len(), |i: int| index_block(exts[i])),
                    index_sections(plan).flatten(),
                ],
            )
        }),
{
    reveal_with_fuel(woven, 4);
    let exts = plan.extensions;
    lemma_has_primary(plan);
    assert(index_blocks(plan) =~= Seq::new(exts.len(), |i: int| index_block(exts[i])));
    let none = Seq::<char>::empty();
    let opening = HEADER@ + SPATIAL_INDEXES_HEAD@;
    let note = "    // (no spatial indexes in this interface DB)\n"@;
    assert(opening + none =~= opening);
    let head = if has_primary(plan) {
        opening
    } else {
        opening + note
    };
    let blocks = each(exts.len(), |i: int| index_block(exts[i]));
    let b = SPATIAL_BUILD_RUNTIME@;
    let q = SPATIAL_QUERY_RUNTIME@;
    let s = SPATIAL_SHARED_RUNTIME@;
    let h = "\n// ----------------------------------------------------------------------\n// Spatial indexes the shim advertises.\n// ----------------------------------------------------------------------\n\n"@;
    assert(head + blocks + b + q + s + h =~= head + blocks + (b + q + s + h));
    assert(spatial_indexes_text(plan) + none =~= spatial_indexes_text(plan));
}

proof fn lemma_has_primary(plan: BridgePlanView)
    ensures
        has_primary(plan) == exists|i: int, j: int|
            0 <= i < plan.extensions.len() && 0 <= j < plan.extensions[i].spatial_indexes.len() && (
            #[trigger] plan.extensions[i].spatial_indexes[j]).capabilities_json is Some,
{
    let exts = plan.extensions;
    if has_primary(plan) {
        let i = choose|i: int|
            0 <= i < exts.len() && primary_index((#[trigger] exts[i]).spatial_indexes) is Some;
        law_primary_index(exts[i].spatial_indexes);
        let ix = primary_index(exts[i].spatial_indexes)->0;
        let j = choose|j: int|
            0 <= j < exts[i].spatial_indexes.len() && #[trigger] exts[i].spatial_indexes[j] == ix
                && ix.capabilities_json is Some;
        assert(exts[i].spatial_indexes[j].capabilities_json is Some);
    }
    if exists|i: int, j: int|
        0 <= i < exts.len() && 0 <= j < exts[i].spatial_indexes.len() && (
        #[trigger] exts[i].spatial_indexes[j]).capabilities_json is Some {
        let (i, j) = choose|i: int, j: int|
            0 <= i < exts.len() && 0 <= j < exts[i].spatial_indexes.len() && (
            #[trigger] exts[i].spatial_indexes[j]).capabilities_json is Some;
        law_primary_index(exts[i].spatial_indexes);
        assert(primary_index(exts[i].spatial_indexes) is Some);
    }
}

/// The manifest declares the package and the library under the bridge's name, which
/// is made of the primary extension's.
pub proof fn law_manifest(plan: BridgePlanView)
    ensures
        ({
            let name = crate_name(primary_name(plan));
            shows(
                cargo_toml_text(plan),
                seq![
                    CARGO_1@ + "name = \""@,
                    "-duckdb-bridge\""@ + CARGO_2@,
                    CARGO_3@ + "name = \""@,
                    "_duckdb_bridge\""@ + CARGO_4@,
                ],
                seq![name, name, name],
            )
        }),
{
    reveal_with_fuel(woven, 5);
    reveal_strlit("-duckdb-bridge");
    reveal_strlit("_duckdb_bridge");
    reveal_strlit("\"");
    reveal_strlit("-duckdb-bridge\"");
    reveal_strlit("_duckdb_bridge\"");
    let name = crate_name(primary_name(plan));
    let key = "name = \""@;
    assert("-duckdb-bridge"@ + "\""@ =~= "-duckdb-bridge\""@);
    assert("_duckdb_bridge"@ + "\""@ =~= "_duckdb_bridge\""@);
    let a = CARGO_1@ + key + name + ("-duckdb-bridge\""@ + CARGO_2@) + name;
    assert(CARGO_1@ + (key + (name + "-duckdb-bridge"@) + "\""@) + CARGO_2@ + name =~= a);
    let b = a + (CARGO_3@ + key) + name + ("_duckdb_bridge\""@ + CARGO_4@);
    assert(a + CARGO_3@ + (key + (name + "_duckdb_bridge"@) + "\""@) + CARGO_4@ =~= b);
}

/// The registry names the environment variable three times, once where it reads it.
pub proof fn law_registry(plan: BridgePlanView)
    ensures
        shows(
            registry_text(plan),
            seq![
                HEADER@ + REGISTRY_1@,
                REGISTRY_2@ + "std::env::var(\""@,
                "\")"@ + REGISTRY_3@,
                REGISTRY_4@,
            ],
            seq![env_var(plan), env_var(plan), env_var(plan)],
        ),
{
    reveal_with_fuel(woven, 5);
    let env = env_var(plan);
    let look = "std::env::var(\""@;
    let end = "\")"@;
    let a = HEADER@ + REGISTRY_1@ + env;
    assert(a + REGISTRY_2@ + (look + env + end) + REGISTRY_3@ =~= a + (REGISTRY_2@ + look) + env + (
    end + REGISTRY_3@));
}

/// The entry point names the library where it tells how to load it, the environment
/// variable, and the symbol that it declares; the summaries of all extensions follow.
#[verifier::spinoff_prover]
#[verifier::rlimit(40)]
pub proof fn law_entry_point(plan: BridgePlanView)
    ensures
        ({
            let name = crate_name(primary_name(plan));
            shows(
                lib_text(plan),
                seq![
                    HEADER@ + ENTRY_1@,
                    "_duckdb_bridge"@ + ENTRY_2@,
                    "_duckdb_bridge"@ + ENTRY_3@ + ENTRY_MODULES@ + ENTRY_4@,
                    ENTRY_5@ + "fn "@,
                    "_duckdb_bridge_init_c_api("@ + ENTRY_6@
                        + "// Extensions loaded by this bridge:\n//\n"@,
                    "\n"@,
                ],
                seq![
                    name,
                    name,
                    env_var(plan),
                    name,
                    join(
                        Seq::new(
                            plan.extensions.len(),
                            |i: int| extension_summary(plan.extensions[i]),
                        ),
                        "\n"@,
                    ),
                ],
            )
        }),
{
    reveal_with_fuel(woven, 7);
    reveal_strlit("_duckdb_bridge");
    reveal_strlit("_init_c_api");
    reveal_strlit("(");
    reveal_strlit("_duckdb_bridge_init_c_api(");
    let name = crate_name(primary_name(plan));
    let env = env_var(plan);
    let lib = "_duckdb_bridge"@;
    let tail = "// Extensions loaded by this bridge:\n//\n"@;
    let sums = Seq::new(plan.extensions.len(), |i: int| extension_summary(plan.extensions[i]));
    assert(extension_summaries(plan) =~= sums);
    let w1 = HEADER@ + ENTRY_1@ + name + (lib + ENTRY_2@);
    assert(HEADER@ + ENTRY_1@ + (name + lib) + ENTRY_2@ =~= w1);
    let w2 = w1 + name + (lib + ENTRY_3@ + ENTRY_MODULES@ + ENTRY_4@);
    assert(w1 + (name + lib) + ENTRY_3@ + ENTRY_MODULES@ + ENTRY_4@ =~= w2);
    let sym = "_duckdb_bridge_init_c_api("@;
    assert("fn "@ + (name + lib + "_init_c_api"@) + "("@ =~= "fn "@ + name + sym);
    let w4 = w2 + env + (ENTRY_5@ + "fn "@) + name + (sym + ENTRY_6@ + tail);
    assert(w2 + env + ENTRY_5@ + ("fn "@ + name + sym) + ENTRY_6@ + tail =~= w4);
}

/// The readme is its head, a row for each extension in order, and its tail for the
/// primary extension's name, the bridge's name and the environment variable.
pub proof fn law_readme(plan: BridgePlanView)
    ensures
        readme_text(plan) == readme_head(primary_name(plan)) + each(
            plan.extensions.len(),
            |i: int| surface_row(plan.extensions[i]),
        ) + readme_tail(primary_name(plan), crate_name(primary_name(plan)), env_var(plan)),
{
    assert(surface_rows(plan) =~= Seq::new(
        plan.extensions.len(),
        |i: int| surface_row(plan.extensions[i]),
    ));
}

/// The title and the introduction of the readme show the primary extension's name.
pub proof fn law_readme_head(primary: Text)
    ensures
        shows(
            readme_head(primary),
            seq![
                "# "@,
                "-duckdb-bridge\n\nGenerated DuckDB loadable extension that bridges the **"@,
                "** DataFission wasm shim into DuckDB as native scalar functions, aggregates, UDTFs, custom column types, and identity casts.\n\n"@
                    + "Produced by [`ducklink-shim-codegen`](https://github.com/zacharywhitley/ducklink-shim-codegen) from a shim-interface SQLite database. **Do not edit by hand** — regenerate from the source.\n\n"@
                    + "## Surface\n\n| Extension | Version | Scalars | Aggregates | UDTFs | Windows | Types | Operators | Casts | Preprocessors | Catalog | Indexes |\n|---|---|---:|---:|---:|---:|---:|---:|---:|---:|---:|---:|\n"@,
            ],
            seq![primary, primary],
        ),
{
    reveal_with_fuel(woven, 4);
    let a = "# "@ + primary
        + "-duckdb-bridge\n\nGenerated DuckDB loadable extension that bridges the **"@ + primary;
    let x =
        "** DataFission wasm shim into DuckDB as native scalar functions, aggregates, UDTFs, custom column types, and identity casts.\n\n"@;
    let y =
        "Produced by [`ducklink-shim-codegen`](https://github.com/zacharywhitley/ducklink-shim-codegen) from a shim-interface SQLite database. **Do not edit by hand** — regenerate from the source.\n\n"@;
    let z =
        "## Surface\n\n| Extension | Version | Scalars | Aggregates | UDTFs | Windows | Types | Operators | Casts | Preprocessors | Catalog | Indexes |\n|---|---|---:|---:|---:|---:|---:|---:|---:|---:|---:|---:|\n"@;
    assert(a + x + y + z =~= a + (x + y + z));
}

/// The tail of the readme shows the built file, whose name has underscores for
/// dashes, the library name, the packaged file, the environment variable, the names
/// to generate the bridge with, the package to format and the entry symbol.
#[verifier::spinoff_prover]
#[verifier::rlimit(40)]
pub proof fn law_readme_tail(primary: Text, name: Text, env: Text)
    ensures
        shows(
            readme_tail(primary, name, env),
            seq![
                README_1@ + "lib"@,
                "_duckdb_bridge.dylib"@ + README_2@,
                "_duckdb_bridge"@ + README_3@,
                "_duckdb_bridge.duckdb_extension"@ + README_4@,
                README_5@,
                "=/path/to/"@,
                README_6@,
                "_duckdb_bridge.duckdb_extension"@ + README_7@,
                README_8@,
                README_9@ + "cargo fmt -p "@,
                "-duckdb-bridge -- --check"@ + README_10@ + "`"@,
                "_duckdb_bridge_init_c_api`"@ + README_11@,
            ],
            seq![
                replaced(name, '-', '_'),
                name,
                name,
                env,
                env,
                primary,
                name,
                primary,
                primary,
                name,
                name,
            ],
        ),
{
    reveal_with_fuel(woven, 13);
    reveal_strlit("_duckdb_bridge");
    reveal_strlit(".duckdb_extension");
    reveal_strlit("_duckdb_bridge.duckdb_extension");
    reveal_strlit("-duckdb-bridge");
    reveal_strlit(" -- --check");
    reveal_strlit("-duckdb-bridge -- --check");
    reveal_strlit("_init_c_api");
    reveal_strlit("`");
    reveal_strlit("_duckdb_bridge_init_c_api`");
    let lib = "_duckdb_bridge"@;
    let ext = "_duckdb_bridge.duckdb_extension"@;
    let plain = replaced(name, '-', '_');
    let dylib = "_duckdb_bridge.dylib"@;
    assert(name + lib + ".duckdb_extension"@ =~= name + ext);
    let w1 = README_1@ + "lib"@ + plain + (dylib + README_2@);
    assert(README_1@ + ("lib"@ + plain + dylib) + README_2@ =~= w1);
    let w2 = w1 + name + (lib + README_3@);
    assert(w1 + (name + lib) + README_3@ =~= w2);
    let w3 = w2 + name + (ext + README_4@);
    assert(w2 + (name + ext) + README_4@ =~= w3);
    let set = "=/path/to/"@;
    let w6 = w3 + env + README_5@ + env + set + primary + README_6@;
    let load = env + README_5@ + (env + set) + primary + README_6@ + (name + ext);
    assert(w3 + load =~= w6 + (name + ext));
    let fmt = "cargo fmt -p "@;
    let check = "-duckdb-bridge -- --check"@;
    assert(fmt + (name + "-duckdb-bridge"@) + " -- --check"@ =~= fmt + name + check);
    let sym = "_duckdb_bridge_init_c_api`"@;
    assert("`"@ + (name + lib + "_init_c_api"@) + "`"@ =~= "`"@ + name + sym);
    let upkeep = README_7@ + primary + README_8@ + primary + README_9@ + (fmt + name + check)
        + README_10@ + ("`"@ + name + sym) + README_11@;
    let w9 = w6 + name + (ext + README_7@) + primary + README_8@ + primary + (README_9@ + fmt);
    let w11 = w9 + name + (check + README_10@ + "`"@) + name + (sym + README_11@);
    let u1 = README_7@ + primary + README_8@ + primary;
    assert(w6 + (name + ext) + u1 + README_9@ + fmt =~= w9);
    assert(w6 + (name + ext) + upkeep =~= w6 + (name + ext) + u1 + README_9@ + fmt + (name + check
        + README_10@ + ("`"@ + name + sym) + README_11@));
    assert(w9 + (name + check + README_10@ + ("`"@ + name + sym) + README_11@) =~= w11);
}

proof fn lemma_module_paths()
    ensures
        path_of_module("lib"@) == "src/lib.rs"@,
        path_of_module("registry"@) == "src/registry.rs"@,
        path_of_module("scalars"@) == "src/scalars.rs"@,
        path_of_module("aggregates"@) == "src/aggregates.rs"@,
        path_of_module("table_functions"@) == "src/table_functions.rs"@,
        path_of_module("window_functions"@) == "src/window_functions.rs"@,
        path_of_module("types"@) == "src/types.rs"@,
        path_of_module("operators"@) == "src/operators.rs"@,
        path_of_module("casts"@) == "src/casts.rs"@,
        path_of_module("preprocessors"@) == "src/preprocessors.rs"@,
        path_of_module("system_catalog"@) == "src/system_catalog.rs"@,
        path_of_module("spatial_indexes"@) == "src/spatial_indexes.rs"@,
{
    assert("src/"@ + "lib"@ + ".rs"@ == "src/lib.rs"@) by {
        reveal_strlit("src/");
        reveal_strlit("lib");
        reveal_strlit(".rs");
        reveal_strlit("src/lib.rs");
    }
    assert("src/"@ + "registry"@ + ".rs"@ == "src/registry.rs"@) by {
        reveal_strlit("src/");
        reveal_strlit("registry");
        reveal_strlit(".rs");
        reveal_strlit("src/registry.rs");
    }
    assert("src/"@ + "scalars"@ + ".rs"@ == "src/scalars.rs"@) by {
        reveal_strlit("src/");
        reveal_strlit("scalars");
        reveal_strlit(".rs");
        reveal_strlit("src/scalars.rs");
    }
    assert("src/"@ + "aggregates"@ + ".rs"@ == "src/aggregates.rs"@) by {
        reveal_strlit("src/");
        reveal_strlit("aggregates");
        reveal_strlit(".rs");
        reveal_strlit("src/aggregates.rs");
    }
    assert("src/"@ + "table_functions"@ + ".rs"@ == "src/table_functions.rs"@) by {
        reveal_strlit("src/");
        reveal_strlit("table_functions");
        reveal_strlit(".rs");
        reveal_strlit("src/table_functions.rs");
    }
    assert("src/"@ + "window_functions"@ + ".rs"@ == "src/window_functions.rs"@) by {
        reveal_strlit("src/");
        reveal_strlit("window_functions");
        reveal_strlit(".rs");
        reveal_strlit("src/window_functions.rs");
    }
    assert("src/"@ + "types"@ + ".rs"@ == "src/types.rs"@) by {
        reveal_strlit("src/");
        reveal_strlit("types");
        reveal_strlit(".rs");
        reveal_strlit("src/types.rs");
    }
    assert("src/"@ + "operators"@ + ".rs"@ == "src/operators.rs"@) by {
        reveal_strlit("src/");
        reveal_strlit("operators");
        reveal_strlit(".rs");
        reveal_strlit("src/operators.rs");
    }
    assert("src/"@ + "casts"@ + ".rs"@ == "src/casts.rs"@) by {
        reveal_strlit("src/");
        reveal_strlit("casts");
        reveal_strlit(".rs");
        reveal_strlit("src/casts.rs");
    }
    assert("src/"@ + "preprocessors"@ + ".rs"@ == "src/preprocessors.rs"@) by {
        reveal_strlit("src/");
        reveal_strlit("preprocessors");
        reveal_strlit(".rs");
        reveal_strlit("src/preprocessors.rs");
    }
    assert("src/"@ + "system_catalog"@ + ".rs"@ == "src/system_catalog.rs"@) by {
        reveal_strlit("src/");
        reveal_strlit("system_catalog");
        reveal_strlit(".rs");
        reveal_strlit("src/system_catalog.rs");
    }
    assert("src/"@ + "spatial_indexes"@ + ".rs"@ == "src/spatial_indexes.rs"@) by {
        reveal_strlit("src/");
        reveal_strlit("spatial_indexes");
        reveal_strlit(".rs");
        reveal_strlit("src/spatial_indexes.rs");
    }
}

/// Each file of a bridge holds the text of its own kind.
#[verifier::spinoff_prover]
#[verifier::rlimit(40)]
pub proof fn law_files(plan: BridgePlanView)
    ensures
        files(plan).len() == 14,
        files(plan)[0] == (BridgeFileView {
            path: "Cargo.toml"@,
            contents: cargo_toml_text(plan),
        }),
        files(plan)[1] == (BridgeFileView {
            path: "README.md"@,
            contents: readme_text(plan),
        }),
        files(plan)[2] == (BridgeFileView {
            path: "src/lib.rs"@,
            contents: lib_text(plan),
        }),
        files(plan)[3] == (BridgeFileView {
            path: "src/registry.rs"@,
            contents: registry_text(plan),
        }),
        files(plan)[4] == (BridgeFileView {
            path: "src/scalars.rs"@,
            contents: scalars_text(plan),
        }),
        files(plan)[5] == (BridgeFileView {
            path: "src/aggregates.rs"@,
            contents: aggregates_text(plan),
        }),
        files(plan)[6] == (BridgeFileView {
            path: "src/table_functions.rs"@,
            contents: table_functions_text(plan),
        }),
        files(plan)[7] == (BridgeFileView {
            path: "src/window_functions.rs"@,
            contents: window_functions_text(plan),
        }),
        files(plan)[8] == (BridgeFileView {
            path: "src/types.rs"@,
            contents: types_text(plan),
        }),
        files(plan)[9] == (BridgeFileView {
            path: "src/operators.rs"@,
            contents: operators_text(plan),
        }),
        files(plan)[10] == (BridgeFileView {
            path: "src/casts.rs"@,
            contents: casts_text(plan),
        }),
        files(plan)[11] == (BridgeFileView {
            path: "src/preprocessors.rs"@,
            contents: preprocessors_text(plan),
        }),
        files(plan)[12] == (BridgeFileView {
            path: "src/system_catalog.rs"@,
            contents: system_catalog_text(plan),
        }),
        files(plan)[13] == (BridgeFileView {
            path: "src/spatial_indexes.rs"@,
            contents: spatial_indexes_text(plan),
        }),
{
    lemma_module_paths();
    let fs = files(plan);
    let ms = modules(plan);
    assert(fs[2] == module_file("lib"@, lib_text(plan)));
    assert(fs[3] == module_file(ms[0].0, ms[0].1));
    assert(fs[4] == module_file(ms[1].0, ms[1].1));
    assert(fs[5] == module_file(ms[2].0, ms[2].1));
    assert(fs[6] == module_file(ms[3].0, ms[3].1));
    assert(fs[7] == module_file(ms[4].0, ms[4].1));
    assert(fs[8] == module_file(ms[5].0, ms[5].1));
    assert(fs[9] == module_file(ms[6].0, ms[6].1));
    assert(fs[10] == module_file(ms[7].0, ms[7].1));
    assert(fs[11] == module_file(ms[8].0, ms[8].1));
    assert(fs[12] == module_file(ms[9].0, ms[9].1));
    assert(fs[13] == module_file(ms[10].0, ms[10].1));
}

/// One text precedes another exactly where they agree up to some place at which the
/// first has ended or has the smaller character.
pub proof fn law_precedes(a: Text, b: Text)
    ensures
        precedes(a, b) == exists|k: int|
            0 <= k <= a.len() && k < b.len() && #[trigger] a.take(k) == b.take(k) && (k == a.len()
                || a[k] < b[k]),
    decreases a.len(),
{
    if b.len() == 0 {
    } else if a.len() == 0 {
        assert(a.take(0) =~= b.take(0));
    } else if a[0] == b[0] {
        let x = a.drop_first();
        let y = b.drop_first();
        law_precedes(x, y);
        if precedes(x, y) {
            let k = choose|k: int|
                0 <= k <= x.len() && k < y.len() && #[trigger] x.take(k) == y.take(k) && (k
                    == x.len() || x[k] < y[k]);
            assert(a.take(k + 1) =~= seq![a[0]] + x.take(k));
            assert(b.take(k + 1) =~= seq![b[0]] + y.take(k));
        }
        if exists|k: int|
            0 <= k <= a.len() && k < b.len() && #[trigger] a.take(k) == b.take(k) && (k == a.len()
                || a[k] < b[k]) {
            let k = choose|k: int|
                0 <= k <= a.len() && k < b.len() && #[trigger] a.take(k) == b.take(k) && (k
                    == a.len() || a[k] < b[k]);
            assert(k > 0);
            assert(x.take(k - 1) =~= a.take(k).drop_first());
            assert(y.take(k - 1) =~= b.take(k).drop_first());
        }
    } else {
        assert(a.take(0) =~= b.take(0));
        if exists|k: int|
            0 <= k <= a.len() && k < b.len() && #[trigger] a.take(k) == b.take(k) && (k == a.len()
                || a[k] < b[k]) {
            let k = choose|k: int|
                0 <= k <= a.len() && k < b.len() && #[trigger] a.take(k) == b.take(k) && (k
                    == a.len() || a[k] < b[k]);
            if k > 0 {
                assert(a.take(k)[0] == b.take(k)[0]);
            }
        }
    }
}

} // verus!
