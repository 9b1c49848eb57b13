//! What holds of the listings in a bridge.

use vstd::prelude::*;
use vstd::seq_lib::lemma_flatten_concat;

use crate::emit::casts::{cast_entries, cast_entry, cast_section, cast_sections, casts_text};
use crate::emit::listings::{
    catalog_entries, catalog_entry, catalog_sections, operator_entries, operator_entry,
    operator_section, operator_sections, operators_text, pattern_entries, pattern_entry,
    pattern_section, pattern_sections, preprocessors_text, system_catalog_text, window_entries,
    window_entry, window_functions_text, window_sections,
};
use crate::emit::shared::extension_heading;
use crate::emit::spatial_indexes::{
    index_entries, index_entry, index_section, index_sections, spatial_indexes_text,
};
use crate::emit::table_functions::{
    table_functions_text, udtf_entries, udtf_entry, udtf_section, udtf_sections,
};
use crate::emit::types::{type_entries, type_entry, type_section, type_sections, types_text};
use crate::occurrence::{
    lemma_occurs_append, lemma_occurs_prepend, lemma_occurs_transitive, lemma_part_occurs,
};
use crate::plan::BridgePlanView;
use crate::templates::header::HEADER;
use crate::templates::listings::{
    OPERATORS_HEAD, PREPROCESSORS_HEAD, SYSTEM_CATALOG_HEAD, WINDOW_FUNCTIONS_HEAD,
};
use crate::text::{occurs_in, Text};

verus! {

/// An entry of a section occurs wherever the sections are put one after the other.
proof fn lemma_entry_occurs(
    sections: Seq<Text>,
    e: int,
    heading: Text,
    entries: Seq<Text>,
    j: int,
)
    requires
        0 <= e < sections.len(),
        0 <= j < entries.len(),
        sections[e] == heading + entries.flatten(),
    ensures
        occurs_in(entries[j], sections.flatten()),
{
    lemma_part_occurs(entries, j);
    lemma_occurs_prepend(entries[j], heading, entries.flatten());
    lemma_part_occurs(sections, e);
    lemma_occurs_transitive(entries[j], sections[e], sections.flatten());
}

/// A text that ends in `tail` holds what occurs in `tail`.
proof fn lemma_occurs_in_tail(x: Text, before: Text, tail: Text, text: Text)
    requires
        occurs_in(x, tail),
        text == before + tail,
    ensures
        occurs_in(x, text),
{
    lemma_occurs_prepend(x, before, tail);
}

/// Every window function and every catalog table of an extension is listed in its
/// module.
pub proof fn law_windows_and_catalog_are_listed(plan: BridgePlanView, e: int)
    requires
        0 <= e < plan.extensions.len(),
    ensures
        ({
            let ext = plan.extensions[e];
            &&& forall|j: int|
                0 <= j < ext.window_functions.len() ==> occurs_in(
                    window_entry(#[trigger] ext.window_functions[j]),
                    window_functions_text(plan),
                )
            &&& forall|j: int|
                0 <= j < ext.system_catalog_tables.len() ==> occurs_in(
                    catalog_entry(#[trigger] ext.system_catalog_tables[j]),
                    system_catalog_text(plan),
                )
        }),
{
    let ext = plan.extensions[e];
    let none = Seq::<char>::empty();
    assert forall|j: int| 0 <= j < ext.window_functions.len() implies occurs_in(
        window_entry(#[trigger] ext.window_functions[j]),
        window_functions_text(plan),
    ) by {
        let all = window_sections(plan);
        let entries = window_entries(ext);
        let head = HEADER@ + WINDOW_FUNCTIONS_HEAD@;
        assert(all[e] =~= none + entries.flatten());
        lemma_entry_occurs(all, e, none, entries, j);
        lemma_occurs_prepend(entries[j], head, all.flatten());
        lemma_occurs_append(
            entries[j],
            head + all.flatten(),
            "\n// TODO: wire window-capable aggregates.\n"@,
        );
    }
    assert forall|j: int| 0 <= j < ext.system_catalog_tables.len() implies occurs_in(
        catalog_entry(#[trigger] ext.system_catalog_tables[j]),
        system_catalog_text(plan),
    ) by {
        let all = catalog_sections(plan);
        let entries = catalog_entries(ext);
        let head = HEADER@ + SYSTEM_CATALOG_HEAD@;
        assert(all[e] =~= none + entries.flatten());
        lemma_entry_occurs(all, e, none, entries, j);
        lemma_occurs_prepend(entries[j], head, all.flatten());
        lemma_occurs_append(
            entries[j],
            head + all.flatten(),
            "\n// TODO: emit one register_table_function per catalog entry.\n"@,
        );
    }
}

/// The listings of two plans put together are the listings of the first followed
/// by those of the second.
pub proof fn law_listings_compose(p: BridgePlanView, q: BridgePlanView, both: BridgePlanView)
    requires
        both.extensions == p.extensions + q.extensions,
    ensures
        udtf_sections(both).flatten() == udtf_sections(p).flatten() + udtf_sections(q).flatten(),
        type_sections(both).flatten() == type_sections(p).flatten() + type_sections(q).flatten(),
        operator_sections(both).flatten() == operator_sections(p).flatten() + operator_sections(
            q,
        ).flatten(),
        cast_sections(both).flatten() == cast_sections(p).flatten() + cast_sections(q).flatten(),
        pattern_sections(both).flatten() == pattern_sections(p).flatten() + pattern_sections(
            q,
        ).flatten(),
        index_sections(both).flatten() == index_sections(p).flatten() + index_sections(q).flatten(),
        window_sections(both).flatten() == window_sections(p).flatten() + window_sections(
            q,
        ).flatten(),
        catalog_sections(both).flatten() == catalog_sections(p).flatten() + catalog_sections(
            q,
        ).flatten(),
{
    assert(udtf_sections(both) =~= udtf_sections(p) + udtf_sections(q));
    assert(type_sections(both) =~= type_sections(p) + type_sections(q));
    assert(operator_sections(both) =~= operator_sections(p) + operator_sections(q));
    assert(cast_sections(both) =~= cast_sections(p) + cast_sections(q));
    assert(pattern_sections(both) =~= pattern_sections(p) + pattern_sections(q));
    assert(index_sections(both) =~= index_sections(p) + index_sections(q));
    assert(window_sections(both) =~= window_sections(p) + window_sections(q));
    assert(catalog_sections(both) =~= catalog_sections(p) + catalog_sections(q));
    lemma_flatten_concat(udtf_sections(p), udtf_sections(q));
    lemma_flatten_concat(type_sections(p), type_sections(q));
    lemma_flatten_concat(operator_sections(p), operator_sections(q));
    lemma_flatten_concat(cast_sections(p), cast_sections(q));
    lemma_flatten_concat(pattern_sections(p), pattern_sections(q));
    lemma_flatten_concat(index_sections(p), index_sections(q));
    lemma_flatten_concat(window_sections(p), window_sections(q));
    lemma_flatten_concat(catalog_sections(p), catalog_sections(q));
}

/// Every table function, column type, operator, cast rewrite, token rewrite and
/// spatial index of an extension is listed in its module.
pub proof fn law_every_item_is_listed(plan: BridgePlanView, e: int)
    requires
        0 <= e < plan.extensions.len(),
    ensures
        ({
            let ext = plan.extensions[e];
            &&& forall|j: int|
                0 <= j < ext.table_functions.len() ==> occurs_in(
                    udtf_entry(#[trigger] ext.table_functions[j]),
                    table_functions_text(plan),
                )
            &&& forall|j: int|
                0 <= j < ext.column_types.len() ==> occurs_in(
                    type_entry(#[trigger] ext.column_types[j]),
                    types_text(plan),
                )
            &&& forall|j: int|
                0 <= j < ext.operators.len() ==> occurs_in(
                    operator_entry(#[trigger] ext.operators[j]),
                    operators_text(plan),
                )
            &&& forall|j: int|
                0 <= j < ext.cast_rewrites.len() ==> occurs_in(
                    cast_entry(#[trigger] ext.cast_rewrites[j]),
                    casts_text(plan),
                )
            &&& forall|j: int|
                0 <= j < ext.preprocessor_patterns.len() ==> occurs_in(
                    pattern_entry(#[trigger] ext.preprocessor_patterns[j]),
                    preprocessors_text(plan),
                )
            &&& forall|j: int|
                0 <= j < ext.spatial_indexes.len() ==> occurs_in(
                    index_entry(#[trigger] ext.spatial_indexes[j]),
                    spatial_indexes_text(plan),
                )
        }),
{
    let ext = plan.extensions[e];
    let heading = extension_heading(ext.name);
    assert forall|j: int| 0 <= j < ext.table_functions.len() implies occurs_in(
        udtf_entry(#[trigger] ext.table_functions[j]),
        table_functions_text(plan),
    ) by {
        let all = udtf_sections(plan);
        assert(all[e] == udtf_section(ext));
        lemma_entry_occurs(all, e, heading, udtf_entries(ext), j);
        lemma_ends_in_udtf_sections(plan, udtf_entries(ext)[j]);
    }
    assert forall|j: int| 0 <= j < ext.column_types.len() implies occurs_in(
        type_entry(#[trigger] ext.column_types[j]),
        types_text(plan),
    ) by {
        let all = type_sections(plan);
        assert(all[e] == type_section(ext));
        lemma_entry_occurs(all, e, heading, type_entries(ext), j);
        let before = choose|before: Text| types_text(plan) == before + all.flatten();
        lemma_occurs_in_tail(type_entries(ext)[j], before, all.flatten(), types_text(plan));
    }
    assert forall|j: int| 0 <= j < ext.operators.len() implies occurs_in(
        operator_entry(#[trigger] ext.operators[j]),
        operators_text(plan),
    ) by {
        let all = operator_sections(plan);
        assert(all[e] == operator_section(ext));
        lemma_entry_occurs(all, e, heading, operator_entries(ext), j);
        lemma_occurs_prepend(operator_entries(ext)[j], HEADER@ + OPERATORS_HEAD@, all.flatten());
    }
    assert forall|j: int| 0 <= j < ext.cast_rewrites.len() implies occurs_in(
        cast_entry(#[trigger] ext.cast_rewrites[j]),
        casts_text(plan),
    ) by {
        let all = cast_sections(plan);
        assert(all[e] == cast_section(ext));
        lemma_entry_occurs(all, e, heading, cast_entries(ext), j);
        let before = choose|before: Text| casts_text(plan) == before + all.flatten();
        lemma_occurs_in_tail(cast_entries(ext)[j], before, all.flatten(), casts_text(plan));
    }
    assert forall|j: int| 0 <= j < ext.preprocessor_patterns.len() implies occurs_in(
        pattern_entry(#[trigger] ext.preprocessor_patterns[j]),
        preprocessors_text(plan),
    ) by {
        let all = pattern_sections(plan);
        assert(all[e] == pattern_section(ext));
        lemma_entry_occurs(all, e, heading, pattern_entries(ext), j);
        lemma_occurs_prepend(
            pattern_entries(ext)[j],
            HEADER@ + PREPROCESSORS_HEAD@,
            all.flatten(),
        );
    }
    assert forall|j: int| 0 <= j < ext.spatial_indexes.len() implies occurs_in(
        index_entry(#[trigger] ext.spatial_indexes[j]),
        spatial_indexes_text(plan),
    ) by {
        let all = index_sections(plan);
        assert(all[e] == index_section(ext));
        lemma_entry_occurs(all, e, heading, index_entries(ext), j);
        lemma_ends_in_index_sections(plan, index_entries(ext)[j]);
    }
}

proof fn lemma_ends_in_udtf_sections(plan: BridgePlanView, x: Text)
    requires
        occurs_in(x, udtf_sections(plan).flatten()),
    ensures
        occurs_in(x, table_functions_text(plan)),
{
    let tail = udtf_sections(plan).flatten();
    let before = choose|before: Text| table_functions_text(plan) == before + tail;
    lemma_occurs_in_tail(x, before, tail, table_functions_text(plan));
}

proof fn lemma_ends_in_index_sections(plan: BridgePlanView, x: Text)
    requires
        occurs_in(x, index_sections(plan).flatten()),
    ensures
        occurs_in(x, spatial_indexes_text(plan)),
{
    let tail = index_sections(plan).flatten();
    let before = choose|before: Text| spatial_indexes_text(plan) == before + tail;
    lemma_occurs_in_tail(x, before, tail, spatial_indexes_text(plan));
}

} // verus!
