//! What holds of the spatial indexes that a bridge registers.

use vstd::prelude::*;

use crate::capabilities::has_flag;
use crate::emit::shared::extension_heading;
use crate::emit::spatial_indexes::{
    build_line, envelope_line, has_primary, index_block, index_blocks, index_entries, index_entry,
    index_heading, index_lines, index_section, index_sections, knn_line, primary_index,
    spatial_index_code, spatial_indexes_text, within_distance_line,
};
use crate::laws::naming::lemma_signed_decimal_no_break;
use crate::lines::{
    ends_line, lemma_flatten_empty, lemma_no_break_concat, lemma_picked_concat,
    lemma_picked_flatten, lemma_picked_line, lines_with, no_break, picked,
};
use crate::names::fn_prefix;
use crate::occurrence::{lemma_occurs_append, lemma_occurs_prepend, lemma_part_occurs};
use crate::plan::{BridgePlanView, ExtensionView, SpatialIndexView};
use crate::templates::header::HEADER;
use crate::templates::spatial_indexes::{
    SPATIAL_BUILD_RUNTIME, SPATIAL_INDEXES_HEAD, SPATIAL_QUERY_RUNTIME, SPATIAL_SHARED_RUNTIME,
};
use crate::text::{literal, occurs_in, signed_decimal, Text};

verus! {

/// The primary index is the first one that declares capabilities; there is none
/// exactly where no index declares any.
pub proof fn law_primary_index(indexes: Seq<SpatialIndexView>)
    ensures
        match primary_index(indexes) {
            Some(ix) => exists|k: int|
                0 <= k < indexes.len() && #[trigger] indexes[k] == ix && ix.capabilities_json is Some
                    && (forall|j: int| 0 <= j < k ==> (#[trigger] indexes[j]).capabilities_json is None),
            None => forall|j: int|
                0 <= j < indexes.len() ==> (#[trigger] indexes[j]).capabilities_json is None,
        },
    decreases indexes.len(),
{
    if indexes.len() > 0 && indexes[0].capabilities_json is None {
        let rest = indexes.drop_first();
        law_primary_index(rest);
        assert(forall|j: int| 0 < j < indexes.len() ==> #[trigger] indexes[j] == rest[j - 1]);
        match primary_index(rest) {
            Some(ix) => {
                let k = choose|k: int|
                    0 <= k < rest.len() && #[trigger] rest[k] == ix && ix.capabilities_json is Some
                        && (forall|j: int|
                        0 <= j < k ==> (#[trigger] rest[j]).capabilities_json is None);
                assert(indexes[k + 1] == ix);
            },
            None => {},
        }
    }
}

/// An index offers the nearest-neighbour query and the within-distance query
/// exactly where its capabilities set the flag, and the build aggregate and the
/// envelope query always.
pub proof fn law_queries_follow_capabilities(prefix: Text, name: Text, caps: Text)
    ensures
        index_lines(prefix, name, caps) == build_line(prefix, name) + envelope_line(prefix) + (
        if has_flag(caps, "knn"@) {
            knn_line(prefix)
        } else {
            Seq::empty()
        }) + (if has_flag(caps, "within_distance_wkb"@) {
            within_distance_line(prefix)
        } else {
            Seq::empty()
        }),
{
    let always = build_line(prefix, name) + envelope_line(prefix);
    assert(always + Seq::<char>::empty() =~= always);
    let with_knn = always + knn_line(prefix);
    assert(with_knn + Seq::<char>::empty() =~= with_knn);
}

/// An extension without a primary index registers no index function.
pub proof fn law_no_index_no_functions(ext: ExtensionView)
    requires
        forall|j: int|
            0 <= j < ext.spatial_indexes.len() ==> (
            #[trigger] ext.spatial_indexes[j]).capabilities_json is None,
    ensures
        index_block(ext) == Seq::<char>::empty(),
{
    law_primary_index(ext.spatial_indexes);
    match primary_index(ext.spatial_indexes) {
        Some(ix) => {
            let k = choose|k: int|
                0 <= k < ext.spatial_indexes.len() && #[trigger] ext.spatial_indexes[k] == ix;
            assert(false);
        },
        None => {},
    }
}

/// Every extension with a primary index has its index functions registered.
pub proof fn law_index_is_registered(plan: BridgePlanView, i: int)
    requires
        0 <= i < plan.extensions.len(),
        primary_index(plan.extensions[i].spatial_indexes) is Some,
    ensures
        ({
            let ext = plan.extensions[i];
            let ix = primary_index(ext.spatial_indexes)->0;
            occurs_in(
                index_lines(fn_prefix(ext.name), literal(ix.name), ix.capabilities_json->0),
                spatial_indexes_text(plan),
            )
        }),
{
    let ext = plan.extensions[i];
    law_primary_index(ext.spatial_indexes);
    let x = index_block(ext);
    let blocks = index_blocks(plan);
    let head = HEADER@ + SPATIAL_INDEXES_HEAD@;
    assert(has_primary(plan));
    assert(blocks[i] == x);
    lemma_part_occurs(blocks, i);
    lemma_occurs_prepend(x, head, blocks.flatten());
    let t = head + blocks.flatten();
    lemma_occurs_append(x, t, SPATIAL_BUILD_RUNTIME@);
    lemma_occurs_append(x, t + SPATIAL_BUILD_RUNTIME@, SPATIAL_QUERY_RUNTIME@);
    let u = t + SPATIAL_BUILD_RUNTIME@ + SPATIAL_QUERY_RUNTIME@;
    lemma_occurs_append(x, u, SPATIAL_SHARED_RUNTIME@);
    lemma_occurs_append(x, u + SPATIAL_SHARED_RUNTIME@, index_heading());
    lemma_occurs_append(
        x,
        u + SPATIAL_SHARED_RUNTIME@ + index_heading(),
        index_sections(plan).flatten(),
    );
}

/// The primary indexes of two extensions agree: both have none, or they have the
/// same name and the same capabilities.
pub open spec fn same_primary(a: ExtensionView, b: ExtensionView) -> bool {
    match (primary_index(a.spatial_indexes), primary_index(b.spatial_indexes)) {
        (Some(x), Some(y)) => x.name == y.name && x.capabilities_json == y.capabilities_json,
        (None, None) => true,
        _ => false,
    }
}

/// An index whose name and capabilities hold no line break.
pub open spec fn is_one_line(ix: SpatialIndexView) -> bool {
    no_break(ix.name) && match ix.capabilities_json {
        Some(caps) => no_break(caps),
        None => true,
    }
}

/// Each listed index is one line, and no registration.
proof fn lemma_index_entry_line(ix: SpatialIndexView)
    requires
        is_one_line(ix),
    ensures
        lines_with(index_entry(ix), "    register_"@) == Seq::<Text>::empty(),
        ends_line(index_entry(ix)),
{
    reveal_strlit("// index `");
    reveal_strlit("` type_id=");
    reveal_strlit(" caps=");
    reveal_strlit("(none)");
    reveal_strlit("\n");
    reveal_strlit("    register_");
    let start = "    register_"@;
    let caps = match ix.capabilities_json {
        Some(caps) => caps,
        None => "(none)"@,
    };
    let id = signed_decimal(ix.type_id as int);
    let a = "// index `"@ + ix.name + "` type_id="@;
    let l = a + id + " caps="@ + caps;
    lemma_signed_decimal_no_break(ix.type_id as int);
    lemma_no_break_concat("// index `"@, ix.name);
    lemma_no_break_concat("// index `"@ + ix.name, "` type_id="@);
    lemma_no_break_concat(a, id);
    lemma_no_break_concat(a + id, " caps="@);
    lemma_no_break_concat(a + id + " caps="@, caps);
    assert(index_entry(ix) =~= l.push('\n'));
    assert(l[0] == '/');
    assert(!start.is_prefix_of(l)) by {
        if start.is_prefix_of(l) {
            assert(l.subrange(0, start.len() as int)[0] == start[0]);
        }
    }
    lemma_picked_line(l, |t: Text| start.is_prefix_of(t));
}

/// The listing of an extension registers nothing beyond what its heading holds.
proof fn lemma_index_section_lines(ext: ExtensionView)
    requires
        forall|j: int|
            0 <= j < ext.spatial_indexes.len() ==> is_one_line(#[trigger] ext.spatial_indexes[j]),
    ensures
        lines_with(index_section(ext), "    register_"@) == lines_with(
            extension_heading(ext.name),
            "    register_"@,
        ),
        ends_line(index_section(ext)),
{
    let start = "    register_"@;
    let p = |t: Text| start.is_prefix_of(t);
    let entries = index_entries(ext);
    let none = Seq::new(entries.len(), |j: int| picked(entries[j], p));
    assert forall|j: int| 0 <= j < entries.len() implies ends_line(#[trigger] entries[j]) && none[j]
        == Seq::<Text>::empty() by {
        lemma_index_entry_line(ext.spatial_indexes[j]);
    }
    lemma_picked_flatten(entries, p);
    lemma_flatten_empty(none);
    reveal_strlit(" ===\n");
    let heading = extension_heading(ext.name);
    assert(heading.last() == '\n');
    lemma_picked_concat(heading, entries.flatten(), p);
    assert(picked(heading, p) + Seq::<Text>::empty() =~= picked(heading, p));
}

/// Indexes other than the primary one of their extension change nothing that is
/// registered: two plans with the same extension names and the same primary
/// indexes give the same code, and their modules have the same registration lines.
/// The listed indexes are taken to hold no line break.
pub proof fn law_only_primary_indexes_register(p: BridgePlanView, q: BridgePlanView)
    requires
        p.extensions.len() == q.extensions.len(),
        forall|i: int|
            0 <= i < p.extensions.len() ==> (#[trigger] p.extensions[i]).name
                == q.extensions[i].name && same_primary(p.extensions[i], q.extensions[i]),
        forall|i: int, j: int|
            0 <= i < p.extensions.len() && 0 <= j < p.extensions[i].spatial_indexes.len()
                ==> is_one_line(#[trigger] p.extensions[i].spatial_indexes[j]),
        forall|i: int, j: int|
            0 <= i < q.extensions.len() && 0 <= j < q.extensions[i].spatial_indexes.len()
                ==> is_one_line(#[trigger] q.extensions[i].spatial_indexes[j]),
    ensures
        spatial_index_code(p) == spatial_index_code(q),
        lines_with(spatial_indexes_text(p), "    register_"@) == lines_with(
            spatial_indexes_text(q),
            "    register_"@,
        ),
{
    let start = "    register_"@;
    let pick = |t: Text| start.is_prefix_of(t);
    lemma_same_index_code(p, q);
    lemma_index_code_ends_line(p);
    let ps = index_sections(p);
    let qs = index_sections(q);
    assert forall|i: int| 0 <= i < ps.len() implies ends_line(#[trigger] ps[i]) && ends_line(qs[i])
        && picked(ps[i], pick) == picked(qs[i], pick) by {
        lemma_index_section_lines(p.extensions[i]);
        lemma_index_section_lines(q.extensions[i]);
        assert(p.extensions[i].name == q.extensions[i].name);
    }
    lemma_picked_flatten(ps, pick);
    assert forall|i: int| 0 <= i < qs.len() implies ends_line(#[trigger] qs[i]) by {
        assert(ends_line(ps[i]) && ends_line(qs[i]));
    }
    lemma_picked_flatten(qs, pick);
    assert(Seq::new(ps.len(), |i: int| picked(ps[i], pick)) =~= Seq::new(
        qs.len(),
        |i: int| picked(qs[i], pick),
    ));
    lemma_picked_concat(spatial_index_code(p), ps.flatten(), pick);
    lemma_picked_concat(spatial_index_code(q), qs.flatten(), pick);
}

proof fn lemma_same_index_code(p: BridgePlanView, q: BridgePlanView)
    requires
        p.extensions.len() == q.extensions.len(),
        forall|i: int|
            0 <= i < p.extensions.len() ==> (#[trigger] p.extensions[i]).name
                == q.extensions[i].name && same_primary(p.extensions[i], q.extensions[i]),
    ensures
        spatial_index_code(p) == spatial_index_code(q),
{
    assert forall|i: int| 0 <= i < p.extensions.len() implies #[trigger] index_blocks(p)[i]
        == index_blocks(q)[i] by {
        assert(p.extensions[i].name == q.extensions[i].name);
        assert(same_primary(p.extensions[i], q.extensions[i]));
    }
    assert(index_blocks(p) =~= index_blocks(q));
    if has_primary(p) {
        let i = choose|i: int|
            0 <= i < p.extensions.len() && primary_index(
                (#[trigger] p.extensions[i]).spatial_indexes,
            ) is Some;
        assert(primary_index(q.extensions[i].spatial_indexes) is Some);
    }
    if has_primary(q) {
        let i = choose|i: int|
            0 <= i < q.extensions.len() && primary_index(
                (#[trigger] q.extensions[i]).spatial_indexes,
            ) is Some;
        assert(primary_index(p.extensions[i].spatial_indexes) is Some);
    }
}

proof fn lemma_index_code_ends_line(plan: BridgePlanView)
    ensures
        ends_line(spatial_index_code(plan)),
{
    reveal_strlit(
        "\n// ----------------------------------------------------------------------\n// Spatial indexes the shim advertises.\n// ----------------------------------------------------------------------\n\n",
    );
    assert(index_heading().last() == '\n');
    assert(spatial_index_code(plan).last() == index_heading().last());
}

} // verus!
