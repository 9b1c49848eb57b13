//! What holds of the types and casts that a bridge registers.

use vstd::prelude::*;

use crate::emit::casts::{
    cast_code, cast_entries, cast_entry, cast_line, cast_lines, cast_section, cast_sections,
    casts_text,
};
use crate::emit::shared::extension_heading;
use crate::emit::types::{
    named_types, registered_names, type_line, type_lines, type_sections, types_text,
};
use crate::laws::naming::law_trimmed;
use crate::lines::{
    ends_line, lemma_flatten_empty, lemma_no_break_concat, lemma_picked_concat,
    lemma_picked_flatten, lemma_picked_line, lines_without, no_break, picked,
};
use crate::occurrence::{lemma_occurs_append, lemma_occurs_prepend, lemma_part_occurs};
use crate::order::{
    ascending, lemma_ascending_unique, lemma_precedes_irreflexive, lemma_sorted_names, precedes,
};
use crate::plan::{BridgePlanView, CastRewriteView, ColumnTypeView, ExtensionView};
use crate::templates::casts::{CASTS_HEAD, CASTS_LISTING, CASTS_RUNTIME};
use crate::templates::header::HEADER;
use crate::templates::types::{TYPES_HEAD, TYPES_RUNTIME};
use crate::text::{is_white_space, literal, occurs_in, trimmed, Text};
use crate::walk::all_column_types;

verus! {

proof fn lemma_named_types_contains(types: Seq<ColumnTypeView>, x: Text)
    ensures
        named_types(types).contains(x) == (x.len() > 0 && exists|i: int|
            0 <= i < types.len() && trimmed((#[trigger] types[i]).name) == x),
{
    let p = |n: Text| n.len() > 0;
    let names = Seq::new(types.len(), |i: int| trimmed(types[i].name));
    let kept = names.filter(p);
    if kept.contains(x) {
        let k = choose|k: int| 0 <= k < kept.len() && kept[k] == x;
        names.lemma_filter_pred(p, k);
        names.lemma_filter_contains_rev(p, x);
        let i = choose|i: int| 0 <= i < names.len() && names[i] == x;
        assert(trimmed(types[i].name) == x);
    }
    if x.len() > 0 && exists|i: int|
        0 <= i < types.len() && trimmed((#[trigger] types[i]).name) == x {
        let i = choose|i: int| 0 <= i < types.len() && trimmed((#[trigger] types[i]).name) == x;
        assert(names[i] == x);
        names.lemma_filter_contains(p, i);
    }
}

/// The registered type names are those that some extension publishes, without
/// surrounding white space and without blank ones; they stand in ascending order
/// and each stands once.
pub proof fn law_registered_type_names(plan: BridgePlanView)
    ensures
        ascending(registered_names(plan)),
        registered_names(plan).no_duplicates(),
        forall|x: Text|
            #[trigger] registered_names(plan).contains(x) == (x.len() > 0 && exists|i: int|
                0 <= i < all_column_types(plan).len() && trimmed(
                    (#[trigger] all_column_types(plan)[i]).name,
                ) == x),
{
    let types = all_column_types(plan);
    let names = registered_names(plan);
    lemma_sorted_names(named_types(types));
    assert forall|i: int, j: int| 0 <= i < names.len() && 0 <= j < names.len() && i
        != j implies names[i] != names[j] by {
        lemma_precedes_irreflexive(names[i]);
        if i < j {
            assert(precedes(names[i], names[j]));
        } else {
            assert(precedes(names[j], names[i]));
        }
    }
    assert forall|x: Text|
        #[trigger] registered_names(plan).contains(x) == (x.len() > 0 && exists|i: int|
            0 <= i < types.len() && trimmed((#[trigger] types[i]).name) == x) by {
        lemma_named_types_contains(types, x);
    }
}

/// Which type names are registered, and in what order, depends only on which names
/// are published: not on how often, by which extension or in what order.
pub proof fn law_type_names_ignore_publication_order(p: BridgePlanView, q: BridgePlanView)
    requires
        forall|x: Text|
            #[trigger] named_types(all_column_types(p)).contains(x) == named_types(
                all_column_types(q),
            ).contains(x),
    ensures
        registered_names(p) == registered_names(q),
{
    lemma_sorted_names(named_types(all_column_types(p)));
    lemma_sorted_names(named_types(all_column_types(q)));
    assert forall|x: Text| registered_names(p).contains(x) == registered_names(q).contains(x) by {
        assert(registered_names(p).contains(x) == named_types(all_column_types(p)).contains(x));
        assert(registered_names(q).contains(x) == named_types(all_column_types(q)).contains(x));
    }
    lemma_ascending_unique(registered_names(p), registered_names(q));
}

/// No registered type name starts or ends with white space.
pub proof fn law_registered_type_names_are_trimmed(plan: BridgePlanView, i: int)
    requires
        0 <= i < registered_names(plan).len(),
    ensures
        registered_names(plan)[i].len() > 0,
        !is_white_space(registered_names(plan)[i][0]),
        !is_white_space(registered_names(plan)[i].last()),
{
    let x = registered_names(plan)[i];
    law_registered_type_names(plan);
    assert(registered_names(plan).contains(x));
    let k = choose|k: int|
        0 <= k < all_column_types(plan).len() && trimmed(
            (#[trigger] all_column_types(plan)[k]).name,
        ) == x;
    law_trimmed(all_column_types(plan)[k].name);
}

/// The types and the casts are registered for the same names, in the same order.
pub proof fn law_every_type_has_its_casts(plan: BridgePlanView)
    ensures
        type_lines(plan).len() == cast_lines(plan).len(),
        type_lines(plan).len() == registered_names(plan).len(),
        forall|i: int|
            0 <= i < registered_names(plan).len() ==> {
                &&& type_lines(plan)[i] == type_line(literal(#[trigger] registered_names(plan)[i]))
                &&& cast_lines(plan)[i] == cast_line(literal(registered_names(plan)[i]))
            },
{
}

/// Every published type whose name is not blank is registered, and so are its
/// identity casts.
pub proof fn law_type_is_registered(plan: BridgePlanView, i: int)
    requires
        0 <= i < all_column_types(plan).len(),
        trimmed(all_column_types(plan)[i].name).len() > 0,
    ensures
        occurs_in(type_line(literal(trimmed(all_column_types(plan)[i].name))), types_text(plan)),
        occurs_in(cast_line(literal(trimmed(all_column_types(plan)[i].name))), casts_text(plan)),
{
    let name = trimmed(all_column_types(plan)[i].name);
    let names = registered_names(plan);
    law_registered_type_names(plan);
    assert(names.contains(name));
    let k = choose|k: int| 0 <= k < names.len() && names[k] == name;

    let x = type_line(literal(name));
    let head = HEADER@ + TYPES_HEAD@;
    let lines = type_lines(plan);
    assert(lines[k] == x);
    lemma_part_occurs(lines, k);
    lemma_occurs_prepend(x, head, lines.flatten());
    lemma_occurs_append(x, head + lines.flatten(), TYPES_RUNTIME@);
    lemma_occurs_append(
        x,
        head + lines.flatten() + TYPES_RUNTIME@,
        type_sections(plan).flatten(),
    );

    let y = cast_line(literal(name));
    let cast_head = HEADER@ + CASTS_HEAD@;
    let casts = cast_lines(plan);
    assert(casts[k] == y);
    lemma_part_occurs(casts, k);
    lemma_occurs_prepend(y, cast_head, casts.flatten());
    lemma_occurs_append(y, cast_head + casts.flatten(), CASTS_RUNTIME@);
    lemma_occurs_append(y, cast_head + casts.flatten() + CASTS_RUNTIME@, CASTS_LISTING@);
    lemma_occurs_append(y, cast_code(plan), cast_sections(plan).flatten());
}

/// A rewrite without line breaks.
pub open spec fn is_one_line(c: CastRewriteView) -> bool {
    no_break(c.source_kind) && no_break(c.target_type) && no_break(c.function_name) && no_break(
        c.source_fn_hint,
    )
}

/// Each listed rewrite is one line that starts with the same words.
proof fn lemma_cast_entry_line(c: CastRewriteView)
    requires
        is_one_line(c),
    ensures
        lines_without(cast_entry(c), "// CAST(<"@) == Seq::<Text>::empty(),
        ends_line(cast_entry(c)),
{
    reveal_strlit("// CAST(<");
    reveal_strlit("> AS ");
    reveal_strlit(") → ");
    reveal_strlit(" (hint: ");
    reveal_strlit(")\n");
    let start = "// CAST(<"@;
    let l = "// CAST(<"@ + c.source_kind + "> AS "@ + c.target_type + ") → "@ + c.function_name
        + " (hint: "@ + c.source_fn_hint + seq![')'];
    lemma_no_break_concat(start, c.source_kind);
    lemma_no_break_concat(start + c.source_kind, "> AS "@);
    let a = start + c.source_kind + "> AS "@;
    lemma_no_break_concat(a, c.target_type);
    lemma_no_break_concat(a + c.target_type, ") → "@);
    let b = a + c.target_type + ") → "@;
    lemma_no_break_concat(b, c.function_name);
    lemma_no_break_concat(b + c.function_name, " (hint: "@);
    let d = b + c.function_name + " (hint: "@;
    lemma_no_break_concat(d, c.source_fn_hint);
    lemma_no_break_concat(d + c.source_fn_hint, seq![')']);
    assert(cast_entry(c) =~= l.push('\n'));
    assert(start =~= l.subrange(0, start.len() as int));
    lemma_picked_line(l, |t: Text| !start.is_prefix_of(t));
}

/// The listing of an extension is its heading once the rewrites are left out.
proof fn lemma_cast_section_lines(ext: ExtensionView)
    requires
        forall|j: int|
            0 <= j < ext.cast_rewrites.len() ==> is_one_line(#[trigger] ext.cast_rewrites[j]),
    ensures
        lines_without(cast_section(ext), "// CAST(<"@) == lines_without(
            extension_heading(ext.name),
            "// CAST(<"@,
        ),
        ends_line(cast_section(ext)),
{
    let start = "// CAST(<"@;
    let p = |t: Text| !start.is_prefix_of(t);
    let entries = cast_entries(ext);
    let none = Seq::new(entries.len(), |j: int| picked(entries[j], p));
    assert forall|j: int| 0 <= j < entries.len() implies ends_line(#[trigger] entries[j]) && none[j]
        == Seq::<Text>::empty() by {
        lemma_cast_entry_line(ext.cast_rewrites[j]);
    }
    lemma_picked_flatten(entries, p);
    lemma_flatten_empty(none);
    reveal_strlit(" ===\n");
    let heading = extension_heading(ext.name);
    assert(heading.last() == '\n');
    lemma_picked_concat(heading, entries.flatten(), p);
    assert(picked(heading, p) + Seq::<Text>::empty() =~= picked(heading, p));
}

/// Cast rewrites show up as comment lines alone: two plans that differ only in
/// their rewrites give the same cast module once those lines are left out. The
/// rewrites are taken to hold no line break.
pub proof fn law_rewrites_are_comments(p: BridgePlanView, q: BridgePlanView)
    requires
        p.extensions.len() == q.extensions.len(),
        forall|i: int|
            0 <= i < p.extensions.len() ==> (#[trigger] p.extensions[i]).name
                == q.extensions[i].name && p.extensions[i].column_types
                == q.extensions[i].column_types,
        forall|i: int, j: int|
            0 <= i < p.extensions.len() && 0 <= j < p.extensions[i].cast_rewrites.len()
                ==> is_one_line(#[trigger] p.extensions[i].cast_rewrites[j]),
        forall|i: int, j: int|
            0 <= i < q.extensions.len() && 0 <= j < q.extensions[i].cast_rewrites.len()
                ==> is_one_line(#[trigger] q.extensions[i].cast_rewrites[j]),
    ensures
        cast_code(p) == cast_code(q),
        lines_without(casts_text(p), "// CAST(<"@) == lines_without(casts_text(q), "// CAST(<"@),
{
    let start = "// CAST(<"@;
    let pick = |t: Text| !start.is_prefix_of(t);
    assert(Seq::new(p.extensions.len(), |i: int| p.extensions[i].column_types) =~= Seq::new(
        q.extensions.len(),
        |i: int| q.extensions[i].column_types,
    ));
    assert(cast_lines(p) =~= cast_lines(q));
    lemma_cast_code_ends_line(p);
    let ps = cast_sections(p);
    let qs = cast_sections(q);
    assert forall|i: int| 0 <= i < ps.len() implies ends_line(#[trigger] ps[i]) && ends_line(qs[i])
        && picked(ps[i], pick) == picked(qs[i], pick) by {
        lemma_cast_section_lines(p.extensions[i]);
        lemma_cast_section_lines(q.extensions[i]);
        assert(p.extensions[i].name == q.extensions[i].name);
    }
    lemma_picked_flatten(ps, pick);
    assert forall|i: int| 0 <= i < qs.len() implies ends_line(#[trigger] qs[i]) by {
        assert(ends_line(ps[i]) && ends_line(qs[i]));
    }
    lemma_picked_flatten(qs, pick);
    assert(Seq::new(ps.len(), |i: int| picked(ps[i], pick)) =~= Seq::new(
        qs.len(),
        |i: int| picked(qs[i], pick),
    ));
    lemma_picked_concat(cast_code(p), ps.flatten(), pick);
    lemma_picked_concat(cast_code(q), qs.flatten(), pick);
}

proof fn lemma_cast_code_ends_line(plan: BridgePlanView)
    ensures
        ends_line(cast_code(plan)),
{
    reveal_strlit(
        "// ----------------------------------------------------------------------\n// Cast rewrites the shim advertises (for future functional-cast pass).\n// ----------------------------------------------------------------------\n\n",
    );
    assert(CASTS_LISTING@.last() == '\n');
    assert(cast_code(plan).last() == CASTS_LISTING@.last());
}

} // verus!
