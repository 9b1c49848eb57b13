//! The column-type module of a bridge: each published type name as an alias of
//! the byte type.

use vstd::prelude::*;

use crate::emit::shared::{extension_heading, extension_heading_text, generated_header};
use crate::order::{insert_sorted, sorted_names};
use crate::plan::{
    views, BridgePlan, BridgePlanView, ColumnType, ColumnTypeView, Extension, ExtensionView,
};
use crate::templates::header::HEADER;
use crate::templates::types::{TYPES_HEAD, TYPES_RUNTIME};
use crate::text::{
    concat_texts, literal, literal_text, pad_left, pad_left_text, pad_right, pad_right_text,
    quoted_list, quoted_list_text, signed_decimal, signed_text, trim_text, trimmed, Text,
};
use crate::walk::{all_column_types, every_column_type, map_texts, refs};

verus! {

/// The names of `types` without surrounding white space, blank ones left out.
pub open spec fn named_types(types: Seq<ColumnTypeView>) -> Seq<Text> {
    Seq::new(types.len(), |i: int| trimmed(types[i].name)).filter(|n: Text| n.len() > 0)
}

/// The type names that are registered: those of all extensions, in ascending
/// order, each once.
pub open spec fn registered_names(plan: BridgePlanView) -> Seq<Text> {
    sorted_names(named_types(all_column_types(plan)))
}

/// The registration of a type.
pub open spec fn type_line(quoted_name: Text) -> Text {
    "    register_type(con, "@ + quoted_name + ");\n"@
}

/// The registrations of all types.
pub open spec fn type_lines(plan: BridgePlanView) -> Seq<Text> {
    Seq::new(registered_names(plan).len(), |i: int| type_line(literal(registered_names(plan)[i])))
}

/// The entry of a type in the listing, from its record and its two cast lists.
pub open spec fn type_entry_of(
    type_id: int,
    name: Text,
    storage_size: int,
    cast_from: Text,
    cast_to: Text,
) -> Text {
    "// type_id="@ + pad_left(signed_decimal(type_id), 5) + " name="@ + pad_right(name, 24)
        + " size="@ + pad_left(signed_decimal(storage_size), 4) + "  cast_from="@ + cast_from
        + "  cast_to="@ + cast_to + "\n"@
}

/// The entry of one type in the listing.
pub open spec fn type_entry(ct: ColumnTypeView) -> Text {
    type_entry_of(
        ct.type_id as int,
        ct.name,
        ct.storage_size as int,
        quoted_list(ct.cast_from),
        quoted_list(ct.cast_to),
    )
}

/// The entries of one extension.
pub open spec fn type_entries(ext: ExtensionView) -> Seq<Text> {
    Seq::new(ext.column_types.len(), |i: int| type_entry(ext.column_types[i]))
}

/// The listing of one extension.
pub open spec fn type_section(ext: ExtensionView) -> Text {
    extension_heading(ext.name) + type_entries(ext).flatten()
}

/// The listings of all extensions, in order.
pub open spec fn type_sections(plan: BridgePlanView) -> Seq<Text> {
    Seq::new(plan.extensions.len(), |i: int| type_section(plan.extensions[i]))
}

/// The column-type module for `plan`.
pub open spec fn types_text(plan: BridgePlanView) -> Text {
    HEADER@ + TYPES_HEAD@ + type_lines(plan).flatten() + TYPES_RUNTIME@
        + type_sections(plan).flatten()
}

proof fn lemma_named_types_push(types: Seq<ColumnTypeView>, ct: ColumnTypeView)
    ensures
        named_types(types.push(ct)) == (if trimmed(ct.name).len() > 0 {
            named_types(types).push(trimmed(ct.name))
        } else {
            named_types(types)
        }),
{
    let p = |n: Text| n.len() > 0;
    let names = Seq::new(types.len(), |i: int| trimmed(types[i].name));
    let longer = types.push(ct);
    assert(Seq::new(longer.len(), |i: int| trimmed(longer[i].name)) =~= names.push(
        trimmed(ct.name),
    ));
    names.lemma_filter_push(trimmed(ct.name), p);
}

/// The type names that are registered: those of all extensions, in ascending
/// order, each once.
pub fn registered_type_names(plan: &BridgePlan) -> (r: Vec<String>)
    ensures
        views(r@) == registered_names(plan@),
{
    let types = every_column_type(plan);
    let ghost all = views(types@);
    let mut names: Vec<String> = Vec::new();
    let mut i: usize = 0;
    proof {
        reveal(Seq::filter);
        assert(named_types(all.take(0)) =~= Seq::empty());
        assert(views(names@) =~= Seq::empty());
    }
    while i < types.len()
        invariant
            i <= types@.len(),
            all == views(types@),
            views(names@) == sorted_names(named_types(all.take(i as int))),
        decreases types@.len() - i,
    {
        let name = trim_text(types[i].name.as_str());
        proof {
            let before = named_types(all.take(i as int));
            lemma_named_types_push(all.take(i as int), all[i as int]);
            assert(all.take(i + 1) =~= all.take(i as int).push(all[i as int]));
            assert(before.push(name@).drop_last() =~= before);
        }
        if !name.as_str().is_empty() {
            insert_sorted(&mut names, name);
        }
        i = i + 1;
    }
    assert(all.take(i as int) =~= all);
    names
}

/// The registration of a type.
pub fn type_line_text(quoted_name: &str) -> (r: String)
    ensures
        r@ == type_line(quoted_name@),
{
    let mut out = "    register_type(con, ".to_owned();
    out.append(quoted_name);
    out.append(");\n");
    out
}

fn quoted_type_line(name: &String) -> (r: String)
    ensures
        r@ == type_line(literal(name@)),
{
    type_line_text(literal_text(name.as_str()).as_str())
}

/// The entry of a type in the listing, from its record and its two cast lists.
pub fn type_entry_from(
    type_id: i64,
    name: &str,
    storage_size: i64,
    cast_from: &str,
    cast_to: &str,
) -> (r: String)
    ensures
        r@ == type_entry_of(type_id as int, name@, storage_size as int, cast_from@, cast_to@),
{
    let mut out = "// type_id=".to_owned();
    out.append(pad_left_text(signed_text(type_id).as_str(), 5).as_str());
    out.append(" name=");
    out.append(pad_right_text(name, 24).as_str());
    out.append(" size=");
    out.append(pad_left_text(signed_text(storage_size).as_str(), 4).as_str());
    out.append("  cast_from=");
    out.append(cast_from);
    out.append("  cast_to=");
    out.append(cast_to);
    out.append("\n");
    out
}

/// The entry of one type in the listing.
pub fn type_entry_text(ct: &ColumnType) -> (r: String)
    ensures
        r@ == type_entry(ct@),
{
    let from = quoted_list_text(&ct.cast_from);
    let to = quoted_list_text(&ct.cast_to);
    type_entry_from(ct.type_id, ct.name.as_str(), ct.storage_size, from.as_str(), to.as_str())
}

/// The listing of one extension.
pub fn type_section_text(ext: &Extension) -> (r: String)
    ensures
        r@ == type_section(ext@),
{
    let mut out = extension_heading_text(ext);
    let entries = map_texts(&refs(&ext.column_types), type_entry_text, Ghost(type_entries(ext@)));
    out.append(concat_texts(&entries).as_str());
    out
}

/// The column-type module for `plan`: every published type name is registered
/// once as an alias of the byte type.
pub fn types_rs(plan: &BridgePlan) -> (r: String)
    ensures
        r@ == types_text(plan@),
{
    let mut s = generated_header();
    s.append(TYPES_HEAD);
    let names = registered_type_names(plan);
    let lines = map_texts(&refs(&names), quoted_type_line, Ghost(type_lines(plan@)));
    s.append(concat_texts(&lines).as_str());
    s.append(TYPES_RUNTIME);
    let sections = map_texts(
        &refs(&plan.extensions),
        type_section_text,
        Ghost(type_sections(plan@)),
    );
    s.append(concat_texts(&sections).as_str());
    s
}

} // verus!
