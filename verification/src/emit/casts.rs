//! The cast module of a bridge: identity casts between bytes and each published
//! type name.

use vstd::prelude::*;

use crate::emit::shared::{extension_heading, extension_heading_text, generated_header};
use crate::emit::types::{registered_names, registered_type_names};
use crate::plan::{BridgePlan, BridgePlanView, CastRewrite, CastRewriteView, Extension, ExtensionView};
use crate::templates::casts::{CASTS_HEAD, CASTS_LISTING, CASTS_RUNTIME};
use crate::templates::header::HEADER;
use crate::text::{concat_texts, literal, literal_text, Text};
use crate::walk::{map_texts, refs};

verus! {

/// The registration of the casts of a type.
pub open spec fn cast_line(quoted_name: Text) -> Text {
    "    register_identity_cast(con, "@ + quoted_name + ");\n"@
}

/// The registrations of all casts: one per registered type, in the same order.
pub open spec fn cast_lines(plan: BridgePlanView) -> Seq<Text> {
    Seq::new(registered_names(plan).len(), |i: int| cast_line(literal(registered_names(plan)[i])))
}

/// The entry of one rewrite in the listing.
pub open spec fn cast_entry(c: CastRewriteView) -> Text {
    "// CAST(<"@ + c.source_kind + "> AS "@ + c.target_type + ") → "@ + c.function_name
        + " (hint: "@ + c.source_fn_hint + ")\n"@
}

/// The entries of one extension.
pub open spec fn cast_entries(ext: ExtensionView) -> Seq<Text> {
    Seq::new(ext.cast_rewrites.len(), |i: int| cast_entry(ext.cast_rewrites[i]))
}

/// The listing of one extension.
pub open spec fn cast_section(ext: ExtensionView) -> Text {
    extension_heading(ext.name) + cast_entries(ext).flatten()
}

/// The listings of all extensions, in order.
pub open spec fn cast_sections(plan: BridgePlanView) -> Seq<Text> {
    Seq::new(plan.extensions.len(), |i: int| cast_section(plan.extensions[i]))
}

/// The cast module for `plan`, up to its listing.
pub open spec fn cast_code(plan: BridgePlanView) -> Text {
    HEADER@ + CASTS_HEAD@ + cast_lines(plan).flatten() + CASTS_RUNTIME@ + CASTS_LISTING@
}

/// The cast module for `plan`.
pub open spec fn casts_text(plan: BridgePlanView) -> Text {
    cast_code(plan) + cast_sections(plan).flatten()
}

/// The registration of the casts of a type.
pub fn cast_line_text(quoted_name: &str) -> (r: String)
    ensures
        r@ == cast_line(quoted_name@),
{
    let mut out = "    register_identity_cast(con, ".to_owned();
    out.append(quoted_name);
    out.append(");\n");
    out
}

fn quoted_cast_line(name: &String) -> (r: String)
    ensures
        r@ == cast_line(literal(name@)),
{
    cast_line_text(literal_text(name.as_str()).as_str())
}

/// The entry of one rewrite in the listing.
pub fn cast_entry_text(c: &CastRewrite) -> (r: String)
    ensures
        r@ == cast_entry(c@),
{
    let mut out = "// CAST(<".to_owned();
    out.append(c.source_kind.as_str());
    out.append("> AS ");
    out.append(c.target_type.as_str());
    out.append(") → ");
    out.append(c.function_name.as_str());
    out.append(" (hint: ");
    out.append(c.source_fn_hint.as_str());
    out.append(")\n");
    out
}

/// The listing of one extension.
pub fn cast_section_text(ext: &Extension) -> (r: String)
    ensures
        r@ == cast_section(ext@),
{
    let mut out = extension_heading_text(ext);
    let entries = map_texts(&refs(&ext.cast_rewrites), cast_entry_text, Ghost(cast_entries(ext@)));
    out.append(concat_texts(&entries).as_str());
    out
}

/// The cast module for `plan`: every registered type gets its identity casts.
pub fn casts_rs(plan: &BridgePlan) -> (r: String)
    ensures
        r@ == casts_text(plan@),
{
    let mut s = generated_header();
    s.append(CASTS_HEAD);
    let names = registered_type_names(plan);
    let lines = map_texts(&refs(&names), quoted_cast_line, Ghost(cast_lines(plan@)));
    s.append(concat_texts(&lines).as_str());
    s.append(CASTS_RUNTIME);
    s.append(CASTS_LISTING);
    let sections = map_texts(
        &refs(&plan.extensions),
        cast_section_text,
        Ghost(cast_sections(plan@)),
    );
    s.append(concat_texts(&sections).as_str());
    s
}

} // verus!
