//! What the emitted files have in common.

use vstd::prelude::*;

use crate::names::{datatype_expr, type_name_to_datatype_expr};
use crate::plan::{views, Extension};
use crate::signatures::Signature;
use crate::templates::header::HEADER;
use crate::text::{join, join_texts, Text};
use crate::walk::{map_texts, refs};

verus! {

/// The line that opens the listing of one extension.
pub open spec fn extension_heading(name: Text) -> Text {
    "// === extension: "@ + name + " ===\n"@
}

/// The constructor expressions of the parameters, separated by commas.
pub open spec fn datatype_list(sig: Signature) -> Text {
    join(Seq::new(sig.len(), |i: int| datatype_expr(sig[i])), ", "@)
}

/// The lines that every generated source file starts with.
pub fn generated_header() -> (r: String)
    ensures
        r@ == HEADER@,
{
    HEADER.to_owned()
}

/// The line that opens the listing of one extension.
pub fn extension_heading_text(ext: &Extension) -> (r: String)
    ensures
        r@ == extension_heading(ext@.name),
{
    let mut out = "// === extension: ".to_owned();
    out.append(ext.name.as_str());
    out.append(" ===\n");
    out
}

fn datatype_text(t: &String) -> (r: String)
    ensures
        r@ == datatype_expr(t@),
{
    type_name_to_datatype_expr(t.as_str()).to_owned()
}

/// The constructor expressions of the parameters, separated by commas.
pub fn datatype_list_text(sig: &Vec<String>) -> (r: String)
    ensures
        r@ == datatype_list(views(sig@)),
{
    let ghost types = views(sig@);
    let exprs = map_texts(
        &refs(sig),
        datatype_text,
        Ghost(Seq::new(types.len(), |i: int| datatype_expr(types[i]))),
    );
    join_texts(&exprs, ", ")
}

} // verus!
