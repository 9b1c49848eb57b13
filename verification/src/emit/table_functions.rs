//! The table-function module of a bridge: one registration per table function
//! and alias, with the narrowest recorded signature.

use vstd::prelude::*;

use crate::emit::shared::{
    datatype_list, datatype_list_text, extension_heading, extension_heading_text, generated_header,
};
use crate::plan::{
    views, BridgePlan, BridgePlanView, Extension, ExtensionView, TableFunction, TableFunctionView,
};
use crate::signatures::{
    by_arity, flat_signatures, lemma_by_arity, narrowest, narrowest_first, signature_ref_views,
    Signature,
};
use crate::templates::header::HEADER;
use crate::templates::table_functions::{TABLE_FUNCTIONS_HEAD, TABLE_FUNCTIONS_RUNTIME};
use crate::text::{
    concat_texts, decimal, decimal_text, join, join_texts, literal, literal_text, Text,
};
use crate::walk::{all_table_functions, every_table_function, flat, map_texts, refs};

verus! {

/// The registration of a table function under its own name.
pub open spec fn table_function_line(quoted_name: Text, types: Text) -> Text {
    "    register_table_function(conn, "@ + quoted_name + ", &["@ + types + "]);\n"@
}

/// The registration of the table function `name` under an alias.
pub open spec fn table_function_alias_line(quoted_alias: Text, types: Text, name: Text) -> Text {
    "    register_table_function(conn, "@ + quoted_alias + ", &["@ + types + "]); // alias of "@
        + name + "\n"@
}

/// The note on an overload that is not registered.
pub open spec fn dropped_line(name: Text, sig: Signature) -> Text {
    "    // overload `"@ + name + "("@ + join(sig, ", "@)
        + ")` not registerable (DuckDB C API: one positional arity per table-function name)\n"@
}

/// The parameter types of the registered signature.
pub open spec fn registered_types(tf: TableFunctionView) -> Text {
    datatype_list(narrowest(tf.param_signatures))
}

/// The signatures that are not registered, narrower ones first.
pub open spec fn dropped_signatures(tf: TableFunctionView) -> Seq<Signature> {
    if tf.param_signatures.len() == 0 {
        Seq::empty()
    } else {
        by_arity(tf.param_signatures).skip(1)
    }
}

/// The alias registrations of `tf`, in order.
pub open spec fn table_function_alias_lines(tf: TableFunctionView) -> Seq<Text> {
    Seq::new(
        tf.aliases.len(),
        |i: int|
            table_function_alias_line(
                literal(tf.aliases[i]),
                registered_types(tf),
                tf.canonical_name,
            ),
    )
}

/// The notes on the overloads of `tf` that are not registered.
pub open spec fn dropped_lines(tf: TableFunctionView) -> Seq<Text> {
    Seq::new(
        dropped_signatures(tf).len(),
        |i: int| dropped_line(tf.canonical_name, dropped_signatures(tf)[i]),
    )
}

/// All registration lines for the table function `tf`.
pub open spec fn table_function_block(tf: TableFunctionView) -> Text {
    table_function_line(literal(tf.canonical_name), registered_types(tf))
        + table_function_alias_lines(tf).flatten() + dropped_lines(tf).flatten()
}

/// The blocks of all table functions, in order.
pub open spec fn table_function_blocks(plan: BridgePlanView) -> Seq<Text> {
    Seq::new(
        all_table_functions(plan).len(),
        |i: int| table_function_block(all_table_functions(plan)[i]),
    )
}

/// The aliases of `tfs`, in order.
pub open spec fn table_function_aliases(tfs: Seq<TableFunctionView>) -> Seq<Text> {
    Seq::new(tfs.len(), |i: int| tfs[i].aliases).flatten()
}

/// The signatures of `tfs` that are not registered, in order.
pub open spec fn all_dropped(tfs: Seq<TableFunctionView>) -> Seq<Signature> {
    Seq::new(tfs.len(), |i: int| dropped_signatures(tfs[i])).flatten()
}

/// The note on how many names are registered and how many overloads are not.
pub open spec fn table_function_summary(canonical: nat, aliases: nat, dropped: nat) -> Text {
    "    // Phase 5: "@ + decimal(canonical) + " canonical UDTFs + "@ + decimal(aliases)
        + " alias registrations ("@ + decimal(dropped)
        + " wider positional overloads not expressible via the C API).\n"@
}

/// The heading of the listing.
pub open spec fn udtf_heading() -> Text {
    "\n// ----------------------------------------------------------------------\n// UDTFs the shim publishes.\n// ----------------------------------------------------------------------\n\n"@
}

/// The width of the first recorded signature.
pub open spec fn first_arity(tf: TableFunctionView) -> nat {
    if tf.param_signatures.len() > 0 {
        tf.param_signatures[0].len()
    } else {
        0
    }
}

/// The entry of `tf` in the listing.
pub open spec fn udtf_entry(tf: TableFunctionView) -> Text {
    let line = "// udtf `"@ + tf.canonical_name + "` (arity="@ + decimal(first_arity(tf)) + ")\n"@;
    if tf.aliases.len() > 0 {
        line + "//   aliases: "@ + join(tf.aliases, ", "@) + "\n"@
    } else {
        line
    }
}

/// The entries of one extension.
pub open spec fn udtf_entries(ext: ExtensionView) -> Seq<Text> {
    Seq::new(ext.table_functions.len(), |i: int| udtf_entry(ext.table_functions[i]))
}

/// The listing of one extension.
pub open spec fn udtf_section(ext: ExtensionView) -> Text {
    extension_heading(ext.name) + udtf_entries(ext).flatten()
}

/// The listings of all extensions, in order.
pub open spec fn udtf_sections(plan: BridgePlanView) -> Seq<Text> {
    Seq::new(plan.extensions.len(), |i: int| udtf_section(plan.extensions[i]))
}

/// The table-function module for `plan`.
pub open spec fn table_functions_text(plan: BridgePlanView) -> Text {
    let tfs = all_table_functions(plan);
    let body = HEADER@ + TABLE_FUNCTIONS_HEAD@ + table_function_blocks(plan).flatten()
        + table_function_summary(
        tfs.len(),
        table_function_aliases(tfs).len(),
        all_dropped(tfs).len(),
    );
    let noted = if tfs.len() == 0 {
        body + "    // (no table functions in this interface DB)\n"@
    } else {
        body
    };
    noted + TABLE_FUNCTIONS_RUNTIME@ + udtf_heading() + udtf_sections(plan).flatten()
}

/// The registration of a table function under its own name.
pub fn table_function_line_text(quoted_name: &str, types: &str) -> (r: String)
    ensures
        r@ == table_function_line(quoted_name@, types@),
{
    let mut out = "    register_table_function(conn, ".to_owned();
    out.append(quoted_name);
    out.append(", &[");
    out.append(types);
    out.append("]);\n");
    out
}

/// The registration of the table function `name` under an alias.
pub fn table_function_alias_line_text(quoted_alias: &str, types: &str, name: &str) -> (r: String)
    ensures
        r@ == table_function_alias_line(quoted_alias@, types@, name@),
{
    let mut out = "    register_table_function(conn, ".to_owned();
    out.append(quoted_alias);
    out.append(", &[");
    out.append(types);
    out.append("]); // alias of ");
    out.append(name);
    out.append("\n");
    out
}

/// The note on an overload that is not registered.
pub fn dropped_line_text(name: &str, sig: &Vec<String>) -> (r: String)
    ensures
        r@ == dropped_line(name@, views(sig@)),
{
    let mut out = "    // overload `".to_owned();
    out.append(name);
    out.append("(");
    out.append(join_texts(sig, ", ").as_str());
    out.append(
        ")` not registerable (DuckDB C API: one positional arity per table-function name)\n",
    );
    out
}

/// The parameter types of the registered signature.
pub fn registered_types_text(tf: &TableFunction) -> (r: String)
    ensures
        r@ == registered_types(tf@),
{
    let sigs = narrowest_first(&tf.param_signatures);
    proof {
        lemma_by_arity(tf@.param_signatures);
        assert(sigs@.len() == signature_ref_views(sigs@).len());
    }
    if sigs.len() > 0 {
        assert(signature_ref_views(sigs@)[0] == views(sigs@[0]@));
        datatype_list_text(sigs[0])
    } else {
        let none: Vec<String> = Vec::new();
        assert(views(none@) =~= Seq::empty());
        datatype_list_text(&none)
    }
}

/// The signatures that are not registered, narrower ones first.
fn dropped_of<'a>(tf: &'a TableFunction) -> (r: Vec<&'a Vec<String>>)
    ensures
        signature_ref_views(r@) == dropped_signatures(tf@),
{
    let mut sigs = narrowest_first(&tf.param_signatures);
    let ghost sorted = signature_ref_views(sigs@);
    proof {
        lemma_by_arity(tf@.param_signatures);
        assert(sigs@.len() == sorted.len());
    }
    if sigs.len() > 0 {
        let first = sigs.remove(0);
        assert(signature_ref_views(sigs@) =~= sorted.skip(1));
    } else {
        assert(signature_ref_views(sigs@) =~= Seq::empty());
    }
    sigs
}

/// All registration lines for the table function `tf`.
pub fn table_function_block_text(tf: &TableFunction) -> (r: String)
    ensures
        r@ == table_function_block(tf@),
{
    let types = registered_types_text(tf);
    let name = tf.canonical_name.as_str();
    let mut out = table_function_line_text(literal_text(name).as_str(), types.as_str());
    let one_alias = |alias: &String| -> (r: String)
        ensures
            r@ == table_function_alias_line(literal(alias@), types@, name@),
        { table_function_alias_line_text(literal_text(alias.as_str()).as_str(), types.as_str(), name) };
    let lines = map_texts(&refs(&tf.aliases), one_alias, Ghost(table_function_alias_lines(tf@)));
    out.append(concat_texts(&lines).as_str());
    let one_dropped = |sig: &Vec<String>| -> (r: String)
        ensures
            r@ == dropped_line(name@, views(sig@)),
        { dropped_line_text(name, sig) };
    let dropped = dropped_of(tf);
    assert(forall|i: int|
        0 <= i < dropped@.len() ==> views((#[trigger] dropped@[i])@)
            == signature_ref_views(dropped@)[i]);
    let notes = map_texts(&dropped, one_dropped, Ghost(dropped_lines(tf@)));
    out.append(concat_texts(&notes).as_str());
    out
}

fn aliases_of<'a>(tf: &'a TableFunction) -> (r: &'a Vec<String>)
    ensures
        *r == tf.aliases,
{
    &tf.aliases
}

/// The note on how many names are registered and how many overloads are not.
pub fn table_function_summary_text(canonical: usize, aliases: usize, dropped: usize) -> (r: String)
    ensures
        r@ == table_function_summary(canonical as nat, aliases as nat, dropped as nat),
{
    let mut out = "    // Phase 5: ".to_owned();
    out.append(decimal_text(canonical).as_str());
    out.append(" canonical UDTFs + ");
    out.append(decimal_text(aliases).as_str());
    out.append(" alias registrations (");
    out.append(decimal_text(dropped).as_str());
    out.append(" wider positional overloads not expressible via the C API).\n");
    out
}

/// The entry of `tf` in the listing.
pub fn udtf_entry_text(tf: &TableFunction) -> (r: String)
    ensures
        r@ == udtf_entry(tf@),
{
    let mut out = "// udtf `".to_owned();
    out.append(tf.canonical_name.as_str());
    out.append("` (arity=");
    let arity: usize = if tf.param_signatures.len() > 0 {
        tf.param_signatures[0].len()
    } else {
        0
    };
    out.append(decimal_text(arity).as_str());
    out.append(")\n");
    if tf.aliases.len() > 0 {
        out.append("//   aliases: ");
        out.append(join_texts(&tf.aliases, ", ").as_str());
        out.append("\n");
    }
    out
}

/// The listing of one extension.
pub fn udtf_section_text(ext: &Extension) -> (r: String)
    ensures
        r@ == udtf_section(ext@),
{
    let mut out = extension_heading_text(ext);
    let entries = map_texts(
        &refs(&ext.table_functions),
        udtf_entry_text,
        Ghost(udtf_entries(ext@)),
    );
    out.append(concat_texts(&entries).as_str());
    out
}

/// The table-function module for `plan`: every table function is registered once
/// per name, with its narrowest signature, and its other overloads are noted.
pub fn table_functions_rs(plan: &BridgePlan) -> (r: String)
    ensures
        r@ == table_functions_text(plan@),
{
    let mut s = generated_header();
    s.append(TABLE_FUNCTIONS_HEAD);
    let all = every_table_function(plan);
    let blocks = map_texts(&all, table_function_block_text, Ghost(table_function_blocks(plan@)));
    s.append(concat_texts(&blocks).as_str());
    let ghost tfs = views(all@);
    let aliases = flat(&all, aliases_of, Ghost(Seq::new(tfs.len(), |i: int| tfs[i].aliases)));
    let dropped = flat_signatures(
        &all,
        dropped_of,
        Ghost(Seq::new(tfs.len(), |i: int| dropped_signatures(tfs[i]))),
    );
    s.append(table_function_summary_text(all.len(), aliases.len(), dropped.len()).as_str());
    proof {
        assert(aliases@.len() == views(aliases@).len());
        assert(dropped@.len() == signature_ref_views(dropped@).len());
        assert(all@.len() == tfs.len());
    }
    if all.len() == 0 {
        s.append("    // (no table functions in this interface DB)\n");
    }
    s.append(TABLE_FUNCTIONS_RUNTIME);
    s.append(
        "\n// ----------------------------------------------------------------------\n// UDTFs the shim publishes.\n// ----------------------------------------------------------------------\n\n",
    );
    let sections = map_texts(
        &refs(&plan.extensions),
        udtf_section_text,
        Ghost(udtf_sections(plan@)),
    );
    s.append(concat_texts(&sections).as_str());
    s
}

} // verus!
