//! The aggregate module of a bridge: one registration per aggregate and alias,
//! each with its input type.

use vstd::prelude::*;

use crate::emit::shared::generated_header;
use crate::plan::{views, AggregateFunction, AggregateFunctionView, BridgePlan, BridgePlanView};
use crate::templates::aggregates::{
    AGGREGATES_FINALIZE, AGGREGATES_HEAD, AGGREGATES_HELPERS, AGGREGATES_REGISTRAR,
    AGGREGATES_UPDATE,
};
use crate::templates::header::{HEADER, REGISTER_ALL};
use crate::text::{concat_texts, decimal, decimal_text, literal, literal_text, Text};
use crate::walk::{all_aggregates, every_aggregate, flat, map_texts, refs};

verus! {

/// The first parameter type of the first recorded signature, or `binary` where
/// there is none.
pub open spec fn input_type(agg: AggregateFunctionView) -> Text {
    if agg.param_signatures.len() > 0 && agg.param_signatures[0].len() > 0 {
        agg.param_signatures[0][0]
    } else {
        "binary"@
    }
}

/// The registration of an aggregate under its own name.
pub open spec fn aggregate_line(name: Text, quoted_type: Text) -> Text {
    "    register_aggregate(conn, \""@ + name + "\", "@ + quoted_type + ");\n"@
}

/// The registration of the aggregate `name` under an alias.
pub open spec fn aggregate_alias_line(alias: Text, quoted_type: Text, name: Text) -> Text {
    "    register_aggregate(conn, \""@ + alias + "\", "@ + quoted_type + "); // alias of "@ + name
        + "\n"@
}

/// The alias registrations of `agg`, in order.
pub open spec fn aggregate_alias_lines(agg: AggregateFunctionView) -> Seq<Text> {
    Seq::new(
        agg.aliases.len(),
        |i: int|
            aggregate_alias_line(agg.aliases[i], literal(input_type(agg)), agg.canonical_name),
    )
}

/// All lines for the aggregate `agg`.
pub open spec fn aggregate_block(agg: AggregateFunctionView) -> Text {
    aggregate_line(agg.canonical_name, literal(input_type(agg)))
        + aggregate_alias_lines(agg).flatten()
}

/// The blocks of all aggregates, in order.
pub open spec fn aggregate_blocks(plan: BridgePlanView) -> Seq<Text> {
    Seq::new(all_aggregates(plan).len(), |i: int| aggregate_block(all_aggregates(plan)[i]))
}

/// The aliases of `aggs`, in order.
pub open spec fn aggregate_aliases(aggs: Seq<AggregateFunctionView>) -> Seq<Text> {
    Seq::new(aggs.len(), |i: int| aggs[i].aliases).flatten()
}

/// The note on how many names are registered.
pub open spec fn aggregate_summary(canonical: nat, aliases: nat) -> Text {
    "    // Phase 3c: "@ + decimal(canonical) + " canonical + "@ + decimal(aliases)
        + " alias names registered.\n"@
}

/// What the aggregate module registers for `plan`: the blocks of all aggregates and
/// the note on their number.
pub open spec fn aggregate_section(plan: BridgePlanView) -> Text {
    let aggs = all_aggregates(plan);
    let body = aggregate_blocks(plan).flatten() + aggregate_summary(
        aggs.len(),
        aggregate_aliases(aggs).len(),
    );
    if aggs.len() == 0 {
        body + "    // (no aggregates in this interface DB)\n"@
    } else {
        body
    }
}

/// The fixed text before what the aggregate module registers.
pub open spec fn aggregates_opening() -> Text {
    HEADER@ + AGGREGATES_HEAD@ + REGISTER_ALL@
}

/// The fixed text behind what the aggregate module registers: the registrar and
/// its C callbacks.
pub open spec fn aggregates_runtime() -> Text {
    AGGREGATES_REGISTRAR@ + AGGREGATES_UPDATE@ + AGGREGATES_FINALIZE@ + AGGREGATES_HELPERS@
}

/// The aggregate module for `plan`.
pub open spec fn aggregates_text(plan: BridgePlanView) -> Text {
    aggregates_opening() + aggregate_section(plan) + aggregates_runtime()
}

/// The first parameter type of the first recorded signature, or `binary` where
/// there is none.
pub fn input_type_text(agg: &AggregateFunction) -> (r: String)
    ensures
        r@ == input_type(agg@),
{
    if agg.param_signatures.len() > 0 && agg.param_signatures[0].len() > 0 {
        agg.param_signatures[0][0].clone()
    } else {
        "binary".to_owned()
    }
}

/// The registration of an aggregate under its own name.
pub fn aggregate_line_text(name: &str, quoted_type: &str) -> (r: String)
    ensures
        r@ == aggregate_line(name@, quoted_type@),
{
    let mut out = "    register_aggregate(conn, \"".to_owned();
    out.append(name);
    out.append("\", ");
    out.append(quoted_type);
    out.append(");\n");
    out
}

/// The registration of the aggregate `name` under an alias.
pub fn aggregate_alias_line_text(alias: &str, quoted_type: &str, name: &str) -> (r: String)
    ensures
        r@ == aggregate_alias_line(alias@, quoted_type@, name@),
{
    let mut out = "    register_aggregate(conn, \"".to_owned();
    out.append(alias);
    out.append("\", ");
    out.append(quoted_type);
    out.append("); // alias of ");
    out.append(name);
    out.append("\n");
    out
}

/// All lines for the aggregate `agg`.
pub fn aggregate_block_text(agg: &AggregateFunction) -> (r: String)
    ensures
        r@ == aggregate_block(agg@),
{
    let in_type = literal_text(input_type_text(agg).as_str());
    let name = agg.canonical_name.as_str();
    let mut out = aggregate_line_text(name, in_type.as_str());
    let one = |alias: &String| -> (r: String)
        ensures
            r@ == aggregate_alias_line(alias@, in_type@, name@),
        { aggregate_alias_line_text(alias.as_str(), in_type.as_str(), name) };
    let lines = map_texts(&refs(&agg.aliases), one, Ghost(aggregate_alias_lines(agg@)));
    out.append(concat_texts(&lines).as_str());
    out
}

fn aliases_of<'a>(agg: &'a AggregateFunction) -> (r: &'a Vec<String>)
    ensures
        *r == agg.aliases,
{
    &agg.aliases
}

/// The note on how many names are registered.
pub fn aggregate_summary_text(canonical: usize, aliases: usize) -> (r: String)
    ensures
        r@ == aggregate_summary(canonical as nat, aliases as nat),
{
    let mut out = "    // Phase 3c: ".to_owned();
    out.append(decimal_text(canonical).as_str());
    out.append(" canonical + ");
    out.append(decimal_text(aliases).as_str());
    out.append(" alias names registered.\n");
    out
}

/// What the aggregate module registers for `plan`: the blocks of all aggregates and
/// the note on their number.
pub fn aggregate_section_text(plan: &BridgePlan) -> (r: String)
    ensures
        r@ == aggregate_section(plan@),
{
    let all = every_aggregate(plan);
    let blocks = map_texts(&all, aggregate_block_text, Ghost(aggregate_blocks(plan@)));
    let mut s = concat_texts(&blocks);
    let ghost aggs = views(all@);
    let aliases = flat(&all, aliases_of, Ghost(Seq::new(aggs.len(), |i: int| aggs[i].aliases)));
    s.append(aggregate_summary_text(all.len(), aliases.len()).as_str());
    proof {
        assert(aliases@.len() == views(aliases@).len());
        assert(all@.len() == aggs.len());
    }
    if all.len() == 0 {
        s.append("    // (no aggregates in this interface DB)\n");
    }
    s
}

/// The aggregate module for `plan`: every aggregate is registered with its
/// recorded input type, under its name and its aliases.
pub fn aggregates_rs(plan: &BridgePlan) -> (r: String)
    ensures
        r@ == aggregates_text(plan@),
{
    let mut s = generated_header();
    s.append(AGGREGATES_HEAD);
    s.append(REGISTER_ALL);
    s.append(aggregate_section_text(plan).as_str());
    let mut runtime = AGGREGATES_REGISTRAR.to_owned();
    runtime.append(AGGREGATES_UPDATE);
    runtime.append(AGGREGATES_FINALIZE);
    runtime.append(AGGREGATES_HELPERS);
    s.append(runtime.as_str());
    s
}

} // verus!
