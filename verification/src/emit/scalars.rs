//! The scalar module of a bridge: one registration per scalar and alias, each
//! with all its overloads.

use vstd::prelude::*;

use crate::emit::shared::{datatype_list, datatype_list_text, generated_header};
use crate::names::{datatype_expr, type_name_to_datatype_expr};
use crate::plan::{
    views, AggregateFunction, AggregateFunctionView, BridgePlan, BridgePlanView, ScalarFunction,
    ScalarFunctionView,
};
use crate::signatures::{flat_signatures, signature_ref_views, signature_refs, Signature};
use crate::templates::header::{HEADER, REGISTER_ALL};
use crate::templates::scalars::{
    SCALARS_CALLBACK, SCALARS_CELLS, SCALARS_HEAD, SCALARS_REGISTRAR,
};
use crate::text::{
    concat_texts, decimal, decimal_text, join, join_texts, literal, literal_text, Text,
};
use crate::walk::{
    all_aggregates, all_scalars, every_aggregate, every_scalar, map_texts, refs,
};

verus! {

/// Whether `agg` is published under `name`: as its own name or as an alias.
pub open spec fn publishes(agg: AggregateFunctionView, name: Text) -> bool {
    agg.canonical_name == name || agg.aliases.contains(name)
}

/// Whether one of the aggregates is published under `name`.
pub open spec fn is_aggregate_name(aggs: Seq<AggregateFunctionView>, name: Text) -> bool {
    exists|k: int| 0 <= k < aggs.len() && publishes(#[trigger] aggs[k], name)
}

/// Whether `sc` is registered: an aggregate of the same name takes its place.
pub open spec fn registers(aggs: Seq<AggregateFunctionView>, sc: ScalarFunctionView) -> bool {
    !is_aggregate_name(aggs, sc.canonical_name)
}

/// The scalars among `scs` that are registered, in order.
pub open spec fn registered(
    aggs: Seq<AggregateFunctionView>,
    scs: Seq<ScalarFunctionView>,
) -> Seq<ScalarFunctionView> {
    scs.filter(|sc: ScalarFunctionView| registers(aggs, sc))
}

/// The scalars of `plan` that are registered, in order.
pub open spec fn registered_scalars(plan: BridgePlanView) -> Seq<ScalarFunctionView> {
    registered(all_aggregates(plan), all_scalars(plan))
}

/// The aliases among `aliases` that are registered, in order: an aggregate of the
/// same name takes the place of an alias too.
pub open spec fn free_aliases(aggs: Seq<AggregateFunctionView>, aliases: Seq<Text>) -> Seq<Text> {
    aliases.filter(|a: Text| !is_aggregate_name(aggs, a))
}

/// One overload: its parameter types and its result type.
pub open spec fn overload(sig: Signature, ret: Text) -> Text {
    "(&["@ + datatype_list(sig) + "], "@ + datatype_expr(ret) + ")"@
}

/// The overloads of `sc`, in order; one without parameters where none is recorded.
pub open spec fn overloads(sc: ScalarFunctionView) -> Seq<Text> {
    if sc.param_signatures.len() == 0 {
        seq![overload(Seq::empty(), sc.return_type)]
    } else {
        Seq::new(
            sc.param_signatures.len(),
            |i: int| overload(sc.param_signatures[i], sc.return_type),
        )
    }
}

/// The overloads of `sc`, separated by commas.
pub open spec fn overload_list(sc: ScalarFunctionView) -> Text {
    join(overloads(sc), ", "@)
}

/// The registration of a scalar under its own name.
pub open spec fn scalar_line(quoted_name: Text, list: Text) -> Text {
    "    register_scalar(conn, "@ + quoted_name + ", &["@ + list + "]);\n"@
}

/// The registration of the scalar `name` under an alias.
pub open spec fn scalar_alias_line(quoted_alias: Text, list: Text, name: Text) -> Text {
    "    register_scalar(conn, "@ + quoted_alias + ", &["@ + list + "]); // alias of "@ + name
        + "\n"@
}

/// The note for a scalar that an aggregate takes the place of.
pub open spec fn skipped_line(name: Text) -> Text {
    "    // scalar `"@ + name
        + "` skipped — name also published as an aggregate; the aggregate form is registered instead (see aggregates.rs).\n"@
}

/// The registrations of `sc` under the given aliases, in order.
pub open spec fn scalar_alias_lines(sc: ScalarFunctionView, aliases: Seq<Text>) -> Seq<Text> {
    Seq::new(
        aliases.len(),
        |i: int| scalar_alias_line(literal(aliases[i]), overload_list(sc), sc.canonical_name),
    )
}

/// All lines for the scalar `sc`.
pub open spec fn scalar_block(aggs: Seq<AggregateFunctionView>, sc: ScalarFunctionView) -> Text {
    if registers(aggs, sc) {
        scalar_line(literal(sc.canonical_name), overload_list(sc)) + scalar_alias_lines(
            sc,
            free_aliases(aggs, sc.aliases),
        ).flatten()
    } else {
        skipped_line(sc.canonical_name)
    }
}

/// The blocks of all scalars, in order.
pub open spec fn scalar_blocks(plan: BridgePlanView) -> Seq<Text> {
    Seq::new(
        all_scalars(plan).len(),
        |i: int| scalar_block(all_aggregates(plan), all_scalars(plan)[i]),
    )
}

/// The aliases under which `scs` are registered, in order.
pub open spec fn scalar_aliases(
    aggs: Seq<AggregateFunctionView>,
    scs: Seq<ScalarFunctionView>,
) -> Seq<Text> {
    Seq::new(scs.len(), |i: int| free_aliases(aggs, scs[i].aliases)).flatten()
}

/// The recorded signatures of `scs`, in order.
pub open spec fn scalar_signatures(scs: Seq<ScalarFunctionView>) -> Seq<Signature> {
    Seq::new(scs.len(), |i: int| scs[i].param_signatures).flatten()
}

/// The note on how many names and overloads are registered.
pub open spec fn scalar_summary(canonical: nat, aliases: nat, overloads: nat) -> Text {
    "    // Generic dispatch: "@ + decimal(canonical) + " canonical + "@ + decimal(aliases)
        + " alias scalars ("@ + decimal(overloads)
        + " parameter-list overloads), all registered with their REAL param + return types.\n"@
}

/// What the scalar module registers for `plan`: the blocks of all scalars and the
/// note on their number.
pub open spec fn scalar_section(plan: BridgePlanView) -> Text {
    let done = registered_scalars(plan);
    let body = scalar_blocks(plan).flatten() + scalar_summary(
        done.len(),
        scalar_aliases(all_aggregates(plan), done).len(),
        scalar_signatures(done).len(),
    );
    if done.len() == 0 {
        body + "    // (no scalars in this interface DB)\n"@
    } else {
        body
    }
}

/// The fixed text before what the scalar module registers.
pub open spec fn scalars_opening() -> Text {
    HEADER@ + SCALARS_HEAD@ + REGISTER_ALL@
}

/// The fixed text behind what the scalar module registers: the generic runtime.
pub open spec fn scalars_runtime() -> Text {
    SCALARS_REGISTRAR@ + SCALARS_CALLBACK@ + SCALARS_CELLS@
}

/// The scalar module for `plan`.
pub open spec fn scalars_text(plan: BridgePlanView) -> Text {
    scalars_opening() + scalar_section(plan) + scalars_runtime()
}

/// Whether `name` is among `names`.
fn listed(names: &Vec<String>, name: &String) -> (r: bool)
    ensures
        r == views(names@).contains(name@),
{
    let ghost all = views(names@);
    let mut i: usize = 0;
    while i < names.len()
        invariant
            i <= names@.len(),
            all == views(names@),
            forall|k: int| 0 <= k < i ==> #[trigger] all[k] != name@,
        decreases names@.len() - i,
    {
        if names[i] == *name {
            assert(all[i as int] == name@);
            return true;
        }
        i = i + 1;
    }
    false
}

/// Whether one of the aggregates is published under `name`.
fn aggregate_named(aggs: &Vec<&AggregateFunction>, name: &String) -> (r: bool)
    ensures
        r == is_aggregate_name(views(aggs@), name@),
{
    let ghost all = views(aggs@);
    let mut i: usize = 0;
    while i < aggs.len()
        invariant
            i <= aggs@.len(),
            all == views(aggs@),
            forall|k: int| 0 <= k < i ==> !publishes(#[trigger] all[k], name@),
        decreases aggs@.len() - i,
    {
        if aggs[i].canonical_name == *name || listed(&aggs[i].aliases, name) {
            assert(publishes(all[i as int], name@));
            return true;
        }
        i = i + 1;
    }
    false
}

/// One overload: its parameter types and its result type.
pub fn overload_text(sig: &Vec<String>, ret: &String) -> (r: String)
    ensures
        r@ == overload(views(sig@), ret@),
{
    let mut out = "(&[".to_owned();
    out.append(datatype_list_text(sig).as_str());
    out.append("], ");
    out.append(type_name_to_datatype_expr(ret.as_str()));
    out.append(")");
    out
}

/// The overloads of `sc`, separated by commas.
pub fn overload_list_text(sc: &ScalarFunction) -> (r: String)
    ensures
        r@ == overload_list(sc@),
{
    let ret = &sc.return_type;
    if sc.param_signatures.len() == 0 {
        let none: Vec<String> = Vec::new();
        assert(views(none@) =~= Seq::empty());
        let mut list: Vec<String> = Vec::new();
        list.push(overload_text(&none, ret));
        assert(views(list@) =~= overloads(sc@));
        join_texts(&list, ", ")
    } else {
        let one = |sig: &Vec<String>| -> (r: String)
            ensures
                r@ == overload(views(sig@), ret@),
            { overload_text(sig, ret) };
        let list = map_texts(&refs(&sc.param_signatures), one, Ghost(overloads(sc@)));
        join_texts(&list, ", ")
    }
}

/// The registration of a scalar under its own name.
pub fn scalar_line_text(quoted_name: &str, list: &str) -> (r: String)
    ensures
        r@ == scalar_line(quoted_name@, list@),
{
    let mut out = "    register_scalar(conn, ".to_owned();
    out.append(quoted_name);
    out.append(", &[");
    out.append(list);
    out.append("]);\n");
    out
}

/// The registration of the scalar `name` under an alias.
pub fn scalar_alias_line_text(quoted_alias: &str, list: &str, name: &str) -> (r: String)
    ensures
        r@ == scalar_alias_line(quoted_alias@, list@, name@),
{
    let mut out = "    register_scalar(conn, ".to_owned();
    out.append(quoted_alias);
    out.append(", &[");
    out.append(list);
    out.append("]); // alias of ");
    out.append(name);
    out.append("\n");
    out
}

/// The aliases of `sc` that are registered, in order.
fn keep_aliases<'a>(aggs: &Vec<&AggregateFunction>, aliases: &'a Vec<String>) -> (r: Vec<
    &'a String,
>)
    ensures
        views(r@) == free_aliases(views(aggs@), views(aliases@)),
{
    let ghost all = views(aliases@);
    let ghost p = |a: Text| !is_aggregate_name(views(aggs@), a);
    let mut out: Vec<&'a String> = Vec::new();
    let mut i: usize = 0;
    proof {
        reveal(Seq::filter);
        assert(views(out@) =~= free_aliases(views(aggs@), all.take(0)));
    }
    while i < aliases.len()
        invariant
            i <= aliases@.len(),
            all == views(aliases@),
            p == (|a: Text| !is_aggregate_name(views(aggs@), a)),
            views(out@) == free_aliases(views(aggs@), all.take(i as int)),
        decreases aliases@.len() - i,
    {
        proof {
            assert(all.take(i + 1) =~= all.take(i as int).push(all[i as int]));
            all.take(i as int).lemma_filter_push(all[i as int], p);
        }
        let ghost before = views(out@);
        if !aggregate_named(aggs, &aliases[i]) {
            out.push(&aliases[i]);
            assert(views(out@) =~= before.push(all[i as int]));
        }
        i = i + 1;
    }
    assert(all.take(i as int) =~= all);
    out
}

/// The aliases under which `scs` are registered, in order.
fn every_alias<'a>(aggs: &Vec<&AggregateFunction>, scs: &Vec<&'a ScalarFunction>) -> (r: Vec<
    &'a String,
>)
    ensures
        views(r@) == scalar_aliases(views(aggs@), views(scs@)),
{
    let ghost all = views(scs@);
    let ghost lists = Seq::new(all.len(), |i: int| free_aliases(views(aggs@), all[i].aliases));
    let mut out: Vec<&'a String> = Vec::new();
    let mut i: usize = 0;
    assert(views(out@) =~= lists.take(0).flatten());
    while i < scs.len()
        invariant
            i <= scs@.len(),
            all == views(scs@),
            lists == Seq::new(all.len(), |k: int| free_aliases(views(aggs@), all[k].aliases)),
            views(out@) == lists.take(i as int).flatten(),
        decreases scs@.len() - i,
    {
        let mut more = keep_aliases(aggs, &scs[i].aliases);
        let ghost before = out@;
        let ghost list = more@;
        out.append(&mut more);
        proof {
            assert(views(out@) =~= views(before) + views(list));
            assert(views(list) == lists[i as int]);
            assert(lists.take(i + 1) =~= lists.take(i as int).push(lists[i as int]));
            lists.take(i as int).lemma_flatten_push(lists[i as int]);
        }
        i = i + 1;
    }
    assert(lists.take(i as int) =~= lists);
    out
}

/// All lines for the scalar `sc`.
pub fn scalar_block_text(aggs: &Vec<&AggregateFunction>, sc: &ScalarFunction) -> (r: String)
    ensures
        r@ == scalar_block(views(aggs@), sc@),
{
    if aggregate_named(aggs, &sc.canonical_name) {
        let mut out = "    // scalar `".to_owned();
        out.append(sc.canonical_name.as_str());
        out.append(
            "` skipped — name also published as an aggregate; the aggregate form is registered instead (see aggregates.rs).\n",
        );
        return out;
    }
    let list = overload_list_text(sc);
    let name = sc.canonical_name.as_str();
    let mut out = scalar_line_text(literal_text(name).as_str(), list.as_str());
    let one = |alias: &String| -> (r: String)
        ensures
            r@ == scalar_alias_line(literal(alias@), list@, name@),
        { scalar_alias_line_text(literal_text(alias.as_str()).as_str(), list.as_str(), name) };
    let aliases = keep_aliases(aggs, &sc.aliases);
    let lines = map_texts(&aliases, one, Ghost(scalar_alias_lines(sc@, views(aliases@))));
    out.append(concat_texts(&lines).as_str());
    out
}

/// The scalars among `scs` that are registered, in order.
fn keep_registered<'a>(aggs: &Vec<&AggregateFunction>, scs: &Vec<&'a ScalarFunction>) -> (r: Vec<
    &'a ScalarFunction,
>)
    ensures
        views(r@) == registered(views(aggs@), views(scs@)),
{
    let ghost all = views(scs@);
    let ghost p = |sc: ScalarFunctionView| registers(views(aggs@), sc);
    let mut out: Vec<&'a ScalarFunction> = Vec::new();
    let mut i: usize = 0;
    proof {
        reveal(Seq::filter);
        assert(views(out@) =~= registered(views(aggs@), all.take(0)));
    }
    while i < scs.len()
        invariant
            i <= scs@.len(),
            all == views(scs@),
            p == (|sc: ScalarFunctionView| registers(views(aggs@), sc)),
            views(out@) == registered(views(aggs@), all.take(i as int)),
        decreases scs@.len() - i,
    {
        proof {
            assert(all.take(i + 1) =~= all.take(i as int).push(all[i as int]));
            all.take(i as int).lemma_filter_push(all[i as int], p);
        }
        let ghost before = views(out@);
        if !aggregate_named(aggs, &scs[i].canonical_name) {
            out.push(scs[i]);
            assert(views(out@) =~= before.push(all[i as int]));
        }
        i = i + 1;
    }
    assert(all.take(i as int) =~= all);
    out
}

fn signatures_of<'a>(sc: &'a ScalarFunction) -> (r: Vec<&'a Vec<String>>)
    ensures
        signature_ref_views(r@) == sc@.param_signatures,
{
    signature_refs(&sc.param_signatures)
}

/// The note on how many names and overloads are registered.
pub fn scalar_summary_text(canonical: usize, aliases: usize, overloads: usize) -> (r: String)
    ensures
        r@ == scalar_summary(canonical as nat, aliases as nat, overloads as nat),
{
    let mut out = "    // Generic dispatch: ".to_owned();
    out.append(decimal_text(canonical).as_str());
    out.append(" canonical + ");
    out.append(decimal_text(aliases).as_str());
    out.append(" alias scalars (");
    out.append(decimal_text(overloads).as_str());
    out.append(
        " parameter-list overloads), all registered with their REAL param + return types.\n",
    );
    out
}

/// What the scalar module registers for `plan`: the blocks of all scalars and the
/// note on their number.
pub fn scalar_section_text(plan: &BridgePlan) -> (r: String)
    ensures
        r@ == scalar_section(plan@),
{
    let aggs = every_aggregate(plan);
    let all = every_scalar(plan);
    let one = |sc: &ScalarFunction| -> (r: String)
        ensures
            r@ == scalar_block(views(aggs@), sc@),
        { scalar_block_text(&aggs, sc) };
    let blocks = map_texts(&all, one, Ghost(scalar_blocks(plan@)));
    let mut s = concat_texts(&blocks);
    let done = keep_registered(&aggs, &all);
    let ghost scs = views(done@);
    let aliases = every_alias(&aggs, &done);
    let sigs = flat_signatures(
        &done,
        signatures_of,
        Ghost(Seq::new(scs.len(), |i: int| scs[i].param_signatures)),
    );
    s.append(scalar_summary_text(done.len(), aliases.len(), sigs.len()).as_str());
    proof {
        assert(aliases@.len() == views(aliases@).len());
        assert(sigs@.len() == signature_ref_views(sigs@).len());
        assert(done@.len() == scs.len());
    }
    if done.len() == 0 {
        s.append("    // (no scalars in this interface DB)\n");
    }
    s
}

/// The scalar module for `plan`: every scalar is registered with all its
/// overloads, under its name and its aliases, unless an aggregate of the same
/// name takes its place.
pub fn scalars_rs(plan: &BridgePlan) -> (r: String)
    ensures
        r@ == scalars_text(plan@),
{
    let mut s = generated_header();
    s.append(SCALARS_HEAD);
    s.append(REGISTER_ALL);
    s.append(scalar_section_text(plan).as_str());
    let mut runtime = SCALARS_REGISTRAR.to_owned();
    runtime.append(SCALARS_CALLBACK);
    runtime.append(SCALARS_CELLS);
    s.append(runtime.as_str());
    s
}

} // verus!
