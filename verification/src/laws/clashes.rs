//! How scalars and aggregates share the names that a shim publishes.

use vstd::prelude::*;

use crate::emit::aggregates::{
    aggregate_alias_line, aggregate_alias_lines, aggregate_aliases, aggregate_block,
    aggregate_blocks, aggregate_line, aggregate_section, aggregate_summary, aggregates_opening,
    aggregates_runtime, aggregates_text, input_type,
};
use crate::emit::scalars::{
    free_aliases, is_aggregate_name, overload, overload_list, overloads, publishes,
    registered_scalars, registers, scalar_alias_line, scalar_alias_lines, scalar_aliases,
    scalar_block, scalar_blocks, scalar_line, scalar_section, scalar_signatures, scalar_summary,
    scalars_opening, scalars_runtime, scalars_text, skipped_line,
};
use crate::emit::shared::datatype_list;
use crate::laws::fixed_text::{
    is_register_start, law_aggregate_fixed_text_registers_nothing,
    law_scalar_fixed_text_registers_nothing,
};
use crate::laws::functions::lemma_scalar_block_occurs;
use crate::laws::naming::lemma_decimal_no_break;
use crate::lines::{
    ends_line, is_subsequence, lemma_flatten_contains, lemma_no_break_concat, lemma_picked_concat,
    lemma_picked_flatten, lemma_picked_line, lemma_subsequence_concat, lemma_subsequence_flatten,
    lemma_subsequence_self, lines_with, no_break, picked,
};
use crate::names::datatype_expr;
use crate::outside::is_plain;
use crate::plan::{AggregateFunctionView, BridgePlanView, ScalarFunctionView};
use crate::signatures::Signature;
use crate::templates::header::REGISTER_ALL;
use crate::text::{decimal, join, literal, occurs_in, Text};
use crate::walk::{all_aggregates, all_scalars};

verus! {

/// The names under which `sc` is registered.
pub open spec fn scalar_names_of(
    aggs: Seq<AggregateFunctionView>,
    sc: ScalarFunctionView,
) -> Seq<Text> {
    if registers(aggs, sc) {
        seq![sc.canonical_name] + free_aliases(aggs, sc.aliases)
    } else {
        Seq::empty()
    }
}

/// The names under which the scalars of `plan` are registered, in order.
pub open spec fn scalar_names(plan: BridgePlanView) -> Seq<Text> {
    Seq::new(
        all_scalars(plan).len(),
        |i: int| scalar_names_of(all_aggregates(plan), all_scalars(plan)[i]),
    ).flatten()
}

/// The names under which `agg` is registered.
pub open spec fn aggregate_names_of(agg: AggregateFunctionView) -> Seq<Text> {
    seq![agg.canonical_name] + agg.aliases
}

/// The names under which the aggregates of `plan` are registered, in order.
pub open spec fn aggregate_names(plan: BridgePlanView) -> Seq<Text> {
    Seq::new(
        all_aggregates(plan).len(),
        |i: int| aggregate_names_of(all_aggregates(plan)[i]),
    ).flatten()
}

proof fn lemma_scalar_names_of(aggs: Seq<AggregateFunctionView>, sc: ScalarFunctionView, n: Text)
    ensures
        scalar_names_of(aggs, sc).contains(n) == (registers(aggs, sc) && !is_aggregate_name(aggs, n)
            && (n == sc.canonical_name || sc.aliases.contains(n))),
{
    let names = scalar_names_of(aggs, sc);
    let free = free_aliases(aggs, sc.aliases);
    let p = |a: Text| !is_aggregate_name(aggs, a);
    if registers(aggs, sc) {
        if names.contains(n) {
            let k = choose|k: int| 0 <= k < names.len() && names[k] == n;
            if k > 0 {
                assert(free[k - 1] == n);
                sc.aliases.lemma_filter_pred(p, k - 1);
                sc.aliases.lemma_filter_contains_rev(p, n);
            }
        }
        if n == sc.canonical_name {
            assert(names[0] == n);
        }
        if !is_aggregate_name(aggs, n) && sc.aliases.contains(n) {
            let a = choose|a: int| 0 <= a < sc.aliases.len() && sc.aliases[a] == n;
            sc.aliases.lemma_filter_contains(p, a);
            let k = choose|k: int| 0 <= k < free.len() && free[k] == n;
            assert(names[k + 1] == n);
        }
    }
}

/// The names under which aggregates are registered are those they are published
/// under.
pub proof fn law_aggregate_names(plan: BridgePlanView, n: Text)
    ensures
        aggregate_names(plan).contains(n) == is_aggregate_name(all_aggregates(plan), n),
{
    let aggs = all_aggregates(plan);
    let parts = Seq::new(aggs.len(), |i: int| aggregate_names_of(aggs[i]));
    lemma_flatten_contains(parts, n);
    assert forall|i: int| 0 <= i < aggs.len() implies (#[trigger] parts[i]).contains(n)
        == publishes(aggs[i], n) by {
        lemma_aggregate_names_of(aggs[i], n);
    }
    if is_aggregate_name(aggs, n) {
        let k = choose|k: int| 0 <= k < aggs.len() && publishes(#[trigger] aggs[k], n);
        assert(parts[k].contains(n));
    }
    if exists|i: int| 0 <= i < parts.len() && (#[trigger] parts[i]).contains(n) {
        let i = choose|i: int| 0 <= i < parts.len() && (#[trigger] parts[i]).contains(n);
        assert(publishes(aggs[i], n));
    }
}

proof fn lemma_aggregate_names_of(agg: AggregateFunctionView, n: Text)
    ensures
        aggregate_names_of(agg).contains(n) == publishes(agg, n),
{
    let names = aggregate_names_of(agg);
    if names.contains(n) {
        let k = choose|k: int| 0 <= k < names.len() && names[k] == n;
        if k > 0 {
            assert(agg.aliases[k - 1] == n);
        }
    }
    if agg.canonical_name == n {
        assert(names[0] == n);
    }
    if agg.aliases.contains(n) {
        let k = choose|k: int| 0 <= k < agg.aliases.len() && agg.aliases[k] == n;
        assert(names[k + 1] == n);
    }
}

/// No name is registered both as a scalar and as an aggregate, be it a function's
/// own name or an alias on either side.
pub proof fn law_no_name_clashes(plan: BridgePlanView, n: Text)
    ensures
        !(scalar_names(plan).contains(n) && aggregate_names(plan).contains(n)),
{
    let aggs = all_aggregates(plan);
    let scs = all_scalars(plan);
    let parts = Seq::new(scs.len(), |i: int| scalar_names_of(aggs, scs[i]));
    law_aggregate_names(plan, n);
    lemma_flatten_contains(parts, n);
    if scalar_names(plan).contains(n) {
        let i = choose|i: int| 0 <= i < parts.len() && (#[trigger] parts[i]).contains(n);
        lemma_scalar_names_of(aggs, scs[i], n);
    }
}

/// What the registration line of the scalar `n` starts with, where `n` is plain text.
pub open spec fn scalar_start(n: Text) -> Text {
    "    register_scalar(conn, \""@ + n + "\", "@
}

/// What the registration line of the aggregate `n` starts with.
pub open spec fn aggregate_start(n: Text) -> Text {
    "    register_aggregate(conn, \""@ + n + "\", "@
}

/// Whether the names of the scalar, and its aliases, are plain text.
pub open spec fn is_plain_scalar(sc: ScalarFunctionView) -> bool {
    is_plain(sc.canonical_name) && forall|a: int|
        0 <= a < sc.aliases.len() ==> is_plain(#[trigger] sc.aliases[a])
}

/// Whether the names of the aggregate, its aliases and its input type are plain
/// text.
pub open spec fn is_plain_aggregate(agg: AggregateFunctionView) -> bool {
    is_plain(agg.canonical_name) && is_plain(input_type(agg)) && forall|a: int|
        0 <= a < agg.aliases.len() ==> is_plain(#[trigger] agg.aliases[a])
}

/// Whether all names of functions in the plan are plain text.
pub open spec fn has_plain_names(plan: BridgePlanView) -> bool {
    &&& forall|i: int|
        0 <= i < all_scalars(plan).len() ==> is_plain_scalar(#[trigger] all_scalars(plan)[i])
    &&& forall|i: int|
        0 <= i < all_aggregates(plan).len() ==> is_plain_aggregate(
            #[trigger] all_aggregates(plan)[i],
        )
}

proof fn lemma_plain_no_break(t: Text)
    requires
        is_plain(t),
    ensures
        no_break(t),
        no_break(literal(t)),
{
}

/// A line does not start with a text that differs from it somewhere.
proof fn lemma_not_start(start: Text, l: Text, k: int)
    requires
        0 <= k < start.len(),
        k < l.len(),
        start[k] != l[k],
    ensures
        !start.is_prefix_of(l),
{
    if start.is_prefix_of(l) {
        assert(l.subrange(0, start.len() as int)[k] == start[k]);
    }
}

/// A name between quotes is told from any other by what the line starts with.
proof fn lemma_named_start(head: Text, n: Text, m: Text, rest: Text)
    requires
        is_plain(n),
        is_plain(m),
    ensures
        (head + n + "\", "@).is_prefix_of(head + m + "\", "@ + rest) == (n == m),
{
    reveal_strlit("\", ");
    let start = head + n + "\", "@;
    let l = head + m + "\", "@ + rest;
    let h = head.len() as int;
    if n == m {
        assert(start =~= l.subrange(0, start.len() as int));
    } else if n.len() < m.len() {
        let k = n.len() as int;
        assert(start[h + k] == '"');
        assert(l[h + k] == m[k]);
        lemma_not_start(start, l, h + k);
    } else if n.len() > m.len() {
        let k = m.len() as int;
        assert(l[h + k] == '"');
        assert(start[h + k] == n[k]);
        lemma_not_start(start, l, h + k);
    } else {
        assert(exists|k: int| 0 <= k < n.len() && n[k] != m[k]) by {
            if forall|k: int| 0 <= k < n.len() ==> n[k] == m[k] {
                assert(n =~= m);
            }
        }
        let k = choose|k: int| 0 <= k < n.len() && n[k] != m[k];
        assert(start[h + k] == n[k]);
        assert(l[h + k] == m[k]);
        lemma_not_start(start, l, h + k);
    }
}

proof fn lemma_join_no_break(parts: Seq<Text>, sep: Text)
    requires
        no_break(sep),
        forall|i: int| 0 <= i < parts.len() ==> no_break(#[trigger] parts[i]),
    ensures
        no_break(join(parts, sep)),
    decreases parts.len(),
{
    if parts.len() > 1 {
        let rest = parts.drop_last();
        assert forall|i: int| 0 <= i < rest.len() implies no_break(#[trigger] rest[i]) by {
            assert(rest[i] == parts[i]);
        }
        lemma_join_no_break(rest, sep);
        assert(no_break(parts[parts.len() - 1]));
        lemma_no_break_concat(join(rest, sep), sep);
        lemma_no_break_concat(join(rest, sep) + sep, parts.last());
    } else if parts.len() == 1 {
        assert(no_break(parts[0]));
    }
}

proof fn lemma_datatype_no_break(t: Text)
    ensures
        no_break(datatype_expr(t)),
{
    reveal_strlit("DataType::Boolean");
    reveal_strlit("DataType::Int8");
    reveal_strlit("DataType::Int16");
    reveal_strlit("DataType::Int32");
    reveal_strlit("DataType::Int64");
    reveal_strlit("DataType::UInt8");
    reveal_strlit("DataType::UInt16");
    reveal_strlit("DataType::UInt32");
    reveal_strlit("DataType::UInt64");
    reveal_strlit("DataType::Float32");
    reveal_strlit("DataType::Float64");
    reveal_strlit("DataType::Text");
    reveal_strlit("DataType::Binary");
}

proof fn lemma_overload_no_break(sig: Signature, ret: Text)
    ensures
        no_break(overload(sig, ret)),
{
    reveal_strlit(", ");
    reveal_strlit("(&[");
    reveal_strlit("], ");
    reveal_strlit(")");
    let types = Seq::new(sig.len(), |i: int| datatype_expr(sig[i]));
    assert forall|i: int| 0 <= i < types.len() implies no_break(#[trigger] types[i]) by {
        lemma_datatype_no_break(sig[i]);
    }
    lemma_join_no_break(types, ", "@);
    lemma_datatype_no_break(ret);
    let a = "(&["@ + datatype_list(sig);
    lemma_no_break_concat("(&["@, datatype_list(sig));
    lemma_no_break_concat(a, "], "@);
    lemma_no_break_concat(a + "], "@, datatype_expr(ret));
    lemma_no_break_concat(a + "], "@ + datatype_expr(ret), ")"@);
}

proof fn lemma_overload_list_no_break(sc: ScalarFunctionView)
    ensures
        no_break(overload_list(sc)),
{
    reveal_strlit(", ");
    let all = overloads(sc);
    assert forall|i: int| 0 <= i < all.len() implies no_break(#[trigger] all[i]) by {
        if sc.param_signatures.len() == 0 {
            lemma_overload_no_break(Seq::empty(), sc.return_type);
        } else {
            lemma_overload_no_break(sc.param_signatures[i], sc.return_type);
        }
    }
    lemma_join_no_break(all, ", "@);
}

proof fn lemma_scalar_line_named(m: Text, list: Text, n: Text)
    requires
        is_plain(m),
        is_plain(n),
        no_break(list),
    ensures
        (lines_with(scalar_line(literal(m), list), scalar_start(n)).len() > 0) == (m == n),
        ends_line(scalar_line(literal(m), list)),
{
    reveal_strlit("    register_scalar(conn, ");
    reveal_strlit("    register_scalar(conn, \"");
    reveal_strlit("\", ");
    reveal_strlit(", &[");
    reveal_strlit("]);\n");
    let head = "    register_scalar(conn, \""@;
    let rest = seq!['&', '['] + list + seq![']', ')', ';'];
    let l = head + m + "\", "@ + rest;
    assert(scalar_line(literal(m), list) =~= l.push('\n'));
    lemma_plain_no_break(m);
    lemma_no_break_concat(head, m);
    lemma_no_break_concat(head + m, "\", "@);
    lemma_no_break_concat(seq!['&', '['], list);
    lemma_no_break_concat(seq!['&', '['] + list, seq![']', ')', ';']);
    lemma_no_break_concat(head + m + "\", "@, rest);
    lemma_named_start(head, n, m, rest);
    let start = scalar_start(n);
    lemma_picked_line(l, |t: Text| start.is_prefix_of(t));
}

proof fn lemma_scalar_alias_line_named(m: Text, list: Text, name: Text, n: Text)
    requires
        is_plain(m),
        is_plain(n),
        no_break(list),
        no_break(name),
    ensures
        (lines_with(scalar_alias_line(literal(m), list, name), scalar_start(n)).len() > 0) == (m
            == n),
        ends_line(scalar_alias_line(literal(m), list, name)),
{
    reveal_strlit("    register_scalar(conn, ");
    reveal_strlit("    register_scalar(conn, \"");
    reveal_strlit("\", ");
    reveal_strlit(", &[");
    reveal_strlit("]); // alias of ");
    reveal_strlit("\n");
    let head = "    register_scalar(conn, \""@;
    let note = "]); // alias of "@;
    let rest = seq!['&', '['] + list + note + name;
    let l = head + m + "\", "@ + rest;
    assert(scalar_alias_line(literal(m), list, name) =~= l.push('\n'));
    lemma_plain_no_break(m);
    lemma_no_break_concat(head, m);
    lemma_no_break_concat(head + m, "\", "@);
    lemma_no_break_concat(seq!['&', '['], list);
    lemma_no_break_concat(seq!['&', '['] + list, note);
    lemma_no_break_concat(seq!['&', '['] + list + note, name);
    lemma_no_break_concat(head + m + "\", "@, rest);
    lemma_named_start(head, n, m, rest);
    let start = scalar_start(n);
    lemma_picked_line(l, |t: Text| start.is_prefix_of(t));
}

/// The note on a skipped scalar is one line and no registration.
proof fn lemma_skipped_line(name: Text, start: Text)
    requires
        no_break(name),
        start.len() > 4,
        start[4] == 'r',
    ensures
        lines_with(skipped_line(name), start) == Seq::<Text>::empty(),
        ends_line(skipped_line(name)),
{
    reveal_strlit("    // scalar `");
    reveal_strlit(
        "` skipped — name also published as an aggregate; the aggregate form is registered instead (see aggregates.rs).\n",
    );
    let head = "    // scalar `"@;
    let tail =
        "` skipped — name also published as an aggregate; the aggregate form is registered instead (see aggregates.rs).\n"@;
    let l = head + name + tail.drop_last();
    assert(no_break(tail.drop_last()));
    lemma_no_break_concat(head, name);
    lemma_no_break_concat(head + name, tail.drop_last());
    assert(skipped_line(name) =~= l.push('\n'));
    assert(l[4] == '/');
    lemma_not_start(start, l, 4);
    lemma_picked_line(l, |t: Text| start.is_prefix_of(t));
}

proof fn lemma_flatten_nonempty<A>(parts: Seq<Seq<A>>)
    ensures
        (parts.flatten().len() > 0) == exists|i: int|
            0 <= i < parts.len() && (#[trigger] parts[i]).len() > 0,
{
    if parts.flatten().len() > 0 {
        let x = parts.flatten()[0];
        assert(parts.flatten().contains(x));
        lemma_flatten_contains(parts, x);
        let i = choose|i: int| 0 <= i < parts.len() && (#[trigger] parts[i]).contains(x);
        assert(parts[i].len() > 0);
    }
    if exists|i: int| 0 <= i < parts.len() && (#[trigger] parts[i]).len() > 0 {
        let i = choose|i: int| 0 <= i < parts.len() && (#[trigger] parts[i]).len() > 0;
        assert(parts[i].contains(parts[i][0]));
        lemma_flatten_contains(parts, parts[i][0]);
    }
}

proof fn lemma_scalar_block_named(aggs: Seq<AggregateFunctionView>, sc: ScalarFunctionView, n: Text)
    requires
        is_plain_scalar(sc),
        is_plain(n),
    ensures
        (lines_with(scalar_block(aggs, sc), scalar_start(n)).len() > 0) == scalar_names_of(
            aggs,
            sc,
        ).contains(n),
        ends_line(scalar_block(aggs, sc)),
{
    let start = scalar_start(n);
    let p = |t: Text| start.is_prefix_of(t);
    lemma_plain_no_break(sc.canonical_name);
    if registers(aggs, sc) {
        let free = free_aliases(aggs, sc.aliases);
        let list = overload_list(sc);
        let line = scalar_line(literal(sc.canonical_name), list);
        let more = scalar_alias_lines(sc, free);
        let found = Seq::new(more.len(), |k: int| picked(more[k], p));
        lemma_overload_list_no_break(sc);
        lemma_scalar_line_named(sc.canonical_name, list, n);
        assert forall|k: int| 0 <= k < more.len() implies ends_line(#[trigger] more[k]) && (
        found[k].len() > 0) == (free[k] == n) by {
            assert(free.contains(free[k]));
            sc.aliases.lemma_filter_contains_rev(|a: Text| !is_aggregate_name(aggs, a), free[k]);
            let a = choose|a: int| 0 <= a < sc.aliases.len() && sc.aliases[a] == free[k];
            assert(is_plain(sc.aliases[a]));
            lemma_scalar_alias_line_named(free[k], list, sc.canonical_name, n);
        }
        lemma_picked_flatten(more, p);
        lemma_flatten_nonempty(found);
        lemma_picked_concat(line, more.flatten(), p);
        let names = scalar_names_of(aggs, sc);
        if names.contains(n) {
            let k = choose|k: int| 0 <= k < names.len() && names[k] == n;
            if k > 0 {
                assert(free[k - 1] == n);
                assert(ends_line(more[k - 1]));
                assert(found[k - 1].len() > 0);
            }
        }
        if sc.canonical_name == n {
            assert(names[0] == n);
        }
        if exists|k: int| 0 <= k < found.len() && (#[trigger] found[k]).len() > 0 {
            let k = choose|k: int| 0 <= k < found.len() && (#[trigger] found[k]).len() > 0;
            assert(ends_line(more[k]));
            assert(names[k + 1] == n);
        }
    } else {
        reveal_strlit("    register_scalar(conn, \"");
        assert(start[4] == 'r');
        lemma_skipped_line(sc.canonical_name, start);
    }
}

/// The note on the number of registrations is one line and no registration.
proof fn lemma_scalar_summary_line(a: nat, b: nat, c: nat, start: Text)
    requires
        start.len() > 4,
        start[4] == 'r',
    ensures
        lines_with(scalar_summary(a, b, c), start) == Seq::<Text>::empty(),
        ends_line(scalar_summary(a, b, c)),
{
    reveal_strlit("    // Generic dispatch: ");
    reveal_strlit(" canonical + ");
    reveal_strlit(" alias scalars (");
    reveal_strlit(
        " parameter-list overloads), all registered with their REAL param + return types.\n",
    );
    let t1 = "    // Generic dispatch: "@;
    let t2 = " canonical + "@;
    let t3 = " alias scalars ("@;
    let t4 =
        " parameter-list overloads), all registered with their REAL param + return types.\n"@;
    lemma_decimal_no_break(a);
    lemma_decimal_no_break(b);
    lemma_decimal_no_break(c);
    let x = t1 + decimal(a) + t2;
    let y = x + decimal(b) + t3;
    let l = y + decimal(c) + t4.drop_last();
    lemma_no_break_concat(t1, decimal(a));
    lemma_no_break_concat(t1 + decimal(a), t2);
    lemma_no_break_concat(x, decimal(b));
    lemma_no_break_concat(x + decimal(b), t3);
    lemma_no_break_concat(y, decimal(c));
    lemma_no_break_concat(y + decimal(c), t4.drop_last());
    assert(scalar_summary(a, b, c) =~= l.push('\n'));
    assert(l[4] == '/');
    lemma_not_start(start, l, 4);
    lemma_picked_line(l, |t: Text| start.is_prefix_of(t));
}

proof fn lemma_no_scalars_note(start: Text)
    requires
        start.len() > 4,
        start[4] == 'r',
    ensures
        lines_with("    // (no scalars in this interface DB)\n"@, start) == Seq::<Text>::empty(),
        ends_line("    // (no scalars in this interface DB)\n"@),
{
    reveal_strlit("    // (no scalars in this interface DB)\n");
    let note = "    // (no scalars in this interface DB)\n"@;
    let l = note.drop_last();
    assert(note =~= l.push('\n'));
    assert(l[4] == '/');
    lemma_not_start(start, l, 4);
    lemma_picked_line(l, |t: Text| start.is_prefix_of(t));
}

/// The lines of the section are those of its blocks, for any start of a
/// registration.
proof fn lemma_scalar_section_lines(plan: BridgePlanView, start: Text)
    requires
        start.len() > 4,
        start[4] == 'r',
        forall|i: int| 0 <= i < scalar_blocks(plan).len() ==> ends_line(
            #[trigger] scalar_blocks(plan)[i],
        ),
    ensures
        lines_with(scalar_section(plan), start) == lines_with(
            scalar_blocks(plan).flatten(),
            start,
        ),
        ends_line(scalar_section(plan)),
{
    let p = |t: Text| start.is_prefix_of(t);
    let done = registered_scalars(plan);
    let blocks = scalar_blocks(plan).flatten();
    let aliases = scalar_aliases(all_aggregates(plan), done);
    let summary = scalar_summary(done.len(), aliases.len(), scalar_signatures(done).len());
    let note = "    // (no scalars in this interface DB)\n"@;
    lemma_picked_flatten(scalar_blocks(plan), p);
    lemma_scalar_summary_line(done.len(), aliases.len(), scalar_signatures(done).len(), start);
    lemma_no_scalars_note(start);
    lemma_picked_concat(blocks, summary, p);
    lemma_picked_concat(blocks + summary, note, p);
    let found = picked(blocks, p);
    assert(found + Seq::<Text>::empty() =~= found);
}

/// What the scalar module registers for a plan has a line for `n` exactly where `n`
/// is among the names.
proof fn lemma_scalar_section_named(plan: BridgePlanView, n: Text)
    requires
        has_plain_names(plan),
        is_plain(n),
    ensures
        (lines_with(scalar_section(plan), scalar_start(n)).len() > 0) == scalar_names(
            plan,
        ).contains(n),
{
    let aggs = all_aggregates(plan);
    let scs = all_scalars(plan);
    let start = scalar_start(n);
    let p = |t: Text| start.is_prefix_of(t);
    let blocks = scalar_blocks(plan);
    let found = Seq::new(blocks.len(), |i: int| picked(blocks[i], p));
    let names = Seq::new(scs.len(), |i: int| scalar_names_of(aggs, scs[i]));
    assert forall|i: int| 0 <= i < blocks.len() implies ends_line(#[trigger] blocks[i]) && (
    found[i].len() > 0) == names[i].contains(n) by {
        assert(is_plain_scalar(all_scalars(plan)[i]));
        lemma_scalar_block_named(aggs, scs[i], n);
    }
    reveal_strlit("    register_scalar(conn, \"");
    assert(start[4] == 'r');
    lemma_scalar_section_lines(plan, start);
    lemma_picked_flatten(blocks, p);
    lemma_flatten_nonempty(found);
    lemma_flatten_contains(names, n);
    if exists|i: int| 0 <= i < found.len() && (#[trigger] found[i]).len() > 0 {
        let i = choose|i: int| 0 <= i < found.len() && (#[trigger] found[i]).len() > 0;
        assert(ends_line(blocks[i]));
        assert(names[i].contains(n));
    }
    if exists|i: int| 0 <= i < names.len() && (#[trigger] names[i]).contains(n) {
        let i = choose|i: int| 0 <= i < names.len() && (#[trigger] names[i]).contains(n);
        assert(ends_line(blocks[i]));
        assert(found[i].len() > 0);
    }
}

proof fn lemma_aggregate_line_named(m: Text, kind: Text, n: Text)
    requires
        is_plain(m),
        is_plain(n),
        no_break(kind),
    ensures
        (lines_with(aggregate_line(m, kind), aggregate_start(n)).len() > 0) == (m == n),
        ends_line(aggregate_line(m, kind)),
{
    reveal_strlit("    register_aggregate(conn, \"");
    reveal_strlit("\", ");
    reveal_strlit(");\n");
    let head = "    register_aggregate(conn, \""@;
    let rest = kind + seq![')', ';'];
    let l = head + m + "\", "@ + rest;
    assert(aggregate_line(m, kind) =~= l.push('\n'));
    lemma_plain_no_break(m);
    lemma_no_break_concat(head, m);
    lemma_no_break_concat(head + m, "\", "@);
    lemma_no_break_concat(kind, seq![')', ';']);
    lemma_no_break_concat(head + m + "\", "@, rest);
    lemma_named_start(head, n, m, rest);
    let start = aggregate_start(n);
    lemma_picked_line(l, |t: Text| start.is_prefix_of(t));
}

proof fn lemma_aggregate_alias_line_named(m: Text, kind: Text, name: Text, n: Text)
    requires
        is_plain(m),
        is_plain(n),
        no_break(kind),
        no_break(name),
    ensures
        (lines_with(aggregate_alias_line(m, kind, name), aggregate_start(n)).len() > 0) == (m == n),
        ends_line(aggregate_alias_line(m, kind, name)),
{
    reveal_strlit("    register_aggregate(conn, \"");
    reveal_strlit("\", ");
    reveal_strlit("); // alias of ");
    reveal_strlit("\n");
    let head = "    register_aggregate(conn, \""@;
    let note = "); // alias of "@;
    let rest = kind + note + name;
    let l = head + m + "\", "@ + rest;
    assert(aggregate_alias_line(m, kind, name) =~= l.push('\n'));
    lemma_plain_no_break(m);
    lemma_no_break_concat(head, m);
    lemma_no_break_concat(head + m, "\", "@);
    lemma_no_break_concat(kind, note);
    lemma_no_break_concat(kind + note, name);
    lemma_no_break_concat(head + m + "\", "@, rest);
    lemma_named_start(head, n, m, rest);
    let start = aggregate_start(n);
    lemma_picked_line(l, |t: Text| start.is_prefix_of(t));
}

proof fn lemma_aggregate_block_named(agg: AggregateFunctionView, n: Text)
    requires
        is_plain_aggregate(agg),
        is_plain(n),
    ensures
        (lines_with(aggregate_block(agg), aggregate_start(n)).len() > 0) == aggregate_names_of(
            agg,
        ).contains(n),
        ends_line(aggregate_block(agg)),
{
    let start = aggregate_start(n);
    let p = |t: Text| start.is_prefix_of(t);
    let kind = literal(input_type(agg));
    let line = aggregate_line(agg.canonical_name, kind);
    let more = aggregate_alias_lines(agg);
    let found = Seq::new(more.len(), |k: int| picked(more[k], p));
    lemma_plain_no_break(agg.canonical_name);
    lemma_plain_no_break(input_type(agg));
    lemma_aggregate_line_named(agg.canonical_name, kind, n);
    assert forall|k: int| 0 <= k < more.len() implies ends_line(#[trigger] more[k]) && (
    found[k].len() > 0) == (agg.aliases[k] == n) by {
        assert(is_plain(agg.aliases[k]));
        lemma_aggregate_alias_line_named(agg.aliases[k], kind, agg.canonical_name, n);
    }
    lemma_picked_flatten(more, p);
    lemma_flatten_nonempty(found);
    lemma_picked_concat(line, more.flatten(), p);
    let names = aggregate_names_of(agg);
    if names.contains(n) {
        let k = choose|k: int| 0 <= k < names.len() && names[k] == n;
        if k > 0 {
            assert(ends_line(more[k - 1]));
            assert(found[k - 1].len() > 0);
        }
    }
    if agg.canonical_name == n {
        assert(names[0] == n);
    }
    if exists|k: int| 0 <= k < found.len() && (#[trigger] found[k]).len() > 0 {
        let k = choose|k: int| 0 <= k < found.len() && (#[trigger] found[k]).len() > 0;
        assert(ends_line(more[k]));
        assert(names[k + 1] == n);
    }
}

proof fn lemma_aggregate_summary_line(a: nat, b: nat, start: Text)
    requires
        start.len() > 4,
        start[4] == 'r',
    ensures
        lines_with(aggregate_summary(a, b), start) == Seq::<Text>::empty(),
        ends_line(aggregate_summary(a, b)),
{
    reveal_strlit("    // Phase 3c: ");
    reveal_strlit(" canonical + ");
    reveal_strlit(" alias names registered.\n");
    let t1 = "    // Phase 3c: "@;
    let t2 = " canonical + "@;
    let t3 = " alias names registered.\n"@;
    lemma_decimal_no_break(a);
    lemma_decimal_no_break(b);
    let x = t1 + decimal(a) + t2;
    let l = x + decimal(b) + t3.drop_last();
    lemma_no_break_concat(t1, decimal(a));
    lemma_no_break_concat(t1 + decimal(a), t2);
    lemma_no_break_concat(x, decimal(b));
    lemma_no_break_concat(x + decimal(b), t3.drop_last());
    assert(aggregate_summary(a, b) =~= l.push('\n'));
    assert(l[4] == '/');
    lemma_not_start(start, l, 4);
    lemma_picked_line(l, |t: Text| start.is_prefix_of(t));
}

proof fn lemma_no_aggregates_note(start: Text)
    requires
        start.len() > 4,
        start[4] == 'r',
    ensures
        lines_with("    // (no aggregates in this interface DB)\n"@, start)
            == Seq::<Text>::empty(),
{
    reveal_strlit("    // (no aggregates in this interface DB)\n");
    let note = "    // (no aggregates in this interface DB)\n"@;
    let l = note.drop_last();
    assert(note =~= l.push('\n'));
    assert(l[4] == '/');
    lemma_not_start(start, l, 4);
    lemma_picked_line(l, |t: Text| start.is_prefix_of(t));
}

/// What the aggregate module registers for a plan has a line for `n` exactly where
/// `n` is among the names.
proof fn lemma_aggregate_section_named(plan: BridgePlanView, n: Text)
    requires
        has_plain_names(plan),
        is_plain(n),
    ensures
        (lines_with(aggregate_section(plan), aggregate_start(n)).len() > 0) == aggregate_names(
            plan,
        ).contains(n),
{
    let aggs = all_aggregates(plan);
    let start = aggregate_start(n);
    let p = |t: Text| start.is_prefix_of(t);
    let blocks = aggregate_blocks(plan);
    let found = Seq::new(blocks.len(), |i: int| picked(blocks[i], p));
    let names = Seq::new(aggs.len(), |i: int| aggregate_names_of(aggs[i]));
    assert forall|i: int| 0 <= i < blocks.len() implies ends_line(#[trigger] blocks[i]) && (
    found[i].len() > 0) == names[i].contains(n) by {
        assert(is_plain_aggregate(all_aggregates(plan)[i]));
        lemma_aggregate_block_named(aggs[i], n);
    }
    reveal_strlit("    register_aggregate(conn, \"");
    assert(start[4] == 'r');
    let summary = aggregate_summary(aggs.len(), aggregate_aliases(aggs).len());
    lemma_picked_flatten(blocks, p);
    lemma_aggregate_summary_line(aggs.len(), aggregate_aliases(aggs).len(), start);
    lemma_no_aggregates_note(start);
    lemma_picked_concat(blocks.flatten(), summary, p);
    lemma_picked_concat(
        blocks.flatten() + summary,
        "    // (no aggregates in this interface DB)\n"@,
        p,
    );
    lemma_flatten_nonempty(found);
    lemma_flatten_contains(names, n);
    if exists|i: int| 0 <= i < found.len() && (#[trigger] found[i]).len() > 0 {
        let i = choose|i: int| 0 <= i < found.len() && (#[trigger] found[i]).len() > 0;
        assert(ends_line(blocks[i]));
        assert(names[i].contains(n));
    }
    if exists|i: int| 0 <= i < names.len() && (#[trigger] names[i]).contains(n) {
        let i = choose|i: int| 0 <= i < names.len() && (#[trigger] names[i]).contains(n);
        assert(ends_line(blocks[i]));
        assert(found[i].len() > 0);
    }
}

/// The scalar module has a registration line for `n` exactly where `n` is among the
/// names it registers.
pub proof fn law_scalar_lines_carry_names(plan: BridgePlanView, n: Text)
    requires
        has_plain_names(plan),
        is_plain(n),
    ensures
        (lines_with(scalars_text(plan), scalar_start(n)).len() > 0) == scalar_names(plan).contains(
            n,
        ),
{
    let start = scalar_start(n);
    reveal_strlit("    register_scalar(conn, \"");
    assert(is_register_start(start, 's'));
    lemma_scalar_section_named(plan, n);
    law_scalar_module_lines(plan, start);
    law_scalar_fixed_text_registers_nothing(start);
}

/// The aggregate module has a registration line for `n` exactly where `n` is among
/// the names it registers.
pub proof fn law_aggregate_lines_carry_names(plan: BridgePlanView, n: Text)
    requires
        has_plain_names(plan),
        is_plain(n),
    ensures
        (lines_with(aggregates_text(plan), aggregate_start(n)).len() > 0) == aggregate_names(
            plan,
        ).contains(n),
{
    let start = aggregate_start(n);
    reveal_strlit("    register_aggregate(conn, \"");
    assert(is_register_start(start, 'a'));
    lemma_aggregate_section_named(plan, n);
    law_aggregate_module_lines(plan, start);
    law_aggregate_fixed_text_registers_nothing(start);
}

/// Exactly one of the two modules has a registration line for the name of a scalar.
/// Where it is the aggregate module, the scalar module has the note that the scalar
/// is skipped, and the scalar leaves nothing else: it is registered under no name,
/// not under an alias either.
pub proof fn law_one_module_registers_a_scalar_name(plan: BridgePlanView, i: int)
    requires
        has_plain_names(plan),
        0 <= i < all_scalars(plan).len(),
    ensures
        ({
            let sc = all_scalars(plan)[i];
            let n = sc.canonical_name;
            let as_scalar = lines_with(scalars_text(plan), scalar_start(n)).len() > 0;
            let as_aggregate = lines_with(aggregates_text(plan), aggregate_start(n)).len() > 0;
            &&& as_scalar != as_aggregate
            &&& as_aggregate ==> {
                &&& scalar_blocks(plan)[i] == skipped_line(n)
                &&& occurs_in(skipped_line(n), scalars_text(plan))
                &&& scalar_names_of(all_aggregates(plan), sc) == Seq::<Text>::empty()
            }
        }),
{
    let aggs = all_aggregates(plan);
    let scs = all_scalars(plan);
    let n = scs[i].canonical_name;
    let names = Seq::new(scs.len(), |k: int| scalar_names_of(aggs, scs[k]));
    assert(is_plain_scalar(all_scalars(plan)[i]));
    law_scalar_lines_carry_names(plan, n);
    law_aggregate_lines_carry_names(plan, n);
    law_aggregate_names(plan, n);
    law_no_name_clashes(plan, n);
    lemma_scalar_block_occurs(plan, i);
    if !is_aggregate_name(aggs, n) {
        lemma_scalar_names_of(aggs, scs[i], n);
        assert(names[i].contains(n));
        lemma_flatten_contains(names, n);
    }
}

/// Whether `q` has the scalars of `p` and at least its aggregates, extension by
/// extension.
pub open spec fn adds_aggregates(p: BridgePlanView, q: BridgePlanView) -> bool {
    &&& p.extensions.len() == q.extensions.len()
    &&& forall|i: int|
        0 <= i < p.extensions.len() ==> (#[trigger] p.extensions[i]).scalars
            == q.extensions[i].scalars
    &&& forall|i: int, a: AggregateFunctionView|
        0 <= i < p.extensions.len() && #[trigger] p.extensions[i].aggregates.contains(a)
            ==> q.extensions[i].aggregates.contains(a)
}

/// Whether `q` publishes an aggregate under `n` and `p` does not.
pub open spec fn is_newly_published(p: BridgePlanView, q: BridgePlanView, n: Text) -> bool {
    is_aggregate_name(all_aggregates(q), n) && !is_aggregate_name(all_aggregates(p), n)
}

proof fn lemma_names_stay_published(p: BridgePlanView, q: BridgePlanView, n: Text)
    requires
        adds_aggregates(p, q),
        is_aggregate_name(all_aggregates(p), n),
    ensures
        is_aggregate_name(all_aggregates(q), n),
{
    let ap = all_aggregates(p);
    let aq = all_aggregates(q);
    let pp = Seq::new(p.extensions.len(), |i: int| p.extensions[i].aggregates);
    let qq = Seq::new(q.extensions.len(), |i: int| q.extensions[i].aggregates);
    let k = choose|k: int| 0 <= k < ap.len() && publishes(#[trigger] ap[k], n);
    let agg = ap[k];
    assert(ap.contains(agg));
    lemma_flatten_contains(pp, agg);
    let i = choose|i: int| 0 <= i < pp.len() && (#[trigger] pp[i]).contains(agg);
    assert(p.extensions[i].aggregates.contains(agg));
    assert(qq[i].contains(agg));
    lemma_flatten_contains(qq, agg);
    let m = choose|m: int| 0 <= m < aq.len() && aq[m] == agg;
    assert(publishes(aq[m], n));
}

/// Fewer free aliases make a subsequence of the alias lines, and of their lines.
proof fn lemma_alias_lines_shrink(
    ap: Seq<AggregateFunctionView>,
    aq: Seq<AggregateFunctionView>,
    sc: ScalarFunctionView,
    aliases: Seq<Text>,
    start: Text,
)
    requires
        forall|n: Text| #[trigger] is_aggregate_name(ap, n) ==> is_aggregate_name(aq, n),
    ensures
        is_subsequence(
            lines_with(scalar_alias_lines(sc, free_aliases(aq, aliases)).flatten(), start),
            lines_with(scalar_alias_lines(sc, free_aliases(ap, aliases)).flatten(), start),
        ),
        ends_line(scalar_alias_lines(sc, free_aliases(aq, aliases)).flatten()),
        ends_line(scalar_alias_lines(sc, free_aliases(ap, aliases)).flatten()),
    decreases aliases.len(),
{
    let p = |t: Text| start.is_prefix_of(t);
    let pick_p = |n: Text| !is_aggregate_name(ap, n);
    let pick_q = |n: Text| !is_aggregate_name(aq, n);
    if aliases.len() == 0 {
        reveal(Seq::filter);
        assert(scalar_alias_lines(sc, free_aliases(aq, aliases)).flatten() =~= Seq::empty());
        assert(scalar_alias_lines(sc, free_aliases(ap, aliases)).flatten() =~= Seq::empty());
        lemma_subsequence_self(lines_with(Seq::empty(), start));
    } else {
        let rest = aliases.drop_last();
        let a = aliases.last();
        let line = scalar_alias_line(literal(a), overload_list(sc), sc.canonical_name);
        lemma_alias_lines_shrink(ap, aq, sc, rest, start);
        assert(aliases =~= rest.push(a));
        rest.lemma_filter_push(a, pick_p);
        rest.lemma_filter_push(a, pick_q);
        let lp = scalar_alias_lines(sc, free_aliases(ap, rest));
        let lq = scalar_alias_lines(sc, free_aliases(aq, rest));
        reveal_strlit("\n");
        assert(line.last() == '\n');
        lemma_picked_concat(lp.flatten(), line, p);
        lemma_picked_concat(lq.flatten(), line, p);
        let np = picked(line, p);
        let none = Seq::<Text>::empty();
        if !is_aggregate_name(ap, a) {
            assert(scalar_alias_lines(sc, free_aliases(ap, aliases)) =~= lp.push(line));
            lp.lemma_flatten_push(line);
        }
        if !is_aggregate_name(aq, a) {
            assert(scalar_alias_lines(sc, free_aliases(aq, aliases)) =~= lq.push(line));
            lq.lemma_flatten_push(line);
            lemma_subsequence_self(np);
            lemma_subsequence_concat(
                picked(lq.flatten(), p),
                picked(lp.flatten(), p),
                np,
                np,
            );
        } else if !is_aggregate_name(ap, a) {
            lemma_subsequence_concat(
                picked(lq.flatten(), p),
                picked(lp.flatten(), p),
                none,
                np,
            );
            assert(picked(lq.flatten(), p) + none =~= picked(lq.flatten(), p));
        }
    }
}

/// More aggregates leave a subsequence of the registration lines of a scalar.
proof fn lemma_scalar_block_shrinks(
    ap: Seq<AggregateFunctionView>,
    aq: Seq<AggregateFunctionView>,
    sc: ScalarFunctionView,
    start: Text,
)
    requires
        forall|n: Text| #[trigger] is_aggregate_name(ap, n) ==> is_aggregate_name(aq, n),
        no_break(sc.canonical_name),
        start.len() > 4,
        start[4] == 'r',
    ensures
        is_subsequence(
            lines_with(scalar_block(aq, sc), start),
            lines_with(scalar_block(ap, sc), start),
        ),
        ends_line(scalar_block(aq, sc)),
        ends_line(scalar_block(ap, sc)),
{
    let p = |t: Text| start.is_prefix_of(t);
    let line = scalar_line(literal(sc.canonical_name), overload_list(sc));
    let mp = scalar_alias_lines(sc, free_aliases(ap, sc.aliases)).flatten();
    let mq = scalar_alias_lines(sc, free_aliases(aq, sc.aliases)).flatten();
    reveal_strlit("]);\n");
    assert(line.last() == '\n');
    lemma_alias_lines_shrink(ap, aq, sc, sc.aliases, start);
    lemma_picked_concat(line, mp, p);
    lemma_picked_concat(line, mq, p);
    lemma_skipped_line(sc.canonical_name, start);
    if registers(aq, sc) {
        lemma_subsequence_self(picked(line, p));
        lemma_subsequence_concat(picked(line, p), picked(line, p), picked(mq, p), picked(mp, p));
    }
}

/// Adding aggregates only takes scalar registrations away: the registration lines
/// of the larger plan are a subsequence of those of the smaller one, in the same
/// order. A scalar whose own name becomes an aggregate's loses all its names; any
/// other loses exactly the aliases that become an aggregate's. The scalars' names
/// are taken to hold no line break.
pub proof fn law_aggregates_only_take_away(p: BridgePlanView, q: BridgePlanView)
    requires
        adds_aggregates(p, q),
        forall|i: int|
            0 <= i < all_scalars(p).len() ==> no_break(
                (#[trigger] all_scalars(p)[i]).canonical_name,
            ),
    ensures
        is_subsequence(
            lines_with(scalars_text(q), "    register_scalar("@),
            lines_with(scalars_text(p), "    register_scalar("@),
        ),
        all_scalars(q) == all_scalars(p),
        forall|i: int, n: Text|
            0 <= i < all_scalars(p).len() ==> #[trigger] scalar_names_of(
                all_aggregates(q),
                all_scalars(p)[i],
            ).contains(n) == (scalar_names_of(all_aggregates(p), all_scalars(p)[i]).contains(n)
                && !is_newly_published(p, q, n) && !is_newly_published(
                p,
                q,
                all_scalars(p)[i].canonical_name,
            )),
{
    let ap = all_aggregates(p);
    let aq = all_aggregates(q);
    let scs = all_scalars(p);
    let start = "    register_scalar("@;
    let pick = |t: Text| start.is_prefix_of(t);
    assert(Seq::new(p.extensions.len(), |i: int| p.extensions[i].scalars) =~= Seq::new(
        q.extensions.len(),
        |i: int| q.extensions[i].scalars,
    )) by {
        assert forall|i: int| 0 <= i < p.extensions.len() implies p.extensions[i].scalars
            == q.extensions[i].scalars by {
            assert(p.extensions[i].scalars == q.extensions[i].scalars);
        }
    }
    assert forall|n: Text| #[trigger] is_aggregate_name(ap, n) implies is_aggregate_name(aq, n) by {
        lemma_names_stay_published(p, q, n);
    }
    reveal_strlit("    register_scalar(");
    let bp = scalar_blocks(p);
    let bq = scalar_blocks(q);
    let fp = Seq::new(bp.len(), |i: int| picked(bp[i], pick));
    let fq = Seq::new(bq.len(), |i: int| picked(bq[i], pick));
    assert forall|i: int| 0 <= i < bp.len() implies ends_line(#[trigger] bp[i]) && ends_line(bq[i])
        && is_subsequence(fq[i], fp[i]) by {
        assert(no_break(all_scalars(p)[i].canonical_name));
        lemma_scalar_block_shrinks(ap, aq, scs[i], start);
    }
    assert forall|i: int| 0 <= i < bq.len() implies ends_line(#[trigger] bq[i]) by {
        assert(ends_line(bp[i]) && ends_line(bq[i]));
    }
    assert forall|i: int| 0 <= i < fq.len() implies is_subsequence(#[trigger] fq[i], fp[i]) by {
        assert(ends_line(bp[i]));
    }
    lemma_scalar_section_lines(p, start);
    lemma_scalar_section_lines(q, start);
    lemma_picked_flatten(bp, pick);
    lemma_picked_flatten(bq, pick);
    lemma_subsequence_flatten(fq, fp);
    law_scalar_module_lines(p, start);
    law_scalar_module_lines(q, start);
    let head = picked(scalars_opening(), pick);
    let tail = picked(scalars_runtime(), pick);
    lemma_subsequence_self(head);
    lemma_subsequence_self(tail);
    lemma_subsequence_concat(head, head, fq.flatten(), fp.flatten());
    lemma_subsequence_concat(head + fq.flatten(), head + fp.flatten(), tail, tail);
    assert forall|i: int, n: Text|
        0 <= i < scs.len() implies #[trigger] scalar_names_of(aq, scs[i]).contains(n) == (
    scalar_names_of(ap, scs[i]).contains(n) && !is_newly_published(p, q, n) && !is_newly_published(
        p,
        q,
        scs[i].canonical_name,
    )) by {
        lemma_scalar_names_of(ap, scs[i], n);
        lemma_scalar_names_of(aq, scs[i], n);
    }
}

/// The lines of the scalar module are those of its fixed text and, between them,
/// those of what it registers for the plan.
pub proof fn law_scalar_module_lines(plan: BridgePlanView, start: Text)
    ensures
        lines_with(scalars_text(plan), start) == lines_with(
            scalars_opening(),
            start,
        ) + lines_with(scalar_section(plan), start) + lines_with(scalars_runtime(), start),
{
    let p = |t: Text| start.is_prefix_of(t);
    reveal_strlit("pub unsafe fn register_all(conn: duckdb_connection) {\n");
    reveal_strlit(
        " parameter-list overloads), all registered with their REAL param + return types.\n",
    );
    reveal_strlit("    // (no scalars in this interface DB)\n");
    let head = scalars_opening();
    assert(head.last() == REGISTER_ALL@.last());
    assert(scalar_section(plan).last() == '\n');
    lemma_picked_concat(head, scalar_section(plan), p);
    lemma_picked_concat(head + scalar_section(plan), scalars_runtime(), p);
}

/// The lines of the aggregate module are those of its fixed text and, between them,
/// those of what it registers for the plan.
pub proof fn law_aggregate_module_lines(plan: BridgePlanView, start: Text)
    ensures
        lines_with(aggregates_text(plan), start) == lines_with(
            aggregates_opening(),
            start,
        ) + lines_with(aggregate_section(plan), start) + lines_with(aggregates_runtime(), start),
{
    let p = |t: Text| start.is_prefix_of(t);
    reveal_strlit("pub unsafe fn register_all(conn: duckdb_connection) {\n");
    reveal_strlit(" alias names registered.\n");
    reveal_strlit("    // (no aggregates in this interface DB)\n");
    let head = aggregates_opening();
    assert(head.last() == REGISTER_ALL@.last());
    assert(aggregate_section(plan).last() == '\n');
    lemma_picked_concat(head, aggregate_section(plan), p);
    lemma_picked_concat(head + aggregate_section(plan), aggregates_runtime(), p);
}

} // verus!
