//! What the registrations of functions carry of what is recorded.

use vstd::prelude::*;

use crate::emit::aggregates::{
    aggregate_alias_line, aggregate_alias_lines, aggregate_aliases, aggregate_block, aggregate_line,
    input_type,
};
use crate::emit::scalars::{
    free_aliases, is_aggregate_name, overload, overload_list, overloads, publishes, registered,
    registers, scalar_alias_line, scalar_alias_lines, scalar_aliases, scalar_block, scalar_line,
    scalar_signatures, skipped_line,
};
use crate::emit::shared::datatype_list;
use crate::emit::table_functions::{
    all_dropped, dropped_line, dropped_lines, dropped_signatures, registered_types,
    table_function_alias_line, table_function_alias_lines, table_function_aliases,
    table_function_block, table_function_line,
};
use crate::laws::reading::{is_free_of, items, law_items_are_read_back, shows, woven};
use crate::names::datatype_expr;
use crate::plan::{AggregateFunctionView, ScalarFunctionView, TableFunctionView};
use crate::signatures::{by_arity, lemma_by_arity, lemma_narrowest, narrowest, of_width, Signature};
use crate::text::{literal, Text};

verus! {

/// The constructor expressions of the parameters of `sig`, one for each, in order.
pub open spec fn constructors(sig: Signature) -> Seq<Text> {
    Seq::new(sig.len(), |i: int| datatype_expr(sig[i]))
}

proof fn lemma_constructors_are_items(sig: Signature)
    ensures
        forall|i: int|
            0 <= i < sig.len() ==> (#[trigger] constructors(sig)[i]).len() > 0 && is_free_of(
                constructors(sig)[i],
                ',',
            ),
{
    assert forall|i: int| 0 <= i < sig.len() implies (#[trigger] constructors(sig)[i]).len() > 0
        && is_free_of(constructors(sig)[i], ',') by {
        lemma_constructor_is_item(sig[i]);
    }
}

proof fn lemma_constructor_is_item(t: Text)
    ensures
        datatype_expr(t).len() > 0,
        is_free_of(datatype_expr(t), ','),
{
    reveal_strlit("DataType::Boolean");
    reveal_strlit("DataType::Int8");
    reveal_strlit("DataType::Int16");
    reveal_strlit("DataType::Int32");
    reveal_strlit("DataType::Int64");
    reveal_strlit("DataType::UInt8");
    reveal_strlit("DataType::UInt16");
    reveal_strlit("DataType::UInt32");
    reveal_strlit("DataType::UInt64");
    reveal_strlit("DataType::Float32");
    reveal_strlit("DataType::Float64");
    reveal_strlit("DataType::Text");
    reveal_strlit("DataType::Binary");
}

/// The parameter list of a registration reads back as one constructor for each
/// parameter, in order.
pub proof fn law_parameters_are_read_back(sig: Signature)
    ensures
        items(datatype_list(sig)) == constructors(sig),
        items(datatype_list(sig)).len() == sig.len(),
{
    lemma_constructors_are_items(sig);
    law_items_are_read_back(constructors(sig));
    assert(Seq::new(sig.len(), |i: int| datatype_expr(sig[i])) =~= constructors(sig));
}

/// An overload shows every parameter of its signature and the result: between its
/// brackets stand as many items as the signature has parameters, the constructor of
/// each in its place, and behind them the constructor of the result.
pub proof fn law_overload_shows_every_parameter(sig: Signature, ret: Text)
    ensures
        ({
            let t = overload(sig, ret);
            let result = datatype_expr(ret);
            let list = t.subrange(3, t.len() - result.len() - 4);
            &&& shows(t, seq!["(&["@, "], "@, ")"@], seq![list, result])
            &&& items(list).len() == sig.len()
            &&& forall|i: int|
                0 <= i < sig.len() ==> #[trigger] items(list)[i] == datatype_expr(sig[i])
        }),
{
    reveal_with_fuel(woven, 4);
    reveal_strlit("(&[");
    reveal_strlit("], ");
    reveal_strlit(")");
    let t = overload(sig, ret);
    let result = datatype_expr(ret);
    let list = datatype_list(sig);
    assert(t.subrange(3, t.len() - result.len() - 4) =~= list);
    law_parameters_are_read_back(sig);
    assert forall|i: int| 0 <= i < sig.len() implies #[trigger] items(list)[i] == datatype_expr(
        sig[i],
    ) by {
        assert(items(list)[i] == constructors(sig)[i]);
    }
}

/// Signatures of different width, or with different constructors at some place, give
/// different overloads.
pub proof fn law_overloads_differ(a: Signature, b: Signature, ret: Text)
    requires
        overload(a, ret) == overload(b, ret),
    ensures
        a.len() == b.len(),
        forall|i: int| 0 <= i < a.len() ==> datatype_expr(#[trigger] a[i]) == datatype_expr(b[i]),
{
    reveal_strlit("(&[");
    let la = datatype_list(a);
    let lb = datatype_list(b);
    let tail = "], "@ + datatype_expr(ret) + ")"@;
    let x = overload(a, ret);
    let y = overload(b, ret);
    assert(x =~= "(&["@ + la + tail);
    assert(y =~= "(&["@ + lb + tail);
    assert(x.subrange(3, x.len() - tail.len()) =~= la);
    assert(y.subrange(3, y.len() - tail.len()) =~= lb);
    law_parameters_are_read_back(a);
    law_parameters_are_read_back(b);
    assert forall|i: int| 0 <= i < a.len() implies datatype_expr(#[trigger] a[i]) == datatype_expr(
        b[i],
    ) by {
        assert(constructors(a)[i] == constructors(b)[i]);
    }
}

/// One more signature adds one more overload at the end of the list, with the
/// scalar's result, and changes nothing before it; a scalar without signatures has
/// one overload without parameters.
pub proof fn law_overload_list_grows(sc: ScalarFunctionView, sig: Signature)
    ensures
        sc.param_signatures.len() == 0 ==> overload_list(sc) == overload(
            Seq::empty(),
            sc.return_type,
        ),
        ({
            let more = ScalarFunctionView {
                param_signatures: sc.param_signatures.push(sig),
                ..sc
            };
            overload_list(more) == (if sc.param_signatures.len() == 0 {
                overload(sig, sc.return_type)
            } else {
                overload_list(sc) + ", "@ + overload(sig, sc.return_type)
            })
        }),
{
    let more = ScalarFunctionView { param_signatures: sc.param_signatures.push(sig), ..sc };
    let one = overload(sig, sc.return_type);
    if sc.param_signatures.len() == 0 {
        assert(overloads(more) =~= seq![one]);
    } else {
        assert(overloads(more) =~= overloads(sc).push(one));
        assert(overloads(sc).push(one).drop_last() =~= overloads(sc));
    }
}

/// Whether one of the aggregates has `name`, as its own name or as an alias.
pub open spec fn is_taken(aggs: Seq<AggregateFunctionView>, name: Text) -> bool {
    exists|k: int|
        0 <= k < aggs.len() && ((#[trigger] aggs[k]).canonical_name == name
            || aggs[k].aliases.contains(name))
}

proof fn lemma_taken(aggs: Seq<AggregateFunctionView>, name: Text)
    ensures
        is_taken(aggs, name) == is_aggregate_name(aggs, name),
{
    if is_taken(aggs, name) {
        let k = choose|k: int|
            0 <= k < aggs.len() && ((#[trigger] aggs[k]).canonical_name == name
                || aggs[k].aliases.contains(name));
        assert(publishes(aggs[k], name));
    }
    if is_aggregate_name(aggs, name) {
        let k = choose|k: int|
            0 <= k < aggs.len() && publishes(#[trigger] aggs[k], name);
        assert(aggs[k].canonical_name == name || aggs[k].aliases.contains(name));
    }
}

/// The lines of a scalar without aliases are its registration or, where its name is
/// taken, the note; one more alias adds its registration at the end, with the same
/// overloads, unless the scalar's name or the alias is taken.
pub proof fn law_scalar_block_grows(
    aggs: Seq<AggregateFunctionView>,
    sc: ScalarFunctionView,
    alias: Text,
)
    ensures
        is_taken(aggs, sc.canonical_name) ==> scalar_block(aggs, sc) == skipped_line(
            sc.canonical_name,
        ),
        !is_taken(aggs, sc.canonical_name) && sc.aliases.len() == 0 ==> scalar_block(aggs, sc)
            == scalar_line(literal(sc.canonical_name), overload_list(sc)),
        ({
            let more = ScalarFunctionView { aliases: sc.aliases.push(alias), ..sc };
            scalar_block(aggs, more) == (if is_taken(aggs, sc.canonical_name) || is_taken(
                aggs,
                alias,
            ) {
                scalar_block(aggs, sc)
            } else {
                scalar_block(aggs, sc) + scalar_alias_line(
                    literal(alias),
                    overload_list(sc),
                    sc.canonical_name,
                )
            })
        }),
{
    let p = |a: Text| !is_aggregate_name(aggs, a);
    let more = ScalarFunctionView { aliases: sc.aliases.push(alias), ..sc };
    lemma_taken(aggs, sc.canonical_name);
    lemma_taken(aggs, alias);
    sc.aliases.lemma_filter_push(alias, p);
    assert(overloads(more) =~= overloads(sc));
    let free = free_aliases(aggs, sc.aliases);
    let lines = scalar_alias_lines(sc, free);
    let line = scalar_line(literal(sc.canonical_name), overload_list(sc));
    let last = scalar_alias_line(literal(alias), overload_list(sc), sc.canonical_name);
    if sc.aliases.len() == 0 {
        reveal(Seq::filter);
        assert(free =~= Seq::empty());
        assert(lines.flatten() =~= Seq::empty());
        assert(line + lines.flatten() =~= line);
    }
    if registers(aggs, sc) {
        let all = scalar_alias_lines(more, free_aliases(aggs, more.aliases));
        if is_taken(aggs, alias) {
            assert(all =~= lines);
        } else {
            assert(all =~= lines.push(last));
            lines.lemma_flatten_push(last);
            assert(line + (lines.flatten() + last) =~= line + lines.flatten() + last);
        }
    }
}

/// The scalars that count as registered, the aliases and the overloads that are
/// counted grow scalar by scalar.
pub proof fn law_scalar_counts_grow(
    aggs: Seq<AggregateFunctionView>,
    scs: Seq<ScalarFunctionView>,
    sc: ScalarFunctionView,
    alias: Text,
)
    ensures
        registered(aggs, Seq::empty()).len() == 0,
        scalar_aliases(aggs, Seq::empty()).len() == 0,
        scalar_signatures(Seq::empty()).len() == 0,
        free_aliases(aggs, Seq::empty()).len() == 0,
        registered(aggs, scs.push(sc)) == (if is_taken(aggs, sc.canonical_name) {
            registered(aggs, scs)
        } else {
            registered(aggs, scs).push(sc)
        }),
        free_aliases(aggs, sc.aliases.push(alias)) == (if is_taken(aggs, alias) {
            free_aliases(aggs, sc.aliases)
        } else {
            free_aliases(aggs, sc.aliases).push(alias)
        }),
        scalar_aliases(aggs, scs.push(sc)) == scalar_aliases(aggs, scs) + free_aliases(
            aggs,
            sc.aliases,
        ),
        scalar_signatures(scs.push(sc)) == scalar_signatures(scs) + sc.param_signatures,
{
    reveal(Seq::filter);
    lemma_taken(aggs, sc.canonical_name);
    lemma_taken(aggs, alias);
    scs.lemma_filter_push(sc, |s: ScalarFunctionView| registers(aggs, s));
    sc.aliases.lemma_filter_push(
        alias,
        |a: Text| !is_aggregate_name(aggs, a),
    );
    let none = Seq::<ScalarFunctionView>::empty();
    let longer = scs.push(sc);
    assert(registered(aggs, none) =~= none);
    assert(free_aliases(aggs, Seq::empty()) =~= Seq::<Text>::empty());
    assert(scalar_aliases(aggs, none) =~= Seq::empty());
    assert(scalar_signatures(none) =~= Seq::empty());
    let a = Seq::new(scs.len(), |i: int| free_aliases(aggs, scs[i].aliases));
    assert(Seq::new(longer.len(), |i: int| free_aliases(aggs, longer[i].aliases)) =~= a.push(
        free_aliases(aggs, sc.aliases),
    ));
    a.lemma_flatten_push(free_aliases(aggs, sc.aliases));
    let s = Seq::new(scs.len(), |i: int| scs[i].param_signatures);
    assert(Seq::new(longer.len(), |i: int| longer[i].param_signatures) =~= s.push(
        sc.param_signatures,
    ));
    s.lemma_flatten_push(sc.param_signatures);
}

/// The input type of an aggregate is the first parameter of its first signature;
/// signatures recorded behind it change nothing, neither the type nor a line.
pub proof fn law_input_type_is_the_first(agg: AggregateFunctionView, behind: Seq<Signature>)
    ensures
        agg.param_signatures.len() > 0 && agg.param_signatures[0].len() > 0 ==> input_type(agg)
            == agg.param_signatures[0][0],
        agg.param_signatures.len() > 0 && agg.param_signatures[0].len() == 0 ==> input_type(agg)
            == "binary"@,
        agg.param_signatures.len() == 0 ==> input_type(agg) == "binary"@,
        agg.param_signatures.len() > 0 ==> ({
            let more = AggregateFunctionView {
                param_signatures: agg.param_signatures + behind,
                ..agg
            };
            input_type(more) == input_type(agg) && aggregate_block(more) == aggregate_block(agg)
        }),
{
    let more = AggregateFunctionView { param_signatures: agg.param_signatures + behind, ..agg };
    if agg.param_signatures.len() > 0 {
        assert(more.param_signatures[0] == agg.param_signatures[0]);
        assert(aggregate_alias_lines(more)
            =~= aggregate_alias_lines(agg));
    }
}

/// The lines of an aggregate without aliases are its registration with its input
/// type; one more alias adds its registration at the end, with the same type.
pub proof fn law_aggregate_block_grows(
    agg: AggregateFunctionView,
    aggs: Seq<AggregateFunctionView>,
    alias: Text,
)
    ensures
        agg.aliases.len() == 0 ==> aggregate_block(agg) == aggregate_line(
            agg.canonical_name,
            literal(input_type(agg)),
        ),
        aggregate_block(AggregateFunctionView { aliases: agg.aliases.push(alias), ..agg })
            == aggregate_block(agg) + aggregate_alias_line(
            alias,
            literal(input_type(agg)),
            agg.canonical_name,
        ),
        aggregate_aliases(Seq::empty()).len() == 0,
        aggregate_aliases(aggs.push(agg)) == aggregate_aliases(aggs) + agg.aliases,
{
    let more = AggregateFunctionView { aliases: agg.aliases.push(alias), ..agg };
    let lines = aggregate_alias_lines(agg);
    let line = aggregate_line(agg.canonical_name, literal(input_type(agg)));
    let last = aggregate_alias_line(alias, literal(input_type(agg)), agg.canonical_name);
    if agg.aliases.len() == 0 {
        assert(lines.flatten() =~= Seq::empty());
        assert(line + lines.flatten() =~= line);
    }
    assert(aggregate_alias_lines(more) =~= lines.push(last));
    lines.lemma_flatten_push(last);
    assert(line + (lines.flatten() + last) =~= line + lines.flatten() + last);
    let longer = aggs.push(agg);
    let a = Seq::new(aggs.len(), |i: int| aggs[i].aliases);
    assert(aggregate_aliases(Seq::empty()) =~= Seq::empty());
    assert(Seq::new(longer.len(), |i: int| longer[i].aliases) =~= a.push(agg.aliases));
    a.lemma_flatten_push(agg.aliases);
}

/// A table function is registered with one constructor for each parameter of a
/// recorded signature that no other is narrower than, the first of its width; without
/// a signature it is registered without parameters. With a single signature it is
/// that one.
pub proof fn law_table_function_types(tf: TableFunctionView)
    ensures
        tf.param_signatures.len() == 0 ==> registered_types(tf) == Seq::<char>::empty(),
        tf.param_signatures.len() > 0 ==> exists|k: int|
            0 <= k < tf.param_signatures.len() && items(registered_types(tf)) == constructors(
                #[trigger] tf.param_signatures[k],
            ) && (forall|j: int|
                0 <= j < tf.param_signatures.len() ==> tf.param_signatures[k].len() <= (
                #[trigger] tf.param_signatures[j]).len()) && (forall|j: int|
                0 <= j < k ==> tf.param_signatures[k].len() < (
                #[trigger] tf.param_signatures[j]).len()),
        tf.param_signatures.len() == 1 ==> items(registered_types(tf)) == constructors(
            tf.param_signatures[0],
        ),
{
    let sigs = tf.param_signatures;
    if sigs.len() == 0 {
        assert(constructors(Seq::empty()) =~= Seq::empty());
        assert(registered_types(tf) =~= Seq::<char>::empty());
    } else {
        lemma_narrowest(sigs);
        law_parameters_are_read_back(narrowest(sigs));
        let k = choose|k: int|
            0 <= k < sigs.len() && #[trigger] sigs[k] == narrowest(sigs) && (forall|j: int|
                0 <= j < sigs.len() ==> sigs[k].len() <= (#[trigger] sigs[j]).len()) && (forall|
                j: int,
            |
                0 <= j < k ==> sigs[k].len() < (#[trigger] sigs[j]).len());
        assert(items(registered_types(tf)) == constructors(sigs[k]));
    }
}

/// The lines of a table function are its registration, one registration for each
/// alias with the same types, and one note for each other signature, narrower ones
/// first and those of one width as recorded.
pub proof fn law_table_function_lines(tf: TableFunctionView, width: nat)
    ensures
        table_function_block(tf) == table_function_line(
            literal(tf.canonical_name),
            registered_types(tf),
        ) + Seq::new(
            tf.aliases.len(),
            |i: int|
                table_function_alias_line(
                    literal(tf.aliases[i]),
                    registered_types(tf),
                    tf.canonical_name,
                ),
        ).flatten() + Seq::new(
            dropped_signatures(tf).len(),
            |i: int| dropped_line(tf.canonical_name, dropped_signatures(tf)[i]),
        ).flatten(),
        tf.param_signatures.len() == 0 ==> dropped_signatures(tf).len() == 0,
        tf.param_signatures.len() > 0 ==> ({
            let all = seq![narrowest(tf.param_signatures)] + dropped_signatures(tf);
            &&& all.len() == tf.param_signatures.len()
            &&& forall|i: int, j: int|
                0 <= i < j < all.len() ==> (#[trigger] all[i]).len() <= (#[trigger] all[j]).len()
            &&& all.filter(|s: Signature| s.len() == width) == tf.param_signatures.filter(
                |s: Signature| s.len() == width,
            )
        }),
{
    let sigs = tf.param_signatures;
    assert(table_function_alias_lines(tf) =~= Seq::new(
        tf.aliases.len(),
        |i: int|
            table_function_alias_line(
                literal(tf.aliases[i]),
                registered_types(tf),
                tf.canonical_name,
            ),
    ));
    assert(dropped_lines(tf) =~= Seq::new(
        dropped_signatures(tf).len(),
        |i: int| dropped_line(tf.canonical_name, dropped_signatures(tf)[i]),
    ));
    if sigs.len() > 0 {
        lemma_by_arity(sigs);
        let all = seq![narrowest(sigs)] + dropped_signatures(tf);
        assert(all =~= by_arity(sigs));
        assert(of_width(by_arity(sigs), width) == of_width(sigs, width));
    }
}

/// The aliases and the dropped signatures that are counted grow table function by
/// table function.
pub proof fn law_table_function_counts_grow(tfs: Seq<TableFunctionView>, tf: TableFunctionView)
    ensures
        table_function_aliases(Seq::empty()).len() == 0,
        all_dropped(Seq::empty()).len() == 0,
        table_function_aliases(tfs.push(tf)) == table_function_aliases(tfs) + tf.aliases,
        all_dropped(tfs.push(tf)).len() == all_dropped(tfs).len() + (if tf.param_signatures.len()
            > 0 {
            tf.param_signatures.len() - 1
        } else {
            0
        }),
{
    let longer = tfs.push(tf);
    assert(table_function_aliases(Seq::empty()) =~= Seq::empty());
    assert(all_dropped(Seq::empty()) =~= Seq::empty());
    let a = Seq::new(tfs.len(), |i: int| tfs[i].aliases);
    assert(Seq::new(longer.len(), |i: int| longer[i].aliases) =~= a.push(tf.aliases));
    a.lemma_flatten_push(tf.aliases);
    let d = Seq::new(tfs.len(), |i: int| dropped_signatures(tfs[i]));
    assert(Seq::new(longer.len(), |i: int| dropped_signatures(longer[i])) =~= d.push(
        dropped_signatures(tf),
    ));
    d.lemma_flatten_push(dropped_signatures(tf));
    lemma_by_arity(tf.param_signatures);
}

} // verus!
