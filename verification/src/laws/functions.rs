//! What holds of the functions that a bridge registers.

use vstd::prelude::*;

use crate::emit::aggregates::{
    aggregate_alias_line, aggregate_alias_lines, aggregate_aliases, aggregate_block,
    aggregate_blocks, aggregate_line, aggregate_section, aggregate_summary, aggregates_opening,
    aggregates_runtime, aggregates_text, input_type,
};
use crate::emit::scalars::{
    free_aliases, is_aggregate_name, overload, overload_list, overloads, publishes, registered,
    registered_scalars, registers, scalar_alias_line, scalar_alias_lines, scalar_aliases,
    scalar_block, scalar_blocks, scalar_line, scalar_section, scalar_signatures, scalar_summary,
    scalars_opening, scalars_runtime, scalars_text, skipped_line,
};
use crate::emit::table_functions::{
    all_dropped, dropped_line, dropped_lines, dropped_signatures, registered_types,
    table_function_alias_line, table_function_alias_lines, table_function_aliases,
    table_function_block, table_function_blocks, table_function_line, table_function_summary,
    table_functions_text, udtf_heading, udtf_sections,
};
use crate::occurrence::{
    lemma_joined_occurs, lemma_occurs_append, lemma_occurs_prepend, lemma_occurs_self,
    lemma_occurs_transitive, lemma_part_occurs,
};
use crate::plan::{
    AggregateFunctionView, BridgePlanView, ScalarFunctionView, TableFunctionView,
};
use crate::signatures::{by_arity, lemma_by_arity, lemma_narrowest, narrowest};
use crate::templates::header::HEADER;
use crate::templates::table_functions::{TABLE_FUNCTIONS_HEAD, TABLE_FUNCTIONS_RUNTIME};
use crate::text::{literal, occurs_in, Text};
use crate::walk::{all_aggregates, all_scalars, all_table_functions};

verus! {

/// The lines of every scalar stand in the scalar module.
pub proof fn lemma_scalar_block_occurs(plan: BridgePlanView, i: int)
    requires
        0 <= i < all_scalars(plan).len(),
    ensures
        occurs_in(scalar_block(all_aggregates(plan), all_scalars(plan)[i]), scalars_text(plan)),
{
    let x = scalar_block(all_aggregates(plan), all_scalars(plan)[i]);
    let done = registered_scalars(plan);
    let blocks = scalar_blocks(plan);
    let summary = scalar_summary(
        done.len(),
        scalar_aliases(all_aggregates(plan), done).len(),
        scalar_signatures(done).len(),
    );
    assert(blocks[i] == x);
    lemma_part_occurs(blocks, i);
    lemma_occurs_append(x, blocks.flatten(), summary);
    lemma_occurs_append(
        x,
        blocks.flatten() + summary,
        "    // (no scalars in this interface DB)\n"@,
    );
    let head = scalars_opening();
    lemma_occurs_prepend(x, head, scalar_section(plan));
    lemma_occurs_append(x, head + scalar_section(plan), scalars_runtime());
}

/// Every scalar that no aggregate takes the place of is registered: under its own
/// name and under each alias that no aggregate takes the place of, with the same
/// overloads.
pub proof fn law_scalar_is_registered(plan: BridgePlanView, i: int)
    requires
        0 <= i < all_scalars(plan).len(),
        registers(all_aggregates(plan), all_scalars(plan)[i]),
    ensures
        ({
            let sc = all_scalars(plan)[i];
            &&& occurs_in(
                scalar_line(literal(sc.canonical_name), overload_list(sc)),
                scalars_text(plan),
            )
            &&& forall|a: int|
                0 <= a < sc.aliases.len() && !is_aggregate_name(
                    all_aggregates(plan),
                    sc.aliases[a],
                ) ==> occurs_in(
                    scalar_alias_line(
                        literal(#[trigger] sc.aliases[a]),
                        overload_list(sc),
                        sc.canonical_name,
                    ),
                    scalars_text(plan),
                )
        }),
{
    let aggs = all_aggregates(plan);
    let sc = all_scalars(plan)[i];
    let text = scalars_text(plan);
    let line = scalar_line(literal(sc.canonical_name), overload_list(sc));
    let free = free_aliases(aggs, sc.aliases);
    let more = scalar_alias_lines(sc, free);
    lemma_scalar_block_occurs(plan, i);
    lemma_occurs_self(line);
    lemma_occurs_append(line, line, more.flatten());
    lemma_occurs_transitive(line, scalar_block(aggs, sc), text);
    assert forall|a: int|
        0 <= a < sc.aliases.len() && !is_aggregate_name(aggs, sc.aliases[a]) implies occurs_in(
        scalar_alias_line(literal(#[trigger] sc.aliases[a]), overload_list(sc), sc.canonical_name),
        text,
    ) by {
        let x = scalar_alias_line(literal(sc.aliases[a]), overload_list(sc), sc.canonical_name);
        sc.aliases.lemma_filter_contains(|n: Text| !is_aggregate_name(aggs, n), a);
        let k = choose|k: int| 0 <= k < free.len() && free[k] == sc.aliases[a];
        assert(more[k] == x);
        lemma_part_occurs(more, k);
        lemma_occurs_prepend(x, line, more.flatten());
        lemma_occurs_transitive(x, scalar_block(aggs, sc), text);
    }
}

/// No overload is dropped: every recorded signature of a scalar stands in its
/// overload list with its own parameter types and the result type.
pub proof fn law_no_overload_is_dropped(sc: ScalarFunctionView, k: int)
    requires
        0 <= k < sc.param_signatures.len(),
    ensures
        overloads(sc).len() == sc.param_signatures.len(),
        occurs_in(overload(sc.param_signatures[k], sc.return_type), overload_list(sc)),
{
    assert(overloads(sc)[k] == overload(sc.param_signatures[k], sc.return_type));
    lemma_joined_occurs(overloads(sc), ", "@, k);
}

proof fn lemma_aggregate_block_occurs(plan: BridgePlanView, i: int)
    requires
        0 <= i < all_aggregates(plan).len(),
    ensures
        occurs_in(aggregate_block(all_aggregates(plan)[i]), aggregates_text(plan)),
{
    let aggs = all_aggregates(plan);
    let x = aggregate_block(aggs[i]);
    let blocks = aggregate_blocks(plan);
    let summary = aggregate_summary(aggs.len(), aggregate_aliases(aggs).len());
    assert(blocks[i] == x);
    lemma_part_occurs(blocks, i);
    lemma_occurs_append(x, blocks.flatten(), summary);
    lemma_occurs_prepend(x, aggregates_opening(), aggregate_section(plan));
    lemma_occurs_append(
        x,
        aggregates_opening() + aggregate_section(plan),
        aggregates_runtime(),
    );
}

/// Every aggregate is registered under its own name and under each of its
/// aliases, with its recorded input type.
pub proof fn law_aggregate_is_registered(plan: BridgePlanView, i: int)
    requires
        0 <= i < all_aggregates(plan).len(),
    ensures
        ({
            let agg = all_aggregates(plan)[i];
            &&& occurs_in(
                aggregate_line(agg.canonical_name, literal(input_type(agg))),
                aggregates_text(plan),
            )
            &&& forall|a: int|
                0 <= a < agg.aliases.len() ==> occurs_in(
                    aggregate_alias_line(
                        #[trigger] agg.aliases[a],
                        literal(input_type(agg)),
                        agg.canonical_name,
                    ),
                    aggregates_text(plan),
                )
        }),
{
    let agg = all_aggregates(plan)[i];
    let text = aggregates_text(plan);
    let line = aggregate_line(agg.canonical_name, literal(input_type(agg)));
    let more = aggregate_alias_lines(agg);
    lemma_aggregate_block_occurs(plan, i);
    lemma_occurs_self(line);
    lemma_occurs_append(line, line, more.flatten());
    lemma_occurs_transitive(line, aggregate_block(agg), text);
    assert forall|a: int| 0 <= a < agg.aliases.len() implies occurs_in(
        aggregate_alias_line(
            #[trigger] agg.aliases[a],
            literal(input_type(agg)),
            agg.canonical_name,
        ),
        text,
    ) by {
        let x = aggregate_alias_line(
            agg.aliases[a],
            literal(input_type(agg)),
            agg.canonical_name,
        );
        assert(more[a] == x);
        lemma_part_occurs(more, a);
        lemma_occurs_prepend(x, line, more.flatten());
        lemma_occurs_transitive(x, aggregate_block(agg), text);
    }
}

/// The registration of `agg` under `name`, one of the names it is published under.
pub open spec fn aggregate_registration(agg: AggregateFunctionView, name: Text) -> Text {
    if agg.canonical_name == name {
        aggregate_line(name, literal(input_type(agg)))
    } else {
        aggregate_alias_line(name, literal(input_type(agg)), agg.canonical_name)
    }
}

/// On a clash of names the aggregate wins: the scalar leaves nothing but a note,
/// and an aggregate is registered under that name.
pub proof fn law_aggregate_wins(plan: BridgePlanView, i: int)
    requires
        0 <= i < all_scalars(plan).len(),
        is_aggregate_name(all_aggregates(plan), all_scalars(plan)[i].canonical_name),
    ensures
        scalar_blocks(plan)[i] == skipped_line(all_scalars(plan)[i].canonical_name),
        exists|k: int|
            0 <= k < all_aggregates(plan).len() && publishes(
                #[trigger] all_aggregates(plan)[k],
                all_scalars(plan)[i].canonical_name,
            ) && occurs_in(
                aggregate_registration(
                    all_aggregates(plan)[k],
                    all_scalars(plan)[i].canonical_name,
                ),
                aggregates_text(plan),
            ),
{
    let name = all_scalars(plan)[i].canonical_name;
    let aggs = all_aggregates(plan);
    let k = choose|k: int| 0 <= k < aggs.len() && publishes(#[trigger] aggs[k], name);
    law_aggregate_is_registered(plan, k);
    if aggs[k].canonical_name != name {
        let a = choose|a: int| 0 <= a < aggs[k].aliases.len() && aggs[k].aliases[a] == name;
        assert(aggs[k].aliases[a] == name);
    }
    assert(publishes(all_aggregates(plan)[k], name));
}

/// Every scalar is either registered or skipped.
pub proof fn law_scalars_are_accounted_for(plan: BridgePlanView)
    ensures
        registered_scalars(plan).len() + all_scalars(plan).filter(
            |sc: ScalarFunctionView| is_aggregate_name(all_aggregates(plan), sc.canonical_name),
        ).len() == all_scalars(plan).len(),
{
    lemma_registered_or_skipped(all_aggregates(plan), all_scalars(plan));
}

proof fn lemma_registered_or_skipped(
    aggs: Seq<AggregateFunctionView>,
    scs: Seq<ScalarFunctionView>,
)
    ensures
        registered(aggs, scs).len() + scs.filter(
            |sc: ScalarFunctionView| is_aggregate_name(aggs, sc.canonical_name),
        ).len() == scs.len(),
    decreases scs.len(),
{
    reveal(Seq::filter);
    if scs.len() > 0 {
        lemma_registered_or_skipped(aggs, scs.drop_last());
    }
}

/// A table function is registered with its narrowest signature, the first recorded
/// among equals; all its other signatures are noted, none is lost.
pub proof fn law_narrowest_is_registered(tf: TableFunctionView)
    requires
        tf.param_signatures.len() > 0,
    ensures
        exists|k: int|
            0 <= k < tf.param_signatures.len() && #[trigger] tf.param_signatures[k] == narrowest(
                tf.param_signatures,
            ) && (forall|j: int|
                0 <= j < tf.param_signatures.len() ==> tf.param_signatures[k].len() <= (
                #[trigger] tf.param_signatures[j]).len()) && (forall|j: int|
                0 <= j < k ==> tf.param_signatures[k].len() < (
                #[trigger] tf.param_signatures[j]).len()),
        dropped_signatures(tf).len() + 1 == tf.param_signatures.len(),
        dropped_signatures(tf).to_multiset().insert(narrowest(tf.param_signatures))
            == tf.param_signatures.to_multiset(),
{
    broadcast use vstd::seq_lib::group_to_multiset_ensures;

    let sigs = tf.param_signatures;
    lemma_narrowest(sigs);
    lemma_by_arity(sigs);
    let sorted = by_arity(sigs);
    let rest = sorted.skip(1);
    assert(rest =~= sorted.remove(0));
    sorted.to_multiset_ensures();
    assert(rest.to_multiset() =~= sorted.to_multiset().remove(sorted[0]));
    assert(sorted.contains(sorted[0]));
    assert(rest.to_multiset().insert(sorted[0]) =~= sorted.to_multiset());
}

proof fn lemma_table_function_block_occurs(plan: BridgePlanView, i: int)
    requires
        0 <= i < all_table_functions(plan).len(),
    ensures
        occurs_in(
            table_function_block(all_table_functions(plan)[i]),
            table_functions_text(plan),
        ),
{
    let tfs = all_table_functions(plan);
    let x = table_function_block(tfs[i]);
    let blocks = table_function_blocks(plan);
    let head = HEADER@ + TABLE_FUNCTIONS_HEAD@;
    let summary = table_function_summary(
        tfs.len(),
        table_function_aliases(tfs).len(),
        all_dropped(tfs).len(),
    );
    let body = head + blocks.flatten() + summary;
    let code = body + TABLE_FUNCTIONS_RUNTIME@;
    assert(blocks[i] == x);
    lemma_part_occurs(blocks, i);
    lemma_occurs_prepend(x, head, blocks.flatten());
    lemma_occurs_append(x, head + blocks.flatten(), summary);
    lemma_occurs_append(x, body, TABLE_FUNCTIONS_RUNTIME@);
    lemma_occurs_append(x, code, udtf_heading());
    lemma_occurs_append(x, code + udtf_heading(), udtf_sections(plan).flatten());
}

/// Every table function is registered under its own name and under each of its
/// aliases, with the parameters of its narrowest signature, and each of its other
/// signatures is noted.
pub proof fn law_table_function_is_registered(plan: BridgePlanView, i: int)
    requires
        0 <= i < all_table_functions(plan).len(),
    ensures
        ({
            let tf = all_table_functions(plan)[i];
            let text = table_functions_text(plan);
            &&& occurs_in(
                table_function_line(literal(tf.canonical_name), registered_types(tf)),
                text,
            )
            &&& forall|a: int|
                0 <= a < tf.aliases.len() ==> occurs_in(
                    table_function_alias_line(
                        literal(#[trigger] tf.aliases[a]),
                        registered_types(tf),
                        tf.canonical_name,
                    ),
                    text,
                )
            &&& forall|d: int|
                0 <= d < dropped_signatures(tf).len() ==> occurs_in(
                    dropped_line(tf.canonical_name, #[trigger] dropped_signatures(tf)[d]),
                    text,
                )
        }),
{
    let tf = all_table_functions(plan)[i];
    let text = table_functions_text(plan);
    let block = table_function_block(tf);
    let line = table_function_line(literal(tf.canonical_name), registered_types(tf));
    let more = table_function_alias_lines(tf);
    let notes = dropped_lines(tf);
    lemma_table_function_block_occurs(plan, i);
    lemma_occurs_self(line);
    lemma_occurs_append(line, line, more.flatten());
    lemma_occurs_append(line, line + more.flatten(), notes.flatten());
    lemma_occurs_transitive(line, block, text);
    assert forall|a: int| 0 <= a < tf.aliases.len() implies occurs_in(
        table_function_alias_line(
            literal(#[trigger] tf.aliases[a]),
            registered_types(tf),
            tf.canonical_name,
        ),
        text,
    ) by {
        let x = table_function_alias_line(
            literal(tf.aliases[a]),
            registered_types(tf),
            tf.canonical_name,
        );
        assert(more[a] == x);
        lemma_part_occurs(more, a);
        lemma_occurs_prepend(x, line, more.flatten());
        lemma_occurs_append(x, line + more.flatten(), notes.flatten());
        lemma_occurs_transitive(x, block, text);
    }
    assert forall|d: int| 0 <= d < dropped_signatures(tf).len() implies occurs_in(
        dropped_line(tf.canonical_name, #[trigger] dropped_signatures(tf)[d]),
        text,
    ) by {
        let x = dropped_line(tf.canonical_name, dropped_signatures(tf)[d]);
        assert(notes[d] == x);
        lemma_part_occurs(notes, d);
        lemma_occurs_prepend(x, line + more.flatten(), notes.flatten());
        lemma_occurs_transitive(x, block, text);
    }
}

} // verus!
