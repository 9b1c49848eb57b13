//! Walks over the items of a plan.

use vstd::prelude::*;

use crate::plan::{
    views, AggregateFunction, AggregateFunctionView, BridgePlan, BridgePlanView, ColumnType,
    ColumnTypeView, Extension, ScalarFunction, ScalarFunctionView, TableFunction,
    TableFunctionView,
};
use crate::text::Text;

verus! {

/// References to the elements of `items`, in order.
pub(crate) fn refs<'a, T>(items: &'a Vec<T>) -> (r: Vec<&'a T>)
    ensures
        r@.len() == items@.len(),
        forall|i: int| 0 <= i < items@.len() ==> *#[trigger] r@[i] == items@[i],
{
    let mut out: Vec<&'a T> = Vec::new();
    let mut i: usize = 0;
    while i < items.len()
        invariant
            i <= items@.len(),
            out@.len() == i,
            forall|k: int| 0 <= k < i ==> *#[trigger] out@[k] == items@[k],
        decreases items@.len() - i,
    {
        out.push(&items[i]);
        i = i + 1;
    }
    out
}

/// What `f` makes of each item, in order; `texts` says what that is.
pub(crate) fn map_texts<'a, T, F: Fn(&'a T) -> String>(
    items: &Vec<&'a T>,
    f: F,
    Ghost(texts): Ghost<Seq<Text>>,
) -> (r: Vec<String>)
    requires
        texts.len() == items@.len(),
        forall|i: int| 0 <= i < items@.len() ==> call_requires(f, (#[trigger] items@[i],)),
        forall|i: int, s: String|
            0 <= i < items@.len() && #[trigger] call_ensures(f, (items@[i],), s) ==> s@ == texts[i],
    ensures
        views(r@) == texts,
{
    let mut out: Vec<String> = Vec::new();
    let mut i: usize = 0;
    while i < items.len()
        invariant
            i <= items@.len(),
            texts.len() == items@.len(),
            forall|k: int| 0 <= k < items@.len() ==> call_requires(f, (#[trigger] items@[k],)),
            forall|k: int, s: String|
                0 <= k < items@.len() && #[trigger] call_ensures(f, (items@[k],), s) ==> s@
                    == texts[k],
            out@.len() == i,
            forall|k: int| 0 <= k < i ==> (#[trigger] out@[k])@ == texts[k],
        decreases items@.len() - i,
    {
        let s = f(items[i]);
        out.push(s);
        i = i + 1;
    }
    assert(views(out@) =~= texts);
    out
}

/// The items of the lists that `f` picks, one list after the other; `parts` says
/// what the lists hold.
pub(crate) fn flat<'a, T, U: View, F: Fn(&'a T) -> &'a Vec<U>>(
    items: &Vec<&'a T>,
    f: F,
    Ghost(parts): Ghost<Seq<Seq<U::V>>>,
) -> (r: Vec<&'a U>)
    requires
        parts.len() == items@.len(),
        forall|i: int| 0 <= i < items@.len() ==> call_requires(f, (#[trigger] items@[i],)),
        forall|i: int, v: &Vec<U>|
            0 <= i < items@.len() && #[trigger] call_ensures(f, (items@[i],), v) ==> views(v@)
                == parts[i],
    ensures
        views(r@) == parts.flatten(),
{
    let mut out: Vec<&'a U> = Vec::new();
    let mut i: usize = 0;
    assert(views(out@) =~= parts.take(0).flatten());
    while i < items.len()
        invariant
            i <= items@.len(),
            parts.len() == items@.len(),
            forall|k: int| 0 <= k < items@.len() ==> call_requires(f, (#[trigger] items@[k],)),
            forall|k: int, v: &Vec<U>|
                0 <= k < items@.len() && #[trigger] call_ensures(f, (items@[k],), v) ==> views(v@)
                    == parts[k],
            views(out@) == parts.take(i as int).flatten(),
        decreases items@.len() - i,
    {
        let list = f(items[i]);
        let ghost before = views(out@);
        let mut j: usize = 0;
        while j < list.len()
            invariant
                j <= list@.len(),
                views(out@) == before + views(list@).take(j as int),
            decreases list@.len() - j,
        {
            let ghost earlier = views(out@);
            out.push(&list[j]);
            j = j + 1;
            assert(views(out@) =~= earlier.push(list@[j - 1]@));
            assert(views(out@) =~= before + views(list@).take(j as int));
        }
        proof {
            assert(views(list@).take(j as int) =~= parts[i as int]);
            assert(parts.take(i + 1) =~= parts.take(i as int).push(parts[i as int]));
            parts.take(i as int).lemma_flatten_push(parts[i as int]);
        }
        i = i + 1;
    }
    assert(parts.take(i as int) =~= parts);
    out
}

/// The scalar functions of all extensions, in order.
pub open spec fn all_scalars(plan: BridgePlanView) -> Seq<ScalarFunctionView> {
    Seq::new(plan.extensions.len(), |i: int| plan.extensions[i].scalars).flatten()
}

fn scalars_of(e: &Extension) -> (r: &Vec<ScalarFunction>)
    ensures
        *r == e.scalars,
{
    &e.scalars
}

/// The scalar functions of all extensions, in order.
pub fn every_scalar<'a>(plan: &'a BridgePlan) -> (r: Vec<&'a ScalarFunction>)
    ensures
        views(r@) == all_scalars(plan@),
{
    let ghost exts = plan@.extensions;
    flat(
        &refs(&plan.extensions),
        scalars_of,
        Ghost(Seq::new(exts.len(), |i: int| exts[i].scalars)),
    )
}

/// The aggregate functions of all extensions, in order.
pub open spec fn all_aggregates(plan: BridgePlanView) -> Seq<AggregateFunctionView> {
    Seq::new(plan.extensions.len(), |i: int| plan.extensions[i].aggregates).flatten()
}

fn aggregates_of(e: &Extension) -> (r: &Vec<AggregateFunction>)
    ensures
        *r == e.aggregates,
{
    &e.aggregates
}

/// The aggregate functions of all extensions, in order.
pub fn every_aggregate<'a>(plan: &'a BridgePlan) -> (r: Vec<&'a AggregateFunction>)
    ensures
        views(r@) == all_aggregates(plan@),
{
    let ghost exts = plan@.extensions;
    flat(
        &refs(&plan.extensions),
        aggregates_of,
        Ghost(Seq::new(exts.len(), |i: int| exts[i].aggregates)),
    )
}

/// The table functions of all extensions, in order.
pub open spec fn all_table_functions(plan: BridgePlanView) -> Seq<TableFunctionView> {
    Seq::new(plan.extensions.len(), |i: int| plan.extensions[i].table_functions).flatten()
}

fn table_functions_of(e: &Extension) -> (r: &Vec<TableFunction>)
    ensures
        *r == e.table_functions,
{
    &e.table_functions
}

/// The table functions of all extensions, in order.
pub fn every_table_function<'a>(plan: &'a BridgePlan) -> (r: Vec<&'a TableFunction>)
    ensures
        views(r@) == all_table_functions(plan@),
{
    let ghost exts = plan@.extensions;
    flat(
        &refs(&plan.extensions),
        table_functions_of,
        Ghost(Seq::new(exts.len(), |i: int| exts[i].table_functions)),
    )
}

/// The column types of all extensions, in order.
pub open spec fn all_column_types(plan: BridgePlanView) -> Seq<ColumnTypeView> {
    Seq::new(plan.extensions.len(), |i: int| plan.extensions[i].column_types).flatten()
}

fn column_types_of(e: &Extension) -> (r: &Vec<ColumnType>)
    ensures
        *r == e.column_types,
{
    &e.column_types
}

/// The column types of all extensions, in order.
pub fn every_column_type<'a>(plan: &'a BridgePlan) -> (r: Vec<&'a ColumnType>)
    ensures
        views(r@) == all_column_types(plan@),
{
    let ghost exts = plan@.extensions;
    flat(
        &refs(&plan.extensions),
        column_types_of,
        Ghost(Seq::new(exts.len(), |i: int| exts[i].column_types)),
    )
}

} // verus!
