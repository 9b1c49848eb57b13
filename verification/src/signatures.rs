//! Parameter signatures, and the one that a table function is registered with.

use vstd::prelude::*;

use crate::text::Text;
use crate::plan::{signature_views, views};
use crate::walk::refs;

verus! {

/// A list of parameter type names.
pub type Signature = Seq<Text>;

/// `sorted` with `x` behind the last signature that is no wider.
pub open spec fn insert_signature(sorted: Seq<Signature>, x: Signature) -> Seq<Signature>
    decreases sorted.len(),
{
    if sorted.len() == 0 || sorted.last().len() <= x.len() {
        sorted.push(x)
    } else {
        insert_signature(sorted.drop_last(), x).push(sorted.last())
    }
}

/// `sigs` with narrower ones first; those of one width keep their order.
pub open spec fn by_arity(sigs: Seq<Signature>) -> Seq<Signature>
    decreases sigs.len(),
{
    if sigs.len() == 0 {
        Seq::empty()
    } else {
        insert_signature(by_arity(sigs.drop_last()), sigs.last())
    }
}

/// No signature is wider than a later one.
pub open spec fn widening(sigs: Seq<Signature>) -> bool {
    forall|i: int, j: int|
        0 <= i < j < sigs.len() ==> (#[trigger] sigs[i]).len() <= (#[trigger] sigs[j]).len()
}

/// The signatures of width `n`, in order.
pub open spec fn of_width(sigs: Seq<Signature>, n: nat) -> Seq<Signature> {
    sigs.filter(|sig: Signature| sig.len() == n)
}

/// The narrowest of `sigs`, the first recorded among equals; no parameters where
/// there is none.
pub open spec fn narrowest(sigs: Seq<Signature>) -> Signature {
    if sigs.len() == 0 {
        Seq::empty()
    } else {
        by_arity(sigs)[0]
    }
}

/// The views of the strings of each signature in `v`, in order.
pub open spec fn signature_ref_views(v: Seq<&Vec<String>>) -> Seq<Signature> {
    Seq::new(v.len(), |i: int| views(v[i]@))
}

proof fn lemma_insert_signature_multiset(sorted: Seq<Signature>, x: Signature)
    ensures
        insert_signature(sorted, x).to_multiset() == sorted.to_multiset().insert(x),
        insert_signature(sorted, x).len() == sorted.len() + 1,
    decreases sorted.len(),
{
    broadcast use vstd::seq_lib::group_to_multiset_ensures;

    if sorted.len() == 0 || sorted.last().len() <= x.len() {
    } else {
        let rest = sorted.drop_last();
        lemma_insert_signature_multiset(rest, x);
        assert(sorted =~= rest.push(sorted.last()));
        assert(insert_signature(sorted, x).to_multiset() =~= sorted.to_multiset().insert(x));
    }
}

proof fn lemma_insert_signature_bound(sorted: Seq<Signature>, x: Signature, n: nat)
    requires
        x.len() <= n,
        forall|k: int| 0 <= k < sorted.len() ==> (#[trigger] sorted[k]).len() <= n,
    ensures
        forall|k: int|
            0 <= k < insert_signature(sorted, x).len() ==> (#[trigger] insert_signature(
                sorted,
                x,
            )[k]).len() <= n,
    decreases sorted.len(),
{
    if sorted.len() > 0 && sorted.last().len() > x.len() {
        let rest = sorted.drop_last();
        lemma_insert_signature_bound(rest, x, n);
        assert(sorted[sorted.len() - 1].len() <= n);
        let q = insert_signature(rest, x);
        assert(forall|k: int| 0 <= k < q.len() ==> (#[trigger] q[k]).len() <= n);
    }
}

proof fn lemma_insert_signature_widening(sorted: Seq<Signature>, x: Signature)
    requires
        widening(sorted),
    ensures
        widening(insert_signature(sorted, x)),
    decreases sorted.len(),
{
    let r = insert_signature(sorted, x);
    if sorted.len() == 0 || sorted.last().len() <= x.len() {
        assert forall|i: int, j: int| 0 <= i < j < r.len() implies (#[trigger] r[i]).len() <= (
        #[trigger] r[j]).len() by {
            if j == sorted.len() && i < sorted.len() - 1 {
                assert(sorted[i].len() <= sorted[sorted.len() - 1].len());
            }
        }
    } else {
        let rest = sorted.drop_last();
        lemma_insert_signature_widening(rest, x);
        assert forall|k: int| 0 <= k < rest.len() implies (#[trigger] rest[k]).len()
            <= sorted.last().len() by {
            assert(sorted[k].len() <= sorted[sorted.len() - 1].len());
        }
        lemma_insert_signature_bound(rest, x, sorted.last().len());
    }
}

proof fn lemma_insert_signature_of_width(sorted: Seq<Signature>, x: Signature, n: nat)
    requires
        widening(sorted),
    ensures
        of_width(insert_signature(sorted, x), n) == of_width(sorted.push(x), n),
    decreases sorted.len(),
{
    let r = insert_signature(sorted, x);
    if sorted.len() == 0 || sorted.last().len() <= x.len() {
    } else {
        let rest = sorted.drop_last();
        let p = |sig: Signature| sig.len() == n;
        assert forall|i: int, j: int| 0 <= i < j < rest.len() implies (#[trigger] rest[i]).len()
            <= (#[trigger] rest[j]).len() by {
            assert(sorted[i].len() <= sorted[j].len());
        }
        lemma_insert_signature_of_width(rest, x, n);
        assert(sorted =~= rest.push(sorted.last()));
        assert(r == insert_signature(rest, x).push(sorted.last()));
        assert(of_width(r, n) == r.filter(p));
        insert_signature(rest, x).lemma_filter_push(sorted.last(), p);
        rest.lemma_filter_push(x, p);
        rest.lemma_filter_push(sorted.last(), p);
        sorted.lemma_filter_push(x, p);
    }
}

/// Sorting by width loses and adds nothing, puts narrower signatures first and
/// keeps the order of those of one width.
pub proof fn lemma_by_arity(sigs: Seq<Signature>)
    ensures
        by_arity(sigs).len() == sigs.len(),
        by_arity(sigs).to_multiset() == sigs.to_multiset(),
        widening(by_arity(sigs)),
        forall|n: nat| #[trigger] of_width(by_arity(sigs), n) == of_width(sigs, n),
    decreases sigs.len(),
{
    broadcast use vstd::seq_lib::group_to_multiset_ensures;

    if sigs.len() > 0 {
        let rest = sigs.drop_last();
        let x = sigs.last();
        lemma_by_arity(rest);
        assert(sigs =~= rest.push(x));
        lemma_insert_signature_multiset(by_arity(rest), x);
        lemma_insert_signature_widening(by_arity(rest), x);
        assert forall|n: nat| #[trigger] of_width(by_arity(sigs), n) == of_width(sigs, n) by {
            let p = |sig: Signature| sig.len() == n;
            lemma_insert_signature_of_width(by_arity(rest), x, n);
            by_arity(rest).lemma_filter_push(x, p);
            rest.lemma_filter_push(x, p);
            assert(of_width(by_arity(rest), n) == of_width(rest, n));
        }
    }
}

/// The chosen signature is the first recorded one among the narrowest.
pub proof fn lemma_narrowest(sigs: Seq<Signature>)
    requires
        sigs.len() > 0,
    ensures
        exists|k: int|
            0 <= k < sigs.len() && #[trigger] sigs[k] == narrowest(sigs) && (forall|j: int|
                0 <= j < sigs.len() ==> sigs[k].len() <= (#[trigger] sigs[j]).len()) && (forall|
                j: int,
            |
                0 <= j < k ==> sigs[k].len() < (#[trigger] sigs[j]).len()),
    decreases sigs.len(),
{
    let rest = sigs.drop_last();
    let x = sigs.last();
    if rest.len() == 0 {
        assert(by_arity(rest) =~= Seq::empty());
        assert(narrowest(sigs) == sigs[0]);
    } else {
        lemma_narrowest(rest);
        let k = choose|k: int|
            0 <= k < rest.len() && #[trigger] rest[k] == narrowest(rest) && (forall|j: int|
                0 <= j < rest.len() ==> rest[k].len() <= (#[trigger] rest[j]).len()) && (forall|
                j: int,
            |
                0 <= j < k ==> rest[k].len() < (#[trigger] rest[j]).len());
        lemma_by_arity(rest);
        lemma_insert_signature_first(by_arity(rest), x);
        assert(sigs[k] == rest[k]);
        assert(forall|j: int| 0 <= j < rest.len() ==> #[trigger] sigs[j] == rest[j]);
        if rest[k].len() <= x.len() {
            assert(sigs[k] == narrowest(sigs));
        } else {
            assert(sigs[sigs.len() - 1] == narrowest(sigs));
        }
    }
}

/// A new first signature comes only from a narrower one.
proof fn lemma_insert_signature_first(sorted: Seq<Signature>, x: Signature)
    requires
        widening(sorted),
        sorted.len() > 0,
    ensures
        insert_signature(sorted, x)[0] == (if sorted[0].len() <= x.len() {
            sorted[0]
        } else {
            x
        }),
    decreases sorted.len(),
{
    lemma_insert_signature_multiset(sorted, x);
    if sorted.last().len() <= x.len() {
        if sorted.len() > 1 {
            assert(sorted[0].len() <= sorted[sorted.len() - 1].len());
        }
    } else {
        let rest = sorted.drop_last();
        lemma_insert_signature_multiset(rest, x);
        if rest.len() > 0 {
            assert forall|i: int, j: int| 0 <= i < j < rest.len() implies (#[trigger] rest[i]).len()
                <= (#[trigger] rest[j]).len() by {
                assert(sorted[i].len() <= sorted[j].len());
            }
            lemma_insert_signature_first(rest, x);
        }
    }
}

/// Where all signatures from `at` on are wider than `x` and the one before `at`
/// is not, insertion puts `x` at `at`.
proof fn lemma_insert_signature_at(sorted: Seq<Signature>, x: Signature, at: int)
    requires
        0 <= at <= sorted.len(),
        forall|k: int| at <= k < sorted.len() ==> x.len() < (#[trigger] sorted[k]).len(),
        at == 0 || sorted[at - 1].len() <= x.len(),
    ensures
        insert_signature(sorted, x) == sorted.insert(at, x),
    decreases sorted.len(),
{
    if at == sorted.len() {
        assert(sorted.insert(at, x) =~= sorted.push(x));
    } else {
        let rest = sorted.drop_last();
        assert(x.len() < sorted[sorted.len() - 1].len());
        lemma_insert_signature_at(rest, x, at);
        assert(sorted.insert(at, x) =~= rest.insert(at, x).push(sorted.last()));
    }
}

/// The signatures with narrower ones first; those of one width keep their order.
pub fn narrowest_first<'a>(sigs: &'a Vec<Vec<String>>) -> (r: Vec<&'a Vec<String>>)
    ensures
        signature_ref_views(r@) == by_arity(signature_views(sigs@)),
{
    let ghost all = signature_views(sigs@);
    let mut out: Vec<&'a Vec<String>> = Vec::new();
    let mut i: usize = 0;
    assert(signature_ref_views(out@) =~= by_arity(all.take(0)));
    while i < sigs.len()
        invariant
            i <= sigs@.len(),
            all == signature_views(sigs@),
            signature_ref_views(out@) == by_arity(all.take(i as int)),
        decreases sigs@.len() - i,
    {
        let ghost before = signature_ref_views(out@);
        let sig = &sigs[i];
        let mut at: usize = out.len();
        while at > 0 && out[at - 1].len() > sig.len()
            invariant
                at <= out@.len(),
                before == signature_ref_views(out@),
                forall|k: int|
                    at <= k < out@.len() ==> views(sig@).len() < (#[trigger] before[k]).len(),
            decreases at,
        {
            at = at - 1;
        }
        proof {
            lemma_insert_signature_at(before, views(sig@), at as int);
            assert(all.take(i + 1).drop_last() =~= all.take(i as int));
        }
        out.insert(at, sig);
        assert(signature_ref_views(out@) =~= before.insert(at as int, views(sig@)));
        i = i + 1;
    }
    assert(all.take(i as int) =~= all);
    out
}

/// The signatures that `f` makes of each item, one list after the other; `lists`
/// says what they are.
pub(crate) fn flat_signatures<'a, T, F: Fn(&'a T) -> Vec<&'a Vec<String>>>(
    items: &Vec<&'a T>,
    f: F,
    Ghost(lists): Ghost<Seq<Seq<Signature>>>,
) -> (r: Vec<&'a Vec<String>>)
    requires
        lists.len() == items@.len(),
        forall|i: int| 0 <= i < items@.len() ==> call_requires(f, (#[trigger] items@[i],)),
        forall|i: int, v: Vec<&'a Vec<String>>|
            0 <= i < items@.len() && #[trigger] call_ensures(f, (items@[i],), v)
                ==> signature_ref_views(v@) == lists[i],
    ensures
        signature_ref_views(r@) == lists.flatten(),
{
    let mut out: Vec<&'a Vec<String>> = Vec::new();
    let mut i: usize = 0;
    assert(signature_ref_views(out@) =~= lists.take(0).flatten());
    while i < items.len()
        invariant
            i <= items@.len(),
            lists.len() == items@.len(),
            forall|k: int| 0 <= k < items@.len() ==> call_requires(f, (#[trigger] items@[k],)),
            forall|k: int, v: Vec<&'a Vec<String>>|
                0 <= k < items@.len() && #[trigger] call_ensures(f, (items@[k],), v)
                    ==> signature_ref_views(v@) == lists[k],
            signature_ref_views(out@) == lists.take(i as int).flatten(),
        decreases items@.len() - i,
    {
        let mut more = f(items[i]);
        let ghost before = out@;
        let ghost list = more@;
        out.append(&mut more);
        proof {
            assert(signature_ref_views(out@) =~= signature_ref_views(before)
                + signature_ref_views(list));
            assert(lists.take(i + 1) =~= lists.take(i as int).push(lists[i as int]));
            lists.take(i as int).lemma_flatten_push(lists[i as int]);
        }
        i = i + 1;
    }
    assert(lists.take(i as int) =~= lists);
    out
}

/// The signatures of `sigs`, in order.
pub(crate) fn signature_refs<'a>(sigs: &'a Vec<Vec<String>>) -> (r: Vec<&'a Vec<String>>)
    ensures
        signature_ref_views(r@) == signature_views(sigs@),
{
    let out = refs(sigs);
    assert(signature_ref_views(out@) =~= signature_views(sigs@));
    out
}

} // verus!
