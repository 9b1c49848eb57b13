//! The orders in which the emitters list names and signatures.

use vstd::prelude::*;

use crate::plan::views;
use crate::text::{chars_of, Text};

verus! {

/// The order of strings: by the first character in which they differ, a proper
/// prefix first.
pub open spec fn precedes(a: Text, b: Text) -> bool
    decreases a.len(),
{
    if b.len() == 0 {
        false
    } else if a.len() == 0 {
        true
    } else if a[0] == b[0] {
        precedes(a.drop_first(), b.drop_first())
    } else {
        a[0] < b[0]
    }
}

/// Each text precedes the next.
pub open spec fn ascending(s: Seq<Text>) -> bool {
    forall|i: int, j: int| 0 <= i < j < s.len() ==> precedes(#[trigger] s[i], #[trigger] s[j])
}

/// `sorted` with `x` at its place, unless it is there already.
pub open spec fn insert_name(sorted: Seq<Text>, x: Text) -> Seq<Text>
    decreases sorted.len(),
{
    if sorted.len() == 0 {
        seq![x]
    } else if sorted.last() == x {
        sorted
    } else if precedes(sorted.last(), x) {
        sorted.push(x)
    } else {
        insert_name(sorted.drop_last(), x).push(sorted.last())
    }
}

/// The texts of `names` in ascending order, each once.
pub open spec fn sorted_names(names: Seq<Text>) -> Seq<Text>
    decreases names.len(),
{
    if names.len() == 0 {
        Seq::empty()
    } else {
        insert_name(sorted_names(names.drop_last()), names.last())
    }
}

/// Whether `a` precedes `b`.
pub fn text_precedes(a: &str, b: &str) -> (r: bool)
    ensures
        r == precedes(a@, b@),
{
    let x = chars_of(a);
    let y = chars_of(b);
    assert(x@.skip(0) =~= x@ && y@.skip(0) =~= y@);
    let mut i: usize = 0;
    while i < x.len() && i < y.len()
        invariant
            i <= x@.len(),
            i <= y@.len(),
            x@ == a@,
            y@ == b@,
            precedes(x@, y@) == precedes(x@.skip(i as int), y@.skip(i as int)),
        decreases x@.len() - i,
    {
        if x[i] != y[i] {
            return x[i] < y[i];
        }
        assert(x@.skip(i as int).drop_first() =~= x@.skip(i + 1));
        assert(y@.skip(i as int).drop_first() =~= y@.skip(i + 1));
        i = i + 1;
    }
    i < y.len()
}

/// The inserted name is found again, and all that is found was there or is it.
pub proof fn lemma_insert_name_contains(sorted: Seq<Text>, x: Text, y: Text)
    ensures
        insert_name(sorted, x).contains(y) == (sorted.contains(y) || x == y),
    decreases sorted.len(),
{
    let r = insert_name(sorted, x);
    if sorted.len() == 0 {
        assert(r[0] == x);
    } else if sorted.last() == x {
        assert(sorted[sorted.len() - 1] == x);
    } else if precedes(sorted.last(), x) {
        assert(r[sorted.len() as int] == x);
        assert(sorted =~= r.drop_last());
        if sorted.contains(y) {
            let i = choose|i: int| 0 <= i < sorted.len() && sorted[i] == y;
            assert(r[i] == y);
        }
    } else {
        let rest = sorted.drop_last();
        lemma_insert_name_contains(rest, x, y);
        let q = insert_name(rest, x);
        assert(sorted =~= rest.push(sorted.last()));
        lemma_push_contains(q, sorted.last(), y);
        lemma_push_contains(rest, sorted.last(), y);
    }
}

proof fn lemma_push_contains(s: Seq<Text>, last: Text, y: Text)
    ensures
        s.push(last).contains(y) == (s.contains(y) || last == y),
{
    let r = s.push(last);
    if s.contains(y) {
        let i = choose|i: int| 0 <= i < s.len() && s[i] == y;
        assert(r[i] == y);
    }
    assert(r[s.len() as int] == last);
}

/// The order is strict, total and transitive.
pub proof fn lemma_precedes_irreflexive(a: Text)
    ensures
        !precedes(a, a),
    decreases a.len(),
{
    if a.len() > 0 {
        lemma_precedes_irreflexive(a.drop_first());
    }
}

pub proof fn lemma_precedes_total(a: Text, b: Text)
    ensures
        precedes(a, b) || precedes(b, a) || a == b,
    decreases a.len(),
{
    if a.len() > 0 && b.len() > 0 {
        lemma_precedes_total(a.drop_first(), b.drop_first());
        if a.drop_first() == b.drop_first() && a[0] == b[0] {
            assert(a =~= seq![a[0]] + a.drop_first());
            assert(b =~= seq![b[0]] + b.drop_first());
        }
    } else {
        assert(a.len() == 0 && b.len() == 0 ==> a =~= b);
    }
}

pub proof fn lemma_precedes_transitive(a: Text, b: Text, c: Text)
    requires
        precedes(a, b),
        precedes(b, c),
    ensures
        precedes(a, c),
    decreases a.len(),
{
    if a.len() > 0 && a[0] == b[0] && b[0] == c[0] {
        lemma_precedes_transitive(a.drop_first(), b.drop_first(), c.drop_first());
    }
}

/// Insertion keeps the order.
pub proof fn lemma_insert_name_ascending(sorted: Seq<Text>, x: Text)
    requires
        ascending(sorted),
    ensures
        ascending(insert_name(sorted, x)),
    decreases sorted.len(),
{
    let r = insert_name(sorted, x);
    if sorted.len() == 0 || sorted.last() == x {
    } else if precedes(sorted.last(), x) {
        assert forall|i: int, j: int| 0 <= i < j < r.len() implies precedes(
            #[trigger] r[i],
            #[trigger] r[j],
        ) by {
            if j == sorted.len() && i < sorted.len() - 1 {
                assert(precedes(sorted[i], sorted[sorted.len() - 1]));
                lemma_precedes_transitive(sorted[i], sorted.last(), x);
            } else if j < sorted.len() {
                assert(precedes(sorted[i], sorted[j]));
            }
        }
    } else {
        let rest = sorted.drop_last();
        let q = insert_name(rest, x);
        lemma_insert_name_ascending(rest, x);
        lemma_precedes_total(sorted.last(), x);
        assert forall|i: int, j: int| 0 <= i < j < r.len() implies precedes(
            #[trigger] r[i],
            #[trigger] r[j],
        ) by {
            if j < q.len() {
                assert(precedes(q[i], q[j]));
            } else {
                lemma_insert_name_contains(rest, x, q[i]);
                assert(q.contains(q[i]));
                if rest.contains(q[i]) {
                    let k = choose|k: int| 0 <= k < rest.len() && rest[k] == q[i];
                    assert(precedes(sorted[k], sorted[sorted.len() - 1]));
                }
            }
        }
    }
}

/// The sorted names are in ascending order, and are the given ones.
pub proof fn lemma_sorted_names(names: Seq<Text>)
    ensures
        ascending(sorted_names(names)),
        forall|x: Text| sorted_names(names).contains(x) == names.contains(x),
    decreases names.len(),
{
    if names.len() > 0 {
        let rest = names.drop_last();
        lemma_sorted_names(rest);
        lemma_insert_name_ascending(sorted_names(rest), names.last());
        assert forall|x: Text| sorted_names(names).contains(x) == names.contains(x) by {
            lemma_insert_name_contains(sorted_names(rest), names.last(), x);
            lemma_push_contains(rest, names.last(), x);
            assert(names =~= rest.push(names.last()));
        }
    }
}

/// Two ascending sequences with the same texts are equal.
pub proof fn lemma_ascending_unique(a: Seq<Text>, b: Seq<Text>)
    requires
        ascending(a),
        ascending(b),
        forall|x: Text| a.contains(x) == b.contains(x),
    ensures
        a == b,
    decreases a.len(),
{
    if a.len() == 0 {
        if b.len() > 0 {
            assert(b.contains(b[0]));
        }
        assert(a =~= b);
    } else {
        assert(a.contains(a.last()));
        if b.len() == 0 {
            assert(false);
        }
        let i = choose|i: int| 0 <= i < b.len() && b[i] == a.last();
        assert(b.contains(b.last()));
        let j = choose|j: int| 0 <= j < a.len() && a[j] == b.last();
        if i < b.len() - 1 {
            assert(precedes(b[i], b[b.len() - 1]));
            if j < a.len() - 1 {
                assert(precedes(a[j], a[a.len() - 1]));
                lemma_precedes_transitive(a.last(), b.last(), a.last());
            }
            lemma_precedes_irreflexive(a.last());
        }
        assert(a.last() == b.last());
        let ra = a.drop_last();
        let rb = b.drop_last();
        assert forall|x: Text| ra.contains(x) == rb.contains(x) by {
            lemma_push_contains(ra, a.last(), x);
            lemma_push_contains(rb, b.last(), x);
            assert(a =~= ra.push(a.last()));
            assert(b =~= rb.push(b.last()));
            if ra.contains(a.last()) {
                let k = choose|k: int| 0 <= k < ra.len() && ra[k] == a.last();
                assert(precedes(a[k], a[a.len() - 1]));
                lemma_precedes_irreflexive(a.last());
            }
            if rb.contains(b.last()) {
                let k = choose|k: int| 0 <= k < rb.len() && rb[k] == b.last();
                assert(precedes(b[k], b[b.len() - 1]));
                lemma_precedes_irreflexive(b.last());
            }
        }
        lemma_ascending_unique(ra, rb);
        assert(a =~= ra.push(a.last()));
        assert(b =~= rb.push(b.last()));
    }
}

/// Where all names from `at` on follow `x` and the one before `at` precedes it,
/// insertion puts `x` at `at`; where the one before `at` is `x`, it keeps all.
proof fn lemma_insert_name_at(sorted: Seq<Text>, x: Text, at: int)
    requires
        0 <= at <= sorted.len(),
        forall|k: int| at <= k < sorted.len() ==> precedes(x, #[trigger] sorted[k]),
        at == 0 || precedes(sorted[at - 1], x) || sorted[at - 1] == x,
    ensures
        insert_name(sorted, x) == (if at > 0 && sorted[at - 1] == x {
            sorted
        } else {
            sorted.insert(at, x)
        }),
    decreases sorted.len(),
{
    lemma_precedes_irreflexive(x);
    if at == sorted.len() {
        assert(sorted.insert(at, x) =~= sorted.push(x));
    } else {
        let last = sorted.last();
        assert(precedes(x, sorted[sorted.len() - 1]));
        if precedes(last, x) {
            lemma_precedes_transitive(x, last, x);
        }
        let rest = sorted.drop_last();
        lemma_insert_name_at(rest, x, at);
        assert(rest.push(last) =~= sorted);
        assert(sorted.insert(at, x) =~= rest.insert(at, x).push(last));
    }
}

/// Puts `x` at its place, unless it is there already.
pub fn insert_sorted(names: &mut Vec<String>, x: String)
    ensures
        views(final(names)@) == insert_name(views(old(names)@), x@),
{
    let ghost before = views(names@);
    let mut at: usize = names.len();
    while at > 0 && text_precedes(x.as_str(), names[at - 1].as_str())
        invariant
            at <= names@.len(),
            before == views(names@),
            forall|k: int| at <= k < names@.len() ==> precedes(x@, #[trigger] before[k]),
        decreases at,
    {
        at = at - 1;
    }
    proof {
        if at > 0 {
            lemma_precedes_total(x@, before[at - 1]);
        }
        lemma_insert_name_at(before, x@, at as int);
    }
    if at > 0 && names[at - 1] == x {
        return;
    }
    let ghost text = x@;
    names.insert(at, x);
    assert(views(names@) =~= before.insert(at as int, text));
}

} // verus!
