//! The lines of a text, and what is left of a sequence when parts of it are taken
//! away.

use vstd::prelude::*;

use crate::text::Text;

verus! {

/// Text without a line break.
pub open spec fn no_break(t: Text) -> bool {
    forall|i: int| 0 <= i < t.len() ==> #[trigger] t[i] != '\n'
}

/// Whether what follows `t` starts a line.
pub open spec fn ends_line(t: Text) -> bool {
    t.len() == 0 || t.last() == '\n'
}

/// The lines of `t`, without their line breaks.
pub open spec fn lines(t: Text) -> Seq<Text>
    decreases t.len(),
{
    if t.len() == 0 {
        Seq::empty()
    } else {
        let before = lines(t.drop_last());
        if t.last() == '\n' {
            if ends_line(t.drop_last()) {
                before.push(Seq::empty())
            } else {
                before
            }
        } else if ends_line(t.drop_last()) {
            before.push(seq![t.last()])
        } else {
            before.drop_last().push(before.last().push(t.last()))
        }
    }
}

/// The lines of `t` that `p` picks, in order.
pub open spec fn picked(t: Text, p: spec_fn(Text) -> bool) -> Seq<Text> {
    lines(t).filter(p)
}

/// The lines of `t` that start with `start`, in order.
pub open spec fn lines_with(t: Text, start: Text) -> Seq<Text> {
    picked(t, |l: Text| start.is_prefix_of(l))
}

/// The lines of `t` that do not start with `start`, in order.
pub open spec fn lines_without(t: Text, start: Text) -> Seq<Text> {
    picked(t, |l: Text| !start.is_prefix_of(l))
}

/// Whether `a` is `b` with some of its items taken away.
pub open spec fn is_subsequence<A>(a: Seq<A>, b: Seq<A>) -> bool
    decreases b.len(),
{
    if a.len() == 0 {
        true
    } else if b.len() == 0 {
        false
    } else {
        is_subsequence(a, b.drop_last()) || (a.last() == b.last() && is_subsequence(
            a.drop_last(),
            b.drop_last(),
        ))
    }
}

/// Line breaks neither come nor go where texts are put together.
pub proof fn lemma_no_break_concat(a: Text, b: Text)
    ensures
        no_break(a + b) == (no_break(a) && no_break(b)),
{
    if no_break(a + b) {
        assert forall|i: int| 0 <= i < a.len() implies #[trigger] a[i] != '\n' by {
            assert((a + b)[i] == a[i]);
        }
        assert forall|i: int| 0 <= i < b.len() implies #[trigger] b[i] != '\n' by {
            assert((a + b)[a.len() + i] == b[i]);
        }
    }
}

/// Lines of a text that ends one come before the lines of what follows.
pub proof fn lemma_lines_concat(a: Text, b: Text)
    requires
        ends_line(a),
    ensures
        lines(a + b) == lines(a) + lines(b),
        b.len() > 0 ==> lines(b).len() > 0,
    decreases b.len(),
{
    if b.len() == 0 {
        assert(a + b =~= a);
        assert(lines(a) + lines(b) =~= lines(a));
    } else {
        let rest = b.drop_last();
        lemma_lines_concat(a, rest);
        assert((a + b).drop_last() =~= a + rest);
        assert((a + b).last() == b.last());
        assert(ends_line(a + rest) == ends_line(rest)) by {
            if rest.len() > 0 {
                assert((a + rest).last() == rest.last());
            } else {
                assert(a + rest =~= a);
            }
        }
        assert(lines(a + b) =~= lines(a) + lines(b));
    }
}

/// A line of a text stands in it at the start or behind a line break; an unfinished
/// last line reaches to its end.
pub proof fn lemma_line_at(t: Text, k: int) -> (i: int)
    requires
        0 <= k < lines(t).len(),
    ensures
        0 <= i <= i + lines(t)[k].len() <= t.len(),
        i == 0 || t[i - 1] == '\n',
        t.subrange(i, i + lines(t)[k].len()) == lines(t)[k],
        k == lines(t).len() - 1 && !ends_line(t) ==> i + lines(t)[k].len() == t.len(),
    decreases t.len(),
{
    let rest = t.drop_last();
    let before = lines(rest);
    if ends_line(rest) && k == before.len() {
        let i = rest.len() as int;
        assert(t.subrange(i, i + lines(t)[k].len()) =~= lines(t)[k]);
        i
    } else {
        lemma_lines_concat(Seq::empty(), rest);
        let i = lemma_line_at(rest, k);
        if t.last() != '\n' && !ends_line(rest) && k == before.len() - 1 {
            assert(lines(t)[k] == before[k].push(t.last()));
        }
        assert(t.subrange(i, i + before[k].len()) =~= rest.subrange(i, i + before[k].len()));
        assert(t.subrange(i, i + lines(t)[k].len()) =~= lines(t)[k]);
        i
    }
}

/// A text without a line break and the break behind it make one line.
pub proof fn lemma_single_line(l: Text)
    requires
        no_break(l),
    ensures
        lines(l.push('\n')) == seq![l],
    decreases l.len(),
{
    lemma_open_line(l);
    assert(l.push('\n').drop_last() =~= l);
    if l.len() > 0 {
        assert(l.last() != '\n');
    } else {
        assert(l =~= Seq::empty());
    }
    assert(lines(l.push('\n')) =~= seq![l]);
}

proof fn lemma_open_line(l: Text)
    requires
        no_break(l),
    ensures
        lines(l) == (if l.len() == 0 {
            Seq::empty()
        } else {
            seq![l]
        }),
    decreases l.len(),
{
    if l.len() > 0 {
        let rest = l.drop_last();
        lemma_open_line(rest);
        if rest.len() > 0 {
            assert(rest.last() == l[l.len() - 2]);
            assert(rest.push(l.last()) =~= l);
            assert(lines(l) =~= seq![l]);
        } else {
            assert(seq![l.last()] =~= l);
        }
    }
}

/// The picked lines of a text that ends one come before those of what follows.
pub proof fn lemma_picked_concat(a: Text, b: Text, p: spec_fn(Text) -> bool)
    requires
        ends_line(a),
    ensures
        picked(a + b, p) == picked(a, p) + picked(b, p),
        ends_line(b) ==> ends_line(a + b),
{
    lemma_lines_concat(a, b);
    Seq::filter_distributes_over_add(lines(a), lines(b), p);
    if b.len() > 0 {
        assert((a + b).last() == b.last());
    } else {
        assert(a + b =~= a);
    }
}

/// A single line is picked or not.
pub proof fn lemma_picked_line(l: Text, p: spec_fn(Text) -> bool)
    requires
        no_break(l),
    ensures
        picked(l.push('\n'), p) == (if p(l) {
            seq![l]
        } else {
            Seq::empty()
        }),
        ends_line(l.push('\n')),
{
    lemma_single_line(l);
    reveal(Seq::filter);
    let none = Seq::<Text>::empty();
    assert(seq![l] =~= none.push(l));
    none.lemma_filter_push(l, p);
    assert(none.filter(p) =~= none);
    assert(none.push(l) =~= seq![l]);
}

/// The picked lines of texts put together, each of which ends a line, are those of
/// each text, one after the other.
pub proof fn lemma_picked_flatten(parts: Seq<Text>, p: spec_fn(Text) -> bool)
    requires
        forall|i: int| 0 <= i < parts.len() ==> ends_line(#[trigger] parts[i]),
    ensures
        picked(parts.flatten(), p) == Seq::new(
            parts.len(),
            |i: int| picked(parts[i], p),
        ).flatten(),
        ends_line(parts.flatten()),
    decreases parts.len(),
{
    let all = Seq::new(parts.len(), |i: int| picked(parts[i], p));
    if parts.len() == 0 {
        assert(parts.flatten() =~= Seq::empty());
        reveal(Seq::filter);
        assert(picked(parts.flatten(), p) =~= Seq::empty());
        assert(all.flatten() =~= Seq::empty());
    } else {
        let rest = parts.drop_last();
        let before = Seq::new(rest.len(), |i: int| picked(rest[i], p));
        assert forall|i: int| 0 <= i < rest.len() implies ends_line(#[trigger] rest[i]) by {
            assert(rest[i] == parts[i]);
        }
        lemma_picked_flatten(rest, p);
        assert(parts =~= rest.push(parts.last()));
        rest.lemma_flatten_push(parts.last());
        assert(ends_line(parts[parts.len() - 1]));
        lemma_picked_concat(rest.flatten(), parts.last(), p);
        assert(all =~= before.push(picked(parts.last(), p)));
        before.lemma_flatten_push(picked(parts.last(), p));
    }
}

/// Nothing put together is nothing.
pub proof fn lemma_flatten_empty<A>(parts: Seq<Seq<A>>)
    requires
        forall|i: int| 0 <= i < parts.len() ==> #[trigger] parts[i] == Seq::<A>::empty(),
    ensures
        parts.flatten() == Seq::<A>::empty(),
    decreases parts.len(),
{
    if parts.len() == 0 {
        assert(parts.flatten() =~= Seq::empty());
    } else {
        let rest = parts.drop_last();
        assert forall|i: int| 0 <= i < rest.len() implies #[trigger] rest[i]
            == Seq::<A>::empty() by {
            assert(rest[i] == parts[i]);
        }
        lemma_flatten_empty(rest);
        assert(parts =~= rest.push(parts.last()));
        rest.lemma_flatten_push(parts.last());
        assert(parts[parts.len() - 1] == Seq::<A>::empty());
        assert(rest.flatten() + parts.last() =~= Seq::empty());
    }
}

/// What is put together holds an item exactly where one of its parts does.
pub proof fn lemma_flatten_contains<A>(parts: Seq<Seq<A>>, x: A)
    ensures
        parts.flatten().contains(x) == exists|i: int|
            0 <= i < parts.len() && (#[trigger] parts[i]).contains(x),
    decreases parts.len(),
{
    if parts.len() == 0 {
        assert(parts.flatten() =~= Seq::empty());
    } else {
        let rest = parts.drop_last();
        let last = parts.last();
        lemma_flatten_contains(rest, x);
        assert(parts =~= rest.push(last));
        rest.lemma_flatten_push(last);
        let all = rest.flatten() + last;
        if all.contains(x) {
            let k = choose|k: int| 0 <= k < all.len() && all[k] == x;
            if k < rest.flatten().len() {
                assert(rest.flatten()[k] == x);
                let i = choose|i: int| 0 <= i < rest.len() && (#[trigger] rest[i]).contains(x);
                assert(parts[i].contains(x));
            } else {
                assert(last[k - rest.flatten().len()] == x);
                assert(parts[parts.len() - 1].contains(x));
            }
        }
        if exists|i: int| 0 <= i < parts.len() && (#[trigger] parts[i]).contains(x) {
            let i = choose|i: int| 0 <= i < parts.len() && (#[trigger] parts[i]).contains(x);
            if i < rest.len() {
                assert(rest[i].contains(x));
                let k = choose|k: int| 0 <= k < rest.flatten().len() && rest.flatten()[k] == x;
                assert(all[k] == x);
            } else {
                let k = choose|k: int| 0 <= k < last.len() && last[k] == x;
                assert(all[rest.flatten().len() + k] == x);
            }
        }
    }
}

/// A sequence is a subsequence of itself.
pub proof fn lemma_subsequence_self<A>(a: Seq<A>)
    ensures
        is_subsequence(a, a),
    decreases a.len(),
{
    if a.len() > 0 {
        lemma_subsequence_self(a.drop_last());
    }
}

/// Subsequences put together are a subsequence of what they are taken from.
pub proof fn lemma_subsequence_concat<A>(a: Seq<A>, b: Seq<A>, c: Seq<A>, d: Seq<A>)
    requires
        is_subsequence(a, b),
        is_subsequence(c, d),
    ensures
        is_subsequence(a + c, b + d),
    decreases d.len(),
{
    if d.len() == 0 {
        assert(a + c =~= a);
        assert(b + d =~= b);
    } else {
        assert((b + d).drop_last() =~= b + d.drop_last());
        if is_subsequence(c, d.drop_last()) {
            lemma_subsequence_concat(a, b, c, d.drop_last());
        } else {
            lemma_subsequence_concat(a, b, c.drop_last(), d.drop_last());
            assert((a + c).drop_last() =~= a + c.drop_last());
        }
    }
}

/// Subsequences put together in the same order are a subsequence of what they are
/// taken from.
pub proof fn lemma_subsequence_flatten<A>(a: Seq<Seq<A>>, b: Seq<Seq<A>>)
    requires
        a.len() == b.len(),
        forall|i: int| 0 <= i < a.len() ==> is_subsequence(#[trigger] a[i], b[i]),
    ensures
        is_subsequence(a.flatten(), b.flatten()),
    decreases a.len(),
{
    if a.len() == 0 {
        assert(a.flatten() =~= Seq::empty());
    } else {
        let ra = a.drop_last();
        let rb = b.drop_last();
        assert forall|i: int| 0 <= i < ra.len() implies is_subsequence(#[trigger] ra[i], rb[i]) by {
            assert(is_subsequence(a[i], b[i]));
        }
        lemma_subsequence_flatten(ra, rb);
        assert(a =~= ra.push(a.last()));
        assert(b =~= rb.push(b.last()));
        ra.lemma_flatten_push(a.last());
        rb.lemma_flatten_push(b.last());
        assert(is_subsequence(a[a.len() - 1], b[a.len() - 1]));
        lemma_subsequence_concat(ra.flatten(), rb.flatten(), a.last(), b.last());
    }
}

} // verus!
