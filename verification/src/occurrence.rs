//! Where a text occurs in a longer one.

use vstd::prelude::*;

use crate::text::{join, occurs_in, Text};

verus! {

/// A text occurs in itself.
pub proof fn lemma_occurs_self(x: Text)
    ensures
        occurs_in(x, x),
{
    assert(x.subrange(0, 0int + x.len()) =~= x);
}

/// What occurs in a text occurs in it when more follows.
pub proof fn lemma_occurs_append(x: Text, t: Text, more: Text)
    requires
        occurs_in(x, t),
    ensures
        occurs_in(x, t + more),
{
    let i = choose|i: int|
        0 <= i <= t.len() - x.len() && #[trigger] t.subrange(i, i + x.len()) == x;
    assert((t + more).subrange(i, i + x.len()) =~= t.subrange(i, i + x.len()));
}

/// What occurs in a text occurs in it when more comes first.
pub proof fn lemma_occurs_prepend(x: Text, before: Text, t: Text)
    requires
        occurs_in(x, t),
    ensures
        occurs_in(x, before + t),
{
    let i = choose|i: int|
        0 <= i <= t.len() - x.len() && #[trigger] t.subrange(i, i + x.len()) == x;
    let k = before.len() + i;
    assert((before + t).subrange(k, k + x.len()) =~= t.subrange(i, i + x.len()));
}

/// What occurs in a text occurs wherever that text does.
pub proof fn lemma_occurs_transitive(x: Text, y: Text, z: Text)
    requires
        occurs_in(x, y),
        occurs_in(y, z),
    ensures
        occurs_in(x, z),
{
    let i = choose|i: int|
        0 <= i <= y.len() - x.len() && #[trigger] y.subrange(i, i + x.len()) == x;
    let j = choose|j: int|
        0 <= j <= z.len() - y.len() && #[trigger] z.subrange(j, j + y.len()) == y;
    let k = i + j;
    assert(z.subrange(k, k + x.len()) =~= z.subrange(j, j + y.len()).subrange(i, i + x.len()));
}

/// Each part occurs in the parts put one after the other.
pub proof fn lemma_part_occurs(parts: Seq<Text>, i: int)
    requires
        0 <= i < parts.len(),
    ensures
        occurs_in(parts[i], parts.flatten()),
    decreases parts.len(),
{
    let rest = parts.drop_last();
    assert(parts =~= rest.push(parts.last()));
    rest.lemma_flatten_push(parts.last());
    if i == parts.len() - 1 {
        lemma_occurs_self(parts[i]);
        lemma_occurs_prepend(parts[i], rest.flatten(), parts[i]);
    } else {
        lemma_part_occurs(rest, i);
        lemma_occurs_append(parts[i], rest.flatten(), parts.last());
    }
}

/// Each part occurs in the joined parts.
pub proof fn lemma_joined_occurs(parts: Seq<Text>, sep: Text, i: int)
    requires
        0 <= i < parts.len(),
    ensures
        occurs_in(parts[i], join(parts, sep)),
    decreases parts.len(),
{
    if parts.len() == 1 {
        lemma_occurs_self(parts[0]);
    } else {
        let rest = parts.drop_last();
        if i == parts.len() - 1 {
            lemma_occurs_self(parts[i]);
            lemma_occurs_prepend(parts[i], join(rest, sep) + sep, parts[i]);
        } else {
            lemma_joined_occurs(rest, sep, i);
            lemma_occurs_append(parts[i], join(rest, sep), sep);
            lemma_occurs_append(parts[i], join(rest, sep) + sep, parts.last());
        }
    }
}

} // verus!
