//! How the pieces of an emitted text are read back.

use vstd::prelude::*;

use crate::laws::naming::{decimal_value, law_decimal};
use crate::outside::{is_plain, is_plain_char, quoted};
use crate::text::{
    decimal, is_white_space, join, literal, occurs_in, optional_number, pad_left, pad_right,
    quoted_list, signed_decimal, trim_end, trim_start, trimmed, Text,
};

verus! {

/// Text without the character `c`.
pub open spec fn is_free_of(t: Text, c: char) -> bool {
    forall|i: int| 0 <= i < t.len() ==> #[trigger] t[i] != c
}

/// The text that `marks` and the first `n` of `fields` make, in turns.
pub open spec fn woven(marks: Seq<Text>, fields: Seq<Text>, n: int) -> Text
    decreases n,
{
    if n <= 0 {
        marks[0]
    } else {
        woven(marks, fields, n - 1) + fields[n - 1] + marks[n]
    }
}

/// Whether `t` shows `fields`, in order, between the fixed `marks`.
pub open spec fn shows(t: Text, marks: Seq<Text>, fields: Seq<Text>) -> bool {
    &&& marks.len() == fields.len() + 1
    &&& t == woven(marks, fields, fields.len() as int)
}

/// Whether the `j`-th field is free of the character that ends it.
pub open spec fn is_ended(marks: Seq<Text>, fields: Seq<Text>, j: int) -> bool {
    marks[j + 1].len() > 0 && is_free_of(fields[j], marks[j + 1][0])
}

/// Whether every field is free of the character that ends it.
pub open spec fn is_delimited(marks: Seq<Text>, fields: Seq<Text>) -> bool {
    forall|j: int| 0 <= j < fields.len() ==> #[trigger] is_ended(marks, fields, j)
}

/// `t` cut at each `c`.
pub open spec fn cut(t: Text, c: char) -> Seq<Text>
    decreases t.len(),
{
    if t.len() == 0 {
        seq![Seq::empty()]
    } else {
        let before = cut(t.drop_last(), c);
        if t.last() == c {
            before.push(Seq::empty())
        } else {
            before.drop_last().push(before.last().push(t.last()))
        }
    }
}

/// `t` cut at each comma and the character behind it; nothing where it is empty.
pub open spec fn items(t: Text) -> Seq<Text> {
    if t.len() == 0 {
        Seq::empty()
    } else {
        let parts = cut(t, ',');
        Seq::new(
            parts.len(),
            |i: int|
                if i == 0 {
                    parts[i]
                } else {
                    parts[i].skip(1)
                },
        )
    }
}

proof fn lemma_woven_front(marks: Seq<Text>, fields: Seq<Text>, n: int)
    requires
        marks.len() == fields.len() + 1,
        0 < n <= fields.len(),
    ensures
        woven(marks, fields, n) == marks[0] + (fields[0] + woven(
            marks.skip(1),
            fields.skip(1),
            n - 1,
        )),
    decreases n,
{
    let ms = marks.skip(1);
    let fs = fields.skip(1);
    if n == 1 {
        assert(woven(marks, fields, 0) == marks[0]);
        assert(woven(ms, fs, 0) == marks[1]);
        assert(marks[0] + fields[0] + marks[1] =~= marks[0] + (fields[0] + marks[1]));
    } else {
        lemma_woven_front(marks, fields, n - 1);
        let w = woven(ms, fs, n - 2);
        assert(fs[n - 2] == fields[n - 1]);
        assert(ms[n - 1] == marks[n]);
        assert(marks[0] + (fields[0] + w) + fields[n - 1] + marks[n] =~= marks[0] + (fields[0] + (w
            + fields[n - 1] + marks[n])));
    }
}

proof fn lemma_woven_start(marks: Seq<Text>, fields: Seq<Text>, n: int)
    requires
        marks.len() == fields.len() + 1,
        0 <= n <= fields.len(),
        marks[0].len() > 0,
    ensures
        woven(marks, fields, n).len() > 0,
        woven(marks, fields, n)[0] == marks[0][0],
    decreases n,
{
    if n > 0 {
        lemma_woven_start(marks, fields, n - 1);
    }
}

proof fn lemma_delimited_rest(marks: Seq<Text>, fields: Seq<Text>)
    requires
        fields.len() > 0,
        marks.len() == fields.len() + 1,
        is_delimited(marks, fields),
    ensures
        is_delimited(marks.skip(1), fields.skip(1)),
{
    let ms = marks.skip(1);
    let fs = fields.skip(1);
    assert forall|j: int| 0 <= j < fs.len() implies #[trigger] is_ended(ms, fs, j) by {
        assert(is_ended(marks, fields, j + 1));
        assert(fs[j] == fields[j + 1]);
        assert(ms[j + 1] == marks[j + 2]);
    }
}

/// Fields are read back: texts that show fields between the same marks are equal
/// only where the fields are, as long as each field is free of the character that
/// ends it.
pub proof fn law_fields_are_read_back(t: Text, marks: Seq<Text>, f: Seq<Text>, g: Seq<Text>)
    requires
        shows(t, marks, f),
        shows(t, marks, g),
        is_delimited(marks, f),
        is_delimited(marks, g),
    ensures
        f == g,
    decreases f.len(),
{
    if f.len() > 0 {
        let ms = marks.skip(1);
        let fs = f.skip(1);
        let gs = g.skip(1);
        let n = f.len() as int;
        lemma_woven_front(marks, f, n);
        lemma_woven_front(marks, g, n);
        let wf = woven(ms, fs, n - 1);
        let wg = woven(ms, gs, n - 1);
        let x = f[0] + wf;
        let y = g[0] + wg;
        assert(is_ended(marks, f, 0));
        assert(is_ended(marks, g, 0));
        lemma_woven_start(ms, fs, n - 1);
        lemma_woven_start(ms, gs, n - 1);
        let m = marks[0].len() as int;
        assert((marks[0] + x).skip(m) =~= x);
        assert((marks[0] + y).skip(m) =~= y);
        if f[0].len() < g[0].len() {
            let k = f[0].len() as int;
            assert(x[k] == wf[0]);
            assert(y[k] == g[0][k]);
        }
        if g[0].len() < f[0].len() {
            let k = g[0].len() as int;
            assert(y[k] == wg[0]);
            assert(x[k] == f[0][k]);
        }
        let k = f[0].len() as int;
        assert(x.take(k) =~= f[0]);
        assert(y.take(k) =~= g[0]);
        assert(x.skip(k) =~= wf);
        assert(y.skip(k) =~= wg);
        lemma_delimited_rest(marks, f);
        lemma_delimited_rest(marks, g);
        law_fields_are_read_back(wf, ms, fs, gs);
        assert forall|j: int| 0 <= j < f.len() implies f[j] == g[j] by {
            if j > 0 {
                assert(fs[j - 1] == gs[j - 1]);
            }
        }
    }
    assert(f =~= g);
}

/// A text without `c` is one piece.
pub proof fn lemma_cut_whole(t: Text, c: char)
    requires
        is_free_of(t, c),
    ensures
        cut(t, c) == seq![t],
    decreases t.len(),
{
    if t.len() > 0 {
        let rest = t.drop_last();
        lemma_cut_whole(rest, c);
        assert(t.last() != c);
        assert(rest.push(t.last()) =~= t);
        assert(cut(t, c) =~= seq![t]);
    } else {
        assert(t =~= Seq::empty());
    }
}

/// Cutting a text at a `c` in it cuts what is before and what is behind.
pub proof fn lemma_cut_concat(a: Text, c: char, b: Text)
    ensures
        cut(a + seq![c] + b, c) == cut(a, c) + cut(b, c),
        cut(b, c).len() > 0,
    decreases b.len(),
{
    let t = a + seq![c] + b;
    if b.len() == 0 {
        assert(t.drop_last() =~= a);
        assert(t.last() == c);
        assert(b =~= Seq::empty());
        assert(cut(t, c) =~= cut(a, c) + cut(b, c));
    } else {
        let rest = b.drop_last();
        lemma_cut_concat(a, c, rest);
        assert(t.drop_last() =~= a + seq![c] + rest);
        assert(t.last() == b.last());
        assert(cut(t, c) =~= cut(a, c) + cut(b, c));
    }
}

proof fn lemma_cut_joined(parts: Seq<Text>)
    requires
        parts.len() > 0,
        forall|i: int| 0 <= i < parts.len() ==> is_free_of(#[trigger] parts[i], ','),
    ensures
        cut(join(parts, ", "@), ',') == Seq::new(
            parts.len(),
            |i: int|
                if i == 0 {
                    parts[i]
                } else {
                    seq![' '] + parts[i]
                },
        ),
    decreases parts.len(),
{
    reveal_strlit(", ");
    let all = Seq::new(
        parts.len(),
        |i: int|
            if i == 0 {
                parts[i]
            } else {
                seq![' '] + parts[i]
            },
    );
    if parts.len() == 1 {
        assert(is_free_of(parts[0], ','));
        lemma_cut_whole(parts[0], ',');
        assert(all =~= seq![parts[0]]);
    } else {
        let rest = parts.drop_last();
        let last = seq![' '] + parts.last();
        assert forall|i: int| 0 <= i < rest.len() implies is_free_of(#[trigger] rest[i], ',') by {
            assert(rest[i] == parts[i]);
        }
        lemma_cut_joined(rest);
        assert(is_free_of(parts[parts.len() - 1], ','));
        assert(is_free_of(last, ','));
        lemma_cut_whole(last, ',');
        lemma_cut_concat(join(rest, ", "@), ',', last);
        assert(join(parts, ", "@) =~= join(rest, ", "@) + seq![','] + last);
        assert(all =~= cut(join(rest, ", "@), ',') + seq![last]);
    }
}

/// Items joined by commas are read back, each of them and in order, as long as
/// none is empty and none holds a comma.
pub proof fn law_items_are_read_back(parts: Seq<Text>)
    requires
        forall|i: int|
            0 <= i < parts.len() ==> (#[trigger] parts[i]).len() > 0 && is_free_of(parts[i], ','),
    ensures
        items(join(parts, ", "@)) == parts,
{
    if parts.len() == 0 {
        assert(items(join(parts, ", "@)) =~= parts);
    } else {
        assert forall|i: int| 0 <= i < parts.len() implies is_free_of(#[trigger] parts[i], ',') by {
            assert(parts[i].len() > 0 && is_free_of(parts[i], ','));
        }
        lemma_cut_joined(parts);
        let t = join(parts, ", "@);
        let pieces = cut(t, ',');
        assert(parts[0].len() > 0);
        assert(t.len() > 0) by {
            if t.len() == 0 {
                assert(pieces == seq![Seq::<char>::empty()]);
                assert(pieces[0] == parts[0]);
            }
        }
        assert forall|i: int| 0 <= i < parts.len() implies items(t)[i] == parts[i] by {
            if i > 0 {
                assert(pieces[i] == seq![' '] + parts[i]);
                assert(pieces[i].skip(1) =~= parts[i]);
            }
        }
        assert(items(t) =~= parts);
    }
}

/// Joining nothing gives nothing, joining one part gives it, and joining two lists
/// puts the separator once between what each gives.
pub proof fn law_join(a: Seq<Text>, b: Seq<Text>, sep: Text)
    requires
        a.len() > 0,
        b.len() > 0,
    ensures
        join(Seq::<Text>::empty(), sep) == Seq::<char>::empty(),
        join(seq![a[0]], sep) == a[0],
        join(a + b, sep) == join(a, sep) + sep + join(b, sep),
    decreases b.len(),
{
    let rest = b.drop_last();
    assert((a + b).drop_last() =~= a + rest);
    assert((a + b).last() == b.last());
    if b.len() == 1 {
        assert(a + rest =~= a);
    } else {
        law_join(a, rest, sep);
        assert(join(a, sep) + sep + join(rest, sep) + sep + b.last() =~= join(a, sep) + sep + (
        join(rest, sep) + sep + b.last()));
    }
}

/// Padding keeps the text at one end of the field and fills the other with spaces,
/// up to the width and no further.
pub proof fn law_padding(s: Text, width: nat)
    ensures
        pad_left(s, width).len() == (if s.len() < width {
            width
        } else {
            s.len()
        }),
        pad_right(s, width).len() == pad_left(s, width).len(),
        pad_left(s, width).skip(pad_left(s, width).len() - s.len()) == s,
        forall|i: int|
            0 <= i < pad_left(s, width).len() - s.len() ==> #[trigger] pad_left(s, width)[i] == ' ',
        pad_right(s, width).take(s.len() as int) == s,
        forall|i: int|
            s.len() <= i < pad_right(s, width).len() ==> #[trigger] pad_right(s, width)[i] == ' ',
{
    assert(pad_left(s, width).skip(pad_left(s, width).len() - s.len()) =~= s);
    assert(pad_right(s, width).take(s.len() as int) =~= s);
}

/// A signed number is its digits, behind a minus sign where it is negative.
pub proof fn law_signed_decimal(n: int)
    ensures
        n >= 0 ==> signed_decimal(n)[0] != '-' && decimal_value(signed_decimal(n)) == n,
        n < 0 ==> signed_decimal(n)[0] == '-' && decimal_value(signed_decimal(n).skip(1)) == -n
            && signed_decimal(n).skip(1)[0] != '0',
        n == 0 ==> signed_decimal(n).len() == 1,
        signed_decimal(n).len() > 0,
        forall|i: int|
            0 < i < signed_decimal(n).len() ==> '0' <= #[trigger] signed_decimal(n)[i] <= '9',
{
    if n < 0 {
        law_decimal((-n) as nat);
        assert(signed_decimal(n).skip(1) =~= decimal((-n) as nat));
    } else {
        law_decimal(n as nat);
    }
}

/// Different numbers are written differently.
pub proof fn law_numbers_differ(a: int, b: int)
    ensures
        signed_decimal(a) == signed_decimal(b) ==> a == b,
        a >= 0 && b >= 0 && decimal(a as nat) == decimal(b as nat) ==> a == b,
{
    law_signed_decimal(a);
    law_signed_decimal(b);
    if a >= 0 && b >= 0 {
        law_decimal(a as nat);
        law_decimal(b as nat);
    }
}

/// An optional number shows the number where there is one, and says so where there
/// is none; different ones are written differently.
pub proof fn law_optional_number(a: Option<i64>, b: Option<i64>)
    ensures
        a matches Some(n) ==> shows(
            optional_number(a),
            seq!["Some("@, ")"@],
            seq![signed_decimal(n as int)],
        ),
        a is None ==> optional_number(a) == "None"@,
        optional_number(a) == optional_number(b) ==> a == b,
{
    reveal_with_fuel(woven, 3);
    reveal_strlit("Some(");
    reveal_strlit(")");
    reveal_strlit("None");
    let x = optional_number(a);
    let y = optional_number(b);
    if x == y {
        match (a, b) {
            (Some(n), Some(m)) => {
                assert(x.subrange(5, x.len() - 1) =~= signed_decimal(n as int));
                assert(y.subrange(5, y.len() - 1) =~= signed_decimal(m as int));
                law_numbers_differ(n as int, m as int);
            },
            (Some(_), None) => {
                assert(x[0] == 'S');
                assert(y[0] == 'N');
            },
            (None, Some(_)) => {
                assert(x[0] == 'N');
                assert(y[0] == 'S');
            },
            (None, None) => {},
        }
    }
}

/// A list of literals grows by one literal for each item, and is empty brackets
/// without any.
pub proof fn law_quoted_list(list: Seq<Text>, x: Text)
    ensures
        quoted_list(Seq::<Text>::empty()) == "[]"@,
        quoted_list(seq![x]) == "["@ + literal(x) + "]"@,
        list.len() > 0 ==> quoted_list(list.push(x)) == quoted_list(list).drop_last() + ", "@
            + literal(x) + "]"@,
{
    reveal_strlit("[");
    reveal_strlit("]");
    reveal_strlit("[]");
    let none = Seq::<Text>::empty();
    let lits = Seq::new(list.len(), |i: int| literal(list[i]));
    assert(Seq::new(none.len(), |i: int| literal(none[i])) =~= Seq::<Text>::empty());
    assert(quoted_list(none) =~= "[]"@);
    assert(Seq::new(seq![x].len(), |i: int| literal(seq![x][i])) =~= seq![literal(x)]);
    if list.len() > 0 {
        let longer = list.push(x);
        assert(Seq::new(longer.len(), |i: int| literal(longer[i])) =~= lits.push(literal(x)));
        assert(lits.push(literal(x)).drop_last() =~= lits);
        let j = join(lits, ", "@);
        assert(quoted_list(list).drop_last() =~= "["@ + j);
        assert(quoted_list(longer) =~= "["@ + j + ", "@ + literal(x) + "]"@);
    }
}

/// Text without quotes, backslashes and characters that are not printable ASCII stands
/// in its literal as it is, between two double quotes; any other text has the literal
/// that its debug form gives.
pub proof fn law_literal(s: Text)
    ensures
        ({
            let plain = forall|i: int|
                0 <= i < s.len() ==> 0x20 <= #[trigger] (s[i] as nat) <= 0x7e && s[i] as nat != 0x22
                    && s[i] as nat != 0x27 && s[i] as nat != 0x5c;
            let t = literal(s);
            &&& plain ==> t.len() == s.len() + 2 && t[0] == '"' && t.last() == '"' && t.subrange(
                1,
                t.len() - 1,
            ) == s
            &&& !plain ==> t == quoted(s)
        }),
{
    let plain = forall|i: int|
        0 <= i < s.len() ==> 0x20 <= #[trigger] (s[i] as nat) <= 0x7e && s[i] as nat != 0x22
            && s[i] as nat != 0x27 && s[i] as nat != 0x5c;
    if plain {
        assert forall|i: int| 0 <= i < s.len() implies is_plain_char(#[trigger] s[i]) by {
            assert(0x20 <= (s[i] as nat) <= 0x7e);
            lemma_plain_char(s[i]);
        }
        let t = literal(s);
        assert(t.subrange(1, t.len() - 1) =~= s);
    }
    if is_plain(s) {
        assert forall|i: int| 0 <= i < s.len() implies 0x20 <= #[trigger] (s[i] as nat) <= 0x7e
            && s[i] as nat != 0x22 && s[i] as nat != 0x27 && s[i] as nat != 0x5c by {
            assert(is_plain_char(s[i]));
            lemma_plain_char(s[i]);
        }
    }
}

proof fn lemma_plain_char(c: char)
    ensures
        is_plain_char(c) == (0x20 <= c as nat <= 0x7e && c as nat != 0x22 && c as nat != 0x27
            && c as nat != 0x5c),
{
}

/// One text occurs in another exactly where the other is made of it with some text
/// before it and some behind it.
pub proof fn law_occurs_in(needle: Text, hay: Text)
    ensures
        occurs_in(needle, hay) == exists|before: Text, behind: Text|
            hay == #[trigger] (before + needle + behind),
{
    if occurs_in(needle, hay) {
        let i = choose|i: int|
            0 <= i <= hay.len() - needle.len() && #[trigger] hay.subrange(i, i + needle.len())
                == needle;
        assert(hay =~= hay.take(i) + needle + hay.skip(i + needle.len()));
    }
    if exists|before: Text, behind: Text| hay == #[trigger] (before + needle + behind) {
        let (before, behind) = choose|before: Text, behind: Text|
            hay == #[trigger] (before + needle + behind);
        let i = before.len() as int;
        assert(hay.subrange(i, i + needle.len()) =~= needle);
    }
}

/// The code points of the Unicode class `White_Space`.
pub open spec fn white_space_points() -> Seq<nat> {
    seq![
        0x9,
        0xa,
        0xb,
        0xc,
        0xd,
        0x20,
        0x85,
        0xa0,
        0x1680,
        0x2000,
        0x2001,
        0x2002,
        0x2003,
        0x2004,
        0x2005,
        0x2006,
        0x2007,
        0x2008,
        0x2009,
        0x200a,
        0x2028,
        0x2029,
        0x202f,
        0x205f,
        0x3000,
    ]
}

/// Trimming takes away exactly the characters of the Unicode class: text of one
/// character is trimmed to nothing where the class has it, and kept where not.
pub proof fn law_white_space(c: char)
    ensures
        is_white_space(c) == white_space_points().contains(c as nat),
        trimmed(seq![c]) == (if white_space_points().contains(c as nat) {
            Seq::empty()
        } else {
            seq![c]
        }),
{
    let ps = white_space_points();
    let n = c as nat;
    if is_white_space(c) {
        let i: int = if n <= 0xd {
            n - 0x9
        } else if n == 0x20 {
            5
        } else if n == 0x85 {
            6
        } else if n == 0xa0 {
            7
        } else if n == 0x1680 {
            8
        } else if n <= 0x200a {
            n - 0x2000 + 9
        } else if n == 0x2028 {
            20
        } else if n == 0x2029 {
            21
        } else if n == 0x202f {
            22
        } else if n == 0x205f {
            23
        } else {
            24
        };
        assert(0 <= i < ps.len() && ps[i] == n);
    }
    let s = seq![c];
    let none = Seq::<char>::empty();
    assert(s.drop_first() =~= none);
    assert(s.drop_last() =~= none);
    reveal_with_fuel(trim_start, 2);
    reveal_with_fuel(trim_end, 2);
}

} // verus!
