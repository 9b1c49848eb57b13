//! Text as the emitters see it: character sequences, how they are joined,
//! padded, searched and trimmed, and how numbers are written.

use vstd::prelude::*;

use crate::outside::{is_plain, quote, quoted};
use crate::plan::views;
use crate::walk::{map_texts, refs};

verus! {

/// What a string holds.
pub type Text = Seq<char>;

/// `parts` one after the other, with `sep` between neighbours.
pub open spec fn join(parts: Seq<Text>, sep: Text) -> Text
    decreases parts.len(),
{
    if parts.len() == 0 {
        Seq::empty()
    } else if parts.len() == 1 {
        parts[0]
    } else {
        join(parts.drop_last(), sep) + sep + parts.last()
    }
}

/// `n` spaces.
pub open spec fn spaces(n: nat) -> Text {
    Seq::new(n, |i: int| ' ')
}

/// `s` moved to the right end of a field of at least `width` characters.
pub open spec fn pad_left(s: Text, width: nat) -> Text {
    if s.len() < width {
        spaces((width - s.len()) as nat) + s
    } else {
        s
    }
}

/// `s` at the left end of a field of at least `width` characters.
pub open spec fn pad_right(s: Text, width: nat) -> Text {
    if s.len() < width {
        s + spaces((width - s.len()) as nat)
    } else {
        s
    }
}

/// The digit `d`, for `d < 10`.
pub open spec fn digit(d: nat) -> char {
    ('0' as nat + d) as char
}

/// `n` in decimal, without leading zeros.
pub open spec fn decimal(n: nat) -> Text
    decreases n,
{
    if n < 10 {
        seq![digit(n)]
    } else {
        decimal(n / 10).push(digit(n % 10))
    }
}

/// `n` in decimal, with a minus sign where it is negative.
pub open spec fn signed_decimal(n: int) -> Text {
    if n < 0 {
        seq!['-'] + decimal((-n) as nat)
    } else {
        decimal(n as nat)
    }
}

/// An optional number as its constructor applied to its decimal form.
pub open spec fn optional_number(n: Option<i64>) -> Text {
    match n {
        Some(v) => "Some("@ + signed_decimal(v as int) + ")"@,
        None => "None"@,
    }
}

/// `s` as a Rust string literal: plain text between double quotes, other text with
/// its escapes.
pub open spec fn literal(s: Text) -> Text {
    if is_plain(s) {
        seq!['"'] + s + seq!['"']
    } else {
        quoted(s)
    }
}

/// The items as string literals, in square brackets and separated by commas.
pub open spec fn quoted_list(items: Seq<Text>) -> Text {
    "["@ + join(Seq::new(items.len(), |i: int| literal(items[i])), ", "@) + "]"@
}

/// Whether `needle` occurs in `hay`.
pub open spec fn occurs_in(needle: Text, hay: Text) -> bool {
    exists|i: int|
        0 <= i <= hay.len() - needle.len() && #[trigger] hay.subrange(i, i + needle.len())
            == needle
}

/// A character of the Unicode class `White_Space`.
pub open spec fn is_white_space(c: char) -> bool {
    ||| '\u{9}' <= c <= '\u{d}'
    ||| c == ' '
    ||| c == '\u{85}'
    ||| c == '\u{a0}'
    ||| c == '\u{1680}'
    ||| '\u{2000}' <= c <= '\u{200a}'
    ||| '\u{2028}' <= c <= '\u{2029}'
    ||| c == '\u{202f}'
    ||| c == '\u{205f}'
    ||| c == '\u{3000}'
}

/// `s` without the white space at its start.
pub open spec fn trim_start(s: Text) -> Text
    decreases s.len(),
{
    if s.len() > 0 && is_white_space(s[0]) {
        trim_start(s.drop_first())
    } else {
        s
    }
}

/// `s` without the white space at its end.
pub open spec fn trim_end(s: Text) -> Text
    decreases s.len(),
{
    if s.len() > 0 && is_white_space(s.last()) {
        trim_end(s.drop_last())
    } else {
        s
    }
}

/// `s` without the white space at either end.
pub open spec fn trimmed(s: Text) -> Text {
    trim_end(trim_start(s))
}

/// The characters of `s`, in order.
pub fn chars_of(s: &str) -> (r: Vec<char>)
    ensures
        r@ == s@,
{
    let mut out: Vec<char> = Vec::new();
    for c in it: s.chars()
        invariant
            out@ == it.seq().take(it.index() as int),
            it.seq() == s@,
    {
        out.push(c);
    }
    out
}

/// The string of the characters `cs[from..to]`.
pub(crate) fn string_of(cs: &Vec<char>, from: usize, to: usize) -> (r: String)
    requires
        from <= to <= cs@.len(),
    ensures
        r@ == cs@.subrange(from as int, to as int),
{
    let mut out = String::new();
    let mut i: usize = from;
    while i < to
        invariant
            from <= i <= to <= cs@.len(),
            out@ == cs@.subrange(from as int, i as int),
        decreases to - i,
    {
        out.push(cs[i]);
        i = i + 1;
        assert(cs@.subrange(from as int, i as int) == cs@.subrange(from as int, i - 1).push(
            cs@[i - 1],
        ));
    }
    out
}

/// Whether `cs` holds `part` at position `at`.
pub(crate) fn holds_at(cs: &Vec<char>, part: &Vec<char>, at: usize) -> (r: bool)
    requires
        at + part@.len() <= cs@.len(),
    ensures
        r == (cs@.subrange(at as int, at + part@.len()) == part@),
{
    let len: usize = cs.len();
    let mut i: usize = 0;
    while i < part.len()
        invariant
            at + part@.len() <= cs@.len() == len,
            i <= part@.len(),
            forall|k: int| 0 <= k < i ==> cs@[at + k] == part@[k],
        decreases part@.len() - i,
    {
        if cs[at + i] != part[i] {
            assert(cs@.subrange(at as int, at + part@.len())[i as int] != part@[i as int]);
            return false;
        }
        i = i + 1;
    }
    assert(cs@.subrange(at as int, at + part@.len()) =~= part@);
    true
}

/// Whether two strings hold the same text.
pub fn same_text(a: &str, b: &str) -> (r: bool)
    ensures
        r == (a@ == b@),
{
    let x = chars_of(a);
    let y = chars_of(b);
    if x.len() != y.len() {
        return false;
    }
    assert(x@.subrange(0, x@.len() as int) =~= x@);
    holds_at(&x, &y, 0)
}

/// Whether `needle` occurs in `hay`.
pub fn contains_text(hay: &str, needle: &str) -> (r: bool)
    ensures
        r == occurs_in(needle@, hay@),
{
    let h = chars_of(hay);
    let n = chars_of(needle);
    if n.len() > h.len() {
        return false;
    }
    let last: usize = h.len() - n.len();
    let mut i: usize = 0;
    while i < last
        invariant
            h@ == hay@,
            n@ == needle@,
            last == h@.len() - n@.len(),
            i <= last,
            forall|k: int| 0 <= k < i ==> #[trigger] h@.subrange(k, k + n@.len()) != n@,
        decreases last - i,
    {
        if holds_at(&h, &n, i) {
            assert(hay@.subrange(i as int, i + needle@.len()) == needle@);
            return true;
        }
        i = i + 1;
    }
    let found = holds_at(&h, &n, last);
    assert(found ==> hay@.subrange(last as int, last + needle@.len()) == needle@);
    found
}

/// Whether `c` is of the Unicode class `White_Space`.
pub fn white_space(c: char) -> (r: bool)
    ensures
        r == is_white_space(c),
{
    ('\u{9}' <= c && c <= '\u{d}') || c == ' ' || c == '\u{85}' || c == '\u{a0}' || c == '\u{1680}'
        || ('\u{2000}' <= c && c <= '\u{200a}') || ('\u{2028}' <= c && c <= '\u{2029}') || c
        == '\u{202f}' || c == '\u{205f}' || c == '\u{3000}'
}

/// `s` without the white space at either end.
pub fn trim_text(s: &str) -> (r: String)
    ensures
        r@ == trimmed(s@),
{
    let cs = chars_of(s);
    let mut from: usize = 0;
    assert(cs@.skip(0) =~= cs@);
    while from < cs.len() && white_space(cs[from])
        invariant
            from <= cs@.len(),
            trim_start(cs@) == trim_start(cs@.skip(from as int)),
        decreases cs@.len() - from,
    {
        assert(cs@.skip(from as int).drop_first() =~= cs@.skip(from + 1));
        from = from + 1;
    }
    let ghost rest = cs@.skip(from as int);
    let mut to: usize = cs.len();
    assert(rest =~= cs@.subrange(from as int, to as int));
    while to > from && white_space(cs[to - 1])
        invariant
            from <= to <= cs@.len(),
            trim_end(rest) == trim_end(cs@.subrange(from as int, to as int)),
        decreases to - from,
    {
        assert(cs@.subrange(from as int, to as int).drop_last() =~= cs@.subrange(
            from as int,
            to - 1,
        ));
        to = to - 1;
    }
    string_of(&cs, from, to)
}

/// Appends `n` in decimal.
pub fn push_decimal(out: &mut String, n: u64)
    ensures
        final(out)@ == old(out)@ + decimal(n as nat),
    decreases n,
{
    if n >= 10 {
        push_decimal(out, n / 10);
    }
    let d: u8 = 48 + (n % 10) as u8;
    out.push(d as char);
    assert(d as char == digit((n % 10) as nat));
    if n < 10 {
        assert(out@ =~= old(out)@ + decimal(n as nat));
    } else {
        assert(out@ =~= old(out)@ + decimal((n / 10) as nat).push(digit((n % 10) as nat)));
    }
}

/// `n` in decimal.
pub fn decimal_text(n: usize) -> (r: String)
    ensures
        r@ == decimal(n as nat),
{
    let mut out = String::new();
    push_decimal(&mut out, n as u64);
    assert(out@ =~= decimal(n as nat));
    out
}

/// `n` in decimal, with a minus sign where it is negative.
pub fn signed_text(n: i64) -> (r: String)
    ensures
        r@ == signed_decimal(n as int),
{
    let mut out = String::new();
    if n < 0 {
        out.push('-');
        assert(out@ =~= seq!['-']);
        let positive: i128 = -(n as i128);
        push_decimal(&mut out, positive as u64);
    } else {
        push_decimal(&mut out, n as u64);
        assert(out@ =~= decimal(n as nat));
    }
    out
}

/// `n` spaces.
fn spaces_text(n: usize) -> (r: String)
    ensures
        r@ == spaces(n as nat),
{
    let mut out = String::new();
    let mut i: usize = 0;
    while i < n
        invariant
            i <= n,
            out@ == spaces(i as nat),
        decreases n - i,
    {
        out.push(' ');
        i = i + 1;
        assert(spaces(i as nat) == spaces((i - 1) as nat).push(' '));
    }
    out
}

/// `s` moved to the right end of a field of at least `width` characters.
pub fn pad_left_text(s: &str, width: usize) -> (r: String)
    ensures
        r@ == pad_left(s@, width as nat),
{
    let len: usize = s.unicode_len();
    if len < width {
        let mut out = spaces_text(width - len);
        out.append(s);
        out
    } else {
        s.to_owned()
    }
}

/// `s` at the left end of a field of at least `width` characters.
pub fn pad_right_text(s: &str, width: usize) -> (r: String)
    ensures
        r@ == pad_right(s@, width as nat),
{
    let len: usize = s.unicode_len();
    let mut out = s.to_owned();
    if len < width {
        let fill = spaces_text(width - len);
        out.append(fill.as_str());
    }
    out
}

/// An optional number as its constructor applied to its decimal form.
pub fn optional_number_text(n: Option<i64>) -> (r: String)
    ensures
        r@ == optional_number(n),
{
    match n {
        Some(v) => {
            let mut out = "Some(".to_owned();
            out.append(signed_text(v).as_str());
            out.append(")");
            out
        },
        None => "None".to_owned(),
    }
}

/// The first `i + 1` parts are the first `i` followed by part `i`.
pub proof fn lemma_flatten_take(parts: Seq<Text>, i: int)
    requires
        0 <= i < parts.len(),
    ensures
        parts.take(i + 1).flatten() == parts.take(i).flatten() + parts[i],
{
    assert(parts.take(i + 1) =~= parts.take(i).push(parts[i]));
    parts.take(i).lemma_flatten_push(parts[i]);
}

/// `parts` one after the other.
pub fn concat_texts(parts: &Vec<String>) -> (r: String)
    ensures
        r@ == views(parts@).flatten(),
{
    let ghost texts = views(parts@);
    let mut out = String::new();
    let mut i: usize = 0;
    assert(texts.take(0).flatten() =~= Seq::empty());
    while i < parts.len()
        invariant
            i <= parts@.len(),
            texts == views(parts@),
            out@ == texts.take(i as int).flatten(),
        decreases parts@.len() - i,
    {
        proof {
            lemma_flatten_take(texts, i as int);
        }
        out.append(parts[i].as_str());
        i = i + 1;
    }
    assert(texts.take(i as int) =~= texts);
    out
}

/// `parts` one after the other, with `sep` between neighbours.
pub fn join_texts(parts: &Vec<String>, sep: &str) -> (r: String)
    ensures
        r@ == join(views(parts@), sep@),
{
    let ghost texts = views(parts@);
    let mut out = String::new();
    let mut i: usize = 0;
    while i < parts.len()
        invariant
            i <= parts@.len(),
            texts == views(parts@),
            out@ == join(texts.take(i as int), sep@),
        decreases parts@.len() - i,
    {
        assert(texts.take(i + 1).drop_last() =~= texts.take(i as int));
        if i > 0 {
            out.append(sep);
            out.append(parts[i].as_str());
        } else {
            out.append(parts[i].as_str());
            assert(out@ =~= texts[0]);
        }
        i = i + 1;
    }
    assert(texts.take(i as int) =~= texts);
    out
}

/// `s` as a Rust string literal: plain text between double quotes, other text with
/// its escapes.
pub fn literal_text(s: &str) -> (r: String)
    ensures
        r@ == literal(s@),
        r@ == quoted(s@),
{
    quote(s)
}

fn item_literal(s: &String) -> (r: String)
    ensures
        r@ == literal(s@),
{
    literal_text(s.as_str())
}

/// The items as string literals, in square brackets and separated by commas.
pub fn quoted_list_text(items: &Vec<String>) -> (r: String)
    ensures
        r@ == quoted_list(views(items@)),
{
    let ghost texts = views(items@);
    let parts = map_texts(
        &refs(items),
        item_literal,
        Ghost(Seq::new(texts.len(), |i: int| literal(texts[i]))),
    );
    let mut out = "[".to_owned();
    out.append(join_texts(&parts, ", ").as_str());
    out.append("]");
    out
}

} // verus!
