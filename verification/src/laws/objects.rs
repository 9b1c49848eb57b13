//! Which texts are flat objects, and what they set.

use vstd::prelude::*;

use crate::capabilities::{
    after_exponent, after_fraction, after_number, after_whole, code_points, first_char, flags,
    has_digit, has_flag, has_pair, has_unit, hex_value, is_digit, is_hex, is_space,
    lemma_read_member_shorter, members, read_member, read_string, read_value, skip_digits,
    skip_sign, skip_space, starts_with, unit, Flag,
};
use crate::text::{occurs_in, Text};

verus! {

/// A hexadecimal digit: its value, and whether a letter is in upper case.
pub struct HexDigit {
    pub value: nat,
    pub upper: bool,
}

/// A character of a string, as it may be written.
pub enum WrittenChar {
    /// The character itself.
    Plain(char),
    /// A backslash and a letter of the table of short escapes, at this place.
    Short(nat),
    /// `\u` and four digits.
    Unit(Seq<HexDigit>),
    /// Two such escapes for one code point above `0xffff`.
    Pair(nat, Seq<HexDigit>, Seq<HexDigit>),
}

/// The exponent of a number.
pub struct WrittenExponent {
    pub mark: char,
    pub sign: Option<char>,
    pub digits: Text,
}

/// A number.
pub struct WrittenNumber {
    pub negative: bool,
    pub whole: Text,
    pub fraction: Option<Text>,
    pub exponent: Option<WrittenExponent>,
}

/// A value that is no array and no object.
pub enum WrittenValue {
    Yes,
    No,
    Nothing,
    Words(Seq<WrittenChar>),
    Number(WrittenNumber),
}

/// A member of an object: blanks may stand before and after its key and its value.
pub struct WrittenMember {
    pub before_key: Text,
    pub key: Seq<WrittenChar>,
    pub after_key: Text,
    pub before_value: Text,
    pub value: WrittenValue,
    pub after_value: Text,
}

/// An object, with blanks before and behind it, and inside it where it is empty.
pub struct WrittenObject {
    pub before: Text,
    pub inside: Text,
    pub members: Seq<WrittenMember>,
    pub behind: Text,
}

/// Blanks alone: spaces, tabs, line feeds and carriage returns.
pub open spec fn is_blank(t: Text) -> bool {
    forall|i: int|
        0 <= i < t.len() ==> (#[trigger] t[i]) == ' ' || t[i] == '\t' || t[i] == '\n' || t[i] == '\r'
}

/// The letters of the short escapes.
pub open spec fn escape_letters() -> Seq<char> {
    seq!['"', '\\', '/', 'b', 'f', 'n', 'r', 't']
}

/// What the short escapes stand for.
pub open spec fn escape_points() -> Seq<nat> {
    seq![0x22, 0x5c, 0x2f, 0x8, 0xc, 0xa, 0xd, 0x9]
}

/// How a hexadecimal digit is written.
pub open spec fn hex_char(d: HexDigit) -> char {
    if d.upper {
        "0123456789ABCDEF"@[d.value as int]
    } else {
        "0123456789abcdef"@[d.value as int]
    }
}

/// Four digits.
pub open spec fn is_unit(d: Seq<HexDigit>) -> bool {
    d.len() == 4 && forall|i: int| 0 <= i < 4 ==> (#[trigger] d[i]).value < 16
}

/// The number that four digits write.
pub open spec fn unit_value(d: Seq<HexDigit>) -> nat {
    ((d[0].value * 16 + d[1].value) * 16 + d[2].value) * 16 + d[3].value
}

/// The text of the escape with the digits `d`.
pub open spec fn unit_text(d: Seq<HexDigit>) -> Text {
    seq!['\\', 'u', hex_char(d[0]), hex_char(d[1]), hex_char(d[2]), hex_char(d[3])]
}

/// Whether `c` can be written so.
pub open spec fn is_char(c: WrittenChar) -> bool {
    match c {
        WrittenChar::Plain(c) => ' ' <= c && c != '"' && c != '\\',
        WrittenChar::Short(k) => k < 8,
        WrittenChar::Unit(d) => is_unit(d),
        WrittenChar::Pair(n, high, low) => {
            &&& is_unit(high)
            &&& is_unit(low)
            &&& 0x10000 <= n <= 0x10ffff
            &&& unit_value(high) == 0xd800 + (n - 0x10000) / 0x400
            &&& unit_value(low) == 0xdc00 + (n - 0x10000) % 0x400
        },
    }
}

/// The text of a character.
pub open spec fn char_text(c: WrittenChar) -> Text {
    match c {
        WrittenChar::Plain(c) => seq![c],
        WrittenChar::Short(k) => seq!['\\', escape_letters()[k as int]],
        WrittenChar::Unit(d) => unit_text(d),
        WrittenChar::Pair(_, high, low) => unit_text(high) + unit_text(low),
    }
}

/// The code point that a character stands for.
pub open spec fn char_point(c: WrittenChar) -> nat {
    match c {
        WrittenChar::Plain(c) => c as nat,
        WrittenChar::Short(k) => escape_points()[k as int],
        WrittenChar::Unit(d) => unit_value(d),
        WrittenChar::Pair(n, _, _) => n,
    }
}

/// Whether two single escapes would read as a pair.
pub open spec fn would_pair(a: WrittenChar, b: WrittenChar) -> bool {
    match (a, b) {
        (WrittenChar::Unit(high), WrittenChar::Unit(low)) => 0xd800 <= unit_value(high) < 0xdc00
            && 0xdc00 <= unit_value(low) < 0xe000,
        _ => false,
    }
}

/// Whether `cs` is a string.
pub open spec fn is_words(cs: Seq<WrittenChar>) -> bool {
    &&& forall|i: int| 0 <= i < cs.len() ==> is_char(#[trigger] cs[i])
    &&& forall|i: int, j: int|
        0 <= i && j == i + 1 && j < cs.len() ==> !would_pair(#[trigger] cs[i], #[trigger] cs[j])
}

/// The text of a string between its quotes.
pub open spec fn words_text(cs: Seq<WrittenChar>) -> Text
    decreases cs.len(),
{
    if cs.len() == 0 {
        Seq::empty()
    } else {
        char_text(cs[0]) + words_text(cs.skip(1))
    }
}

/// The code points of a string.
pub open spec fn words_points(cs: Seq<WrittenChar>) -> Seq<nat> {
    Seq::new(cs.len(), |i: int| char_point(cs[i]))
}

/// Decimal digits, at least one.
pub open spec fn is_digits(t: Text) -> bool {
    t.len() > 0 && forall|i: int| 0 <= i < t.len() ==> '0' <= #[trigger] t[i] <= '9'
}

/// Whether `n` is a number: no zero stands before other digits of its whole part.
pub open spec fn is_number(n: WrittenNumber) -> bool {
    &&& is_digits(n.whole)
    &&& n.whole.len() == 1 || n.whole[0] != '0'
    &&& match n.fraction {
        Some(f) => is_digits(f),
        None => true,
    }
    &&& match n.exponent {
        Some(e) => (e.mark == 'e' || e.mark == 'E') && is_digits(e.digits) && match e.sign {
            Some(s) => s == '+' || s == '-',
            None => true,
        },
        None => true,
    }
}

/// The text of an exponent.
pub open spec fn exponent_text(e: Option<WrittenExponent>) -> Text {
    match e {
        Some(e) => match e.sign {
            Some(s) => seq![e.mark, s] + e.digits,
            None => seq![e.mark] + e.digits,
        },
        None => Seq::empty(),
    }
}

/// The text of a fraction.
pub open spec fn fraction_text(f: Option<Text>) -> Text {
    match f {
        Some(f) => seq!['.'] + f,
        None => Seq::empty(),
    }
}

/// The text of a number.
pub open spec fn number_text(n: WrittenNumber) -> Text {
    (if n.negative {
        seq!['-']
    } else {
        Seq::empty()
    }) + n.whole + fraction_text(n.fraction) + exponent_text(n.exponent)
}

/// Whether `v` can be written so.
pub open spec fn is_value(v: WrittenValue) -> bool {
    match v {
        WrittenValue::Words(cs) => is_words(cs),
        WrittenValue::Number(n) => is_number(n),
        _ => true,
    }
}

/// The text of a value.
pub open spec fn value_text(v: WrittenValue) -> Text {
    match v {
        WrittenValue::Yes => "true"@,
        WrittenValue::No => "false"@,
        WrittenValue::Nothing => "null"@,
        WrittenValue::Words(cs) => seq!['"'] + words_text(cs) + seq!['"'],
        WrittenValue::Number(n) => number_text(n),
    }
}

/// Whether `m` can be written so.
pub open spec fn is_member(m: WrittenMember) -> bool {
    &&& is_blank(m.before_key)
    &&& is_words(m.key)
    &&& is_blank(m.after_key)
    &&& is_blank(m.before_value)
    &&& is_value(m.value)
    &&& is_blank(m.after_value)
}

/// The text of a member.
pub open spec fn member_text(m: WrittenMember) -> Text {
    m.before_key + seq!['"'] + words_text(m.key) + seq!['"'] + m.after_key + seq![':']
        + m.before_value + value_text(m.value) + m.after_value
}

/// The text of members, with commas between them.
pub open spec fn members_text(ms: Seq<WrittenMember>) -> Text
    decreases ms.len(),
{
    if ms.len() == 0 {
        Seq::empty()
    } else if ms.len() == 1 {
        member_text(ms[0])
    } else {
        member_text(ms[0]) + seq![','] + members_text(ms.skip(1))
    }
}

/// Whether `o` can be written so.
pub open spec fn is_object(o: WrittenObject) -> bool {
    &&& is_blank(o.before)
    &&& is_blank(o.inside)
    &&& is_blank(o.behind)
    &&& o.members.len() > 0 ==> o.inside.len() == 0
    &&& forall|i: int| 0 <= i < o.members.len() ==> is_member(#[trigger] o.members[i])
}

/// The text of an object.
pub open spec fn object_text(o: WrittenObject) -> Text {
    o.before + seq!['{'] + o.inside + members_text(o.members) + seq!['}'] + o.behind
}

/// What the members say.
pub open spec fn meanings(ms: Seq<WrittenMember>) -> Seq<Flag> {
    Seq::new(ms.len(), |i: int| (words_points(ms[i].key), ms[i].value is Yes))
}

proof fn lemma_skip_blank(gap: Text, x: Text)
    requires
        is_blank(gap),
        x.len() == 0 || !is_space(x[0]),
    ensures
        skip_space(gap + x) == x,
    decreases gap.len(),
{
    if gap.len() == 0 {
        assert(gap + x =~= x);
    } else {
        assert((gap + x)[0] == gap[0]);
        let tail = gap.skip(1);
        assert((gap + x).skip(1) =~= tail + x);
        assert forall|i: int| 0 <= i < tail.len() implies (#[trigger] tail[i]) == ' ' || tail[i]
            == '\t' || tail[i] == '\n' || tail[i] == '\r' by {
            assert(tail[i] == gap[i + 1]);
        }
        lemma_skip_blank(tail, x);
    }
}

/// What is skipped is blank.
proof fn lemma_skipped(s: Text) -> (gap: Text)
    ensures
        is_blank(gap),
        s == gap + skip_space(s),
        skip_space(s).len() > 0 ==> !is_space(skip_space(s)[0]),
    decreases s.len(),
{
    if s.len() > 0 && is_space(s[0]) {
        let more = lemma_skipped(s.skip(1));
        let gap = seq![s[0]] + more;
        assert(s =~= seq![s[0]] + s.skip(1));
        assert(s =~= gap + skip_space(s));
        assert forall|i: int| 0 <= i < gap.len() implies (#[trigger] gap[i]) == ' ' || gap[i]
            == '\t' || gap[i] == '\n' || gap[i] == '\r' by {
            if i > 0 {
                assert(gap[i] == more[i - 1]);
            }
        }
        gap
    } else {
        let gap = Seq::<char>::empty();
        assert(s =~= gap + s);
        gap
    }
}

proof fn lemma_hex_char(d: HexDigit)
    requires
        d.value < 16,
    ensures
        is_hex(hex_char(d)),
        hex_value(hex_char(d)) == d.value,
{
    reveal_strlit("0123456789ABCDEF");
    reveal_strlit("0123456789abcdef");
    let v = d.value;
    assert(v == 0 || v == 1 || v == 2 || v == 3 || v == 4 || v == 5 || v == 6 || v == 7 || v == 8
        || v == 9 || v == 10 || v == 11 || v == 12 || v == 13 || v == 14 || v == 15);
}

/// The digit that `c` writes.
proof fn lemma_hex_digit(c: char) -> (d: HexDigit)
    requires
        is_hex(c),
    ensures
        d.value == hex_value(c),
        d.value < 16,
        hex_char(d) == c,
{
    reveal_strlit("0123456789ABCDEF");
    reveal_strlit("0123456789abcdef");
    let v = hex_value(c);
    assert(v == 0 || v == 1 || v == 2 || v == 3 || v == 4 || v == 5 || v == 6 || v == 7 || v == 8
        || v == 9 || v == 10 || v == 11 || v == 12 || v == 13 || v == 14 || v == 15);
    HexDigit { value: v, upper: 'A' <= c <= 'F' }
}

proof fn lemma_unit(d: Seq<HexDigit>, x: Text)
    requires
        is_unit(d),
    ensures
        has_unit(unit_text(d) + x),
        unit(unit_text(d) + x) == unit_value(d),
        (unit_text(d) + x).skip(6) == x,
        unit_value(d) < 0x10000,
{
    let s = unit_text(d) + x;
    lemma_hex_char(d[0]);
    lemma_hex_char(d[1]);
    lemma_hex_char(d[2]);
    lemma_hex_char(d[3]);
    assert(s.skip(6) =~= x);
}

/// The digits of the escape that `s` starts with.
proof fn lemma_unit_digits(s: Text) -> (d: Seq<HexDigit>)
    requires
        has_unit(s),
    ensures
        is_unit(d),
        unit_value(d) == unit(s),
        s == unit_text(d) + s.skip(6),
{
    let a = lemma_hex_digit(s[2]);
    let b = lemma_hex_digit(s[3]);
    let c = lemma_hex_digit(s[4]);
    let e = lemma_hex_digit(s[5]);
    let d = seq![a, b, c, e];
    assert(s =~= unit_text(d) + s.skip(6));
    d
}

proof fn lemma_read_short(k: nat, x: Text)
    requires
        k < 8,
    ensures
        ({
            let s = char_text(WrittenChar::Short(k)) + x;
            &&& s[0] == '\\'
            &&& !has_unit(s)
            &&& first_char(s) == Some((escape_points()[k as int], 2nat))
        }),
{
    let s = char_text(WrittenChar::Short(k)) + x;
    assert(k == 0 || k == 1 || k == 2 || k == 3 || k == 4 || k == 5 || k == 6 || k == 7);
    assert(s[0] == '\\');
    assert(s[1] == escape_letters()[k as int]);
}

proof fn lemma_read_pair(n: nat, high: Seq<HexDigit>, low: Seq<HexDigit>, x: Text)
    requires
        is_char(WrittenChar::Pair(n, high, low)),
    ensures
        ({
            let s = unit_text(high) + unit_text(low) + x;
            &&& s[0] == '\\'
            &&& has_unit(s)
            &&& unit(s) < 0xdc00
            &&& first_char(s) == Some((n, 12nat))
        }),
{
    let s = unit_text(high) + unit_text(low) + x;
    lemma_unit(high, unit_text(low) + x);
    lemma_unit(low, x);
    assert(s =~= unit_text(high) + (unit_text(low) + x));
}

/// Where a single escape cannot pair with what follows it.
proof fn lemma_no_low_follows(cs: Seq<WrittenChar>, rest: Text)
    requires
        is_words(cs),
        cs.len() > 0,
        cs[0] is Unit,
        0xd800 <= unit_value(cs[0]->Unit_0) < 0xdc00,
    ensures
        ({
            let x = words_text(cs.skip(1)) + seq!['"'] + rest;
            !(has_unit(x) && 0xdc00 <= unit(x) < 0xe000)
        }),
{
    let tail = cs.skip(1);
    let x = words_text(tail) + seq!['"'] + rest;
    if tail.len() == 0 {
        assert(x[0] == '"');
    } else {
        let y = words_text(tail.skip(1)) + seq!['"'] + rest;
        assert(x =~= char_text(tail[0]) + y);
        assert(tail[0] == cs[1]);
        assert(is_char(cs[1]));
        assert(!would_pair(cs[0], cs[1]));
        match cs[1] {
            WrittenChar::Plain(c) => {
                assert(x[0] == c);
            },
            WrittenChar::Short(k) => {
                lemma_read_short(k, y);
            },
            WrittenChar::Unit(low) => {
                lemma_unit(low, y);
            },
            WrittenChar::Pair(n, high, low) => {
                lemma_read_pair(n, high, low, y);
            },
        }
    }
}

proof fn lemma_first_char(cs: Seq<WrittenChar>, rest: Text)
    requires
        is_words(cs),
        cs.len() > 0,
    ensures
        ({
            let s = words_text(cs) + seq!['"'] + rest;
            let w = char_text(cs[0]).len();
            &&& s.len() > 0
            &&& s[0] != '"'
            &&& first_char(s) == Some((char_point(cs[0]), w))
            &&& s.skip(w as int) == words_text(cs.skip(1)) + seq!['"'] + rest
        }),
{
    let s = words_text(cs) + seq!['"'] + rest;
    let tail = cs.skip(1);
    let x = words_text(tail) + seq!['"'] + rest;
    let t = char_text(cs[0]);
    assert(s =~= t + x);
    assert(is_char(cs[0]));
    assert((t + x).skip(t.len() as int) =~= x);
    match cs[0] {
        WrittenChar::Plain(c) => {
            assert(s[0] == c);
        },
        WrittenChar::Short(k) => {
            lemma_read_short(k, x);
        },
        WrittenChar::Unit(d) => {
            lemma_unit(d, x);
            assert(s[0] == '\\');
            if 0xd800 <= unit_value(d) < 0xdc00 {
                lemma_no_low_follows(cs, rest);
            }
            assert(!has_pair(s));
        },
        WrittenChar::Pair(n, high, low) => {
            lemma_read_pair(n, high, low, x);
        },
    }
}

proof fn lemma_read_words(cs: Seq<WrittenChar>, rest: Text)
    requires
        is_words(cs),
    ensures
        read_string(words_text(cs) + seq!['"'] + rest) == Some((words_points(cs), rest)),
    decreases cs.len(),
{
    let s = words_text(cs) + seq!['"'] + rest;
    if cs.len() == 0 {
        assert(s[0] == '"');
        assert(s.skip(1) =~= rest);
        assert(words_points(cs) =~= Seq::empty());
    } else {
        let tail = cs.skip(1);
        assert forall|i: int| 0 <= i < tail.len() implies is_char(#[trigger] tail[i]) by {
            assert(tail[i] == cs[i + 1]);
        }
        assert forall|i: int, j: int| 0 <= i && j == i + 1 && j < tail.len() implies !would_pair(
            #[trigger] tail[i],
            #[trigger] tail[j],
        ) by {
            assert(tail[i] == cs[i + 1] && tail[j] == cs[j + 1]);
        }
        lemma_first_char(cs, rest);
        lemma_read_words(tail, rest);
        assert(seq![char_point(cs[0])] + words_points(tail) =~= words_points(cs));
    }
}

/// The first character that a string's body was written with.
proof fn lemma_char_written(s: Text) -> (c: WrittenChar)
    requires
        first_char(s) is Some,
        s[0] != '"',
    ensures
        is_char(c),
        first_char(s) == Some((char_point(c), char_text(c).len())),
        s == char_text(c) + s.skip(char_text(c).len() as int),
        c is Unit ==> has_unit(s) && !has_pair(s) && unit_value(c->Unit_0) == unit(s),
{
    if s[0] != '\\' {
        let c = WrittenChar::Plain(s[0]);
        assert(s =~= char_text(c) + s.skip(1));
        c
    } else if has_pair(s) {
        let high = lemma_unit_digits(s);
        let low = lemma_unit_digits(s.skip(6));
        let a = unit(s) - 0xd800;
        let b = unit(s.skip(6)) - 0xdc00;
        let n = (0x10000 + a * 0x400 + b) as nat;
        assert((a * 0x400 + b) / 0x400 == a && (a * 0x400 + b) % 0x400 == b);
        let c = WrittenChar::Pair(n, high, low);
        assert(s.skip(6).skip(6) =~= s.skip(12));
        assert(s =~= char_text(c) + s.skip(12));
        c
    } else if has_unit(s) {
        let d = lemma_unit_digits(s);
        WrittenChar::Unit(d)
    } else {
        let k: nat = if s[1] == '"' {
            0
        } else if s[1] == '\\' {
            1
        } else if s[1] == '/' {
            2
        } else if s[1] == 'b' {
            3
        } else if s[1] == 'f' {
            4
        } else if s[1] == 'n' {
            5
        } else if s[1] == 'r' {
            6
        } else {
            7
        };
        let c = WrittenChar::Short(k);
        assert(s =~= char_text(c) + s.skip(2));
        c
    }
}

proof fn lemma_would_not_pair(s: Text, c: WrittenChar, more: Seq<WrittenChar>, rest: Text)
    requires
        is_words(more),
        more.len() > 0,
        s == char_text(c) + (words_text(more) + seq!['"'] + rest),
        is_char(c),
        c is Unit ==> !has_pair(s),
    ensures
        !would_pair(c, more[0]),
{
    if would_pair(c, more[0]) {
        let x = words_text(more) + seq!['"'] + rest;
        let y = words_text(more.skip(1)) + seq!['"'] + rest;
        assert(is_char(more[0]));
        assert(x =~= char_text(more[0]) + y);
        lemma_unit(more[0]->Unit_0, y);
        lemma_unit(c->Unit_0, x);
        assert(has_pair(s));
    }
}

proof fn lemma_longer_words(c: WrittenChar, more: Seq<WrittenChar>)
    requires
        is_char(c),
        is_words(more),
        more.len() > 0 ==> !would_pair(c, more[0]),
    ensures
        is_words(seq![c] + more),
        words_text(seq![c] + more) == char_text(c) + words_text(more),
        words_points(seq![c] + more) == seq![char_point(c)] + words_points(more),
{
    let cs = seq![c] + more;
    assert(cs.skip(1) =~= more);
    assert forall|i: int| 0 <= i < cs.len() implies is_char(#[trigger] cs[i]) by {
        if i > 0 {
            assert(cs[i] == more[i - 1]);
        }
    }
    assert forall|i: int, j: int| 0 <= i && j == i + 1 && j < cs.len() implies !would_pair(
        #[trigger] cs[i],
        #[trigger] cs[j],
    ) by {
        assert(cs[j] == more[i]);
        if i > 0 {
            assert(cs[i] == more[i - 1]);
        }
    }
    assert(words_points(cs) =~= seq![char_point(c)] + words_points(more));
}

/// The string whose body `s` starts with was written.
#[verifier::rlimit(30)]
proof fn lemma_words_written(s: Text) -> (cs: Seq<WrittenChar>)
    requires
        read_string(s) is Some,
    ensures
        is_words(cs),
        s == words_text(cs) + seq!['"'] + read_string(s)->Some_0.1,
        words_points(cs) == read_string(s)->Some_0.0,
    decreases s.len(),
{
    let rest = read_string(s)->Some_0.1;
    if s.len() > 0 && s[0] == '"' {
        let cs = Seq::<WrittenChar>::empty();
        assert(s =~= words_text(cs) + seq!['"'] + rest);
        assert(words_points(cs) =~= Seq::empty());
        cs
    } else {
        let c = lemma_char_written(s);
        let x = s.skip(char_text(c).len() as int);
        let more = lemma_words_written(x);
        if more.len() > 0 {
            lemma_would_not_pair(s, c, more, rest);
        }
        lemma_longer_words(c, more);
        let cs = seq![c] + more;
        assert(words_text(cs) + seq!['"'] + rest =~= char_text(c) + (words_text(more) + seq!['"']
            + rest));
        cs
    }
}

proof fn lemma_skip_digits(d: Text, x: Text)
    requires
        d.len() > 0 ==> is_digits(d),
        !has_digit(x),
    ensures
        skip_digits(d + x) == x,
    decreases d.len(),
{
    if d.len() == 0 {
        assert(d + x =~= x);
    } else {
        let tail = d.skip(1);
        assert((d + x)[0] == d[0]);
        assert((d + x).skip(1) =~= tail + x);
        assert forall|i: int| 0 <= i < tail.len() implies '0' <= #[trigger] tail[i] <= '9' by {
            assert(tail[i] == d[i + 1]);
        }
        lemma_skip_digits(tail, x);
    }
}

/// The digits that `s` starts with.
proof fn lemma_skipped_digits(s: Text) -> (d: Text)
    ensures
        s == d + skip_digits(s),
        d.len() > 0 ==> is_digits(d),
        has_digit(s) ==> d.len() > 0 && d[0] == s[0],
    decreases s.len(),
{
    if has_digit(s) {
        let more = lemma_skipped_digits(s.skip(1));
        let d = seq![s[0]] + more;
        assert(s =~= seq![s[0]] + s.skip(1));
        assert(s =~= d + skip_digits(s));
        assert forall|i: int| 0 <= i < d.len() implies '0' <= #[trigger] d[i] <= '9' by {
            if i > 0 {
                assert(d[i] == more[i - 1]);
            }
        }
        d
    } else {
        let d = Seq::<char>::empty();
        assert(s =~= d + s);
        d
    }
}

/// Whether a number cannot go on with `x`.
spec fn ends_number(x: Text) -> bool {
    x.len() == 0 || !(is_digit(x[0]) || x[0] == '.' || x[0] == 'e' || x[0] == 'E')
}

proof fn lemma_read_exponent(e: WrittenExponent, x: Text)
    requires
        e.mark == 'e' || e.mark == 'E',
        is_digits(e.digits),
        e.sign matches Some(s) ==> s == '+' || s == '-',
        ends_number(x),
    ensures
        after_exponent(exponent_text(Some(e)) + x) == Some(x),
{
    let s = exponent_text(Some(e)) + x;
    let d = e.digits + x;
    assert(s[0] == e.mark);
    assert(d[0] == e.digits[0]);
    match e.sign {
        Some(sign) => {
            assert(s.skip(1) =~= seq![sign] + d);
            assert(s.skip(1).skip(1) =~= d);
        },
        None => {
            assert(s.skip(1) =~= d);
        },
    }
    assert(skip_sign(s.skip(1)) == d);
    lemma_skip_digits(e.digits, x);
}

proof fn lemma_read_fraction(f: Text, x: Text)
    requires
        is_digits(f),
        !has_digit(x),
    ensures
        after_fraction(fraction_text(Some(f)) + x) == Some(x),
{
    let s = fraction_text(Some(f)) + x;
    assert(s[0] == '.');
    assert(s.skip(1) =~= f + x);
    assert((f + x)[0] == f[0]);
    lemma_skip_digits(f, x);
}

proof fn lemma_read_whole(w: Text, x: Text)
    requires
        is_digits(w),
        w.len() == 1 || w[0] != '0',
        !has_digit(x),
    ensures
        after_whole(w + x) == Some(x),
{
    let s = w + x;
    assert(s[0] == w[0]);
    if w[0] == '0' {
        assert(s.skip(1) =~= x);
    } else {
        lemma_skip_digits(w, x);
    }
}

proof fn lemma_read_number(n: WrittenNumber, x: Text)
    requires
        is_number(n),
        ends_number(x),
    ensures
        after_number(number_text(n) + x) == Some(x),
        number_text(n).len() > 0,
        number_text(n)[0] == '-' || is_digit(number_text(n)[0]),
{
    let e = exponent_text(n.exponent) + x;
    let f = fraction_text(n.fraction) + e;
    let w = n.whole + f;
    match n.exponent {
        Some(exponent) => {
            lemma_read_exponent(exponent, x);
            assert(e[0] == exponent.mark);
        },
        None => {
            assert(e =~= x);
        },
    }
    match n.fraction {
        Some(fraction) => {
            lemma_read_fraction(fraction, e);
            assert(f[0] == '.');
        },
        None => {
            assert(f =~= e);
        },
    }
    lemma_read_whole(n.whole, f);
    assert(w[0] == n.whole[0]);
    let s = number_text(n) + x;
    if n.negative {
        assert(s =~= seq!['-'] + w);
        assert(s.skip(1) =~= w);
        assert(number_text(n)[0] == '-');
    } else {
        assert(s =~= w);
        assert(number_text(n)[0] == n.whole[0]);
    }
}

/// The whole part that `s` starts with.
proof fn lemma_whole_written(s: Text) -> (w: Text)
    requires
        after_whole(s) is Some,
    ensures
        is_digits(w),
        w.len() == 1 || w[0] != '0',
        s == w + after_whole(s)->0,
{
    if s[0] == '0' {
        let w = seq![s[0]];
        assert(s =~= w + s.skip(1));
        w
    } else {
        lemma_skipped_digits(s)
    }
}

/// The fraction that `s` starts with.
proof fn lemma_fraction_written(s: Text) -> (f: Option<Text>)
    requires
        after_fraction(s) is Some,
    ensures
        f matches Some(d) ==> is_digits(d),
        s == fraction_text(f) + after_fraction(s)->0,
{
    if s.len() == 0 || s[0] != '.' {
        assert(s =~= Seq::<char>::empty() + s);
        None
    } else {
        let d = lemma_skipped_digits(s.skip(1));
        assert(s =~= seq!['.'] + s.skip(1));
        assert(s =~= fraction_text(Some(d)) + after_fraction(s)->0);
        Some(d)
    }
}

/// The exponent that `s` starts with.
proof fn lemma_exponent_written(s: Text) -> (e: Option<WrittenExponent>)
    requires
        after_exponent(s) is Some,
    ensures
        e matches Some(e) ==> (e.mark == 'e' || e.mark == 'E') && is_digits(e.digits) && match e.sign {
            Some(c) => c == '+' || c == '-',
            None => true,
        },
        s == exponent_text(e) + after_exponent(s)->0,
{
    if s.len() == 0 || (s[0] != 'e' && s[0] != 'E') {
        assert(s =~= Seq::<char>::empty() + s);
        None
    } else {
        let t = s.skip(1);
        let digits = lemma_skipped_digits(skip_sign(t));
        let signed = t.len() > 0 && (t[0] == '+' || t[0] == '-');
        let e = WrittenExponent {
            mark: s[0],
            sign: if signed {
                Some(t[0])
            } else {
                None
            },
            digits,
        };
        if signed {
            assert(t =~= seq![t[0]] + t.skip(1));
        }
        assert(s =~= seq![s[0]] + t);
        assert(s =~= exponent_text(Some(e)) + after_exponent(s)->0);
        Some(e)
    }
}

/// The number that `s` starts with.
proof fn lemma_number_written(s: Text) -> (n: WrittenNumber)
    requires
        after_number(s) is Some,
    ensures
        is_number(n),
        s == number_text(n) + after_number(s)->0,
{
    let negative = s.len() > 0 && s[0] == '-';
    let t = if negative {
        s.skip(1)
    } else {
        s
    };
    let whole = lemma_whole_written(t);
    let f = after_whole(t)->0;
    let fraction = lemma_fraction_written(f);
    let e = after_fraction(f)->0;
    let exponent = lemma_exponent_written(e);
    let n = WrittenNumber { negative, whole, fraction, exponent };
    assert(t =~= whole + fraction_text(fraction) + exponent_text(exponent) + after_number(s)->0);
    if negative {
        assert(s =~= seq!['-'] + t);
    }
    assert(s =~= number_text(n) + after_number(s)->0);
    n
}

proof fn lemma_read_written_value(v: WrittenValue, x: Text)
    requires
        is_value(v),
        ends_number(x),
    ensures
        read_value(value_text(v) + x) == Some((v is Yes, x)),
        value_text(v).len() > 0,
        !is_space(value_text(v)[0]),
{
    reveal_strlit("true");
    reveal_strlit("false");
    reveal_strlit("null");
    let s = value_text(v) + x;
    match v {
        WrittenValue::Yes => {
            assert(s.take(4) =~= "true"@);
            assert(s.skip(4) =~= x);
        },
        WrittenValue::No => {
            assert(s.take(4)[0] == 'f');
            assert(s.take(5) =~= "false"@);
            assert(s.skip(5) =~= x);
        },
        WrittenValue::Nothing => {
            assert(s.take(4)[0] == 'n');
            if s.len() >= 5 {
                assert(s.take(5)[0] == 'n');
            }
            assert(s.take(4) =~= "null"@);
            assert(s.skip(4) =~= x);
        },
        WrittenValue::Words(cs) => {
            assert(s[0] == '"');
            lemma_no_word(s);
            assert(s.skip(1) =~= words_text(cs) + seq!['"'] + x);
            lemma_read_words(cs, x);
        },
        WrittenValue::Number(n) => {
            lemma_read_number(n, x);
            assert(s[0] == number_text(n)[0]);
            lemma_no_word(s);
        },
    }
}

proof fn lemma_no_word(s: Text)
    requires
        s.len() > 0,
        s[0] != 't' && s[0] != 'f' && s[0] != 'n',
    ensures
        !starts_with(s, "true"@),
        !starts_with(s, "false"@),
        !starts_with(s, "null"@),
{
    reveal_strlit("true");
    reveal_strlit("false");
    reveal_strlit("null");
    if s.len() >= 4 {
        assert(s.take(4)[0] == s[0]);
    }
    if s.len() >= 5 {
        assert(s.take(5)[0] == s[0]);
    }
}

proof fn lemma_between_quotes(s: Text, words: Text, rest: Text)
    requires
        s.len() > 0,
        s[0] == '"',
        s.skip(1) == words + seq!['"'] + rest,
    ensures
        s == seq!['"'] + words + seq!['"'] + rest,
{
    assert(s =~= seq!['"'] + s.skip(1));
    assert(seq!['"'] + (words + seq!['"'] + rest) =~= seq!['"'] + words + seq!['"'] + rest);
}

/// The value that `s` starts with.
#[verifier::rlimit(30)]
proof fn lemma_value_written(s: Text) -> (v: WrittenValue)
    requires
        read_value(s) is Some,
    ensures
        is_value(v),
        (v is Yes) == read_value(s)->Some_0.0,
        s == value_text(v) + read_value(s)->Some_0.1,
{
    let rest = read_value(s)->Some_0.1;
    if starts_with(s, "true"@) {
        reveal_strlit("true");
        assert(s =~= s.take(4) + s.skip(4));
        WrittenValue::Yes
    } else if starts_with(s, "false"@) {
        reveal_strlit("false");
        assert(s =~= s.take(5) + s.skip(5));
        WrittenValue::No
    } else if starts_with(s, "null"@) {
        reveal_strlit("null");
        assert(s =~= s.take(4) + s.skip(4));
        WrittenValue::Nothing
    } else if s.len() > 0 && s[0] == '"' {
        let cs = lemma_words_written(s.skip(1));
        lemma_between_quotes(s, words_text(cs), rest);
        WrittenValue::Words(cs)
    } else {
        let n = lemma_number_written(s);
        WrittenValue::Number(n)
    }
}

proof fn lemma_read_written_member(m: WrittenMember, rest: Text)
    requires
        is_member(m),
        rest.len() > 0,
        rest[0] == ',' || rest[0] == '}',
    ensures
        read_member(member_text(m) + rest) == Some(
            ((words_points(m.key), m.value is Yes), rest),
        ),
        skip_space(member_text(m) + rest).len() > 0,
        skip_space(member_text(m) + rest)[0] == '"',
{
    let after = m.after_value + rest;
    let v = value_text(m.value) + after;
    let u = seq![':'] + (m.before_value + v);
    let k = words_text(m.key) + seq!['"'] + (m.after_key + u);
    let t = seq!['"'] + k;
    assert(member_text(m) + rest =~= m.before_key + t);
    lemma_skip_blank(m.before_key, t);
    assert(t.skip(1) =~= k);
    lemma_read_words(m.key, m.after_key + u);
    lemma_skip_blank(m.after_key, u);
    assert(u.skip(1) =~= m.before_value + v);
    if m.after_value.len() > 0 {
        assert(after[0] == m.after_value[0]);
    } else {
        assert(after =~= rest);
    }
    lemma_read_written_value(m.value, after);
    assert(v[0] == value_text(m.value)[0]);
    lemma_skip_blank(m.before_value, v);
    lemma_skip_blank(m.after_value, rest);
}

proof fn lemma_read_written_members(ms: Seq<WrittenMember>, behind: Text)
    requires
        ms.len() > 0,
        forall|i: int| 0 <= i < ms.len() ==> is_member(#[trigger] ms[i]),
        is_blank(behind),
    ensures
        members(members_text(ms) + seq!['}'] + behind) == Some(meanings(ms)),
        skip_space(members_text(ms) + seq!['}'] + behind).len() > 0,
        skip_space(members_text(ms) + seq!['}'] + behind)[0] == '"',
    decreases ms.len(),
{
    let close = seq!['}'] + behind;
    let s = members_text(ms) + seq!['}'] + behind;
    assert(is_member(ms[0]));
    if ms.len() == 1 {
        assert(s =~= member_text(ms[0]) + close);
        lemma_read_written_member(ms[0], close);
        assert(close.skip(1) =~= behind);
        lemma_all_blank(behind);
        assert(meanings(ms) =~= seq![(words_points(ms[0].key), ms[0].value is Yes)]);
    } else {
        let more = ms.skip(1);
        let t = members_text(more) + seq!['}'] + behind;
        let rest = seq![','] + t;
        assert(s =~= member_text(ms[0]) + rest);
        lemma_read_written_member(ms[0], rest);
        assert forall|i: int| 0 <= i < more.len() implies is_member(#[trigger] more[i]) by {
            assert(more[i] == ms[i + 1]);
        }
        lemma_read_written_members(more, behind);
        assert(rest.skip(1) =~= t);
        assert(meanings(ms) =~= seq![(words_points(ms[0].key), ms[0].value is Yes)] + meanings(
            more,
        ));
    }
}

proof fn lemma_all_blank(gap: Text)
    requires
        is_blank(gap),
    ensures
        skip_space(gap).len() == 0,
{
    assert(gap + Seq::<char>::empty() =~= gap);
    lemma_skip_blank(gap, Seq::empty());
}

proof fn lemma_member_joined(m: WrittenMember, u: Text, rest: Text)
    requires
        u == seq![':'] + (m.before_value + (value_text(m.value) + (m.after_value + rest))),
    ensures
        m.before_key + (seq!['"'] + (words_text(m.key) + seq!['"'] + (m.after_key + u)))
            == member_text(m) + rest,
{
    let w = words_text(m.key);
    let v = value_text(m.value);
    let front = m.before_key + seq!['"'] + w + seq!['"'] + m.after_key;
    assert(m.before_key + (seq!['"'] + (w + seq!['"'] + (m.after_key + u))) =~= front + u);
    assert(front + u =~= front + seq![':'] + m.before_value + v + m.after_value + rest);
}

/// The member that `s` starts with.
#[verifier::rlimit(30)]
proof fn lemma_member_written(s: Text) -> (m: WrittenMember)
    requires
        read_member(s) is Some,
    ensures
        is_member(m),
        s == member_text(m) + read_member(s)->Some_0.1,
{
    let before_key = lemma_skipped(s);
    let t = skip_space(s);
    let key = lemma_words_written(t.skip(1));
    let k = read_string(t.skip(1))->Some_0.1;
    let after_key = lemma_skipped(k);
    let u = skip_space(k);
    let before_value = lemma_skipped(u.skip(1));
    let v = skip_space(u.skip(1));
    let value = lemma_value_written(v);
    let after = read_value(v)->Some_0.1;
    let after_value = lemma_skipped(after);
    let rest = skip_space(after);
    let m = WrittenMember { before_key, key, after_key, before_value, value, after_value };
    assert(u =~= seq![':'] + u.skip(1));
    assert(t =~= seq!['"'] + t.skip(1));
    lemma_member_joined(m, u, rest);
    m
}

/// The members that `s` starts with, and what follows the closing brace.
proof fn lemma_members_written(s: Text) -> (r: (Seq<WrittenMember>, Text))
    requires
        members(s) is Some,
    ensures
        r.0.len() > 0,
        forall|i: int| 0 <= i < r.0.len() ==> is_member(#[trigger] r.0[i]),
        is_blank(r.1),
        s == members_text(r.0) + seq!['}'] + r.1,
    decreases s.len(),
{
    let m = lemma_member_written(s);
    let rest = read_member(s)->Some_0.1;
    lemma_read_member_shorter(s);
    if rest.len() > 0 && rest[0] == ',' {
        let (more, behind) = lemma_members_written(rest.skip(1));
        let ms = seq![m] + more;
        assert(ms.skip(1) =~= more);
        assert(ms[0] == m);
        assert(rest =~= seq![','] + rest.skip(1));
        assert(s =~= members_text(ms) + seq!['}'] + behind);
        assert forall|i: int| 0 <= i < ms.len() implies is_member(#[trigger] ms[i]) by {
            if i > 0 {
                assert(ms[i] == more[i - 1]);
            }
        }
        (ms, behind)
    } else {
        let ms = seq![m];
        let behind = rest.skip(1);
        let gap = lemma_skipped(behind);
        assert(behind =~= gap);
        assert(rest =~= seq!['}'] + behind);
        assert(s =~= members_text(ms) + seq!['}'] + behind);
        (ms, behind)
    }
}

proof fn lemma_points(key: Text)
    ensures
        code_points(key) == Seq::new(key.len(), |i: int| key[i] as nat),
{
}

proof fn lemma_flags_of_object(o: WrittenObject)
    requires
        is_object(o),
    ensures
        flags(object_text(o)) == Some(meanings(o.members)),
{
    let close = seq!['}'] + o.behind;
    let inside = o.inside + members_text(o.members) + seq!['}'] + o.behind;
    let open = seq!['{'] + inside;
    assert(object_text(o) =~= o.before + open);
    lemma_skip_blank(o.before, open);
    assert(open.skip(1) =~= inside);
    if o.members.len() == 0 {
        assert(inside =~= o.inside + close);
        lemma_skip_blank(o.inside, close);
        assert(close.skip(1) =~= o.behind);
        lemma_all_blank(o.behind);
        assert(meanings(o.members) =~= Seq::empty());
    } else {
        assert(inside =~= members_text(o.members) + seq!['}'] + o.behind);
        lemma_read_written_members(o.members, o.behind);
    }
}

/// An object sets a flag exactly where one of its members spells the flag's name and
/// has the value `true`, however its members are spaced and its strings escaped, and
/// whatever other values stand beside it.
pub proof fn law_objects_are_read_back(o: WrittenObject, key: Text)
    requires
        is_object(o),
    ensures
        flags(object_text(o)) is Some,
        has_flag(object_text(o), key) == exists|i: int|
            0 <= i < o.members.len() && words_points((#[trigger] o.members[i]).key) == Seq::new(
                key.len(),
                |j: int| key[j] as nat,
            ) && o.members[i].value is Yes,
{
    lemma_flags_of_object(o);
    lemma_points(key);
    let all = meanings(o.members);
    let flag: Flag = (code_points(key), true);
    if all.contains(flag) {
        let i = choose|i: int| 0 <= i < all.len() && all[i] == flag;
        assert(words_points(o.members[i].key) == code_points(key) && o.members[i].value is Yes);
    }
    if exists|i: int|
        0 <= i < o.members.len() && words_points((#[trigger] o.members[i]).key) == code_points(key)
            && o.members[i].value is Yes {
        let i = choose|i: int|
            0 <= i < o.members.len() && words_points((#[trigger] o.members[i]).key) == code_points(
                key,
            ) && o.members[i].value is Yes;
        assert(all[i] == flag);
    }
}

/// Text that nothing writes as a flat object sets a flag exactly where it holds the
/// flag's name between quotes with `:true` directly behind it.
pub proof fn law_other_text(caps: Text, key: Text)
    requires
        forall|o: WrittenObject| is_object(o) ==> #[trigger] object_text(o) != caps,
    ensures
        flags(caps) is None,
        has_flag(caps, key) == occurs_in("\""@ + key + "\":true"@, caps),
{
    if flags(caps) is Some {
        let before = lemma_skipped(caps);
        let s = skip_space(caps);
        let t = s.skip(1);
        let gap = lemma_skipped(t);
        let x = skip_space(t);
        assert(s =~= seq!['{'] + t);
        if x.len() > 0 && x[0] == '}' {
            let behind = x.skip(1);
            let blank = lemma_skipped(behind);
            assert(behind =~= blank);
            let o = WrittenObject { before, inside: gap, members: Seq::empty(), behind };
            assert(x =~= seq!['}'] + behind);
            assert(object_text(o) =~= caps);
            assert(is_object(o));
        } else {
            let (ms, behind) = lemma_members_written(t);
            let o = WrittenObject { before, inside: Seq::empty(), members: ms, behind };
            assert(object_text(o) =~= caps);
            assert(is_object(o));
        }
    }
}

} // verus!
