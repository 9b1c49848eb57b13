//! The capabilities of a spatial index: a flat JSON object of boolean flags.
//!
//! An object is read by its grammar. Text that is no flat object is searched for the
//! compact form of the flag instead.

use vstd::prelude::*;

use crate::text::{chars_of, contains_text, holds_at, occurs_in, Text};

verus! {

/// A flag of the object: the code points of its key, and whether its value is `true`.
pub type Flag = (Seq<nat>, bool);

/// White space between the tokens of the object.
pub open spec fn is_space(c: char) -> bool {
    c == ' ' || c == '\t' || c == '\n' || c == '\r'
}

/// `s` without the white space at its start.
pub open spec fn skip_space(s: Text) -> Text
    decreases s.len(),
{
    if s.len() > 0 && is_space(s[0]) {
        skip_space(s.skip(1))
    } else {
        s
    }
}

/// A hexadecimal digit.
pub open spec fn is_hex(c: char) -> bool {
    '0' <= c <= '9' || 'a' <= c <= 'f' || 'A' <= c <= 'F'
}

/// The value of the hexadecimal digit `c`.
pub open spec fn hex_value(c: char) -> nat {
    if '0' <= c <= '9' {
        (c as nat - '0' as nat) as nat
    } else if 'a' <= c <= 'f' {
        (c as nat - 'a' as nat + 10) as nat
    } else {
        (c as nat - 'A' as nat + 10) as nat
    }
}

/// Whether `s` starts with a `\u` escape of four digits.
pub open spec fn has_unit(s: Text) -> bool {
    s.len() >= 6 && s[0] == '\\' && s[1] == 'u' && is_hex(s[2]) && is_hex(s[3]) && is_hex(s[4])
        && is_hex(s[5])
}

/// The value of the `\u` escape that `s` starts with.
pub open spec fn unit(s: Text) -> nat {
    hex_value(s[2]) * 4096 + hex_value(s[3]) * 256 + hex_value(s[4]) * 16 + hex_value(s[5])
}

/// Whether `s` starts with two `\u` escapes that stand for one character.
pub open spec fn has_pair(s: Text) -> bool {
    has_unit(s) && 0xd800 <= unit(s) < 0xdc00 && has_unit(s.skip(6)) && 0xdc00 <= unit(s.skip(6))
        < 0xe000
}

/// What the escape of a backslash and `c` stands for.
pub open spec fn short_escape(c: char) -> Option<nat> {
    if c == '"' || c == '\\' || c == '/' {
        Some(c as nat)
    } else if c == 'b' {
        Some(8)
    } else if c == 'f' {
        Some(12)
    } else if c == 'n' {
        Some(10)
    } else if c == 'r' {
        Some(13)
    } else if c == 't' {
        Some(9)
    } else {
        None
    }
}

/// The first character of a string's body: the code point it stands for and how
/// many characters write it.
pub open spec fn first_char(s: Text) -> Option<(nat, nat)> {
    if s.len() == 0 {
        None
    } else if ' ' > s[0] {
        None
    } else if s[0] != '\\' {
        Some((s[0] as nat, 1))
    } else if has_pair(s) {
        Some(
            (
                (0x10000 + (unit(s) - 0xd800) * 0x400 + (unit(s.skip(6)) - 0xdc00)) as nat,
                12,
            ),
        )
    } else if has_unit(s) {
        Some((unit(s), 6))
    } else if s.len() < 2 {
        None
    } else {
        match short_escape(s[1]) {
            Some(c) => Some((c, 2)),
            None => None,
        }
    }
}

/// The string whose body `s` starts with: its code points, and what follows the
/// closing quote.
pub open spec fn read_string(s: Text) -> Option<(Seq<nat>, Text)>
    decreases s.len(),
{
    if s.len() > 0 && s[0] == '"' {
        Some((Seq::empty(), s.skip(1)))
    } else {
        match first_char(s) {
            Some((c, width)) => match read_string(s.skip(width as int)) {
                Some((more, rest)) => Some((seq![c] + more, rest)),
                None => None,
            },
            None => None,
        }
    }
}

/// A decimal digit.
pub open spec fn is_digit(c: char) -> bool {
    '0' <= c <= '9'
}

/// Whether `s` starts with a digit.
pub open spec fn has_digit(s: Text) -> bool {
    s.len() > 0 && is_digit(s[0])
}

/// `s` without the digits at its start.
pub open spec fn skip_digits(s: Text) -> Text
    decreases s.len(),
{
    if has_digit(s) {
        skip_digits(s.skip(1))
    } else {
        s
    }
}

/// What follows the whole part of a number: a single zero, or digits that start
/// with another one.
pub open spec fn after_whole(s: Text) -> Option<Text> {
    if !has_digit(s) {
        None
    } else if s[0] == '0' {
        Some(s.skip(1))
    } else {
        Some(skip_digits(s))
    }
}

/// What follows the fraction of a number, if it has one.
pub open spec fn after_fraction(s: Text) -> Option<Text> {
    if s.len() == 0 || s[0] != '.' {
        Some(s)
    } else if has_digit(s.skip(1)) {
        Some(skip_digits(s.skip(1)))
    } else {
        None
    }
}

/// `s` without a sign at its start.
pub open spec fn skip_sign(s: Text) -> Text {
    if s.len() > 0 && (s[0] == '+' || s[0] == '-') {
        s.skip(1)
    } else {
        s
    }
}

/// What follows the exponent of a number, if it has one.
pub open spec fn after_exponent(s: Text) -> Option<Text> {
    if s.len() == 0 || (s[0] != 'e' && s[0] != 'E') {
        Some(s)
    } else if has_digit(skip_sign(s.skip(1))) {
        Some(skip_digits(skip_sign(s.skip(1))))
    } else {
        None
    }
}

/// What follows the number that `s` starts with.
pub open spec fn after_number(s: Text) -> Option<Text> {
    let unsigned = if s.len() > 0 && s[0] == '-' {
        s.skip(1)
    } else {
        s
    };
    match after_whole(unsigned) {
        Some(whole) => match after_fraction(whole) {
            Some(fraction) => after_exponent(fraction),
            None => None,
        },
        None => None,
    }
}

/// Whether `s` starts with `word`.
pub open spec fn starts_with(s: Text, word: Text) -> bool {
    s.len() >= word.len() && s.take(word.len() as int) == word
}

/// The value that `s` starts with, if it is no array and no object: whether it is
/// `true`, and what follows it.
pub open spec fn read_value(s: Text) -> Option<(bool, Text)> {
    if starts_with(s, "true"@) {
        Some((true, s.skip(4)))
    } else if starts_with(s, "false"@) {
        Some((false, s.skip(5)))
    } else if starts_with(s, "null"@) {
        Some((false, s.skip(4)))
    } else if s.len() > 0 && s[0] == '"' {
        match read_string(s.skip(1)) {
            Some((_, rest)) => Some((false, rest)),
            None => None,
        }
    } else {
        match after_number(s) {
            Some(rest) => Some((false, rest)),
            None => None,
        }
    }
}

/// The member that `s` starts with, and what follows it and its white space.
pub open spec fn read_member(s: Text) -> Option<(Flag, Text)> {
    let t = skip_space(s);
    if t.len() == 0 || t[0] != '"' {
        None
    } else {
        match read_string(t.skip(1)) {
            Some((key, after_key)) => {
                let u = skip_space(after_key);
                if u.len() == 0 || u[0] != ':' {
                    None
                } else {
                    match read_value(skip_space(u.skip(1))) {
                        Some((value, rest)) => Some(((key, value), skip_space(rest))),
                        None => None,
                    }
                }
            },
            None => None,
        }
    }
}

/// The members of an object, where `s` is what follows its opening brace or a comma;
/// behind the closing brace only white space may stand.
pub open spec fn members(s: Text) -> Option<Seq<Flag>>
    decreases s.len(),
{
    match read_member(s) {
        Some((flag, rest)) => {
            if rest.len() > 0 && rest[0] == ',' {
                proof {
                    lemma_read_member_shorter(s);
                }
                match members(rest.skip(1)) {
                    Some(more) => Some(seq![flag] + more),
                    None => None,
                }
            } else if rest.len() > 0 && rest[0] == '}' && skip_space(rest.skip(1)).len() == 0 {
                Some(seq![flag])
            } else {
                None
            }
        },
        None => None,
    }
}

/// The flags of `caps`, where it is a flat object.
pub open spec fn flags(caps: Text) -> Option<Seq<Flag>> {
    let s = skip_space(caps);
    if s.len() == 0 || s[0] != '{' {
        None
    } else {
        let inside = skip_space(s.skip(1));
        if inside.len() > 0 && inside[0] == '}' {
            if skip_space(inside.skip(1)).len() == 0 {
                Some(Seq::empty())
            } else {
                None
            }
        } else {
            members(s.skip(1))
        }
    }
}

/// The compact form of the flag `key` that is set.
pub open spec fn compact_flag(key: Text) -> Text {
    "\""@ + key + "\":true"@
}

/// The code points of `key`.
pub open spec fn code_points(key: Text) -> Seq<nat> {
    Seq::new(key.len(), |i: int| key[i] as nat)
}

/// Whether the capabilities set the flag `key`: a flat object has a member of that
/// key with the value `true`; other text holds the compact form of the flag.
pub open spec fn has_flag(caps: Text, key: Text) -> bool {
    match flags(caps) {
        Some(all) => all.contains((code_points(key), true)),
        None => occurs_in(compact_flag(key), caps),
    }
}

proof fn lemma_skip_space_len(s: Text)
    ensures
        skip_space(s).len() <= s.len(),
    decreases s.len(),
{
    if s.len() > 0 && is_space(s[0]) {
        lemma_skip_space_len(s.skip(1));
    }
}

/// A string is followed by less than it starts in.
pub proof fn lemma_read_string_shorter(s: Text)
    ensures
        read_string(s) matches Some((_, rest)) ==> rest.len() < s.len(),
    decreases s.len(),
{
    if !(s.len() > 0 && s[0] == '"') {
        if let Some((_, width)) = first_char(s) {
            lemma_read_string_shorter(s.skip(width as int));
        }
    }
}

proof fn lemma_skip_digits_len(s: Text)
    ensures
        skip_digits(s).len() <= s.len(),
    decreases s.len(),
{
    if has_digit(s) {
        lemma_skip_digits_len(s.skip(1));
    }
}

proof fn lemma_after_number_len(s: Text)
    ensures
        after_number(s) matches Some(rest) ==> rest.len() <= s.len(),
{
    let unsigned = if s.len() > 0 && s[0] == '-' {
        s.skip(1)
    } else {
        s
    };
    lemma_skip_digits_len(unsigned);
    if let Some(whole) = after_whole(unsigned) {
        if whole.len() > 0 {
            lemma_skip_digits_len(whole.skip(1));
        }
        if let Some(fraction) = after_fraction(whole) {
            if fraction.len() > 0 {
                lemma_skip_digits_len(skip_sign(fraction.skip(1)));
            }
        }
    }
}

proof fn lemma_read_value_len(s: Text)
    ensures
        read_value(s) matches Some((_, rest)) ==> rest.len() <= s.len(),
{
    reveal_strlit("true");
    reveal_strlit("false");
    reveal_strlit("null");
    if s.len() > 0 {
        lemma_read_string_shorter(s.skip(1));
    }
    lemma_after_number_len(s);
}

/// A member is followed by less than it starts in.
pub proof fn lemma_read_member_shorter(s: Text)
    ensures
        read_member(s) matches Some((_, rest)) ==> rest.len() < s.len(),
{
    let t = skip_space(s);
    lemma_skip_space_len(s);
    if t.len() > 0 && t[0] == '"' {
        lemma_read_string_shorter(t.skip(1));
        if let Some((_, after_key)) = read_string(t.skip(1)) {
            let u = skip_space(after_key);
            lemma_skip_space_len(after_key);
            if u.len() > 0 {
                let v = skip_space(u.skip(1));
                lemma_skip_space_len(u.skip(1));
                lemma_read_value_len(v);
                if let Some((_, rest)) = read_value(v) {
                    lemma_skip_space_len(rest);
                }
            }
        }
    }
}

/// The position behind the white space at `from`.
fn space_end(cs: &Vec<char>, from: usize) -> (r: usize)
    requires
        from <= cs@.len(),
    ensures
        from <= r <= cs@.len(),
        cs@.skip(r as int) == skip_space(cs@.skip(from as int)),
{
    let mut i: usize = from;
    while i < cs.len() && (cs[i] == ' ' || cs[i] == '\t' || cs[i] == '\n' || cs[i] == '\r')
        invariant
            from <= i <= cs@.len(),
            skip_space(cs@.skip(i as int)) == skip_space(cs@.skip(from as int)),
        decreases cs@.len() - i,
    {
        assert(cs@.skip(i as int).skip(1) =~= cs@.skip(i + 1));
        i = i + 1;
    }
    i
}

/// The code point of `c`.
fn code_point(c: char) -> (r: u32)
    ensures
        r == c as nat,
{
    c as u32
}

/// The value of the hexadecimal digit `c`, if it is one.
fn hex_digit(c: char) -> (r: Option<u32>)
    ensures
        r is Some == is_hex(c),
        r matches Some(v) ==> v == hex_value(c) && v < 16,
{
    if '0' <= c && c <= '9' {
        Some(c as u32 - 48)
    } else if 'a' <= c && c <= 'f' {
        Some(c as u32 - 87)
    } else if 'A' <= c && c <= 'F' {
        Some(c as u32 - 55)
    } else {
        None
    }
}

/// The value of the `\u` escape at `at`, if there is one.
fn unit_at(cs: &Vec<char>, at: usize) -> (r: Option<u32>)
    requires
        at <= cs@.len(),
    ensures
        r is Some == has_unit(cs@.skip(at as int)),
        r matches Some(v) ==> v == unit(cs@.skip(at as int)) && v < 0x10000,
{
    if cs.len() - at < 6 || cs[at] != '\\' || cs[at + 1] != 'u' {
        return None;
    }
    match (
        hex_digit(cs[at + 2]),
        hex_digit(cs[at + 3]),
        hex_digit(cs[at + 4]),
        hex_digit(cs[at + 5]),
    ) {
        (Some(a), Some(b), Some(c), Some(d)) => Some(a * 4096 + b * 256 + c * 16 + d),
        _ => None,
    }
}

/// The first character of a string's body at `at`: its code point and its width.
fn char_at(cs: &Vec<char>, at: usize) -> (r: Option<(u32, usize)>)
    requires
        at <= cs@.len(),
    ensures
        match first_char(cs@.skip(at as int)) {
            Some((c, width)) => r matches Some((v, w)) && v == c && w == width && 0 < w <= cs@.len()
                - at,
            None => r is None,
        },
{
    if at == cs.len() {
        return None;
    }
    if ' ' > cs[at] {
        return None;
    }
    if cs[at] != '\\' {
        return Some((code_point(cs[at]), 1));
    }
    if let Some(high) = unit_at(cs, at) {
        if 0xd800 <= high && high < 0xdc00 {
            assert(cs@.skip(at as int).skip(6) =~= cs@.skip(at + 6));
            if let Some(low) = unit_at(cs, at + 6) {
                if 0xdc00 <= low && low < 0xe000 {
                    return Some((0x10000 + (high - 0xd800) * 0x400 + (low - 0xdc00), 12));
                }
            }
        }
        return Some((high, 6));
    }
    if cs.len() - at < 2 {
        return None;
    }
    let c = cs[at + 1];
    if c == '"' || c == '\\' || c == '/' {
        Some((code_point(c), 2))
    } else if c == 'b' {
        Some((8, 2))
    } else if c == 'f' {
        Some((12, 2))
    } else if c == 'n' {
        Some((10, 2))
    } else if c == 'r' {
        Some((13, 2))
    } else if c == 't' {
        Some((9, 2))
    } else {
        None
    }
}

/// Whether the string whose body starts at `from` is `key`, and the position
/// behind its closing quote.
fn string_at(cs: &Vec<char>, from: usize, key: &Vec<char>) -> (r: Option<(bool, usize)>)
    requires
        from <= cs@.len(),
    ensures
        match read_string(cs@.skip(from as int)) {
            Some((found, rest)) => r matches Some((same, end)) && from < end <= cs@.len()
                && cs@.skip(end as int) == rest && same == (found == code_points(key@)),
            None => r is None,
        },
{
    let ghost all = read_string(cs@.skip(from as int));
    let ghost mut read: Seq<nat> = Seq::empty();
    let mut same = true;
    let mut k: usize = 0;
    let mut i: usize = from;
    proof {
        assert(read =~= code_points(key@).take(0));
        if let Some((found, rest)) = all {
            assert(read + found =~= found);
        }
    }
    while i < cs.len() && cs[i] != '"'
        invariant
            from <= i <= cs@.len(),
            all == read_string(cs@.skip(from as int)),
            all == (match read_string(cs@.skip(i as int)) {
                Some((more, rest)) => Some((read + more, rest)),
                None => None,
            }),
            same == (read.len() <= key@.len() && read == code_points(key@).take(read.len() as int)),
            same ==> k == read.len(),
        decreases cs@.len() - i,
    {
        match char_at(cs, i) {
            Some((c, width)) => {
                proof {
                    assert(cs@.skip(i as int).skip(width as int) =~= cs@.skip(i + width));
                    let longer = read.push(c as nat);
                    if let Some((more, rest)) = read_string(cs@.skip(i + width)) {
                        assert(read + (seq![c as nat] + more) =~= longer + more);
                    }
                    if longer.len() <= key@.len() {
                        let start = code_points(key@).take(longer.len() as int);
                        assert(start.drop_last() =~= code_points(key@).take(read.len() as int));
                        assert(longer.drop_last() =~= read);
                        if longer == start {
                            assert(longer.last() == start.last());
                        }
                        if read == start.drop_last() && c as nat == start.last() {
                            assert(longer =~= start);
                        }
                    }
                    read = longer;
                }
                if same {
                    if k < key.len() && code_point(key[k]) == c {
                        k = k + 1;
                    } else {
                        same = false;
                    }
                }
                i = i + width;
            },
            None => {
                return None;
            },
        }
    }
    if i == cs.len() {
        return None;
    }
    proof {
        assert(cs@.skip(i as int).skip(1) =~= cs@.skip(i + 1));
        assert(read + Seq::<nat>::empty() =~= read);
        assert(code_points(key@).take(key@.len() as int) =~= code_points(key@));
    }
    Some((same && k == key.len(), i + 1))
}

/// Whether a digit stands at `at`.
fn digit_at(cs: &Vec<char>, at: usize) -> (r: bool)
    requires
        at <= cs@.len(),
    ensures
        r == has_digit(cs@.skip(at as int)),
        r ==> at < cs@.len() <= usize::MAX,
{
    at < cs.len() && '0' <= cs[at] && cs[at] <= '9'
}

/// The position behind the digits at `from`.
fn digits_end(cs: &Vec<char>, from: usize) -> (r: usize)
    requires
        from <= cs@.len(),
    ensures
        from <= r <= cs@.len(),
        cs@.skip(r as int) == skip_digits(cs@.skip(from as int)),
{
    let mut i: usize = from;
    while digit_at(cs, i)
        invariant
            from <= i <= cs@.len(),
            skip_digits(cs@.skip(i as int)) == skip_digits(cs@.skip(from as int)),
        decreases cs@.len() - i,
    {
        assert(cs@.skip(i as int).skip(1) =~= cs@.skip(i + 1));
        i = i + 1;
    }
    i
}

/// The position behind the whole part of the number at `at`, if there is one.
fn whole_end(cs: &Vec<char>, at: usize) -> (r: Option<usize>)
    requires
        at <= cs@.len(),
    ensures
        match after_whole(cs@.skip(at as int)) {
            Some(rest) => r matches Some(end) && at <= end <= cs@.len() && cs@.skip(end as int)
                == rest,
            None => r is None,
        },
{
    if !digit_at(cs, at) {
        None
    } else if cs[at] == '0' {
        assert(cs@.skip(at as int).skip(1) =~= cs@.skip(at + 1));
        Some(at + 1)
    } else {
        Some(digits_end(cs, at))
    }
}

/// The position behind the fraction at `at`, if there is one.
fn fraction_end(cs: &Vec<char>, at: usize) -> (r: Option<usize>)
    requires
        at <= cs@.len(),
    ensures
        match after_fraction(cs@.skip(at as int)) {
            Some(rest) => r matches Some(end) && at <= end <= cs@.len() && cs@.skip(end as int)
                == rest,
            None => r is None,
        },
{
    if at == cs.len() || cs[at] != '.' {
        return Some(at);
    }
    assert(cs@.skip(at as int).skip(1) =~= cs@.skip(at + 1));
    if digit_at(cs, at + 1) {
        Some(digits_end(cs, at + 1))
    } else {
        None
    }
}

/// The position behind the exponent at `at`, if there is one.
fn exponent_end(cs: &Vec<char>, at: usize) -> (r: Option<usize>)
    requires
        at <= cs@.len(),
    ensures
        match after_exponent(cs@.skip(at as int)) {
            Some(rest) => r matches Some(end) && at <= end <= cs@.len() && cs@.skip(end as int)
                == rest,
            None => r is None,
        },
{
    if at == cs.len() || (cs[at] != 'e' && cs[at] != 'E') {
        return Some(at);
    }
    assert(cs@.skip(at as int).skip(1) =~= cs@.skip(at + 1));
    let mut i: usize = at + 1;
    if i < cs.len() && (cs[i] == '+' || cs[i] == '-') {
        assert(cs@.skip(at + 1).skip(1) =~= cs@.skip(at + 2));
        i = i + 1;
    }
    if digit_at(cs, i) {
        Some(digits_end(cs, i))
    } else {
        None
    }
}

/// The position behind the number at `at`, if there is one.
fn number_end(cs: &Vec<char>, at: usize) -> (r: Option<usize>)
    requires
        at <= cs@.len(),
    ensures
        match after_number(cs@.skip(at as int)) {
            Some(rest) => r matches Some(end) && at <= end <= cs@.len() && cs@.skip(end as int)
                == rest,
            None => r is None,
        },
{
    let mut i: usize = at;
    if i < cs.len() && cs[i] == '-' {
        assert(cs@.skip(at as int).skip(1) =~= cs@.skip(at + 1));
        i = i + 1;
    }
    match whole_end(cs, i) {
        Some(whole) => match fraction_end(cs, whole) {
            Some(fraction) => exponent_end(cs, fraction),
            None => None,
        },
        None => None,
    }
}

/// Whether `word` stands at `at`.
fn word_at(cs: &Vec<char>, at: usize, word: &str) -> (r: bool)
    requires
        at <= cs@.len(),
    ensures
        r == starts_with(cs@.skip(at as int), word@),
        r ==> at + word@.len() <= cs@.len() <= usize::MAX,
{
    let part = chars_of(word);
    if cs.len() - at < part.len() {
        return false;
    }
    assert(cs@.skip(at as int).take(part@.len() as int) =~= cs@.subrange(
        at as int,
        at + part@.len(),
    ));
    holds_at(cs, &part, at)
}

/// The value at `at`, if it is no array and no object: whether it is `true`, and the
/// position behind it.
fn value_at(cs: &Vec<char>, at: usize) -> (r: Option<(bool, usize)>)
    requires
        at <= cs@.len(),
    ensures
        match read_value(cs@.skip(at as int)) {
            Some((value, rest)) => r matches Some((v, end)) && v == value && at <= end <= cs@.len()
                && cs@.skip(end as int) == rest,
            None => r is None,
        },
{
    proof {
        reveal_strlit("true");
        reveal_strlit("false");
        reveal_strlit("null");
        if at + 4 <= cs@.len() {
            assert(cs@.skip(at as int).skip(4) =~= cs@.skip(at + 4));
        }
        if at + 5 <= cs@.len() {
            assert(cs@.skip(at as int).skip(5) =~= cs@.skip(at + 5));
        }
        if at + 1 <= cs@.len() {
            assert(cs@.skip(at as int).skip(1) =~= cs@.skip(at + 1));
        }
    }
    if word_at(cs, at, "true") {
        return Some((true, at + 4));
    }
    if word_at(cs, at, "false") {
        return Some((false, at + 5));
    }
    if word_at(cs, at, "null") {
        return Some((false, at + 4));
    }
    if at < cs.len() && cs[at] == '"' {
        let none: Vec<char> = Vec::new();
        return match string_at(cs, at + 1, &none) {
            Some((_, end)) => Some((false, end)),
            None => None,
        };
    }
    match number_end(cs, at) {
        Some(end) => Some((false, end)),
        None => None,
    }
}

/// Whether the member at `from` is `key` with the value `true`, and the position
/// behind it and its white space.
fn member_at(cs: &Vec<char>, from: usize, key: &Vec<char>) -> (r: Option<(bool, usize)>)
    requires
        from <= cs@.len(),
    ensures
        match read_member(cs@.skip(from as int)) {
            Some((flag, rest)) => r matches Some((set, end)) && from < end <= cs@.len() && cs@.skip(
                end as int,
            ) == rest && set == (flag == (code_points(key@), true)),
            None => r is None,
        },
{
    let at = space_end(cs, from);
    if at == cs.len() || cs[at] != '"' {
        return None;
    }
    assert(cs@.skip(at as int).skip(1) =~= cs@.skip(at + 1));
    match string_at(cs, at + 1, key) {
        Some((same, after_key)) => {
            let colon = space_end(cs, after_key);
            if colon == cs.len() || cs[colon] != ':' {
                return None;
            }
            assert(cs@.skip(colon as int).skip(1) =~= cs@.skip(colon + 1));
            match value_at(cs, space_end(cs, colon + 1)) {
                Some((value, end)) => Some((same && value, space_end(cs, end))),
                None => None,
            }
        },
        None => None,
    }
}

/// Whether only white space stands from `from` on.
fn is_blank(cs: &Vec<char>, from: usize) -> (r: bool)
    requires
        from <= cs@.len(),
    ensures
        r == (skip_space(cs@.skip(from as int)).len() == 0),
{
    space_end(cs, from) == cs.len()
}

/// Whether one of the members from `from` on is `key` with the value `true`, where
/// they are the members of an object.
fn members_set(cs: &Vec<char>, from: usize, key: &Vec<char>) -> (r: Option<bool>)
    requires
        from <= cs@.len(),
    ensures
        match members(cs@.skip(from as int)) {
            Some(all) => r == Some(all.contains((code_points(key@), true))),
            None => r is None,
        },
{
    let ghost flag: Flag = (code_points(key@), true);
    let ghost all = members(cs@.skip(from as int));
    let ghost mut read: Seq<Flag> = Seq::empty();
    let mut found = false;
    let mut i: usize = from;
    proof {
        if let Some(more) = all {
            assert(read + more =~= more);
        }
    }
    while i <= cs.len()
        invariant
            i <= cs@.len(),
            flag == (code_points(key@), true),
            all == members(cs@.skip(from as int)),
            all == (match members(cs@.skip(i as int)) {
                Some(more) => Some(read + more),
                None => None,
            }),
            found == read.contains(flag),
        decreases cs@.len() - i,
    {
        match member_at(cs, i, key) {
            Some((set, end)) => {
                let ghost here = read_member(cs@.skip(i as int)).unwrap();
                let ghost one = here.0;
                let ghost longer = read.push(one);
                proof {
                    if set {
                        assert(longer[longer.len() - 1] == flag);
                    }
                    if read.contains(flag) {
                        let k = choose|k: int| 0 <= k < read.len() && read[k] == flag;
                        assert(longer[k] == flag);
                    }
                    if longer.contains(flag) {
                        let k = choose|k: int| 0 <= k < longer.len() && longer[k] == flag;
                        if k < read.len() {
                            assert(read[k] == flag);
                        }
                    }
                }
                found = found || set;
                if end == cs.len() {
                    return None;
                }
                assert(cs@.skip(end as int).skip(1) =~= cs@.skip(end + 1));
                if cs[end] != ',' {
                    if cs[end] == '}' && is_blank(cs, end + 1) {
                        assert(read + seq![one] =~= longer);
                        return Some(found);
                    }
                    return None;
                }
                proof {
                    if let Some(more) = members(cs@.skip(end + 1)) {
                        assert(read + (seq![one] + more) =~= longer + more);
                    }
                    read = longer;
                }
                i = end + 1;
            },
            None => {
                return None;
            },
        }
    }
    None
}

/// Whether `cs` is a flat object with a member `key` whose value is `true`; nothing
/// where it is no flat object.
fn object_sets(cs: &Vec<char>, key: &Vec<char>) -> (r: Option<bool>)
    ensures
        match flags(cs@) {
            Some(all) => r == Some(all.contains((code_points(key@), true))),
            None => r is None,
        },
{
    assert(cs@.skip(0) =~= cs@);
    let open = space_end(cs, 0);
    if open == cs.len() || cs[open] != '{' {
        return None;
    }
    assert(cs@.skip(open as int).skip(1) =~= cs@.skip(open + 1));
    let inside = space_end(cs, open + 1);
    if inside < cs.len() && cs[inside] == '}' {
        assert(cs@.skip(inside as int).skip(1) =~= cs@.skip(inside + 1));
        if is_blank(cs, inside + 1) {
            return Some(false);
        }
        return None;
    }
    members_set(cs, open + 1, key)
}

/// Whether the capabilities set the flag `key`: a flat object has a member of that
/// key with the value `true`; other text holds the compact form of the flag.
pub fn flag_set(caps: &str, key: &str) -> (r: bool)
    ensures
        r == has_flag(caps@, key@),
{
    match object_sets(&chars_of(caps), &chars_of(key)) {
        Some(set) => set,
        None => {
            let mut compact = "\"".to_owned();
            compact.append(key);
            compact.append("\":true");
            contains_text(caps, compact.as_str())
        },
    }
}

} // verus!
