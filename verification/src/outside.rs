//! What the library takes from `std` without proof.

use vstd::prelude::*;
use vstd::utf8::is_ascii_chars;

verus! {

/// Specifies `String::push`, which appends the given `char` to the end of the
/// string.
pub assume_specification[ String::push ](s: &mut String, c: char)
    ensures
        final(s)@ == old(s)@.push(c),
;

/// The upper-case equivalent of `s`, as `str::to_uppercase` gives it.
pub uninterp spec fn uppercase(s: Seq<char>) -> Seq<char>;

/// The ASCII letter `c` in upper case; any other character unchanged.
pub open spec fn ascii_upper(c: char) -> char {
    if 'a' <= c <= 'z' {
        (c as nat - 32) as char
    } else {
        c
    }
}

/// Specifies `str::to_uppercase`: the result depends on the text alone, and on
/// ASCII text each letter is replaced by its upper-case letter. What the
/// Unicode case tables give for other text is left unsaid.
pub assume_specification[ str::to_uppercase ](s: &str) -> (r: String)
    ensures
        r@ == uppercase(s@),
        is_ascii_chars(s@) ==> r@ == Seq::new(s@.len(), |i: int| ascii_upper(s@[i])),
;

/// `s` as a Rust string literal, as the `Debug` form of `str` gives it.
pub uninterp spec fn quoted(s: Seq<char>) -> Seq<char>;

/// A printable ASCII character other than the two quotes and the backslash.
pub open spec fn is_plain_char(c: char) -> bool {
    ' ' <= c <= '~' && c != '"' && c != '\'' && c != '\\'
}

/// Text of plain characters alone.
pub open spec fn is_plain(s: Seq<char>) -> bool {
    forall|i: int| 0 <= i < s.len() ==> is_plain_char(#[trigger] s[i])
}

/// Calls `<str as Debug>::fmt`, through `format!`: the result depends on the
/// text alone, and printable ASCII text without quotes and backslashes is put
/// between double quotes as it is. How other characters are escaped is left
/// unsaid.
#[verifier::external_body]
pub(crate) fn quote(s: &str) -> (r: String)
    ensures
        r@ == quoted(s@),
        is_plain(s@) ==> r@ == seq!['"'] + s@ + seq!['"'],
{
    format!("{:?}", s)
}

} // verus!
