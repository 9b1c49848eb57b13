//! What holds of reading the capabilities of a spatial index.

use vstd::prelude::*;

use crate::capabilities::{
    code_points, compact_flag, first_char, flags, has_flag, is_space, members, read_member,
    read_string, read_value, skip_space, starts_with, Flag,
};
use crate::text::{occurs_in, Text};

verus! {

/// A flag as it may be written in an object: white space may stand before and
/// after its key and its value.
pub struct WrittenFlag {
    pub before_key: Text,
    pub key: Text,
    pub after_key: Text,
    pub before_value: Text,
    pub value: bool,
    pub after_value: Text,
}

/// White space alone.
pub open spec fn is_gap(t: Text) -> bool {
    forall|i: int| 0 <= i < t.len() ==> is_space(#[trigger] t[i])
}

/// Whether the flag's gaps are white space and its key needs no escape.
pub open spec fn is_written(f: WrittenFlag) -> bool {
    &&& is_gap(f.before_key)
    &&& is_gap(f.after_key)
    &&& is_gap(f.before_value)
    &&& is_gap(f.after_value)
    &&& is_plain_key(f.key)
}

/// Whether `key` needs no escape.
pub open spec fn is_plain_key(key: Text) -> bool {
    forall|i: int|
        0 <= i < key.len() ==> ' ' <= #[trigger] key[i] && key[i] != '"' && key[i] != '\\'
}

/// The text of a flag's value.
pub open spec fn value_text(value: bool) -> Text {
    if value {
        "true"@
    } else {
        "false"@
    }
}

/// The text of a flag.
pub open spec fn flag_text(f: WrittenFlag) -> Text {
    f.before_key + seq!['"'] + f.key + seq!['"'] + f.after_key + seq![':'] + f.before_value
        + value_text(f.value) + f.after_value
}

/// The text of an object's members.
pub open spec fn flags_text(fs: Seq<WrittenFlag>) -> Text
    decreases fs.len(),
{
    if fs.len() == 0 {
        Seq::empty()
    } else if fs.len() == 1 {
        flag_text(fs[0])
    } else {
        flag_text(fs[0]) + seq![','] + flags_text(fs.skip(1))
    }
}

/// The text of an object, with white space before and behind it.
pub open spec fn object_text(gap: Text, fs: Seq<WrittenFlag>, behind: Text) -> Text {
    gap + seq!['{'] + flags_text(fs) + seq!['}'] + behind
}

/// What the object holds.
pub open spec fn meanings(fs: Seq<WrittenFlag>) -> Seq<Flag> {
    Seq::new(fs.len(), |i: int| (code_points(fs[i].key), fs[i].value))
}

proof fn lemma_skip_gap(gap: Text, x: Text)
    requires
        is_gap(gap),
        x.len() == 0 || !is_space(x[0]),
    ensures
        skip_space(gap + x) == x,
    decreases gap.len(),
{
    if gap.len() == 0 {
        assert(gap + x =~= x);
    } else {
        assert((gap + x)[0] == gap[0]);
        assert((gap + x).skip(1) =~= gap.skip(1) + x);
        assert forall|i: int| 0 <= i < gap.skip(1).len() implies is_space(
            #[trigger] gap.skip(1)[i],
        ) by {
            assert(gap.skip(1)[i] == gap[i + 1]);
        }
        lemma_skip_gap(gap.skip(1), x);
    }
}

proof fn lemma_read_key(key: Text, rest: Text)
    requires
        is_plain_key(key),
    ensures
        read_string(key + seq!['"'] + rest) == Some((code_points(key), rest)),
    decreases key.len(),
{
    let s = key + seq!['"'] + rest;
    if key.len() == 0 {
        assert(s[0] == '"');
        assert(s.skip(1) =~= rest);
        assert(code_points(key) =~= Seq::empty());
    } else {
        let tail = key.skip(1);
        assert(s[0] == key[0]);
        assert(first_char(s) == Some((key[0] as nat, 1nat)));
        assert(s.skip(1) =~= tail + seq!['"'] + rest);
        assert forall|i: int| 0 <= i < tail.len() implies ' ' <= #[trigger] tail[i] && tail[i] != '"'
            && tail[i] != '\\' by {
            assert(tail[i] == key[i + 1]);
        }
        lemma_read_key(tail, rest);
        assert(seq![key[0] as nat] + code_points(tail) =~= code_points(key));
    }
}

proof fn lemma_read_written_value(value: bool, rest: Text)
    ensures
        read_value(value_text(value) + rest) == Some((value, rest)),
{
    reveal_strlit("true");
    reveal_strlit("false");
    let s = value_text(value) + rest;
    if value {
        assert(s.take(4) =~= "true"@);
        assert(s.skip(4) =~= rest);
    } else {
        if starts_with(s, "true"@) {
            assert(s.take(4)[0] == 'f');
        }
        assert(s.take(5) =~= "false"@);
        assert(s.skip(5) =~= rest);
    }
}

proof fn lemma_read_flag(f: WrittenFlag, rest: Text)
    requires
        is_written(f),
        rest.len() > 0,
        rest[0] == ',' || rest[0] == '}',
    ensures
        read_member(flag_text(f) + rest) == Some(((code_points(f.key), f.value), rest)),
        skip_space(flag_text(f) + rest).len() > 0,
        skip_space(flag_text(f) + rest)[0] == '"',
{
    reveal_strlit("true");
    reveal_strlit("false");
    let v = value_text(f.value) + (f.after_value + rest);
    let u = seq![':'] + (f.before_value + v);
    let k = f.key + seq!['"'] + (f.after_key + u);
    let t = seq!['"'] + k;
    assert(flag_text(f) + rest =~= f.before_key + t);
    lemma_skip_gap(f.before_key, t);
    assert(t.skip(1) =~= k);
    lemma_read_key(f.key, f.after_key + u);
    lemma_skip_gap(f.after_key, u);
    assert(u.skip(1) =~= f.before_value + v);
    assert(v[0] == value_text(f.value)[0]);
    lemma_skip_gap(f.before_value, v);
    lemma_read_written_value(f.value, f.after_value + rest);
    lemma_skip_gap(f.after_value, rest);
}

proof fn lemma_read_flags(fs: Seq<WrittenFlag>, behind: Text)
    requires
        fs.len() > 0,
        forall|i: int| 0 <= i < fs.len() ==> is_written(#[trigger] fs[i]),
        is_gap(behind),
    ensures
        members(flags_text(fs) + seq!['}'] + behind) == Some(meanings(fs)),
        skip_space(flags_text(fs) + seq!['}'] + behind).len() > 0,
        skip_space(flags_text(fs) + seq!['}'] + behind)[0] == '"',
    decreases fs.len(),
{
    let close = seq!['}'] + behind;
    let s = flags_text(fs) + seq!['}'] + behind;
    assert(is_written(fs[0]));
    if fs.len() == 1 {
        assert(s =~= flag_text(fs[0]) + close);
        lemma_read_flag(fs[0], close);
        assert(close.skip(1) =~= behind);
        lemma_blank(behind);
        assert(meanings(fs) =~= seq![(code_points(fs[0].key), fs[0].value)]);
    } else {
        let more = fs.skip(1);
        let t = flags_text(more) + seq!['}'] + behind;
        let rest = seq![','] + t;
        assert(s =~= flag_text(fs[0]) + rest);
        lemma_read_flag(fs[0], rest);
        assert forall|i: int| 0 <= i < more.len() implies is_written(#[trigger] more[i]) by {
            assert(more[i] == fs[i + 1]);
        }
        lemma_read_flags(more, behind);
        assert(rest.skip(1) =~= t);
        assert(meanings(fs) =~= seq![(code_points(fs[0].key), fs[0].value)] + meanings(more));
    }
}

/// White space alone leaves nothing.
proof fn lemma_blank(gap: Text)
    requires
        is_gap(gap),
    ensures
        skip_space(gap).len() == 0,
{
    assert(gap + Seq::<char>::empty() =~= gap);
    lemma_skip_gap(gap, Seq::empty());
}

/// A flag is read as it was written: however the object is spaced, a key is set
/// exactly where one of its members has that very key and the value `true`.
pub proof fn law_flags_read_back(gap: Text, fs: Seq<WrittenFlag>, behind: Text, key: Text)
    requires
        is_gap(gap),
        is_gap(behind),
        forall|i: int| 0 <= i < fs.len() ==> is_written(#[trigger] fs[i]),
    ensures
        flags(object_text(gap, fs, behind)) == Some(meanings(fs)),
        has_flag(object_text(gap, fs, behind), key) == exists|i: int|
            0 <= i < fs.len() && (#[trigger] fs[i]).key == key && fs[i].value,
{
    let inside = flags_text(fs) + seq!['}'] + behind;
    let open = seq!['{'] + inside;
    assert(object_text(gap, fs, behind) =~= gap + open);
    lemma_skip_gap(gap, open);
    assert(open.skip(1) =~= inside);
    if fs.len() == 0 {
        let close = seq!['}'] + behind;
        assert(inside =~= close);
        assert(close.skip(1) =~= behind);
        lemma_blank(behind);
        assert(meanings(fs) =~= Seq::empty());
    } else {
        lemma_read_flags(fs, behind);
    }
    let all = meanings(fs);
    let flag: Flag = (code_points(key), true);
    if all.contains(flag) {
        let i = choose|i: int| 0 <= i < all.len() && all[i] == flag;
        lemma_code_points_differ(fs[i].key, key);
        assert(fs[i].key == key && fs[i].value);
    }
    if exists|i: int| 0 <= i < fs.len() && (#[trigger] fs[i]).key == key && fs[i].value {
        let i = choose|i: int| 0 <= i < fs.len() && (#[trigger] fs[i]).key == key && fs[i].value;
        assert(all[i] == flag);
    }
}

proof fn lemma_same_char(a: char, b: char)
    ensures
        a as nat == b as nat ==> a == b,
{
}

proof fn lemma_code_points_differ(a: Text, b: Text)
    ensures
        code_points(a) == code_points(b) ==> a == b,
{
    if code_points(a) == code_points(b) {
        assert(a.len() == code_points(a).len());
        assert forall|i: int| 0 <= i < a.len() implies a[i] == b[i] by {
            assert(code_points(a)[i] == code_points(b)[i]);
            lemma_same_char(a[i], b[i]);
        }
        assert(a =~= b);
    }
}

/// Text that is no flat object sets a flag exactly where it holds its compact form.
pub proof fn law_other_text_is_searched(caps: Text, key: Text)
    requires
        flags(caps) is None,
    ensures
        has_flag(caps, key) == occurs_in(compact_flag(key), caps),
{
}

/// Text that starts with no brace, white space aside, is no flat object.
pub proof fn law_an_object_starts_with_a_brace(caps: Text)
    ensures
        flags(caps) is Some ==> skip_space(caps).len() > 0 && skip_space(caps)[0] == '{',
{
}

} // verus!
