//! What holds of the names and numbers in a bridge.

use vstd::prelude::*;

use crate::lines::no_break;
use crate::names::{
    crate_name, datatype_expr, env_var, fn_prefix, is_alphanumeric, lower, primary_name, replaced,
};
use crate::outside::uppercase;
use crate::plan::BridgePlanView;
use crate::text::{
    decimal, digit, is_white_space, signed_decimal, trim_end, trim_start, trimmed, Text,
};

verus! {

/// A crate name has one character for each of the given name, all of them ASCII
/// letters, digits or dashes; a name that has only such characters is kept.
pub proof fn law_crate_name(s: Text)
    ensures
        crate_name(s).len() == s.len(),
        forall|i: int|
            0 <= i < s.len() ==> is_alphanumeric(#[trigger] crate_name(s)[i]) || crate_name(s)[i]
                == '-',
        (forall|i: int| 0 <= i < s.len() ==> is_alphanumeric(#[trigger] s[i]) || s[i] == '-')
            ==> crate_name(s) == s,
        crate_name(crate_name(s)) == crate_name(s),
{
    assert(crate_name(crate_name(s)) =~= crate_name(s));
    if forall|i: int| 0 <= i < s.len() ==> is_alphanumeric(#[trigger] s[i]) || s[i] == '-' {
        assert(crate_name(s) =~= s);
    }
}

/// Trimmed text is what is left between two runs of white space that reach to the
/// ends; it starts and ends with no white space, and trimming it again changes
/// nothing.
pub proof fn law_trimmed(s: Text)
    ensures
        trimmed(s).len() > 0 ==> !is_white_space(trimmed(s)[0]) && !is_white_space(
            trimmed(s).last(),
        ),
        exists|i: int, j: int|
            0 <= i <= j <= s.len() && trimmed(s) == #[trigger] s.subrange(i, j) && (forall|k: int|
                0 <= k < s.len() && (k < i || j <= k) ==> is_white_space(#[trigger] s[k])),
        trimmed(trimmed(s)) == trimmed(s),
{
    let i = lemma_trim_start(s);
    let t = s.skip(i);
    let j = lemma_trim_end(t);
    assert(t.take(j) =~= s.subrange(i, i + j));
    assert forall|k: int| 0 <= k < s.len() && (k < i || i + j <= k) implies is_white_space(
        #[trigger] s[k],
    ) by {
        if k >= i {
            assert(t[k - i] == s[k]);
        }
    }
}

proof fn lemma_trim_start(s: Text) -> (i: int)
    ensures
        0 <= i <= s.len(),
        trim_start(s) == s.skip(i),
        i < s.len() ==> !is_white_space(s[i]),
        forall|k: int| 0 <= k < i ==> is_white_space(#[trigger] s[k]),
    decreases s.len(),
{
    if s.len() > 0 && is_white_space(s[0]) {
        let rest = s.drop_first();
        let i = lemma_trim_start(rest);
        assert(rest.skip(i) =~= s.skip(i + 1));
        assert forall|k: int| 0 <= k < i + 1 implies is_white_space(#[trigger] s[k]) by {
            if k > 0 {
                assert(rest[k - 1] == s[k]);
            }
        }
        i + 1
    } else {
        assert(s.skip(0) =~= s);
        0
    }
}

proof fn lemma_trim_end(s: Text) -> (j: int)
    ensures
        0 <= j <= s.len(),
        trim_end(s) == s.take(j),
        j > 0 ==> !is_white_space(s[j - 1]),
        forall|k: int| j <= k < s.len() ==> is_white_space(#[trigger] s[k]),
    decreases s.len(),
{
    if s.len() > 0 && is_white_space(s.last()) {
        let rest = s.drop_last();
        let j = lemma_trim_end(rest);
        assert(rest.take(j) =~= s.take(j));
        assert forall|k: int| j <= k < s.len() implies is_white_space(#[trigger] s[k]) by {
            if k < s.len() - 1 {
                assert(rest[k] == s[k]);
            }
        }
        j
    } else {
        assert(s.take(s.len() as int) =~= s);
        s.len() as int
    }
}

/// The number that the digits of `s` stand for.
pub open spec fn decimal_value(s: Text) -> nat
    decreases s.len(),
{
    if s.len() == 0 {
        0
    } else {
        decimal_value(s.drop_last()) * 10 + (s.last() as nat - '0' as nat) as nat
    }
}

/// A number is written with digits alone, without a leading zero unless it is
/// zero, and reads back as itself.
pub proof fn law_decimal(n: nat)
    ensures
        decimal(n).len() > 0,
        forall|i: int| 0 <= i < decimal(n).len() ==> '0' <= #[trigger] decimal(n)[i] <= '9',
        decimal(n)[0] == '0' ==> n == 0,
        decimal_value(decimal(n)) == n,
    decreases n,
{
    let s = decimal(n);
    if n < 10 {
        assert(s.drop_last() =~= Seq::empty());
        assert(s.last() == digit(n));
        assert(decimal_value(s.drop_last()) == 0);
    } else {
        law_decimal(n / 10);
        assert(s.drop_last() =~= decimal(n / 10));
        assert(s.last() == digit(n % 10));
        assert(s[0] == decimal(n / 10)[0]);
    }
}

/// A number in decimal holds no line break.
pub proof fn lemma_decimal_no_break(n: nat)
    ensures
        no_break(decimal(n)),
{
    law_decimal(n);
}

/// A number in decimal holds no line break.
pub proof fn lemma_signed_decimal_no_break(n: int)
    ensures
        no_break(signed_decimal(n)),
{
    if n < 0 {
        lemma_decimal_no_break((-n) as nat);
    } else {
        lemma_decimal_no_break(n as nat);
    }
}

/// An environment variable name holds no dash.
pub proof fn law_env_var(plan: BridgePlanView)
    ensures
        forall|i: int| 0 <= i < env_var(plan).len() ==> #[trigger] env_var(plan)[i] != '-',
{
    reveal_strlit("_SHIM_WASM");
}

/// The form of a function-name prefix: it holds only lower-case ASCII letters,
/// digits and underscores, no two underscores side by side.
pub open spec fn is_clean_prefix(t: Text) -> bool {
    &&& forall|i: int| 0 <= i < t.len() ==> is_prefix_char(#[trigger] t[i])
    &&& forall|i: int|
        #![trigger t[i]]
        0 <= i < t.len() - 1 && t[i] == '_' ==> t[i + 1] != '_'
}

/// A lower-case ASCII letter, a digit or an underscore.
pub open spec fn is_prefix_char(c: char) -> bool {
    'a' <= c <= 'z' || '0' <= c <= '9' || c == '_'
}

/// A run of other characters at the start of a name, or at its end, stands as an
/// underscore in the prefix too.
pub proof fn law_fn_prefix_ends(s: Text)
    requires
        s.len() > 0,
    ensures
        fn_prefix(s).len() > 0,
        (fn_prefix(s)[0] == '_') == !is_alphanumeric(s[0]),
        (fn_prefix(s).last() == '_') == !is_alphanumeric(s.last()),
    decreases s.len(),
{
    if s.len() > 1 {
        law_fn_prefix_ends(s.drop_last());
        assert(fn_prefix(s)[0] == fn_prefix(s.drop_last())[0]);
    } else {
        assert(fn_prefix(s.drop_last()) =~= Seq::empty());
    }
}

/// A function-name prefix holds only lower-case ASCII letters, digits and single
/// underscores.
pub proof fn law_fn_prefix_is_clean(s: Text)
    ensures
        is_clean_prefix(fn_prefix(s)),
    decreases s.len(),
{
    if s.len() > 0 {
        let rest = s.drop_last();
        let r = fn_prefix(rest);
        let t = fn_prefix(s);
        law_fn_prefix_is_clean(rest);
        if rest.len() > 0 {
            law_fn_prefix_ends(rest);
        }
        assert forall|i: int|
            #![trigger t[i]]
            0 <= i < t.len() - 1 && t[i] == '_' implies t[i + 1] != '_' by {
            assert(t[i] == r[i]);
            if i < r.len() - 1 {
                assert(t[i + 1] == r[i + 1]);
            }
        }
        assert forall|i: int| 0 <= i < t.len() implies is_prefix_char(#[trigger] t[i]) by {
            if i < r.len() {
                assert(is_prefix_char(r[i]));
            }
        }
    }
}

proof fn lemma_clean_prefix_kept(t: Text, i: int)
    requires
        is_clean_prefix(t),
        0 <= i <= t.len(),
    ensures
        fn_prefix(t.take(i)) == t.take(i),
    decreases i,
{
    if i > 0 {
        let p = t.take(i);
        lemma_clean_prefix_kept(t, i - 1);
        assert(p.drop_last() =~= t.take(i - 1));
        assert(is_prefix_char(t[i - 1]));
        assert(p =~= t.take(i - 1).push(t[i - 1]));
        if i > 1 {
            assert(p[i - 2] == t[i - 2]);
            assert(is_prefix_char(t[i - 2]));
            if t[i - 2] == '_' {
                assert(t[i - 2 + 1] != '_');
            }
        }
    }
}

/// A text that has the form of a function-name prefix already is kept.
pub proof fn law_clean_prefix_is_kept(t: Text)
    requires
        is_clean_prefix(t),
    ensures
        fn_prefix(t) == t,
{
    lemma_clean_prefix_kept(t, t.len() as int);
    assert(t.take(t.len() as int) =~= t);
}

/// Making a function-name prefix of a function-name prefix changes nothing.
pub proof fn law_fn_prefix_idempotent(s: Text)
    ensures
        fn_prefix(fn_prefix(s)) == fn_prefix(s),
{
    law_fn_prefix_is_clean(s);
    law_clean_prefix_is_kept(fn_prefix(s));
}

/// The ASCII letters and digits of `s`, in order and in lower case.
pub open spec fn lowered_letters(s: Text) -> Text
    decreases s.len(),
{
    if s.len() == 0 {
        Seq::empty()
    } else if is_alphanumeric(s.last()) {
        lowered_letters(s.drop_last()).push(lower(s.last()))
    } else {
        lowered_letters(s.drop_last())
    }
}

/// A function-name prefix keeps every ASCII letter and digit of the name, in
/// order and in lower case.
pub proof fn law_fn_prefix_keeps_letters(s: Text)
    ensures
        fn_prefix(s).filter(|c: char| c != '_') == lowered_letters(s),
    decreases s.len(),
{
    let p = |c: char| c != '_';
    if s.len() == 0 {
        reveal(Seq::filter);
        assert(fn_prefix(s).filter(p) =~= lowered_letters(s));
    } else {
        let before = fn_prefix(s.drop_last());
        let c = s.last();
        law_fn_prefix_keeps_letters(s.drop_last());
        before.lemma_filter_push(lower(c), p);
        before.lemma_filter_push('_', p);
    }
}

/// The type names that have a constructor of their own.
pub open spec fn is_known_type(t: Text) -> bool {
    ||| t == "boolean"@
    ||| t == "int8"@
    ||| t == "int16"@
    ||| t == "int32"@
    ||| t == "int64"@
    ||| t == "uint8"@
    ||| t == "uint16"@
    ||| t == "uint32"@
    ||| t == "uint64"@
    ||| t == "float32"@
    ||| t == "float64"@
    ||| t == "text"@
    ||| t == "binary"@
}

proof fn lemma_constructors_differ(a: Text, b: Text)
    requires
        is_known_type(a),
        is_known_type(b),
        a != b,
    ensures
        datatype_expr(a) != datatype_expr(b),
{
    reveal_strlit("DataType::Boolean");
    reveal_strlit("DataType::Int8");
    reveal_strlit("DataType::Int16");
    reveal_strlit("DataType::Int32");
    reveal_strlit("DataType::Int64");
    reveal_strlit("DataType::UInt8");
    reveal_strlit("DataType::UInt16");
    reveal_strlit("DataType::UInt32");
    reveal_strlit("DataType::UInt64");
    reveal_strlit("DataType::Float32");
    reveal_strlit("DataType::Float64");
    reveal_strlit("DataType::Text");
    reveal_strlit("DataType::Binary");
    let x = datatype_expr(a);
    let y = datatype_expr(b);
    assert(x.len() != y.len() || x[10] != y[10] || x[13] != y[13] || x[14] != y[14] || x[15]
        != y[15]);
}

/// Type names that have a constructor of their own keep apart: none stands for
/// another, and every other name stands for bytes.
pub proof fn law_datatypes_keep_apart(a: Text, b: Text)
    ensures
        is_known_type(a) && is_known_type(b) && datatype_expr(a) == datatype_expr(b) ==> a == b,
        !is_known_type(a) ==> datatype_expr(a) == "DataType::Binary"@,
{
    if is_known_type(a) && is_known_type(b) && a != b {
        lemma_constructors_differ(a, b);
    }
}

/// Whether `c` is one of the letters `a` to `z` in either case, or a digit.
pub open spec fn is_letter_or_digit(c: char) -> bool {
    ||| 'a' <= c <= 'z'
    ||| 'A' <= c <= 'Z'
    ||| '0' <= c <= '9'
}

/// A crate name is made character by character: a letter or digit stays, anything
/// else becomes a dash, whatever stands around it.
pub proof fn law_crate_name_goes_by_characters(a: Text, b: Text)
    ensures
        crate_name(a + b) == crate_name(a) + crate_name(b),
        forall|i: int|
            0 <= i < a.len() ==> #[trigger] crate_name(a)[i] == (if is_letter_or_digit(a[i]) {
                a[i]
            } else {
                '-'
            }),
{
    assert(crate_name(a + b) =~= crate_name(a) + crate_name(b));
}

/// A function-name prefix is made piece by piece: cutting a name in two cuts its
/// prefix in two, but for a run of other characters that the cut goes through, which
/// still gives one underscore.
pub proof fn law_fn_prefix_goes_by_pieces(a: Text, b: Text)
    requires
        a.len() > 0,
        b.len() > 0,
    ensures
        fn_prefix(a + b) == (if !is_letter_or_digit(a.last()) && !is_letter_or_digit(b[0]) {
            fn_prefix(a) + fn_prefix(b).skip(1)
        } else {
            fn_prefix(a) + fn_prefix(b)
        }),
    decreases b.len(),
{
    let rest = b.drop_last();
    let t = a + b;
    assert(t.drop_last() =~= a + rest);
    assert(t.last() == b.last());
    law_fn_prefix_ends(b);
    if rest.len() == 0 {
        assert(t.drop_last() =~= a);
        assert(t[t.len() - 2] == a.last());
        assert(fn_prefix(rest) =~= Seq::empty());
        assert(fn_prefix(b).skip(1) =~= Seq::empty());
        assert(fn_prefix(a) + Seq::<char>::empty() =~= fn_prefix(a));
        assert(fn_prefix(a).push(fn_prefix(b)[0]) =~= fn_prefix(a) + fn_prefix(b));
    } else {
        law_fn_prefix_goes_by_pieces(a, rest);
        law_fn_prefix_ends(rest);
        assert(t[t.len() - 2] == b[b.len() - 2]);
        assert(fn_prefix(t) =~= (if !is_letter_or_digit(a.last()) && !is_letter_or_digit(b[0]) {
            fn_prefix(a) + fn_prefix(b).skip(1)
        } else {
            fn_prefix(a) + fn_prefix(b)
        }));
    }
}

/// The prefix of a single character is the character in lower case, or an
/// underscore; that of no character is empty.
pub proof fn law_fn_prefix_of_a_character(c: char)
    ensures
        fn_prefix(Seq::<char>::empty()) == Seq::<char>::empty(),
        !is_letter_or_digit(c) ==> fn_prefix(seq![c]) == seq!['_'],
        'a' <= c <= 'z' || '0' <= c <= '9' ==> fn_prefix(seq![c]) == seq![c],
        'A' <= c <= 'Z' ==> fn_prefix(seq![c]).len() == 1 && fn_prefix(seq![c])[0] as nat == c as nat
            + 32,
{
    let s = seq![c];
    assert(s.drop_last() =~= Seq::empty());
    assert(fn_prefix(s.drop_last()) =~= Seq::empty());
    assert(s.last() == c);
    lemma_lower(c);
}

proof fn lemma_lower(c: char)
    ensures
        'A' <= c <= 'Z' ==> lower(c) as nat == c as nat + 32,
{
}

/// Replacing a character changes every one of them and nothing else.
pub proof fn law_replaced(s: Text, from: char, to: char)
    ensures
        replaced(s, from, to).len() == s.len(),
        forall|i: int|
            0 <= i < s.len() ==> (s[i] == from ==> #[trigger] replaced(s, from, to)[i] == to) && (
            s[i] != from ==> replaced(s, from, to)[i] == s[i]),
{
}

/// The primary name is that of the first extension, and `shim` in a plan without any.
pub proof fn law_primary_name(plan: BridgePlanView)
    ensures
        plan.extensions.len() > 0 ==> primary_name(plan) == plan.extensions[0].name,
        plan.extensions.len() == 0 ==> primary_name(plan) == "shim"@,
{
}

/// The environment variable is the primary name in upper case, character by
/// character, with underscores for dashes, and the suffix; it depends on the first
/// extension's name alone.
pub proof fn law_env_var_form(plan: BridgePlanView)
    ensures
        ({
            let upper = if plan.extensions.len() > 0 {
                uppercase(plan.extensions[0].name)
            } else {
                uppercase("shim"@)
            };
            let n = upper.len() as int;
            let env = env_var(plan);
            &&& env.len() == n + "_SHIM_WASM"@.len()
            &&& env.skip(n) == "_SHIM_WASM"@
            &&& forall|i: int|
                0 <= i < n ==> (upper[i] == '-' ==> #[trigger] env[i] == '_') && (upper[i] != '-'
                    ==> env[i] == upper[i])
        }),
{
    let upper = uppercase(primary_name(plan));
    assert(env_var(plan).skip(upper.len() as int) =~= "_SHIM_WASM"@);
}

/// The ASCII letters of `s` in lower case, everything else as it is.
pub open spec fn lower_text(s: Text) -> Text {
    Seq::new(
        s.len(),
        |i: int|
            if 'A' <= s[i] <= 'Z' {
                (s[i] as nat + 32) as char
            } else {
                s[i]
            },
    )
}

/// A type name that is known has the constructor of the same name, which differs
/// from it in case alone; any other type name has that of bytes.
pub proof fn law_constructors_carry_type_names(t: Text)
    ensures
        datatype_expr(t).len() > 10,
        datatype_expr(t).take(10) == "DataType::"@,
        is_known_type(t) ==> lower_text(datatype_expr(t).skip(10)) == t,
        !is_known_type(t) ==> datatype_expr(t) == "DataType::Binary"@,
{
    reveal_strlit("DataType::");
    reveal_strlit("boolean");
    reveal_strlit("int8");
    reveal_strlit("int16");
    reveal_strlit("int32");
    reveal_strlit("int64");
    reveal_strlit("uint8");
    reveal_strlit("uint16");
    reveal_strlit("uint32");
    reveal_strlit("uint64");
    reveal_strlit("float32");
    reveal_strlit("float64");
    reveal_strlit("text");
    reveal_strlit("binary");
    reveal_strlit("DataType::Boolean");
    reveal_strlit("DataType::Int8");
    reveal_strlit("DataType::Int16");
    reveal_strlit("DataType::Int32");
    reveal_strlit("DataType::Int64");
    reveal_strlit("DataType::UInt8");
    reveal_strlit("DataType::UInt16");
    reveal_strlit("DataType::UInt32");
    reveal_strlit("DataType::UInt64");
    reveal_strlit("DataType::Float32");
    reveal_strlit("DataType::Float64");
    reveal_strlit("DataType::Text");
    reveal_strlit("DataType::Binary");
    let x = datatype_expr(t);
    assert(x.take(10) =~= "DataType::"@);
    if is_known_type(t) {
        assert(lower_text(x.skip(10)) =~= t);
    }
}

} // verus!
