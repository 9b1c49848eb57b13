//! The names that a bridge crate derives from its plan.

use vstd::prelude::*;
use vstd::utf8::is_ascii_chars;

use crate::outside::{ascii_upper, uppercase};
use crate::plan::{BridgePlan, BridgePlanView};
use crate::text::{chars_of, same_text, Text};

verus! {

/// An ASCII letter or digit.
pub open spec fn is_alphanumeric(c: char) -> bool {
    'a' <= c <= 'z' || 'A' <= c <= 'Z' || '0' <= c <= '9'
}

/// The ASCII letter `c` in lower case; any other character unchanged.
pub open spec fn lower(c: char) -> char {
    if 'A' <= c <= 'Z' {
        (c as nat + 32) as char
    } else {
        c
    }
}

/// `s` with every `from` replaced by `to`.
pub open spec fn replaced(s: Text, from: char, to: char) -> Text {
    Seq::new(
        s.len(),
        |i: int|
            if s[i] == from {
                to
            } else {
                s[i]
            },
    )
}

/// `s` with every character that is no ASCII letter or digit replaced by a dash.
pub open spec fn crate_name(s: Text) -> Text {
    Seq::new(
        s.len(),
        |i: int|
            if is_alphanumeric(s[i]) {
                s[i]
            } else {
                '-'
            },
    )
}

/// `s` in lower case, with one underscore for each run of characters that are no
/// ASCII letters or digits.
pub open spec fn fn_prefix(s: Text) -> Text
    decreases s.len(),
{
    if s.len() == 0 {
        Seq::empty()
    } else if is_alphanumeric(s.last()) {
        fn_prefix(s.drop_last()).push(lower(s.last()))
    } else if s.len() > 1 && !is_alphanumeric(s[s.len() - 2]) {
        fn_prefix(s.drop_last())
    } else {
        fn_prefix(s.drop_last()).push('_')
    }
}

/// The name of the first extension, or `shim` where there is none.
pub open spec fn primary_name(plan: BridgePlanView) -> Text {
    if plan.extensions.len() > 0 {
        plan.extensions[0].name
    } else {
        "shim"@
    }
}

/// The environment variable for an extension whose name in upper case is `upper`.
pub open spec fn env_var_of(upper: Text) -> Text {
    replaced(upper, '-', '_') + "_SHIM_WASM"@
}

/// The environment variable that holds the path of the composed shim.
pub open spec fn env_var(plan: BridgePlanView) -> Text {
    env_var_of(uppercase(primary_name(plan)))
}

/// `s` with every ASCII letter in upper case.
pub open spec fn ascii_uppercase(s: Text) -> Text {
    Seq::new(s.len(), |i: int| ascii_upper(s[i]))
}

/// The constructor expression for the type name `t`; what is not recognised is
/// passed as bytes.
pub open spec fn datatype_expr(t: Text) -> Text {
    if t == "boolean"@ {
        "DataType::Boolean"@
    } else if t == "int8"@ {
        "DataType::Int8"@
    } else if t == "int16"@ {
        "DataType::Int16"@
    } else if t == "int32"@ {
        "DataType::Int32"@
    } else if t == "int64"@ {
        "DataType::Int64"@
    } else if t == "uint8"@ {
        "DataType::UInt8"@
    } else if t == "uint16"@ {
        "DataType::UInt16"@
    } else if t == "uint32"@ {
        "DataType::UInt32"@
    } else if t == "uint64"@ {
        "DataType::UInt64"@
    } else if t == "float32"@ {
        "DataType::Float32"@
    } else if t == "float64"@ {
        "DataType::Float64"@
    } else if t == "text"@ {
        "DataType::Text"@
    } else {
        "DataType::Binary"@
    }
}

/// Whether `c` is an ASCII letter or digit.
fn alphanumeric(c: char) -> (r: bool)
    ensures
        r == is_alphanumeric(c),
{
    ('a' <= c && c <= 'z') || ('A' <= c && c <= 'Z') || ('0' <= c && c <= '9')
}

/// The ASCII letter `c` in lower case; any other character unchanged.
fn lower_char(c: char) -> (r: char)
    ensures
        r == lower(c),
{
    if 'A' <= c && c <= 'Z' {
        ((c as u8) + 32) as char
    } else {
        c
    }
}

/// `s` with every `from` replaced by `to`.
pub fn replace_char(s: &str, from: char, to: char) -> (r: String)
    ensures
        r@ == replaced(s@, from, to),
{
    let cs = chars_of(s);
    let mut out = String::new();
    let mut i: usize = 0;
    while i < cs.len()
        invariant
            i <= cs@.len(),
            cs@ == s@,
            out@ == replaced(s@, from, to).take(i as int),
        decreases cs@.len() - i,
    {
        let c = cs[i];
        if c == from {
            out.push(to);
        } else {
            out.push(c);
        }
        i = i + 1;
    }
    out
}

/// A crate name for `s`: every character that is no ASCII letter or digit
/// becomes a dash.
pub fn sanitize_crate_name(s: &str) -> (r: String)
    ensures
        r@ == crate_name(s@),
{
    let cs = chars_of(s);
    let mut out = String::new();
    let mut i: usize = 0;
    while i < cs.len()
        invariant
            i <= cs@.len(),
            cs@ == s@,
            out@ == crate_name(s@).take(i as int),
        decreases cs@.len() - i,
    {
        let c = cs[i];
        if alphanumeric(c) {
            out.push(c);
        } else {
            out.push('-');
        }
        i = i + 1;
    }
    out
}

/// A prefix for SQL function names, made of `s`: in lower case, with one underscore
/// for each run of characters that are no ASCII letters or digits.
pub fn sanitize_fn_prefix(s: &str) -> (r: String)
    ensures
        r@ == fn_prefix(s@),
{
    let cs = chars_of(s);
    let mut out = String::new();
    let mut in_run = false;
    let mut i: usize = 0;
    while i < cs.len()
        invariant
            i <= cs@.len(),
            cs@ == s@,
            in_run == (i > 0 && !is_alphanumeric(s@[i - 1])),
            out@ == fn_prefix(s@.take(i as int)),
        decreases cs@.len() - i,
    {
        let c = cs[i];
        assert(s@.take(i + 1).drop_last() =~= s@.take(i as int));
        if alphanumeric(c) {
            out.push(lower_char(c));
            in_run = false;
        } else if !in_run {
            out.push('_');
            in_run = true;
        }
        i = i + 1;
    }
    assert(s@.take(i as int) =~= s@);
    out
}

/// The name of the first extension, or `shim` where there is none.
pub fn primary_extension_name(plan: &BridgePlan) -> (r: String)
    ensures
        r@ == primary_name(plan@),
{
    if plan.extensions.len() > 0 {
        plan.extensions[0].name.clone()
    } else {
        "shim".to_owned()
    }
}

/// The environment variable for an extension whose name in upper case is `upper`.
pub fn env_var_from_upper(upper: &str) -> (r: String)
    ensures
        r@ == env_var_of(upper@),
{
    let mut out = replace_char(upper, '-', '_');
    out.append("_SHIM_WASM");
    out
}

/// The environment variable that holds the path of the composed shim: the name of
/// the first extension in upper case, with underscores for dashes, and a suffix.
pub fn shim_env_var(plan: &BridgePlan) -> (r: String)
    ensures
        r@ == env_var(plan@),
        is_ascii_chars(primary_name(plan@)) ==> r@ == env_var_of(
            ascii_uppercase(primary_name(plan@)),
        ),
{
    let primary = primary_extension_name(plan);
    env_var_from_upper(primary.as_str().to_uppercase().as_str())
}

/// The constructor expression for the type name `t`; what is not recognised is
/// passed as bytes, which carry any payload.
pub fn type_name_to_datatype_expr(t: &str) -> (r: &'static str)
    ensures
        r@ == datatype_expr(t@),
{
    if same_text(t, "boolean") {
        "DataType::Boolean"
    } else if same_text(t, "int8") {
        "DataType::Int8"
    } else if same_text(t, "int16") {
        "DataType::Int16"
    } else if same_text(t, "int32") {
        "DataType::Int32"
    } else if same_text(t, "int64") {
        "DataType::Int64"
    } else if same_text(t, "uint8") {
        "DataType::UInt8"
    } else if same_text(t, "uint16") {
        "DataType::UInt16"
    } else if same_text(t, "uint32") {
        "DataType::UInt32"
    } else if same_text(t, "uint64") {
        "DataType::UInt64"
    } else if same_text(t, "float32") {
        "DataType::Float32"
    } else if same_text(t, "float64") {
        "DataType::Float64"
    } else if same_text(t, "text") {
        "DataType::Text"
    } else {
        "DataType::Binary"
    }
}

} // verus!
