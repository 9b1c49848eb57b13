//! Text: numbers, padding, searching, trimming, joining, ordering.

use ducklink_shim_codegen::order::{insert_sorted, text_precedes};
use ducklink_shim_codegen::text::{
    chars_of, concat_texts, contains_text, decimal_text, join_texts, literal_text,
    optional_number_text, pad_left_text, pad_right_text, push_decimal, quoted_list_text, same_text, signed_text,
    trim_text, white_space,
};

fn strings(items: &[&str]) -> Vec<String> {
    items.iter().map(|s| s.to_string()).collect()
}

#[test]
fn decimal_numbers() {
    assert_eq!(decimal_text(0), "0");
    assert_eq!(decimal_text(7), "7");
    assert_eq!(decimal_text(10), "10");
    assert_eq!(decimal_text(90210), "90210");
    assert_eq!(decimal_text(usize::MAX), usize::MAX.to_string());
}

#[test]
fn decimal_is_appended() {
    let mut out = "n=".to_string();
    push_decimal(&mut out, u64::MAX);
    assert_eq!(out, "n=18446744073709551615");
}

#[test]
fn decimal_reads_back() {
    for n in 0usize..2000 {
        let text = decimal_text(n);
        assert_eq!(text.parse::<usize>().unwrap(), n);
        assert!(n == 0 || !text.starts_with('0'));
    }
}

#[test]
fn signed_numbers() {
    assert_eq!(signed_text(0), "0");
    assert_eq!(signed_text(-1), "-1");
    assert_eq!(signed_text(42), "42");
    assert_eq!(signed_text(i64::MAX), "9223372036854775807");
    assert_eq!(signed_text(i64::MIN), "-9223372036854775808");
}

#[test]
fn optional_numbers() {
    assert_eq!(optional_number_text(None), "None");
    assert_eq!(optional_number_text(Some(-17)), "Some(-17)");
    assert_eq!(optional_number_text(Some(17)), format!("{:?}", Some(17)));
}

#[test]
fn padding_on_the_left() {
    assert_eq!(pad_left_text("17", 5), "   17");
    assert_eq!(pad_left_text("12345", 5), "12345");
    assert_eq!(pad_left_text("123456", 5), "123456");
    assert_eq!(pad_left_text("", 0), "");
}

#[test]
fn padding_on_the_right() {
    assert_eq!(pad_right_text("STBOX", 24), format!("{:<24}", "STBOX"));
    assert_eq!(pad_right_text("Ångström", 24), format!("{:<24}", "Ångström"));
    assert_eq!(pad_right_text("abc", 2), "abc");
}

#[test]
fn white_space_is_that_of_unicode() {
    for c in '\0'..=char::MAX {
        assert_eq!(white_space(c), c.is_whitespace(), "{:?}", c);
    }
}

#[test]
fn trimming() {
    assert_eq!(trim_text(""), "");
    assert_eq!(trim_text(" \t\n"), "");
    assert_eq!(trim_text("  GEOMETRY "), "GEOMETRY");
    assert_eq!(trim_text("two words"), "two words");
    assert_eq!(trim_text("\u{3000}STBOX\u{a0}"), "STBOX");
    assert_eq!(trim_text("\u{200b}x"), "\u{200b}x");
}

#[test]
fn trimming_twice_changes_nothing() {
    for s in ["", " a ", "a", "\u{2028} b c \u{85}"] {
        let once = trim_text(s);
        assert_eq!(once, s.trim());
        assert_eq!(trim_text(&once), once);
    }
}

#[test]
fn searching() {
    assert!(contains_text("abcabd", "abd"));
    assert!(contains_text("aaab", "aab"));
    assert!(contains_text("abc", ""));
    assert!(contains_text("", ""));
    assert!(!contains_text("abc", "abcd"));
    assert!(!contains_text("abc", "ac"));
    assert!(contains_text("fünf", "ün"));
}

#[test]
fn characters_of_a_text() {
    assert_eq!(chars_of("aé→"), vec!['a', 'é', '→']);
    assert_eq!(chars_of(""), Vec::<char>::new());
}

#[test]
fn equal_texts() {
    assert!(same_text("int8", "int8"));
    assert!(!same_text("int8", "int16"));
    assert!(!same_text("int8", "INT8"));
    assert!(same_text("", ""));
}

#[test]
fn joining() {
    assert_eq!(join_texts(&strings(&[]), ", "), "");
    assert_eq!(join_texts(&strings(&["a"]), ", "), "a");
    assert_eq!(join_texts(&strings(&["a", "", "c"]), ", "), "a, , c");
    assert_eq!(concat_texts(&strings(&["a", "", "bc"])), "abc");
    assert_eq!(concat_texts(&strings(&[])), "");
}

#[test]
fn string_literals_are_escaped() {
    assert_eq!(literal_text("st_union"), "\"st_union\"");
    assert_eq!(literal_text(""), "\"\"");
    assert_eq!(literal_text("a\"b\\c\n"), "\"a\\\"b\\\\c\\n\"");
    assert_eq!(literal_text("é\u{200b}"), "\"é\\u{200b}\"");
    assert_eq!(literal_text("it's"), "\"it's\"");
}

#[test]
fn plain_text_is_put_between_quotes() {
    for c in ' '..='~' {
        if c != '"' && c != '\\' {
            assert_eq!(literal_text(&c.to_string()), format!("\"{c}\""));
        }
    }
    assert_eq!(literal_text("mobilitydb-strtree"), "\"mobilitydb-strtree\"");
}

#[test]
fn lists_of_literals() {
    assert_eq!(quoted_list_text(&strings(&[])), "[]");
    assert_eq!(quoted_list_text(&strings(&["text"])), "[\"text\"]");
    let items = strings(&["text", "a\"b", "c d"]);
    assert_eq!(quoted_list_text(&items), format!("{:?}", items));
}

#[test]
fn order_is_that_of_strings() {
    let texts = ["", "A", "AB", "B", "a", "é", "\u{ffff}", "\u{10000}", "z\u{7f}"];
    for a in texts {
        for b in texts {
            assert_eq!(text_precedes(a, b), a < b, "{:?} {:?}", a, b);
        }
    }
}

#[test]
fn insertion_keeps_order_and_drops_duplicates() {
    let mut names: Vec<String> = Vec::new();
    for s in ["b", "a", "c", "b", "", "a", "ab"] {
        insert_sorted(&mut names, s.to_string());
    }
    assert_eq!(names, strings(&["", "a", "ab", "b", "c"]));
}
