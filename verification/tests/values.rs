//! Texts and JSON values: what they hold, and that they are read and written as they should be.
use terminus::json::{Fields, Json};
use terminus::media::search::normalize;
use terminus::order::rank_indices;
use terminus::text::{
    contains, distinct, fmt_int, fmt_int2, join, read_int64, split_words, strip_prefix,
    strip_trailing, take_chars, trim,
};

fn j(text: &str) -> Json {
    Json::parse(text).expect("valid JSON")
}

#[test]
fn the_last_of_two_fields_of_one_name_counts() {
    let v = j(r#"{"a": 1, "a": 2}"#);
    assert_eq!(v.int_at("a"), Some(2));
}

#[test]
fn a_field_is_set_or_removed_and_no_other_is_touched() {
    let v = j(r#"{"a": 1, "b": 2}"#);
    let set = v.with_field("a", Json::text("x"));
    assert_eq!(set.str_at("a"), Some("x"));
    assert_eq!(set.int_at("b"), Some(2));
    let removed = v.without_field("a");
    assert_eq!(removed.get("a"), None);
    assert_eq!(removed.int_at("b"), Some(2));
    assert_eq!(j("[1]").without_field("a"), j("[1]"));
}

#[test]
fn numbers_keep_their_kind() {
    assert_eq!(j("18446744073709551615"), Json::Int(18446744073709551615));
    assert_eq!(j("-9223372036854775808").as_i64(), Some(i64::MIN));
    assert_eq!(j("18446744073709551615").as_i64(), None);
    assert_eq!(j("18446744073709551615").as_u64(), Some(u64::MAX));
    assert_eq!(j("-1").as_u64(), None);
    assert_eq!(j("2.50"), Json::Float("2.5".to_string()));
    assert_eq!(j("1.0").as_i64(), None);
}

#[test]
fn a_value_is_written_as_it_is_read() {
    let text = r#"{"a":[1,-2,2.5,"x\n",true,null],"b":{}}"#;
    assert_eq!(j(text).render(), text);
    let built = Fields::new()
        .with("b", Fields::new().object())
        .with("a", Json::array(vec![Json::integer(1)]))
        .object();
    assert_eq!(built.render(), r#"{"a":[1],"b":{}}"#);
    assert!(Json::parse("{").is_err());
}

#[test]
fn texts_are_cut_and_joined_by_characters() {
    assert_eq!(trim(" \u{3000}x y\t"), "x y");
    assert_eq!(strip_trailing("a//", '/'), "a");
    assert_eq!(take_chars("äöü", 2), "äö");
    assert_eq!(strip_prefix("Bearer x", "Bearer "), Some("x"));
    assert_eq!(strip_prefix("bearer x", "Bearer "), None);
    assert!(contains("haystack", "sta") && !contains("haystack", "stb") && contains("", ""));
    assert_eq!(split_words("  a\tb  c\u{85}d "), vec!["a", "b", "c", "d"]);
    assert_eq!(join(&vec!["a".to_string(), "b".to_string()], ", "), "a, b");
    let twice = vec!["a".to_string(), "b".to_string(), "a".to_string()];
    assert_eq!(distinct(&twice), vec!["a", "b"]);
}

#[test]
fn integers_are_written_and_read() {
    assert_eq!(fmt_int(-120), "-120");
    assert_eq!(fmt_int(0), "0");
    assert_eq!(fmt_int2(4), "04");
    assert_eq!(fmt_int2(123), "123");
    for text in ["0", "-0", "+7", "9223372036854775807", "-9223372036854775808"] {
        assert_eq!(read_int64(text), text.parse::<i64>().ok(), "{text}");
    }
    for text in ["", "+", "-", "1 ", "0x1", "9223372036854775808", "--1", "1_0"] {
        assert_eq!(read_int64(text), None, "{text}");
    }
}

#[test]
fn two_digits_are_padded_as_the_standard_formatter_pads_them() {
    for n in [-100i128, -10, -9, -1, 0, 1, 9, 10, 99, 100] {
        assert_eq!(fmt_int2(n), format!("{n:02}"));
    }
}

#[test]
fn texts_are_lowered_as_the_standard_library_lowers_them() {
    for text in ["ÀB İ ΑΣ", "ABC", "already low", "ẞ"] {
        assert_eq!(normalize(text), text.to_lowercase());
    }
}

#[test]
fn a_ranking_puts_the_greatest_first_and_keeps_ties_in_order() {
    let keys = vec![(1, 0), (2, 5), (2, 7), (1, 0)];
    assert_eq!(rank_indices(&keys), vec![2, 1, 0, 3]);
}
