use onyx_server::text::{
    decimal_string, join_words, parse_i64, parse_unsigned, split_commas_trimmed, trim_start_v,
};

#[test]
fn trim_leading_v() {
    assert_eq!(trim_start_v("v0.7-beta"), "0.7-beta");
    assert_eq!(trim_start_v("vv1"), "1");
    assert_eq!(trim_start_v("0.7"), "0.7");
    assert_eq!(trim_start_v("vvv"), "");
    assert_eq!(trim_start_v(""), "");
}

#[test]
fn unsigned_parsing_matches_std() {
    for s in ["0", "7", "+7", "065535", "65535", "65536", "", "+", "-1", "1 ", "12a", "99999999999999999999"] {
        assert_eq!(parse_unsigned(s, 65535), s.parse::<u16>().ok().map(|v| v as u64), "input {:?}", s);
        assert_eq!(parse_unsigned(s, u64::MAX), s.parse::<u64>().ok(), "input {:?}", s);
    }
}

#[test]
fn signed_parsing_matches_std() {
    for s in [
        "0", "-0", "42", "-42", "+42", "-+42", "+-42", "-", "", "9223372036854775807",
        "9223372036854775808", "-9223372036854775808", "-9223372036854775809", "1.5",
    ] {
        assert_eq!(parse_i64(s), s.parse::<i64>().ok(), "input {:?}", s);
    }
}

#[test]
fn decimal_text_matches_to_string() {
    for n in [0u64, 5, 9, 10, 3000, 9090, 65535, u64::MAX] {
        assert_eq!(decimal_string(n), n.to_string());
        assert_eq!(parse_unsigned(&decimal_string(n), u64::MAX), Some(n));
    }
}

#[test]
fn join_with_spaces() {
    let parts = vec!["John".to_string(), "Smith".to_string()];
    assert_eq!(join_words(&parts), "John Smith");
    assert_eq!(join_words(&vec!["solo".to_string()]), "solo");
    assert_eq!(join_words(&Vec::new()), "");
}

#[test]
fn split_and_trim_types() {
    assert_eq!(
        split_commas_trimmed("image/*, video/* ,audio/*"),
        vec!["image/*", "video/*", "audio/*"]
    );
    assert_eq!(split_commas_trimmed(""), vec![""]);
    assert_eq!(split_commas_trimmed("a,,b,"), vec!["a", "", "b", ""]);
}

#[test]
fn split_trims_unicode_white_space() {
    assert_eq!(split_commas_trimmed("\u{2003}a\t,\n b "), vec!["a", "b"]);
}

#[test]
fn split_trims_each_white_space_kind_only() {
    assert_eq!(
        split_commas_trimmed("\u{a0}image/*\u{3000},\t\u{2009}video/*\n"),
        vec!["image/*", "video/*"]
    );
    assert_eq!(split_commas_trimmed(" a\u{200b} "), vec!["a\u{200b}"]);
}
