use monolith::text::{
    contains, contains_char, is_white_space_char, lower_hex, push_decimal, push_decimal_u64,
    push_signed_decimal, replace_text, starts_with, str_eq, str_le, to_ascii_lowercase, trim,
    trim_end_matches_char, trim_start_matches_char,
};

#[test]
fn trimming_follows_unicode_white_space() {
    assert_eq!(trim("\u{a0} \tmot\u{3000}\n"), "mot");
    assert_eq!(trim("   "), "");
    assert!(is_white_space_char('\u{2028}'));
    assert!(!is_white_space_char('x'));
    assert_eq!(trim_start_matches_char("..ext", '.'), "ext");
    assert_eq!(trim_end_matches_char("/a//", '/'), "/a");
}

#[test]
fn decimal_writing_matches_rust_formatting() {
    for n in [0usize, 7, 10, 42, 1_000_007, usize::MAX] {
        let mut s = String::new();
        push_decimal(&mut s, n);
        assert_eq!(s, n.to_string());
    }
    for n in [0i64, -1, 42, i64::MIN, i64::MAX] {
        let mut s = String::from("x");
        push_signed_decimal(&mut s, n);
        assert_eq!(s, format!("x{}", n));
    }
    let mut s = String::new();
    push_decimal_u64(&mut s, u64::MAX);
    assert_eq!(s, u64::MAX.to_string());
}

#[test]
fn hex_writing_is_lower_case_two_digits_per_byte() {
    assert_eq!(lower_hex(&[0x00, 0x0f, 0xab, 0xff]), "000fabff");
    assert_eq!(lower_hex(&[]), "");
}

#[test]
fn replacement_covers_every_occurrence_left_to_right() {
    assert_eq!(replace_text("{rom} et {rom}", "{rom}", "/x"), "/x et /x");
    assert_eq!(replace_text("aaa", "aa", "b"), "ba");
    assert_eq!(replace_text("abc", "z", "y"), "abc");
}

#[test]
fn comparisons_follow_str_ordering() {
    assert!(str_le("abc", "abd"));
    assert!(str_le("ab", "abc"));
    assert!(!str_le("b", "abc"));
    assert!(str_le("same", "same"));
    assert!(str_eq("é", "é"));
    assert!(!str_eq("e", "é"));
    assert!(starts_with("https://x", "https://"));
    assert!(contains("Tekken 5", "ken"));
    assert!(contains("Tekken 5", ""));
    assert!(!contains("Tekken", "Tekken 5"));
    assert!(contains_char("a/b", '/'));
}

#[test]
fn ascii_lowering_leaves_other_letters() {
    assert_eq!(to_ascii_lowercase("ISO.Élan"), "iso.Élan");
}
