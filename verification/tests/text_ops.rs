use kartof_play::text::{
    after_first_str, byte_len_exceeds, contains_str, ends_with_str, i64_text, parse_u32,
    piece_str, replace_str, same_text, split_str, starts_with_str, trim_str, u32_or_zero_str,
    u64_text,
};

#[test]
fn replace_replaces_every_occurrence_left_to_right() {
    assert_eq!(replace_str("a-b-c", "-", "+"), "a+b+c");
    assert_eq!(replace_str("aaa", "aa", "b"), "ba");
    assert_eq!(replace_str("Plot Summary: Pirates", "Plot Summary: ", ""), "Pirates");
    assert_eq!(replace_str("none here", "x", "y"), "none here");
}

#[test]
fn split_yields_the_pieces_between_separators() {
    assert_eq!(split_str("a; b; c", "; "), vec!["a", "b", "c"]);
    assert_eq!(split_str("", ","), vec![""]);
    assert_eq!(split_str(",x,", ","), vec!["", "x", ""]);
    assert_eq!(split_str("one-episode-12", "-episode-"), vec!["one", "12"]);
}

#[test]
fn piece_is_empty_past_the_last_piece() {
    assert_eq!(piece_str("Naruto Episode 12", " Episode ", 1), "12");
    assert_eq!(piece_str("Naruto", " Episode ", 1), "");
    assert_eq!(piece_str("a:b:c", ":", 2), "c");
}

#[test]
fn trim_removes_unicode_white_space_at_both_ends() {
    assert_eq!(trim_str("  \t x y \n"), "x y");
    assert_eq!(trim_str("\u{3000}z\u{a0}"), "z");
    assert_eq!(trim_str("   "), "");
}

#[test]
fn parse_u32_accepts_what_str_parse_accepts() {
    assert_eq!(parse_u32("42"), Some(42));
    assert_eq!(parse_u32("+7"), Some(7));
    assert_eq!(parse_u32("4294967295"), Some(4294967295));
    assert_eq!(parse_u32("4294967296"), None);
    assert_eq!(parse_u32(""), None);
    assert_eq!(parse_u32("+"), None);
    assert_eq!(parse_u32(" 1"), None);
    assert_eq!(parse_u32("-1"), None);
    assert_eq!(u32_or_zero_str("12a"), 0);
    assert_eq!(u32_or_zero_str("0012"), 12);
}

#[test]
fn after_first_joins_the_rest() {
    assert_eq!(after_first_str("English: Cowboy: Bebop", ": "), "Cowboy: Bebop");
    assert_eq!(after_first_str("no separator", ": "), "");
}

#[test]
fn byte_length_counts_utf8_bytes() {
    assert!(!byte_len_exceeds("ab", 2));
    assert!(byte_len_exceeds("abc", 2));
    assert!(byte_len_exceeds("é", 1));
    assert!(!byte_len_exceeds("é", 2));
    assert!(byte_len_exceeds("ナ", 2));
}

#[test]
fn searches_in_text() {
    assert!(contains_str("https://www.animegg.org/x", "animegg.org"));
    assert!(!contains_str("abc", "abd"));
    assert!(contains_str("abc", ""));
    assert!(starts_with_str("Episodes: 12", "Episodes:"));
    assert!(!starts_with_str("Ep", "Episodes:"));
    assert!(ends_with_str("/genre/slice-of-life", "slice-of-life"));
    assert!(!ends_with_str("fe", "life"));
    assert!(same_text("x", "x"));
    assert!(!same_text("x", "y"));
}

#[test]
fn numbers_print_in_decimal() {
    assert_eq!(u64_text(0).into_iter().collect::<String>(), "0");
    assert_eq!(u64_text(18446744073709551615).into_iter().collect::<String>(), "18446744073709551615");
    assert_eq!(i64_text(-9223372036854775808).into_iter().collect::<String>(), "-9223372036854775808");
    assert_eq!(i64_text(1722186578987).into_iter().collect::<String>(), "1722186578987");
}
