use vcf_tui::decimal::{is_decimal_text, parse_u64};
use vcf_tui::text::{chars_of, contains_str, is_white_space, trim};

#[test]
fn white_space_agrees_with_std_on_every_char() {
    for code in 0u32..=0x10FFFF {
        if let Some(c) = char::from_u32(code) {
            assert_eq!(is_white_space(c), c.is_whitespace(), "U+{:04X}", code);
        }
    }
}

#[test]
fn trim_removes_outer_white_space_only() {
    assert_eq!(trim("  100 - 200\t\n"), "100 - 200");
    assert_eq!(trim(""), "");
    assert_eq!(trim(" \u{3000} "), "");
    assert_eq!(trim("abc"), "abc");
}

#[test]
fn chars_of_keeps_every_char() {
    assert_eq!(chars_of("aé\tz"), vec!['a', 'é', '\t', 'z']);
    assert!(chars_of("").is_empty());
}

#[test]
fn contains_str_finds_runs() {
    assert!(contains_str("chr10", "chr1"));
    assert!(contains_str("chr10", "10"));
    assert!(contains_str("abc", ""));
    assert!(contains_str("", ""));
    assert!(!contains_str("chr2", "chr1"));
    assert!(!contains_str("ch", "chr"));
    assert!(!contains_str("acb", "ab"));
}

#[test]
fn parse_u64_follows_std() {
    for s in ["0", "100", "+7", "+", "-5", "", "12a", " 1", "18446744073709551615", "18446744073709551616", "007"] {
        assert_eq!(parse_u64(s), s.parse::<u64>().ok(), "{:?}", s);
    }
}

#[test]
fn decimal_text_is_canonical() {
    assert!(is_decimal_text("100", 100));
    assert!(is_decimal_text("0", 0));
    assert!(!is_decimal_text("0100", 100));
    assert!(!is_decimal_text("+100", 100));
    assert!(!is_decimal_text("101", 100));
    assert!(!is_decimal_text("", 0));
    assert!(!is_decimal_text("abc", 100));
    assert!(is_decimal_text("18446744073709551615", u64::MAX));
}
