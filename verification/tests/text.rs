use daily_pulse::text::{
    chars_of, parse_decimal, same_text, starts_with, to_decimal, trim, white_space,
};

#[test]
fn white_space_is_that_of_unicode() {
    for code in 0..=0x10ffffu32 {
        if let Some(c) = char::from_u32(code) {
            assert_eq!(white_space(c), c.is_whitespace(), "{code:x}");
        }
    }
}

#[test]
fn trimming_takes_white_space_off_both_ends() {
    assert_eq!(trim("  a b \n"), "a b");
    assert_eq!(trim("\u{3000}новость\u{a0}"), "новость");
    assert_eq!(trim(" \t "), "");
    assert_eq!(trim(""), "");
    assert_eq!(trim("x"), "x");
}

#[test]
fn trimming_twice_changes_nothing_more() {
    let once = trim(" \u{2003}two words \r\n");
    assert_eq!(once, "two words");
    assert_eq!(trim(once), once);
}

#[test]
fn characters_come_in_order() {
    assert_eq!(chars_of("aж🛰"), vec!['a', 'ж', '🛰']);
    assert!(chars_of("").is_empty());
}

#[test]
fn prefixes_are_recognized() {
    assert!(starts_with("/start now", "/start"));
    assert!(starts_with("/start", "/start"));
    assert!(starts_with("/started", "/start"));
    assert!(!starts_with("/star", "/start"));
    assert!(!starts_with(" /start", "/start"));
    assert!(starts_with("x", ""));
}

#[test]
fn texts_are_compared_by_characters() {
    assert!(same_text("latest", "latest"));
    assert!(!same_text("latest", "Latest"));
    assert!(!same_text("latest", "latest "));
    assert!(same_text("", ""));
}

#[test]
fn numbers_are_written_in_base_ten() {
    assert_eq!(to_decimal(0), "0");
    assert_eq!(to_decimal(7), "7");
    assert_eq!(to_decimal(10), "10");
    assert_eq!(to_decimal(90_210), "90210");
    assert_eq!(to_decimal(u64::MAX), u64::MAX.to_string());
}

#[test]
fn numbers_are_read_as_the_standard_library_reads_them() {
    for text in [
        "", "+", "-", "0", "-0", "+0", "5", "+5", "-5", "++5", "5+", " 5", "5 ", "007", "1_000",
        "1.0", "0x10", "12a", "٣", "18446744073709551615", "18446744073709551616",
        "99999999999999999999999", "00000000000000000000000000000042",
    ] {
        assert_eq!(parse_decimal(text, u64::MAX), text.parse::<u64>().ok(), "{text}");
        let narrow = text.parse::<u8>().ok().map(u64::from);
        assert_eq!(parse_decimal(text, u8::MAX as u64), narrow, "{text}");
    }
}

#[test]
fn a_small_bound_keeps_numbers_out() {
    assert_eq!(parse_decimal("3", 3), Some(3));
    assert_eq!(parse_decimal("4", 3), None);
    assert_eq!(parse_decimal("10", 3), None);
    assert_eq!(parse_decimal("0", 0), Some(0));
}

#[test]
fn written_numbers_read_back() {
    for n in [0, 1, 9, 10, 99, 100, 12_345, u64::MAX - 1, u64::MAX] {
        assert_eq!(parse_decimal(&to_decimal(n), u64::MAX), Some(n));
    }
}
