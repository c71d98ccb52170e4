use roboclaw_panel::text::{chars_of, render_decimal, render_natural, text_contains};

#[test]
fn chars_of_keeps_every_character_in_order() {
    assert_eq!(chars_of("crc"), vec!['c', 'r', 'c']);
    assert_eq!(chars_of(""), Vec::<char>::new());
    assert_eq!(chars_of("é→x"), vec!['é', '→', 'x']);
}

#[test]
fn contains_finds_a_part_at_the_start() {
    assert!(text_contains("Failed to read config", "Failed to read"));
}

#[test]
fn contains_finds_a_part_in_the_middle() {
    assert!(text_contains("Motor control error: crc error (M1:1, M2:2)", "crc error"));
}

#[test]
fn contains_finds_a_part_at_the_end() {
    assert!(text_contains("port says crc error", "crc error"));
}

#[test]
fn contains_finds_the_whole_text() {
    assert!(text_contains("Connected", "Connected"));
}

#[test]
fn contains_finds_the_empty_text_everywhere() {
    assert!(text_contains("Connected", ""));
    assert!(text_contains("", ""));
}

#[test]
fn contains_rejects_a_longer_text() {
    assert!(!text_contains("Failed", "Failed to read"));
    assert!(!text_contains("", "x"));
}

#[test]
fn contains_rejects_an_absent_text() {
    assert!(!text_contains("Connected", "crc error"));
    assert!(!text_contains("Failed to read config", "Motor control error"));
}

#[test]
fn contains_tells_upper_case_from_lower_case() {
    assert!(!text_contains("failed to read", "Failed to read"));
    assert!(!text_contains("CRC ERROR", "crc error"));
}

#[test]
fn contains_goes_on_after_a_partial_match() {
    assert!(text_contains("aaab", "aab"));
    assert!(text_contains("crc crc error", "crc error"));
    assert!(!text_contains("crc erro", "crc error"));
}

#[test]
fn contains_counts_characters_not_bytes() {
    assert!(text_contains("détail: crc error", "crc error"));
    assert!(text_contains("→→x", "→x"));
    assert!(!text_contains("→", "é"));
}

#[test]
fn decimal_of_zero() {
    assert_eq!(render_decimal(0), "0");
}

#[test]
fn decimal_of_positive_numbers() {
    assert_eq!(render_decimal(7), "7");
    assert_eq!(render_decimal(10), "10");
    assert_eq!(render_decimal(50000), "50000");
    assert_eq!(render_decimal(100001), "100001");
}

#[test]
fn decimal_of_negative_numbers() {
    assert_eq!(render_decimal(-1), "-1");
    assert_eq!(render_decimal(-25000), "-25000");
}

#[test]
fn decimal_of_the_extremes() {
    assert_eq!(render_decimal(i32::MAX), "2147483647");
    assert_eq!(render_decimal(i32::MIN), "-2147483648");
}

#[test]
fn decimal_agrees_with_the_standard_rendering() {
    for n in [-150000, -99999, -1000, -10, -9, 9, 99, 100, 12345, 150000] {
        assert_eq!(render_decimal(n), n.to_string());
    }
}

#[test]
fn natural_digits() {
    assert_eq!(render_natural(0), "0");
    assert_eq!(render_natural(9), "9");
    assert_eq!(render_natural(4294967295), "4294967295");
}
