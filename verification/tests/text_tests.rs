use weather::text::{
    capitalize, decimal_string, first_filled_line_of, pad_right, repeat_str, trim, two_digit_string,
};

#[test]
fn decimal_renders_numbers() {
    assert_eq!(decimal_string(0), "0");
    assert_eq!(decimal_string(7), "7");
    assert_eq!(decimal_string(10), "10");
    assert_eq!(decimal_string(1013), "1013");
    assert_eq!(decimal_string(u64::MAX), "18446744073709551615");
}

#[test]
fn two_digits_pad_with_zero() {
    assert_eq!(two_digit_string(0), "00");
    assert_eq!(two_digit_string(5), "05");
    assert_eq!(two_digit_string(9), "09");
    assert_eq!(two_digit_string(10), "10");
    assert_eq!(two_digit_string(59), "59");
    assert_eq!(two_digit_string(123), "123");
}

#[test]
fn pad_right_fills_to_width() {
    assert_eq!(pad_right("Sky", 11), "Sky        ");
    assert_eq!(pad_right("Visibility", 11), "Visibility ");
    assert_eq!(pad_right("Exactly11ch", 11), "Exactly11ch");
    assert_eq!(pad_right("Longer than eleven", 11), "Longer than eleven");
    assert_eq!(pad_right("", 3), "   ");
    // width counts characters, not bytes
    assert_eq!(pad_right("°C", 4), "°C  ");
}

#[test]
fn repeat_writes_copies() {
    assert_eq!(repeat_str("█", 3), "███");
    assert_eq!(repeat_str(" ", 0), "");
    assert_eq!(repeat_str("ab", 2), "abab");
}

#[test]
fn trim_matches_std() {
    for s in ["", "   ", "  key  ", "\tkey\r\n", "k e y", "\u{a0}x\u{3000}", "abc"] {
        assert_eq!(trim(s), s.trim(), "trimming {:?}", s);
    }
}

#[test]
fn trim_is_idempotent_on_examples() {
    for s in ["  a b  ", "\n\n", "x"] {
        assert_eq!(trim(trim(s)), trim(s));
    }
}

#[test]
fn capitalize_first_character() {
    assert_eq!(capitalize("light rain"), "Light rain");
    assert_eq!(capitalize(""), "");
    assert_eq!(capitalize("Clear sky"), "Clear sky");
    assert_eq!(capitalize("élan"), "Élan");
    assert_eq!(capitalize("ßa"), "SSa");
    assert_eq!(capitalize("1st"), "1st");
}

#[test]
fn first_filled_line_skips_blank_lines() {
    assert_eq!(
        first_filled_line_of("\n   \n  Heavy rain expected  \nsecond line").as_deref(),
        Some("Heavy rain expected")
    );
    assert_eq!(first_filled_line_of("one\ntwo").as_deref(), Some("one"));
    assert_eq!(first_filled_line_of("  last without newline ").as_deref(), Some("last without newline"));
    assert_eq!(first_filled_line_of("\r\n\t\r\nx\r\n").as_deref(), Some("x"));
    assert_eq!(first_filled_line_of(""), None);
    assert_eq!(first_filled_line_of(" \n \n"), None);
}

#[test]
fn first_filled_line_matches_std_lines() {
    for s in ["a\nb", "\n\nc\n", "  \r\n d \r\n", "", "\n", "x"] {
        let expected = s.lines().find(|l| !l.trim().is_empty()).map(|l| l.trim().to_string());
        assert_eq!(first_filled_line_of(s), expected, "text {:?}", s);
    }
}

#[test]
fn capitalize_ascii_keeps_length_and_is_idempotent() {
    for s in ["light rain", "Clear sky", "a", "1st", "", "zz top!"] {
        let c = capitalize(s);
        assert_eq!(c.len(), s.len());
        assert_eq!(capitalize(&c), c);
    }
}
