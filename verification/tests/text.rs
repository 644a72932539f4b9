use vector_store::text::{decimal_text, parse_usize, signed_decimal_text};

#[test]
fn decimal_text_has_no_leading_zeros() {
    assert_eq!(decimal_text(0), "0");
    assert_eq!(decimal_text(9), "9");
    assert_eq!(decimal_text(10), "10");
    assert_eq!(decimal_text(1_234_567_890), "1234567890");
    assert_eq!(decimal_text(u64::MAX), "18446744073709551615");
}

#[test]
fn signed_decimal_text_carries_a_minus_sign() {
    assert_eq!(signed_decimal_text(0), "0");
    assert_eq!(signed_decimal_text(2), "2");
    assert_eq!(signed_decimal_text(-1), "-1");
    assert_eq!(signed_decimal_text(i32::MIN), "-2147483648");
    assert_eq!(signed_decimal_text(i32::MAX), "2147483647");
}

#[test]
fn parse_usize_agrees_with_the_standard_library() {
    for text in [
        "", "+", "-", "0", "7", "007", "+12", "++12", "-3", " 4", "4 ", "4_0", "0x10", "12a",
        "18446744073709551615", "18446744073709551616", "99999999999999999999999x", "\u{663}",
    ] {
        assert_eq!(parse_usize(text), text.parse::<usize>().ok(), "{text:?}");
    }
}

#[test]
fn parse_usize_reads_what_decimal_text_writes() {
    for number in [0usize, 1, 10, 99, 100, 4096, usize::MAX] {
        assert_eq!(parse_usize(&decimal_text(number as u64)), Some(number));
    }
}

#[test]
fn distinct_numbers_are_written_differently() {
    let texts: Vec<String> = (0..1000).map(decimal_text).collect();
    for (i, text) in texts.iter().enumerate() {
        assert_eq!(texts.iter().position(|other| other == text), Some(i));
    }
}
