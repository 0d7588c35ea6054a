use orange_substrate_bot::text::{decimal_text, parse_u8, signed_decimal_text};

#[test]
fn decimal_text_writes_numbers_like_display() {
    assert_eq!(decimal_text(0), "0");
    assert_eq!(decimal_text(7), "7");
    assert_eq!(decimal_text(10), "10");
    assert_eq!(decimal_text(255), "255");
    assert_eq!(decimal_text(1_000_000), "1000000");
    assert_eq!(decimal_text(u64::MAX), "18446744073709551615");
    for n in [1u64, 9, 99, 100, 12345, 987654321, 4294967296] {
        assert_eq!(decimal_text(n), n.to_string());
    }
}

#[test]
fn signed_decimal_text_writes_the_sign() {
    assert_eq!(signed_decimal_text(0), "0");
    assert_eq!(signed_decimal_text(6), "6");
    assert_eq!(signed_decimal_text(-7), "-7");
    assert_eq!(signed_decimal_text(i32::MIN), "-2147483648");
    assert_eq!(signed_decimal_text(i32::MAX), "2147483647");
}

#[test]
fn parse_u8_accepts_bytes() {
    assert_eq!(parse_u8("42"), Some(42));
    assert_eq!(parse_u8("0"), Some(0));
    assert_eq!(parse_u8("255"), Some(255));
    assert_eq!(parse_u8("+7"), Some(7));
    assert_eq!(parse_u8("007"), Some(7));
    assert_eq!(parse_u8("0000000000000000000255"), Some(255));
}

#[test]
fn parse_u8_refuses_what_is_not_a_byte() {
    for text in [
        "", "+", "-", "-1", "-0", "256", "1000", "4 2", " 5", "5 ", "12a", "++1", "x",
        "99999999999999999999", "٣", "1.0",
    ] {
        assert_eq!(parse_u8(text), None, "{:?}", text);
    }
}

#[test]
fn parse_u8_agrees_with_std() {
    let mut inputs: Vec<String> = Vec::new();
    for n in 0..400u32 {
        inputs.push(n.to_string());
        inputs.push(format!("+{}", n));
        inputs.push(format!("0{}", n));
        inputs.push(format!("-{}", n));
        inputs.push(format!("{}!", n));
    }
    for extra in ["", "+", "-", "+-1", " ", "\n3", "3\n"] {
        inputs.push(extra.to_string());
    }
    for text in inputs {
        assert_eq!(parse_u8(&text), text.parse::<u8>().ok(), "{:?}", text);
    }
}

#[test]
fn parse_u8_reads_back_every_decimal_byte() {
    for n in 0..=255u8 {
        assert_eq!(parse_u8(&decimal_text(n as u64)), Some(n));
    }
}
