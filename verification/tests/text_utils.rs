use lastui::text::{decimal_string, parse_u32, text_eq, to_ascii_lower};

#[test]
fn decimal_of_zero_and_others() {
    assert_eq!(decimal_string(0), "0");
    assert_eq!(decimal_string(7), "7");
    assert_eq!(decimal_string(10), "10");
    assert_eq!(decimal_string(12345), "12345");
    assert_eq!(decimal_string(u64::MAX), "18446744073709551615");
}

#[test]
fn parse_accepts_what_std_accepts() {
    for s in ["0", "42", "+7", "007", "4294967295", "", "+", "-1", "-", "4294967296", "12a", " 1", "99999999999"] {
        assert_eq!(parse_u32(s), s.parse::<u32>().ok(), "input {:?}", s);
    }
    assert_eq!(parse_u32("4294967295"), Some(u32::MAX));
    assert_eq!(parse_u32("+12"), Some(12));
    assert_eq!(parse_u32("4294967296"), None);
    assert_eq!(parse_u32("١٢"), None);
}

#[test]
fn parse_reads_back_decimal() {
    for n in [0u32, 1, 9, 10, 99, 100, 65535, 1_000_000, u32::MAX] {
        assert_eq!(parse_u32(&decimal_string(n as u64)), Some(n));
    }
}

#[test]
fn text_equality() {
    assert!(text_eq("true", "true"));
    assert!(!text_eq("true", "True"));
    assert!(!text_eq("true", "tru"));
    assert!(text_eq("", ""));
    assert!(text_eq("héllo", "héllo"));
}

#[test]
fn ascii_lowering() {
    assert_eq!(to_ascii_lower('A'), 'a');
    assert_eq!(to_ascii_lower('Z'), 'z');
    assert_eq!(to_ascii_lower('a'), 'a');
    assert_eq!(to_ascii_lower('É'), 'É');
    assert_eq!(to_ascii_lower('['), '[');
    for c in ['@', 'A', 'M', 'Z', '[', 'q', '0', 'ß'] {
        assert_eq!(to_ascii_lower(c), c.to_ascii_lowercase());
    }
}
