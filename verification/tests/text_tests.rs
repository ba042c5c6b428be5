use meta_engine::text::{format_i32, parse_i32, str_eq, to_ascii_upper};

#[test]
fn format_i32_writes_decimal() {
    assert_eq!(format_i32(0), "0");
    assert_eq!(format_i32(7), "7");
    assert_eq!(format_i32(10), "10");
    assert_eq!(format_i32(-45), "-45");
    assert_eq!(format_i32(i32::MAX), "2147483647");
    assert_eq!(format_i32(i32::MIN), "-2147483648");
}

#[test]
fn parse_i32_agrees_with_std() {
    for s in [
        "0", "12", "+12", "-12", "007", "2147483647", "2147483648", "-2147483648",
        "-2147483649", "", "+", "-", "1a", "a1", " 1", "1 ", "99999999999999999999", "--1",
        "+-1", "٣",
    ] {
        assert_eq!(parse_i32(s), s.parse::<i32>().ok(), "input {:?}", s);
    }
}

#[test]
fn parse_i32_reads_back_formatted() {
    for n in [0, 1, -1, 9, 10, 99, 100, -100, 123456789, i32::MAX, i32::MIN] {
        assert_eq!(parse_i32(&format_i32(n)), Some(n));
    }
}

#[test]
fn str_eq_compares_characters() {
    assert!(str_eq("cv", "cv"));
    assert!(!str_eq("cv", "cV"));
    assert!(!str_eq("cv", "cvx"));
    assert!(str_eq("", ""));
}

#[test]
fn to_ascii_upper_maps_letters_only() {
    assert_eq!(to_ascii_upper("rj01234567"), "RJ01234567");
    assert_eq!(to_ascii_upper("aZ-9_ß"), "AZ-9_ß");
    assert_eq!(to_ascii_upper("Rj0a"), "Rj0a".to_ascii_uppercase());
}
