use authflow::encoding::{constant_time_eq, decimal_string, from_hex, same_text, to_hex};

#[test]
fn hex_of_bytes_is_lower_case_high_nibble_first() {
    assert_eq!(to_hex(&[0x00, 0xff, 0x1a, 0xb2]), "00ff1ab2");
    assert_eq!(to_hex(&[]), "");
    assert_eq!(to_hex(&[0x09, 0x0a, 0x90, 0xa0]), "090a90a0");
}

#[test]
fn hex_reads_back_what_was_written() {
    assert_eq!(from_hex(b"00ff1ab2"), Some(vec![0x00, 0xff, 0x1a, 0xb2]));
    assert_eq!(from_hex(b""), Some(vec![]));
    let all: Vec<u8> = (0..=255u8).collect();
    assert_eq!(from_hex(to_hex(&all).as_bytes()), Some(all));
}

#[test]
fn hex_refuses_odd_length() {
    assert_eq!(from_hex(b"0"), None);
    assert_eq!(from_hex(b"abc"), None);
}

#[test]
fn hex_refuses_other_characters() {
    assert_eq!(from_hex(b"0g"), None);
    assert_eq!(from_hex(b"g0"), None);
    assert_eq!(from_hex(b"FF"), None);
    assert_eq!(from_hex(b" 0"), None);
    assert_eq!(from_hex(b"0/"), None);
    assert_eq!(from_hex(b"0:"), None);
    assert_eq!(from_hex(b"0`"), None);
    assert_eq!(from_hex("é".as_bytes()), None);
}

#[test]
fn decimal_numerals() {
    assert_eq!(decimal_string(0), "0");
    assert_eq!(decimal_string(7), "7");
    assert_eq!(decimal_string(10), "10");
    assert_eq!(decimal_string(1905), "1905");
    assert_eq!(decimal_string(u64::MAX), "18446744073709551615");
}

#[test]
fn byte_strings_are_equal_when_every_byte_is() {
    assert!(constant_time_eq(b"", b""));
    assert!(constant_time_eq(b"abc", b"abc"));
    assert!(!constant_time_eq(b"abc", b"abd"));
    assert!(!constant_time_eq(b"abc", b"bbc"));
    assert!(!constant_time_eq(b"abc", b"ab"));
    assert!(!constant_time_eq(b"ab", b"abc"));
    assert!(!constant_time_eq(&[0x00], &[0x80]));
}

#[test]
fn texts_are_equal_when_their_characters_are() {
    assert!(same_text("totp", "totp"));
    assert!(!same_text("totp", "TOTP"));
    assert!(!same_text("totp", "totp "));
    assert!(same_text("é", "é"));
    assert!(!same_text("é", "e"));
}
