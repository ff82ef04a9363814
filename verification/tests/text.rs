use smart_memo::text::{is_blank, u64_to_dec};
use smart_memo::Config;

#[test]
fn decimal_formatting_exact_values() {
    assert_eq!(u64_to_dec(0), "0");
    assert_eq!(u64_to_dec(7), "7");
    assert_eq!(u64_to_dec(1234), "1234");
    assert_eq!(u64_to_dec(u64::MAX), "18446744073709551615");
}

#[test]
fn blankness_of_strings() {
    assert!(is_blank(""));
    assert!(is_blank(" \t\r\n"));
    assert!(!is_blank(" a "));
}

#[test]
fn config_rejects_wrong_key_length() {
    assert!(Config::new(b"too short".to_vec(), b"point".to_vec()).is_err());
    assert!(Config::new(vec![0u8; 32], b"point".to_vec()).is_ok());
}
