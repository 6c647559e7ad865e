use ruth::address::{format_address, format_tx_hash, parse_address, parse_hash32, Address, TxHash};
use ruth::error::RuthError;

const GANACHE_FIRST: &str = "0x90f8bf6a479f320ead074411a4b0e7944ea8c9c1";

#[test]
fn parse_address_with_and_without_prefix() {
    let a = parse_address(GANACHE_FIRST).unwrap();
    let b = parse_address("90f8bf6a479f320ead074411a4b0e7944ea8c9c1").unwrap();
    assert_eq!(a, b);
    assert_eq!(a.bytes[0], 0x90);
    assert_eq!(a.bytes[19], 0xc1);
}

#[test]
fn parse_address_accepts_mixed_case() {
    let a = parse_address("0xFFcf8FDEE72ac11b5c542428B35EEF5769C409f0").unwrap();
    assert_eq!(format_address(&a, false), "0xffcf8fdee72ac11b5c542428b35eef5769c409f0");
}

#[test]
fn parse_address_not_hex_is_invalid_hex() {
    match parse_address("not-hex") {
        Err(RuthError::InvalidHex { input }) => assert_eq!(input, "not-hex"),
        _ => panic!("expected InvalidHex"),
    }
}

#[test]
fn parse_address_odd_digits_is_invalid_hex() {
    assert!(matches!(parse_address("0xabc"), Err(RuthError::InvalidHex { .. })));
}

#[test]
fn parse_address_nineteen_bytes_is_invalid_length() {
    let input = "00".repeat(19);
    match parse_address(&input) {
        Err(RuthError::InvalidLength { input: i, expected, found }) => {
            assert_eq!(i, input);
            assert_eq!(expected, 20);
            assert_eq!(found, 19);
        }
        _ => panic!("expected InvalidLength"),
    }
}

#[test]
fn parse_address_twenty_one_bytes_is_invalid_length() {
    let input = format!("0x{}", "11".repeat(21));
    assert!(matches!(
        parse_address(&input),
        Err(RuthError::InvalidLength { found: 21, .. })
    ));
}

#[test]
fn parse_address_empty_is_invalid_length() {
    assert!(matches!(parse_address(""), Err(RuthError::InvalidLength { found: 0, .. })));
    assert!(matches!(parse_address("0x"), Err(RuthError::InvalidLength { found: 0, .. })));
}

#[test]
fn format_address_lowercase() {
    let mut bytes = [0u8; 20];
    bytes[0] = 0xab;
    bytes[19] = 0x01;
    let text = format_address(&Address { bytes }, false);
    assert_eq!(text, "0xab00000000000000000000000000000000000001");
}

#[test]
fn format_address_checksummed_known_value() {
    let a = parse_address("0x5aaeb6053f3e94c9b9a09f33669435e7ef1beaed").unwrap();
    assert_eq!(format_address(&a, true), "0x5aAeb6053F3E94C9b9A09f33669435E7Ef1BeAed");
}

#[test]
fn format_parse_round_trip() {
    let v = parse_address("0xfb6916095ca1df60bb79ce92ce3ea74c37c5d359").unwrap();
    for checksummed in [false, true] {
        let text = format_address(&v, checksummed);
        let again = parse_address(&text).unwrap();
        assert_eq!(again, v);
        assert_eq!(format_address(&again, checksummed), text);
    }
}

#[test]
fn parse_hash32_round_trip() {
    let text = format!("0x{}", "0123456789abcdef".repeat(4));
    let h = parse_hash32(&text).unwrap();
    assert_eq!(h.bytes[0], 0x01);
    assert_eq!(h.bytes[31], 0xef);
    assert_eq!(format_tx_hash(&h), text);
    let bare = parse_hash32(&text[2..]).unwrap();
    assert_eq!(bare, h);
}

#[test]
fn parse_hash32_wrong_length_is_rejected() {
    assert!(matches!(
        parse_hash32(GANACHE_FIRST),
        Err(RuthError::InvalidLength { expected: 32, found: 20, .. })
    ));
    assert!(matches!(parse_hash32("0xzz"), Err(RuthError::InvalidHex { .. })));
}

#[test]
fn format_tx_hash_is_lowercase_hex() {
    let h = TxHash { bytes: [0xAB; 32] };
    assert_eq!(format_tx_hash(&h), format!("0x{}", "ab".repeat(32)));
}
