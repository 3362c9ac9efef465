use rwa_vault::identity::IdentityKey;
use rwa_vault::text::format_timestamp;
use rwa_vault::text::identity_hex_prefix;
use rwa_vault::text::u64_to_decimal;

#[test]
fn decimal_rendering() {
    assert_eq!(u64_to_decimal(0), "0");
    assert_eq!(u64_to_decimal(7), "7");
    assert_eq!(u64_to_decimal(10), "10");
    assert_eq!(u64_to_decimal(1_700_000_000), "1700000000");
    assert_eq!(u64_to_decimal(u64::MAX), "18446744073709551615");
}

#[test]
fn timestamp_rendering() {
    assert_eq!(format_timestamp(0), "0");
    assert_eq!(format_timestamp(1_700_000_000), "1700000000");
    assert_eq!(format_timestamp(-1), "-1");
    assert_eq!(format_timestamp(i64::MAX), "9223372036854775807");
    assert_eq!(format_timestamp(i64::MIN), "-9223372036854775808");
}

#[test]
fn hex_prefix_rendering() {
    let mut bytes = [0u8; 32];
    bytes[0] = 0xde;
    bytes[1] = 0xad;
    bytes[2] = 0x0b;
    bytes[3] = 0x5e;
    bytes[4] = 0xff;
    let key = IdentityKey { bytes };
    assert_eq!(identity_hex_prefix(&key, 0), "");
    assert_eq!(identity_hex_prefix(&key, 1), "de");
    assert_eq!(identity_hex_prefix(&key, 4), "dead0b5e");
    assert_eq!(identity_hex_prefix(&key, 5), "dead0b5eff");
    assert_eq!(identity_hex_prefix(&key, 6), "dead0b5eff00");
}

#[test]
fn identity_equality_is_bytewise() {
    let a = IdentityKey { bytes: [7u8; 32] };
    let b = IdentityKey { bytes: [7u8; 32] };
    let mut c_bytes = [7u8; 32];
    c_bytes[31] = 8;
    let c = IdentityKey { bytes: c_bytes };
    assert!(a == b);
    assert!(a != c);
    assert!(IdentityKey::zero() == IdentityKey { bytes: [0u8; 32] });
}
