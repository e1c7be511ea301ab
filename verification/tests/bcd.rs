use lean_link::bcd::{bcd_to_dec, dec_to_bcd};

#[test]
fn test_dec_to_bcd_ok() {
    assert_eq!(dec_to_bcd(0).unwrap(), 0x00);
    assert_eq!(dec_to_bcd(9).unwrap(), 0x09);
    assert_eq!(dec_to_bcd(10).unwrap(), 0x10);
    assert_eq!(dec_to_bcd(12).unwrap(), 0x12);
    assert_eq!(dec_to_bcd(45).unwrap(), 0x45);
    assert_eq!(dec_to_bcd(99).unwrap(), 0x99);
}

#[test]
fn test_dec_to_bcd_err() {
    assert!(dec_to_bcd(100).is_err());
    assert!(dec_to_bcd(u8::MAX).is_err());
}

#[test]
fn test_bcd_to_dec_ok() {
    assert_eq!(bcd_to_dec(0x00).unwrap(), 0);
    assert_eq!(bcd_to_dec(0x09).unwrap(), 9);
    assert_eq!(bcd_to_dec(0x10).unwrap(), 10);
    assert_eq!(bcd_to_dec(0x12).unwrap(), 12);
    assert_eq!(bcd_to_dec(0x45).unwrap(), 45);
    assert_eq!(bcd_to_dec(0x99).unwrap(), 99);
}

#[test]
fn test_bcd_to_dec_err() {
    // Invalid nibble: A(10) is not in 0..=9
    assert!(bcd_to_dec(0x1A).is_err());
    assert!(bcd_to_dec(0xA0).is_err());
    assert!(bcd_to_dec(0xFF).is_err());
}
