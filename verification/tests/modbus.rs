use lean_link::modbus::registers_to_u32;

#[test]
fn test_reigsters_to_u32() {
    let mut reg_high = 0x0000;
    let mut reg_low = 0x2710;

    assert_eq!(
        registers_to_u32(reg_high, reg_low, "high_first", "big_endian").unwrap(),
        10000
    );

    reg_high = 0x2710;
    reg_low = 0x0000;

    assert_eq!(
        registers_to_u32(reg_high, reg_low, "low_first", "big_endian").unwrap(),
        10000
    );

    reg_high = 0x1027;
    reg_low = 0x0000;

    assert_eq!(
        registers_to_u32(reg_high, reg_low, "high_first", "little_endian").unwrap(),
        10000
    );

    reg_high = 0x0000;
    reg_low = 0x1027;

    assert_eq!(
        registers_to_u32(reg_high, reg_low, "low_first", "little_endian").unwrap(),
        10000
    );
}

#[test]
fn test_registers_to_u32_invalid_orders() {
    assert!(registers_to_u32(1, 2, "highfirst", "big_endian").is_err());
    assert_eq!(
        registers_to_u32(1, 2, "sideways", "big_endian").unwrap_err(),
        "Invalid register order"
    );
    assert_eq!(
        registers_to_u32(1, 2, "high_first", "middle_endian").unwrap_err(),
        "Invalid byte order. Use 'big_endian' or 'little_endian'."
    );
}

#[test]
fn test_registers_to_u32_exact_values() {
    // 0x42F1_0000 assembled in each convention
    assert_eq!(
        registers_to_u32(0x42F1, 0x0000, "high_first", "big_endian").unwrap(),
        0x42F1_0000
    );
    assert_eq!(
        registers_to_u32(0x0000, 0x42F1, "low_first", "big_endian").unwrap(),
        0x42F1_0000
    );
    assert_eq!(
        registers_to_u32(0x0000, 0xF142, "high_first", "little_endian").unwrap(),
        0x42F1_0000
    );
    assert_eq!(
        registers_to_u32(0xF142, 0x0000, "low_first", "little_endian").unwrap(),
        0x42F1_0000
    );
}
