use lean_link::i2c::{parse_hex_byte, path_to_i2c_bus};

#[test]
fn test_path_to_i2c_bus_ok() {
    assert_eq!(path_to_i2c_bus("/dev/i2c-1").unwrap(), 1);
    assert_eq!(path_to_i2c_bus("/dev/i2c-0").unwrap(), 0);
    assert_eq!(path_to_i2c_bus("/sys/bus/i2c-65535").unwrap(), 65535);
    // the number after the last marker wins
    assert_eq!(path_to_i2c_bus("/i2c-3/dev/i2c-7").unwrap(), 7);
    // decimal parsing admits a leading plus sign
    assert_eq!(path_to_i2c_bus("i2c-+5").unwrap(), 5);
}

#[test]
fn test_path_to_i2c_bus_err() {
    // no marker at all
    assert!(path_to_i2c_bus("/dev/ttyUSB0").is_err());
    // marker without a number
    assert!(path_to_i2c_bus("/dev/i2c-").is_err());
    // trailing junk after the number
    assert!(path_to_i2c_bus("/dev/i2c-12x").is_err());
    // beyond u16
    assert!(path_to_i2c_bus("/dev/i2c-65536").is_err());
    assert_eq!(
        path_to_i2c_bus("flat").unwrap_err(),
        "invalid i2c device path: flat"
    );
}

#[test]
fn test_parse_hex_byte_ok() {
    assert_eq!(parse_hex_byte("0x12").unwrap(), 0x12);
    assert_eq!(parse_hex_byte("0X2a").unwrap(), 0x2A);
    assert_eq!(parse_hex_byte("ff").unwrap(), 0xFF);
    assert_eq!(parse_hex_byte("0").unwrap(), 0);
    assert_eq!(parse_hex_byte("+f").unwrap(), 0x0F);
    assert_eq!(parse_hex_byte("0xFF").unwrap(), 255);
}

#[test]
fn test_parse_hex_byte_err() {
    assert!(parse_hex_byte("").is_err());
    assert!(parse_hex_byte("0x").is_err());
    assert!(parse_hex_byte("0x100").is_err());
    assert!(parse_hex_byte("zz").is_err());
    assert!(parse_hex_byte("0x1g").is_err());
    assert_eq!(parse_hex_byte("bad!").unwrap_err(), "invalid hex byte: bad!");
}

#[test]
fn test_path_to_i2c_bus_non_ascii() {
    // a fullwidth digit is not a decimal digit
    assert!(path_to_i2c_bus("/dev/i2c-１").is_err());
    // non-ASCII text before the marker does not disturb the number
    assert_eq!(path_to_i2c_bus("设备/i2c-4").unwrap(), 4);
}
