//! Binary-coded-decimal conversion for single bytes.
//!
//! A single-byte BCD value stores one decimal digit in each nibble, so it
//! represents 0..=99 and each nibble must stay within 0..=9.

use vstd::prelude::*;

verus! {

/// A byte is valid single-byte BCD when both nibbles are decimal digits.
pub open spec fn is_valid_bcd(b: u8) -> bool {
    b / 16 <= 9 && b % 16 <= 9
}

/// The decimal value encoded by a BCD byte.
pub open spec fn bcd_value(b: u8) -> int {
    (b / 16) * 10 + b % 16
}

/// The BCD byte encoding a decimal value below 100.
pub open spec fn bcd_encoding(n: u8) -> int {
    (n / 10) * 16 + n % 10
}

/// Convert a decimal value (0..=99) to a single-byte BCD.
/// Example: 12 -> 0x12, 45 -> 0x45.
/// Returns an error when n is out of range.
pub fn dec_to_bcd(n: u8) -> (r: Result<u8, &'static str>)
    ensures
        n <= 99 <==> r is Ok,
        r matches Ok(b) ==> b == bcd_encoding(n) && is_valid_bcd(b) && bcd_value(b) == n,
{
    if n > 99 {
        return Err("decimal out of range (expected 0..=99)");
    }
    let hi = n / 10;
    let lo = n % 10;
    Ok(hi * 16 + lo)
}

/// Convert a single-byte BCD to a decimal value (0..=99).
/// Example: 0x12 -> 12, 0x45 -> 45.
/// Returns an error if either nibble is not within 0..=9.
pub fn bcd_to_dec(b: u8) -> (r: Result<u8, &'static str>)
    ensures
        is_valid_bcd(b) <==> r is Ok,
        r matches Ok(n) ==> n == bcd_value(b) && n <= 99 && bcd_encoding(n) == b,
{
    let hi = b / 16;
    let lo = b % 16;
    if hi > 9 || lo > 9 {
        return Err("invalid BCD digit (nibble must be 0..=9)");
    }
    Ok(hi * 10 + lo)
}

/// Encoding and decoding single-byte BCD are inverse to each other: every
/// decimal value below 100 round-trips through its BCD byte, and every valid
/// BCD byte round-trips through its decimal value.
pub proof fn lemma_bcd_round_trip(n: u8, b: u8)
    ensures
        n <= 99 ==> is_valid_bcd(bcd_encoding(n) as u8) && bcd_value(bcd_encoding(n) as u8) == n,
        is_valid_bcd(b) ==> bcd_value(b) <= 99 && bcd_encoding(bcd_value(b) as u8) == b,
{
}

} // verus!
