//! Parsing for the I2C real-time-clock plumbing.
//!
//! The platform names an I2C adapter by a device path ending in `i2c-` and
//! the bus number; [`path_to_i2c_bus`] recovers the number. The register
//! values the `i2cget` tool prints come back as text like `0x12`;
//! [`parse_hex_byte`] recovers the byte.

use vstd::prelude::*;

verus! {

broadcast use vstd::string::group_string_axioms;

/// The bus-number marker `i2c-` standing at position `i`.
pub open spec fn marker_at(s: Seq<char>, i: int) -> bool {
    &&& 0 <= i
    &&& i + 4 <= s.len()
    &&& s[i] == 'i'
    &&& s[i + 1] == '2'
    &&& s[i + 2] == 'c'
    &&& s[i + 3] == '-'
}

/// Whether the marker occurs anywhere in the string.
pub open spec fn has_marker(s: Seq<char>) -> bool {
    exists|i: int| marker_at(s, i)
}

/// The position just after the last occurrence of the marker, or -1 when
/// it does not occur.
pub open spec fn last_marker_end(s: Seq<char>) -> int
    decreases s.len(),
{
    if s.len() < 4 {
        -1
    } else if marker_at(s, s.len() - 4) {
        s.len() as int
    } else {
        last_marker_end(s.take(s.len() - 1))
    }
}

/// `last_marker_end` finds the last marker: after it no further marker
/// starts, and a string without markers yields -1.
pub proof fn lemma_last_marker_end(s: Seq<char>)
    ensures
        last_marker_end(s) == -1 ==> !has_marker(s),
        has_marker(s) ==> {
            &&& 4 <= last_marker_end(s) <= s.len()
            &&& marker_at(s, last_marker_end(s) - 4)
            &&& forall|j: int| j > last_marker_end(s) - 4 ==> !marker_at(s, j)
        },
    decreases s.len(),
{
    if s.len() < 4 {
    } else if marker_at(s, s.len() - 4) {
    } else {
        let t = s.take(s.len() - 1);
        lemma_last_marker_end(t);
        assert forall|i: int| marker_at(t, i) implies marker_at(s, i) by {
            assert(t[i] == s[i] && t[i + 1] == s[i + 1]);
            assert(t[i + 2] == s[i + 2] && t[i + 3] == s[i + 3]);
        }
        assert forall|i: int| marker_at(s, i) && i + 4 <= s.len() - 1 implies marker_at(t, i) by {
            assert(t[i] == s[i] && t[i + 1] == s[i + 1]);
            assert(t[i + 2] == s[i + 2] && t[i + 3] == s[i + 3]);
        }
        if has_marker(s) {
            let w = choose|i: int| marker_at(s, i);
            assert(w + 4 <= s.len() - 1 || w == s.len() - 4);
            assert(marker_at(t, w));
        }
    }
}

/// A decimal digit.
pub open spec fn is_ascii_digit(c: char) -> bool {
    48 <= c as int && c as int <= 57
}

/// Every character of the run is a decimal digit.
pub open spec fn all_digits(s: Seq<char>) -> bool {
    forall|i: int| 0 <= i < s.len() ==> is_ascii_digit(s[i])
}

/// The number a run of decimal digits denotes.
pub open spec fn digits_value(s: Seq<char>) -> int
    decreases s.len(),
{
    if s.len() == 0 {
        0
    } else {
        digits_value(s.drop_last()) * 10 + (s.last() as int - 48)
    }
}

/// The run of digits after an optional leading plus sign.
pub open spec fn unsigned_digits(s: Seq<char>) -> Seq<char> {
    if s.len() > 0 && s[0] == '+' {
        s.drop_first()
    } else {
        s
    }
}

/// What Rust's unsigned decimal parsing accepts for a `u16`: an optional
/// plus sign, then at least one digit, denoting at most 65535.
pub open spec fn parses_as_u16(s: Seq<char>) -> bool {
    &&& unsigned_digits(s).len() > 0
    &&& all_digits(unsigned_digits(s))
    &&& digits_value(unsigned_digits(s)) <= 65535
}

/// A run of digits denotes a number.
pub proof fn lemma_digits_value_nonneg(s: Seq<char>)
    requires
        all_digits(s),
    ensures
        digits_value(s) >= 0,
    decreases s.len(),
{
    if s.len() > 0 {
        assert(all_digits(s.drop_last()));
        lemma_digits_value_nonneg(s.drop_last());
    }
}

/// Extending a run of digits never shrinks its value.
pub proof fn lemma_digits_value_monotonic(s: Seq<char>, k: int)
    requires
        all_digits(s),
        0 <= k <= s.len(),
    ensures
        digits_value(s) >= digits_value(s.take(k)),
    decreases s.len() - k,
{
    if k < s.len() {
        assert(s.take(k + 1).drop_last() =~= s.take(k));
        assert(all_digits(s.take(k + 1)));
        assert(all_digits(s.take(k)));
        lemma_digits_value_nonneg(s.take(k));
        assert(digits_value(s.take(k + 1)) == digits_value(s.take(k)) * 10 + (s[k] as int - 48));
        assert(digits_value(s.take(k + 1)) >= digits_value(s.take(k)));
        lemma_digits_value_monotonic(s, k + 1);
    } else {
        assert(s.take(k) =~= s);
    }
}

/// The bus number of an I2C device path: everything after the last `i2c-`,
/// read as a decimal `u16`. `/dev/i2c-1` names bus 1; a path without the
/// marker, without digits after it, or with a number beyond `u16` is
/// rejected.
#[verifier::loop_isolation(false)]
pub fn path_to_i2c_bus(path: &str) -> (r: Result<u16, String>)
    ensures
        r is Ok <==> has_marker(path@) && parses_as_u16(
            path@.subrange(last_marker_end(path@), path@.len() as int),
        ),
        r matches Ok(v) ==> v == digits_value(
            unsigned_digits(path@.subrange(last_marker_end(path@), path@.len() as int)),
        ),
        r matches Err(e) ==> e@ == "invalid i2c device path: "@ + path@,
    {
    proof {
        lemma_last_marker_end(path@);
    }
    let n = path.unicode_len();
    let mut e: usize = n;
    let mut found: bool = false;
    while !found && e >= 4
        invariant
            n == path@.len(),
            e <= n,
            forall|j: int| j > e - 4 ==> !marker_at(path@, j),
            found ==> 4 <= e && marker_at(path@, e - 4),
        decreases e + (if found { 0int } else { 1int }),
    {
        if path.get_char(e - 4) == 'i' && path.get_char(e - 3) == '2' && path.get_char(e - 2)
            == 'c' && path.get_char(e - 1) == '-' {
            found = true;
        } else {
            assert(!marker_at(path@, e - 4));
            e = e - 1;
        }
    }
    if !found {
        assert(!has_marker(path@));
        return Err(String::from_str("invalid i2c device path: ").concat(path));
    }
    assert(has_marker(path@));
    assert(e == last_marker_end(path@)) by {
        let last = last_marker_end(path@);
        assert(marker_at(path@, last - 4));
        assert(marker_at(path@, e - 4));
    }
    let ghost tail = path@.subrange(e as int, n as int);
    // optional plus sign
    let start: usize = if e < n && path.get_char(e) == '+' {
        e + 1
    } else {
        e
    };
    proof {
        assert(unsigned_digits(tail) =~= path@.subrange(start as int, n as int));
    }
    let ghost digits = path@.subrange(start as int, n as int);
    if start == n {
        assert(unsigned_digits(tail).len() == 0);
        return Err(String::from_str("invalid i2c device path: ").concat(path));
    }
    let mut acc: u32 = 0;
    let mut i: usize = start;
    while i < n
        invariant
            n == path@.len(),
            start <= i <= n,
            digits == path@.subrange(start as int, n as int),
            acc <= 65535,
            all_digits(digits.take(i - start)),
            acc == digits_value(digits.take(i - start)),
        decreases n - i,
    {
        let c = path.get_char(i);
        let cv = c as u32;
        proof {
            assert(digits.take(i + 1 - start).drop_last() =~= digits.take(i - start));
            assert(digits.take(i + 1 - start).last() == path@[i as int]);
        }
        if cv < 48 || cv > 57 {
            assert(!is_ascii_digit(digits[i - start]));
            assert(!all_digits(digits));
            return Err(String::from_str("invalid i2c device path: ").concat(path));
        }
        let next = acc * 10 + (cv - 48);
        if next > 65535 {
            proof {
                if all_digits(digits) {
                    lemma_digits_value_monotonic(digits, i + 1 - start);
                    assert(digits_value(digits) >= digits_value(digits.take(i + 1 - start)));
                    assert(digits_value(digits) > 65535);
                }
            }
            return Err(String::from_str("invalid i2c device path: ").concat(path));
        }
        acc = next;
        i = i + 1;
    }
    proof {
        assert(digits.take(n - start) =~= digits);
        assert(parses_as_u16(tail));
    }
    Ok(acc as u16)
}

/// A hexadecimal digit.
pub open spec fn is_hex_digit(c: char) -> bool {
    (48 <= c as int && c as int <= 57) || (97 <= c as int && c as int <= 102) || (65 <= c as int
        && c as int <= 70)
}

/// The value of one hexadecimal digit.
pub open spec fn hex_digit_value(c: char) -> int {
    if 48 <= c as int && c as int <= 57 {
        c as int - 48
    } else if 97 <= c as int && c as int <= 102 {
        c as int - 87
    } else {
        c as int - 55
    }
}

/// Every character of the run is a hexadecimal digit.
pub open spec fn all_hex_digits(s: Seq<char>) -> bool {
    forall|i: int| 0 <= i < s.len() ==> is_hex_digit(s[i])
}

/// The number a run of hexadecimal digits denotes.
pub open spec fn hex_value(s: Seq<char>) -> int
    decreases s.len(),
{
    if s.len() == 0 {
        0
    } else {
        hex_value(s.drop_last()) * 16 + hex_digit_value(s.last())
    }
}

/// The string with a leading `0x` or `0X` removed, as the i2cget output
/// convention has it.
pub open spec fn strip_hex_prefix(s: Seq<char>) -> Seq<char> {
    if s.len() >= 2 && s[0] == '0' && (s[1] == 'x' || s[1] == 'X') {
        s.skip(2)
    } else {
        s
    }
}

/// The run of hex digits after an optional plus sign.
pub open spec fn unsigned_hex_digits(s: Seq<char>) -> Seq<char> {
    if s.len() > 0 && s[0] == '+' {
        s.drop_first()
    } else {
        s
    }
}

/// What Rust's hexadecimal parsing accepts for a `u8` after the prefix is
/// stripped: an optional plus sign, then at least one hex digit, denoting
/// at most 255.
pub open spec fn parses_as_hex_u8(s: Seq<char>) -> bool {
    &&& unsigned_hex_digits(s).len() > 0
    &&& all_hex_digits(unsigned_hex_digits(s))
    &&& hex_value(unsigned_hex_digits(s)) <= 255
}

/// A run of hex digits denotes a number.
pub proof fn lemma_hex_value_nonneg(s: Seq<char>)
    requires
        all_hex_digits(s),
    ensures
        hex_value(s) >= 0,
    decreases s.len(),
{
    if s.len() > 0 {
        assert(all_hex_digits(s.drop_last()));
        lemma_hex_value_nonneg(s.drop_last());
    }
}

/// Extending a run of hex digits never shrinks its value.
pub proof fn lemma_hex_value_monotonic(s: Seq<char>, k: int)
    requires
        all_hex_digits(s),
        0 <= k <= s.len(),
    ensures
        hex_value(s) >= hex_value(s.take(k)),
    decreases s.len() - k,
{
    if k < s.len() {
        assert(s.take(k + 1).drop_last() =~= s.take(k));
        assert(all_hex_digits(s.take(k + 1)));
        assert(all_hex_digits(s.take(k)));
        lemma_hex_value_nonneg(s.take(k));
        assert(hex_value(s.take(k + 1)) == hex_value(s.take(k)) * 16 + hex_digit_value(s[k]));
        assert(hex_value(s.take(k + 1)) >= hex_value(s.take(k)));
        lemma_hex_value_monotonic(s, k + 1);
    } else {
        assert(s.take(k) =~= s);
    }
}

/// The byte a line of i2cget output denotes: a hexadecimal number with an
/// optional `0x` or `0X` prefix, as in `0x12`. Anything else, or a value
/// beyond one byte, is rejected.
#[verifier::loop_isolation(false)]
pub fn parse_hex_byte(s: &str) -> (r: Result<u8, String>)
    ensures
        r is Ok <==> parses_as_hex_u8(strip_hex_prefix(s@)),
        r matches Ok(v) ==> v == hex_value(unsigned_hex_digits(strip_hex_prefix(s@))),
        r matches Err(e) ==> e@ == "invalid hex byte: "@ + s@,
    {
    let n = s.unicode_len();
    let after_prefix: usize = if n >= 2 && s.get_char(0) == '0' && (s.get_char(1) == 'x'
        || s.get_char(1) == 'X') {
        2
    } else {
        0
    };
    let ghost stripped = strip_hex_prefix(s@);
    proof {
        assert(stripped =~= s@.subrange(after_prefix as int, n as int));
    }
    let start: usize = if after_prefix < n && s.get_char(after_prefix) == '+' {
        after_prefix + 1
    } else {
        after_prefix
    };
    let ghost digits = s@.subrange(start as int, n as int);
    proof {
        assert(unsigned_hex_digits(stripped) =~= digits);
    }
    if start == n {
        assert(unsigned_hex_digits(stripped).len() == 0);
        return Err(String::from_str("invalid hex byte: ").concat(s));
    }
    let mut acc: u32 = 0;
    let mut i: usize = start;
    while i < n
        invariant
            n == s@.len(),
            start <= i <= n,
            digits == s@.subrange(start as int, n as int),
            acc <= 255,
            all_hex_digits(digits.take(i - start)),
            acc == hex_value(digits.take(i - start)),
        decreases n - i,
    {
        let c = s.get_char(i);
        let cv = c as u32;
        proof {
            assert(digits.take(i + 1 - start).drop_last() =~= digits.take(i - start));
            assert(digits.take(i + 1 - start).last() == s@[i as int]);
        }
        let d: u32 = if cv >= 48 && cv <= 57 {
            cv - 48
        } else if cv >= 97 && cv <= 102 {
            cv - 87
        } else if cv >= 65 && cv <= 70 {
            cv - 55
        } else {
            assert(!is_hex_digit(digits[i - start]));
            assert(!all_hex_digits(digits));
            return Err(String::from_str("invalid hex byte: ").concat(s));
        };
        assert(d == hex_digit_value(s@[i as int]));
        let next = acc * 16 + d;
        if next > 255 {
            proof {
                if all_hex_digits(digits) {
                    lemma_hex_value_monotonic(digits, i + 1 - start);
                    assert(hex_value(digits) > 255);
                }
            }
            return Err(String::from_str("invalid hex byte: ").concat(s));
        }
        acc = next;
        i = i + 1;
    }
    proof {
        assert(digits.take(n - start) =~= digits);
        assert(parses_as_hex_u8(stripped));
    }
    Ok(acc as u8)
}

} // verus!
