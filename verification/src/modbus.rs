//! Register decoding for the Modbus layer.
//!
//! A 32-bit quantity arrives as two 16-bit registers; devices disagree on
//! which register is the high word and on the byte order inside each word,
//! so the caller names both conventions.

use vstd::prelude::*;

use crate::text::str_eq;

verus! {

broadcast use vstd::string::group_string_axioms;

/// The 16-bit value with its two bytes exchanged.
pub open spec fn swap_u16(r: u16) -> int {
    (r % 256) * 256 + r / 256
}

/// The 32-bit value assembled from a high and a low 16-bit word.
pub open spec fn word_pair_value(hi: int, lo: int) -> int {
    hi * 0x10000 + lo
}

/// Combine two registers into a `u32`.
///
/// `register_order` says which register holds the high word: `high_first`
/// puts `reg1` high, `low_first` puts `reg2` high. `byte_order` says how
/// the bytes inside each word are to be read: `big_endian` as transmitted,
/// `little_endian` with the bytes of each word exchanged. Any other name
/// is rejected, the register order being checked first.
pub fn registers_to_u32(reg1: u16, reg2: u16, register_order: &str, byte_order: &str) -> (r:
    Result<u32, String>)
    ensures
        r is Ok <==> ((register_order@ == "high_first"@ || register_order@ == "low_first"@) && (
        byte_order@ == "big_endian"@ || byte_order@ == "little_endian"@)),
        !(register_order@ == "high_first"@ || register_order@ == "low_first"@) ==> (r matches Err(e)
            && e@ == "Invalid register order"@),
        (register_order@ == "high_first"@ || register_order@ == "low_first"@) && !(byte_order@
            == "big_endian"@ || byte_order@ == "little_endian"@) ==> (r matches Err(e) && e@
            == "Invalid byte order. Use 'big_endian' or 'little_endian'."@),
        r matches Ok(v) ==> {
            &&& register_order@ == "high_first"@ && byte_order@ == "big_endian"@ ==> v
                == word_pair_value(reg1 as int, reg2 as int)
            &&& register_order@ == "low_first"@ && byte_order@ == "big_endian"@ ==> v
                == word_pair_value(reg2 as int, reg1 as int)
            &&& register_order@ == "high_first"@ && byte_order@ == "little_endian"@ ==> v
                == word_pair_value(swap_u16(reg2), swap_u16(reg1))
            &&& register_order@ == "low_first"@ && byte_order@ == "little_endian"@ ==> v
                == word_pair_value(swap_u16(reg1), swap_u16(reg2))
        },
{
    proof {
        reveal_strlit("high_first");
        reveal_strlit("low_first");
        reveal_strlit("big_endian");
        reveal_strlit("little_endian");
        assert("high_first"@.len() == 10);
        assert("low_first"@.len() == 9);
        assert("high_first"@ != "low_first"@);
        assert("big_endian"@.len() == 10);
        assert("little_endian"@.len() == 13);
        assert("big_endian"@ != "little_endian"@);
    }
    let high_first = str_eq(register_order, "high_first");
    let low_first = str_eq(register_order, "low_first");
    if !high_first && !low_first {
        return Err(String::from_str("Invalid register order"));
    }
    let hi: u16 = if high_first { reg1 } else { reg2 };
    let lo: u16 = if high_first { reg2 } else { reg1 };
    if str_eq(byte_order, "big_endian") {
        let v: u32 = (hi as u32) * 0x10000 + (lo as u32);
        assert(high_first ==> v == word_pair_value(reg1 as int, reg2 as int));
        assert(!high_first ==> v == word_pair_value(reg2 as int, reg1 as int));
        Ok(v)
    } else if str_eq(byte_order, "little_endian") {
        let hi_swapped: u16 = (hi % 256) * 256 + hi / 256;
        let lo_swapped: u16 = (lo % 256) * 256 + lo / 256;
        assert(hi_swapped == swap_u16(hi) && lo_swapped == swap_u16(lo));
        let v: u32 = (lo_swapped as u32) * 0x10000 + (hi_swapped as u32);
        assert(high_first ==> v == word_pair_value(swap_u16(reg2), swap_u16(reg1)));
        assert(!high_first ==> v == word_pair_value(swap_u16(reg1), swap_u16(reg2)));
        Ok(v)
    } else {
        Err(String::from_str("Invalid byte order. Use 'big_endian' or 'little_endian'."))
    }
}

} // verus!
