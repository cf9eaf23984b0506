//! Raw bit reinterpretation between `u32` words and signed integers.
use vstd::prelude::*;

verus! {

/// Two's-complement value of a 32-bit word, as a mathematical integer.
pub open spec fn signed_value(v: u32) -> int {
    if v < 0x8000_0000 { v as int } else { v as int - 0x1_0000_0000 }
}

/// Reinterprets the bits of a `u32` as an `i32`.
pub fn i_i32(v: u32) -> (r: i32)
    ensures
        r == v as i32,
        r as int == signed_value(v),
{
    assert((v as i32) as int == if v < 0x8000_0000 { v as int } else { v as int - 0x1_0000_0000 })
        by (bit_vector);
    #[verifier::truncate]
    (v as i32)
}

/// Reinterprets the bits of an `i32` as a `u32`.
pub fn f_i32(v: i32) -> (r: u32)
    ensures
        r == v as u32,
        r as int == if v >= 0 { v as int } else { v as int + 0x1_0000_0000 },
        signed_value(r) == v as int,
{
    assert((v as u32) as int == if v >= 0 { v as int } else { v as int + 0x1_0000_0000 })
        by (bit_vector);
    #[verifier::truncate]
    (v as u32)
}

} // verus!
