//! Branch conditions.
use vstd::prelude::*;
use super::conv::{i_i32, signed_value};
use super::bits::{popcount, count_ones};

verus! {

/// The 4-bit condition of a `BrCoIm` / `BrCoRg` instruction.
/// Each odd-numbered condition is the negation of the even-numbered one before it.
#[derive(Clone, Copy, Debug, PartialEq, Eq, Structural)]
pub enum Condition {
    Eq, NEq,
    Gt, NGt,
    GtU, NGtU,
    Mask, NMask,
    EqF, NEqF,
    GtF, NGtF,
    Par, NPar,
    Even, NEven,
}

/// The condition number that the machine encoding uses.
pub open spec fn cond_code(c: Condition) -> u8 {
    match c {
        Condition::Eq => 0,
        Condition::NEq => 1,
        Condition::Gt => 2,
        Condition::NGt => 3,
        Condition::GtU => 4,
        Condition::NGtU => 5,
        Condition::Mask => 6,
        Condition::NMask => 7,
        Condition::EqF => 8,
        Condition::NEqF => 9,
        Condition::GtF => 10,
        Condition::NGtF => 11,
        Condition::Par => 12,
        Condition::NPar => 13,
        Condition::Even => 14,
        Condition::NEven => 15,
    }
}

/// The condition that a number in `0..=15` denotes.
pub open spec fn cond_from_code(c: u8) -> Condition {
    if c == 0 { Condition::Eq }
    else if c == 1 { Condition::NEq }
    else if c == 2 { Condition::Gt }
    else if c == 3 { Condition::NGt }
    else if c == 4 { Condition::GtU }
    else if c == 5 { Condition::NGtU }
    else if c == 6 { Condition::Mask }
    else if c == 7 { Condition::NMask }
    else if c == 8 { Condition::EqF }
    else if c == 9 { Condition::NEqF }
    else if c == 10 { Condition::GtF }
    else if c == 11 { Condition::NGtF }
    else if c == 12 { Condition::Par }
    else if c == 13 { Condition::NPar }
    else if c == 14 { Condition::Even }
    else { Condition::NEven }
}

/// The bit pattern of an IEEE-754 single precision NaN.
pub open spec fn f32_is_nan(x: u32) -> bool {
    (x & 0x7f80_0000) == 0x7f80_0000 && (x & 0x007f_ffff) != 0
}

/// IEEE-754 equality of two single precision values given by their bits:
/// a NaN equals nothing, and the two zeros are equal.
pub open spec fn f32_eq(a: u32, b: u32) -> bool {
    !f32_is_nan(a) && !f32_is_nan(b)
        && (a == b || ((a & 0x7fff_ffff) == 0 && (b & 0x7fff_ffff) == 0))
}

/// IEEE-754 `a > b` of two single precision values given by their bits.
pub open spec fn f32_gt(a: u32, b: u32) -> bool {
    let ma = a & 0x7fff_ffff;
    let mb = b & 0x7fff_ffff;
    let na = a >= 0x8000_0000;
    let nb = b >= 0x8000_0000;
    !f32_is_nan(a) && !f32_is_nan(b) && !(ma == 0 && mb == 0) && (
        if !na && !nb { ma > mb }
        else if na && nb { ma < mb }
        else { !na }
    )
}

/// The relation that a condition tests before its negation bit is applied.
pub open spec fn base_relation(c: Condition, rhs: u32, lhs: u32) -> bool {
    match c {
        Condition::Eq | Condition::NEq => rhs == lhs,
        Condition::Gt | Condition::NGt => signed_value(rhs) > signed_value(lhs),
        Condition::GtU | Condition::NGtU => rhs >= lhs,
        Condition::Mask | Condition::NMask => (rhs & lhs) == 0,
        Condition::EqF | Condition::NEqF => f32_eq(rhs, lhs),
        Condition::GtF | Condition::NGtF => f32_gt(rhs, lhs),
        Condition::Par | Condition::NPar => popcount(rhs) == popcount(lhs),
        Condition::Even | Condition::NEven => rhs % 2 == lhs % 2,
    }
}

/// What `compare` returns: the base relation, negated for odd-numbered conditions.
pub open spec fn spec_compare(c: Condition, rhs: u32, lhs: u32) -> bool {
    if cond_code(c) % 2 == 0 { base_relation(c, rhs, lhs) } else { !base_relation(c, rhs, lhs) }
}

/// The condition with the opposite outcome.
pub open spec fn spec_negate(c: Condition) -> Condition {
    cond_from_code(if cond_code(c) % 2 == 0 { (cond_code(c) + 1) as u8 } else { (cond_code(c) - 1) as u8 })
}

/// IEEE-754 equality on bit patterns.
fn f32_bits_eq(a: u32, b: u32) -> (r: bool)
    ensures
        r == f32_eq(a, b),
{
    let a_nan = (a & 0x7f80_0000) == 0x7f80_0000 && (a & 0x007f_ffff) != 0;
    let b_nan = (b & 0x7f80_0000) == 0x7f80_0000 && (b & 0x007f_ffff) != 0;
    !a_nan && !b_nan && (a == b || ((a & 0x7fff_ffff) == 0 && (b & 0x7fff_ffff) == 0))
}

/// IEEE-754 `a > b` on bit patterns.
fn f32_bits_gt(a: u32, b: u32) -> (r: bool)
    ensures
        r == f32_gt(a, b),
{
    let a_nan = (a & 0x7f80_0000) == 0x7f80_0000 && (a & 0x007f_ffff) != 0;
    let b_nan = (b & 0x7f80_0000) == 0x7f80_0000 && (b & 0x007f_ffff) != 0;
    let ma = a & 0x7fff_ffff;
    let mb = b & 0x7fff_ffff;
    let na = a >= 0x8000_0000;
    let nb = b >= 0x8000_0000;
    if a_nan || b_nan || (ma == 0 && mb == 0) {
        false
    } else if !na && !nb {
        ma > mb
    } else if na && nb {
        ma < mb
    } else {
        !na
    }
}

impl Condition {
    /// The condition number used by the machine encoding.
    pub fn code(&self) -> (c: u8)
        ensures
            c == cond_code(*self),
            c <= 15,
    {
        match self {
            Condition::Eq => 0,
            Condition::NEq => 1,
            Condition::Gt => 2,
            Condition::NGt => 3,
            Condition::GtU => 4,
            Condition::NGtU => 5,
            Condition::Mask => 6,
            Condition::NMask => 7,
            Condition::EqF => 8,
            Condition::NEqF => 9,
            Condition::GtF => 10,
            Condition::NGtF => 11,
            Condition::Par => 12,
            Condition::NPar => 13,
            Condition::Even => 14,
            Condition::NEven => 15,
        }
    }

    /// Tests the condition on two register words.
    pub fn compare(&self, rhs: u32, lhs: u32) -> (b: bool)
        ensures
            b == spec_compare(*self, rhs, lhs),
    {
        let r = match self {
            Condition::Eq | Condition::NEq => rhs == lhs,
            Condition::Gt | Condition::NGt => i_i32(rhs) > i_i32(lhs),
            Condition::GtU | Condition::NGtU => rhs >= lhs,
            Condition::Mask | Condition::NMask => (rhs & lhs) == 0,
            Condition::EqF | Condition::NEqF => f32_bits_eq(rhs, lhs),
            Condition::GtF | Condition::NGtF => f32_bits_gt(rhs, lhs),
            Condition::Par | Condition::NPar => count_ones(rhs) == count_ones(lhs),
            Condition::Even | Condition::NEven => rhs % 2 == lhs % 2,
        };
        let code = self.code();
        proof { assert(code & 1 == code % 2) by (bit_vector); }
        if code & 1 == 0 { r } else { !r }
    }

    /// The condition with number `op`; numbers above 15 are not conditions.
    pub fn decode(op: u8) -> (c: Condition)
        requires
            op <= 15,
        ensures
            c == cond_from_code(op),
    {
        match op {
            0 => Condition::Eq,
            1 => Condition::NEq,
            2 => Condition::Gt,
            3 => Condition::NGt,
            4 => Condition::GtU,
            5 => Condition::NGtU,
            6 => Condition::Mask,
            7 => Condition::NMask,
            8 => Condition::EqF,
            9 => Condition::NEqF,
            10 => Condition::GtF,
            11 => Condition::NGtF,
            12 => Condition::Par,
            13 => Condition::NPar,
            14 => Condition::Even,
            _ => Condition::NEven,
        }
    }
}

/// Every condition number decodes back to its condition.
pub proof fn lemma_condition_code_roundtrip(c: Condition)
    ensures
        cond_from_code(cond_code(c)) == c,
        cond_code(c) <= 15,
{
}

/// Every number in `0..=15` is the code of the condition it decodes to.
pub proof fn lemma_condition_decode_code(n: u8)
    requires
        n <= 15,
    ensures
        cond_code(cond_from_code(n)) == n,
{
}

/// Negating a condition flips the outcome of every comparison, and negating twice
/// gives the condition back.
pub proof fn lemma_negate_flips(c: Condition, rhs: u32, lhs: u32)
    ensures
        spec_compare(spec_negate(c), rhs, lhs) == !spec_compare(c, rhs, lhs),
        spec_negate(spec_negate(c)) == c,
{
}

} // verus!
