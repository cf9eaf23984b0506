//! Binary operators of the ALU and their integer semantics.
use vstd::prelude::*;
use super::conv::{i_i32, f_i32, signed_value};
use vstd::arithmetic::div_mod::{
    lemma_div_is_ordered_by_denominator, lemma_div_pos_is_pos, lemma_mod_bound,
};
use super::bits::{rotl, rotr, rotate_left, rotate_right};

verus! {

/// The 5-bit operator of an `OpIm` / `OpRg` instruction.
#[derive(Clone, Copy, Debug, PartialEq, Eq, Structural)]
pub enum BinaryOperator {
    // Signed integer arithmetic
    Add, Sub, SubR,
    Mul, Div, Mod,
    Min, Max,
    // Floating point arithmetic
    AddF, SubF, SubFR,
    MulF, DivF, ModF,
    MinF, MaxF,
    // Bitwise arithmetic
    And, Or, Xor, Xnor,
    // Unsigned integers
    MinU, MaxU, DivU, ModU,
    // Rots/Shifts
    Rol, Ror,
    Lsl, Lsr, Asr,
    // Special
    Fpintexp,
    Nop,
}

/// The operator number that the machine encoding uses for `op`.
pub open spec fn op_code(op: BinaryOperator) -> u8 {
    match op {
        BinaryOperator::Add => 0,
        BinaryOperator::Sub => 1,
        BinaryOperator::SubR => 2,
        BinaryOperator::Mul => 3,
        BinaryOperator::Div => 4,
        BinaryOperator::Mod => 5,
        BinaryOperator::Min => 6,
        BinaryOperator::Max => 7,
        BinaryOperator::AddF => 8,
        BinaryOperator::SubF => 9,
        BinaryOperator::SubFR => 10,
        BinaryOperator::MulF => 11,
        BinaryOperator::DivF => 12,
        BinaryOperator::ModF => 13,
        BinaryOperator::MinF => 14,
        BinaryOperator::MaxF => 15,
        BinaryOperator::And => 16,
        BinaryOperator::Or => 17,
        BinaryOperator::Xor => 18,
        BinaryOperator::Xnor => 19,
        BinaryOperator::MinU => 20,
        BinaryOperator::MaxU => 21,
        BinaryOperator::DivU => 22,
        BinaryOperator::ModU => 23,
        BinaryOperator::Rol => 24,
        BinaryOperator::Ror => 25,
        BinaryOperator::Lsl => 26,
        BinaryOperator::Lsr => 27,
        BinaryOperator::Asr => 28,
        BinaryOperator::Fpintexp => 29,
        BinaryOperator::Nop => 31,
    }
}

/// The operator that an operator number in `0..=31` denotes (`30` and `31` are `Nop`).
pub open spec fn op_from_code(c: u8) -> BinaryOperator {
    if c == 0 { BinaryOperator::Add }
    else if c == 1 { BinaryOperator::Sub }
    else if c == 2 { BinaryOperator::SubR }
    else if c == 3 { BinaryOperator::Mul }
    else if c == 4 { BinaryOperator::Div }
    else if c == 5 { BinaryOperator::Mod }
    else if c == 6 { BinaryOperator::Min }
    else if c == 7 { BinaryOperator::Max }
    else if c == 8 { BinaryOperator::AddF }
    else if c == 9 { BinaryOperator::SubF }
    else if c == 10 { BinaryOperator::SubFR }
    else if c == 11 { BinaryOperator::MulF }
    else if c == 12 { BinaryOperator::DivF }
    else if c == 13 { BinaryOperator::ModF }
    else if c == 14 { BinaryOperator::MinF }
    else if c == 15 { BinaryOperator::MaxF }
    else if c == 16 { BinaryOperator::And }
    else if c == 17 { BinaryOperator::Or }
    else if c == 18 { BinaryOperator::Xor }
    else if c == 19 { BinaryOperator::Xnor }
    else if c == 20 { BinaryOperator::MinU }
    else if c == 21 { BinaryOperator::MaxU }
    else if c == 22 { BinaryOperator::DivU }
    else if c == 23 { BinaryOperator::ModU }
    else if c == 24 { BinaryOperator::Rol }
    else if c == 25 { BinaryOperator::Ror }
    else if c == 26 { BinaryOperator::Lsl }
    else if c == 27 { BinaryOperator::Lsr }
    else if c == 28 { BinaryOperator::Asr }
    else if c == 29 { BinaryOperator::Fpintexp }
    else { BinaryOperator::Nop }
}

/// True of the operators that work on IEEE-754 single precision values.
pub open spec fn op_is_float(op: BinaryOperator) -> bool {
    match op {
        BinaryOperator::AddF | BinaryOperator::SubF | BinaryOperator::SubFR
        | BinaryOperator::MulF | BinaryOperator::DivF | BinaryOperator::ModF
        | BinaryOperator::MinF | BinaryOperator::MaxF | BinaryOperator::Fpintexp => true,
        _ => false,
    }
}

/// The absolute value of an integer.
pub open spec fn abs(a: int) -> int {
    if a < 0 { -a } else { a }
}

/// Rust's `/` on signed integers: the quotient rounded toward zero.
pub open spec fn trunc_div(a: int, b: int) -> int {
    let q = abs(a) / abs(b);
    if (a < 0) != (b < 0) { -q } else { q }
}

/// Rust's `%` on signed integers: the remainder that takes the sign of the dividend.
pub open spec fn trunc_rem(a: int, b: int) -> int {
    let m = abs(a) % abs(b);
    if a < 0 { -m } else { m }
}

/// Whether a mathematical integer fits in an `i32`.
pub open spec fn fits_i32(x: int) -> bool {
    -0x8000_0000 <= x < 0x8000_0000
}

/// The word whose two's-complement value is `x` (for `x` that fits in an `i32`).
pub open spec fn word_of(x: int) -> u32 {
    (if x >= 0 { x } else { x + 0x1_0000_0000 }) as u32
}

/// Whether `compute` returns on these operands: an integer operator whose
/// arithmetic neither overflows nor divides by zero, and whose shift amount is below 32.
pub open spec fn compute_defined(op: BinaryOperator, lhs: u32, rhs: u32) -> bool {
    let a = signed_value(lhs);
    let b = signed_value(rhs);
    match op {
        BinaryOperator::Add => fits_i32(a + b),
        BinaryOperator::Sub => fits_i32(a - b),
        BinaryOperator::SubR => fits_i32(b - a),
        BinaryOperator::Mul => fits_i32(a * b),
        BinaryOperator::Div | BinaryOperator::Mod => b != 0 && !(a == -0x8000_0000 && b == -1),
        BinaryOperator::DivU | BinaryOperator::ModU => rhs != 0,
        BinaryOperator::Lsl | BinaryOperator::Lsr | BinaryOperator::Asr => rhs < 32,
        _ => !op_is_float(op),
    }
}

/// The integer semantics of an operator.
pub open spec fn spec_compute(op: BinaryOperator, lhs: u32, rhs: u32) -> u32 {
    let a = signed_value(lhs);
    let b = signed_value(rhs);
    match op {
        BinaryOperator::Add => word_of(a + b),
        BinaryOperator::Sub => word_of(a - b),
        BinaryOperator::SubR => word_of(b - a),
        BinaryOperator::Mul => word_of(a * b),
        BinaryOperator::Div => word_of(trunc_div(a, b)),
        BinaryOperator::Mod => word_of(trunc_rem(a, b)),
        BinaryOperator::Min => if a <= b { lhs } else { rhs },
        BinaryOperator::Max => if a >= b { lhs } else { rhs },
        BinaryOperator::And => lhs & rhs,
        BinaryOperator::Or => lhs | rhs,
        BinaryOperator::Xor => lhs ^ rhs,
        BinaryOperator::Xnor => !(lhs ^ rhs),
        BinaryOperator::MinU => if lhs <= rhs { lhs } else { rhs },
        BinaryOperator::MaxU => if lhs >= rhs { lhs } else { rhs },
        BinaryOperator::DivU => lhs / rhs,
        BinaryOperator::ModU => lhs % rhs,
        BinaryOperator::Rol => rotl(lhs, rhs),
        BinaryOperator::Ror => rotr(lhs, rhs),
        BinaryOperator::Lsl => lhs >> rhs,
        BinaryOperator::Lsr => lhs << rhs,
        BinaryOperator::Asr => ((lhs as i32) >> (rhs as i32)) as u32,
        _ => 0,
    }
}

impl BinaryOperator {
    /// The operator number used by the machine encoding.
    pub fn code(&self) -> (c: u8)
        ensures
            c == op_code(*self),
            c <= 31,
    {
        match self {
            BinaryOperator::Add => 0,
            BinaryOperator::Sub => 1,
            BinaryOperator::SubR => 2,
            BinaryOperator::Mul => 3,
            BinaryOperator::Div => 4,
            BinaryOperator::Mod => 5,
            BinaryOperator::Min => 6,
            BinaryOperator::Max => 7,
            BinaryOperator::AddF => 8,
            BinaryOperator::SubF => 9,
            BinaryOperator::SubFR => 10,
            BinaryOperator::MulF => 11,
            BinaryOperator::DivF => 12,
            BinaryOperator::ModF => 13,
            BinaryOperator::MinF => 14,
            BinaryOperator::MaxF => 15,
            BinaryOperator::And => 16,
            BinaryOperator::Or => 17,
            BinaryOperator::Xor => 18,
            BinaryOperator::Xnor => 19,
            BinaryOperator::MinU => 20,
            BinaryOperator::MaxU => 21,
            BinaryOperator::DivU => 22,
            BinaryOperator::ModU => 23,
            BinaryOperator::Rol => 24,
            BinaryOperator::Ror => 25,
            BinaryOperator::Lsl => 26,
            BinaryOperator::Lsr => 27,
            BinaryOperator::Asr => 28,
            BinaryOperator::Fpintexp => 29,
            BinaryOperator::Nop => 31,
        }
    }

    /// Whether this operator works on floating point values.
    pub fn is_float(&self) -> (b: bool)
        ensures
            b == op_is_float(*self),
    {
        match self {
            BinaryOperator::AddF | BinaryOperator::SubF | BinaryOperator::SubFR
            | BinaryOperator::MulF | BinaryOperator::DivF | BinaryOperator::ModF
            | BinaryOperator::MinF | BinaryOperator::MaxF | BinaryOperator::Fpintexp => true,
            _ => false,
        }
    }

    /// The operator with number `op`; numbers `30` and `31` give `Nop`.
    /// Numbers above `31` are not operators.
    pub fn decode(op: u8) -> (r: BinaryOperator)
        requires
            op <= 31,
        ensures
            r == op_from_code(op),
    {
        match op {
            0 => BinaryOperator::Add,
            1 => BinaryOperator::Sub,
            2 => BinaryOperator::SubR,
            3 => BinaryOperator::Mul,
            4 => BinaryOperator::Div,
            5 => BinaryOperator::Mod,
            6 => BinaryOperator::Min,
            7 => BinaryOperator::Max,
            8 => BinaryOperator::AddF,
            9 => BinaryOperator::SubF,
            10 => BinaryOperator::SubFR,
            11 => BinaryOperator::MulF,
            12 => BinaryOperator::DivF,
            13 => BinaryOperator::ModF,
            14 => BinaryOperator::MinF,
            15 => BinaryOperator::MaxF,
            16 => BinaryOperator::And,
            17 => BinaryOperator::Or,
            18 => BinaryOperator::Xor,
            19 => BinaryOperator::Xnor,
            20 => BinaryOperator::MinU,
            21 => BinaryOperator::MaxU,
            22 => BinaryOperator::DivU,
            23 => BinaryOperator::ModU,
            24 => BinaryOperator::Rol,
            25 => BinaryOperator::Ror,
            26 => BinaryOperator::Lsl,
            27 => BinaryOperator::Lsr,
            28 => BinaryOperator::Asr,
            29 => BinaryOperator::Fpintexp,
            _ => BinaryOperator::Nop,
        }
    }

    /// Applies an integer operator to two register words.
    /// The floating point operators are computed by a `FloatUnit`.
    pub fn compute(&self, lhs: u32, rhs: u32) -> (r: u32)
        requires
            compute_defined(*self, lhs, rhs),
        ensures
            r == spec_compute(*self, lhs, rhs),
    {
        let a = i_i32(lhs);
        let b = i_i32(rhs);
        match self {
            BinaryOperator::Add => f_i32(a + b),
            BinaryOperator::Sub => f_i32(a - b),
            BinaryOperator::SubR => f_i32(b - a),
            BinaryOperator::Mul => f_i32(a * b),
            BinaryOperator::Div => {
                f_i32(i32_div(a, b))
            },
            BinaryOperator::Mod => {
                f_i32(i32_rem(a, b))
            },
            BinaryOperator::Min => if a <= b { lhs } else { rhs },
            BinaryOperator::Max => if a >= b { lhs } else { rhs },
            BinaryOperator::And => lhs & rhs,
            BinaryOperator::Or => lhs | rhs,
            BinaryOperator::Xor => lhs ^ rhs,
            BinaryOperator::Xnor => !(lhs ^ rhs),
            BinaryOperator::MinU => if lhs <= rhs { lhs } else { rhs },
            BinaryOperator::MaxU => if lhs >= rhs { lhs } else { rhs },
            BinaryOperator::DivU => lhs / rhs,
            BinaryOperator::ModU => lhs % rhs,
            BinaryOperator::Rol => rotate_left(lhs, rhs),
            BinaryOperator::Ror => rotate_right(lhs, rhs),
            BinaryOperator::Lsl => lhs >> rhs,
            BinaryOperator::Lsr => lhs << rhs,
            BinaryOperator::Asr => f_i32(a >> b),
            BinaryOperator::Nop => 0,
            _ => 0,
        }
    }
}

/// Rust's signed division, rounding toward zero.
fn i32_div(a: i32, b: i32) -> (q: i32)
    requires
        b != 0,
        !(a == i32::MIN && b == -1),
    ensures
        q as int == trunc_div(a as int, b as int),
{
    let ghost x = abs(a as int);
    let ghost d = abs(b as int);
    proof {
        lemma_div_is_ordered_by_denominator(x, 1, d);
        lemma_div_pos_is_pos(x, d);
        if d != 1 {
            lemma_div_is_ordered_by_denominator(x, 2, d);
        }
        assert(a * -1 == -a);
        assert(b * -1 == -b);
    }
    let o = a.checked_div(b);
    o.unwrap()
}

/// Rust's signed remainder, which takes the sign of the dividend.
fn i32_rem(a: i32, b: i32) -> (r: i32)
    requires
        b != 0,
        !(a == i32::MIN && b == -1),
    ensures
        r as int == trunc_rem(a as int, b as int),
{
    let ghost x = a as int;
    let ghost d = b as int;
    let ghost m = abs(x) % abs(d);
    proof {
        lemma_mod_bound(abs(x), abs(d));
        assert(x * -1 == -x);
        assert(d * -1 == -d);
    }
    let o = a.checked_rem(b);
    proof {
        if x == 0 {
            assert(m == 0);
        } else if x > 0 && d > 0 {
            assert(o == Some(m as i32));
        } else if x < 0 && d < 0 {
            assert(o == Some((-m) as i32));
        } else if x < 0 {
            assert(o == Some((-m) as i32));
        } else {
            assert(o == Some(m as i32));
        }
    }
    o.unwrap()
}

/// Every operator's number decodes back to the operator.
pub proof fn lemma_op_code_roundtrip(op: BinaryOperator)
    ensures
        op_from_code(op_code(op)) == op,
        op_code(op) <= 31,
{
}

} // verus!
