//! What the command line of the emulator accepts: register numbers and values.
use vstd::prelude::*;
use crate::text::{chars_of, starts_with};
use crate::numtext::{
    digit_of, digit_value, parse_unsigned, parse_unsigned_spec, parse_i32, parse_i32_spec,
};
use crate::machine::instructions::binop::word_of;
use crate::machine::instructions::conv::f_i32;

verus! {

/// A register number written as one hexadecimal digit from `1` to `F` (either case).
pub open spec fn reg_index_spec(s: Seq<char>) -> Option<nat> {
    if s.len() == 1 {
        match digit_of(s[0], 16) {
            Some(v) => if v >= 1 { Some(v) } else { None },
            None => None,
        }
    } else {
        None
    }
}

/// Parses one hexadecimal digit `1` to `F` (or `f`) into a register number; zero,
/// longer text and other characters are refused.
pub fn parse_reg_index(s: &str) -> (r: Option<usize>)
    ensures
        r matches Some(v) ==> reg_index_spec(s@) == Some(v as nat),
        r is None ==> reg_index_spec(s@) is None,
{
    let v = chars_of(s);
    if v.len() != 1 {
        return None;
    }
    match digit_value(v[0], 16) {
        Some(d) => if d >= 1 { Some(d as usize) } else { None },
        None => None,
    }
}

/// Why a register value was refused.
#[derive(Debug, Clone, Copy, PartialEq, Eq, Structural)]
pub enum RegisterValueError {
    /// The value is zero.
    Zero,
    /// Text starting with `-` that is not a 32-bit signed integer.
    InvalidSigned,
    /// Other text that is not a 32-bit unsigned integer.
    InvalidUnsigned,
}

/// The register value that command-line text stands for: a negative 32-bit signed
/// integer (as its two's complement bits) when the text starts with `-`, otherwise
/// a 32-bit unsigned integer; zero is refused either way.
pub open spec fn register_value_spec(s: Seq<char>) -> Result<u32, RegisterValueError> {
    if starts_with(s, seq!['-']) {
        match parse_i32_spec(s) {
            None => Err(RegisterValueError::InvalidSigned),
            Some(v) => if v == 0 { Err(RegisterValueError::Zero) } else { Ok(word_of(v)) },
        }
    } else {
        match parse_unsigned_spec(s, 10, 0xffff_ffff) {
            None => Err(RegisterValueError::InvalidUnsigned),
            Some(v) => if v == 0 { Err(RegisterValueError::Zero) } else { Ok(v as u32) },
        }
    }
}

/// Parses the value of a register given on the command line.
pub fn parse_register_value(s: &str) -> (r: Result<u32, RegisterValueError>)
    ensures
        r == register_value_spec(s@),
{
    let v = chars_of(s);
    proof {
        if starts_with(v@, seq!['-']) {
            assert(v@.subrange(0, 1)[0] == v@[0]);
        }
    }
    if v.len() > 0 && v[0] == '-' {
        assert(v@.subrange(0, 1) =~= seq!['-']);
        match parse_i32(&v) {
            None => Err(RegisterValueError::InvalidSigned),
            Some(x) => if x == 0 { Err(RegisterValueError::Zero) } else { Ok(f_i32(x)) },
        }
    } else {
        match parse_unsigned(&v, 10, 0xffff_ffff) {
            None => Err(RegisterValueError::InvalidUnsigned),
            Some(x) => if x == 0 { Err(RegisterValueError::Zero) } else { Ok(x as u32) },
        }
    }
}

} // verus!
