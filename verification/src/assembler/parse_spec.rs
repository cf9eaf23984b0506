//! What parsing a line of assembly yields, stated over sequences of characters.
use vstd::prelude::*;
use crate::machine::{BinaryOperator, Condition, Instruction};
use crate::text::{
    is_ascii_ws, is_hex_digit, trim, trim_start, starts_with, strip_prefix, strip_suffix,
    find, rfind, occurs_at,
};
use crate::numtext::{parse_unsigned_spec, dec, hex_upper};

verus! {

/// The errors of parsing, with their messages as character sequences.
pub enum ParseErrorModel {
    InvalidSyntax(Seq<char>),
    InvalidRegister(Seq<char>),
    InvalidOperator(Seq<char>),
    InvalidOperand(Seq<char>),
    NonStrict(Seq<char>),
    ImmediateOutOfRange { value: u64, bits: u32 },
    Unimplemented(Seq<char>),
}

impl ParseErrorModel {
    /// The error's message, as `Display` writes it.
    pub open spec fn message(self) -> Seq<char> {
        match self {
            ParseErrorModel::InvalidSyntax(s) => "invalid syntax: "@ + s,
            ParseErrorModel::InvalidRegister(s) => "invalid register: "@ + s,
            ParseErrorModel::InvalidOperator(s) => "unknown operator: "@ + s,
            ParseErrorModel::InvalidOperand(s) => "invalid operand: "@ + s,
            ParseErrorModel::NonStrict(s) => "non-strict instruction: "@ + s,
            ParseErrorModel::ImmediateOutOfRange { value, bits } =>
                "immediate "@ + dec(value as nat) + " does not fit in "@ + dec(bits as nat) + " bits"@,
            ParseErrorModel::Unimplemented(s) => "unimplemented: "@ + s,
        }
    }
}

/// An operand of an instruction, as written in assembly.
#[derive(Debug, Clone, Copy)]
pub enum Operand {
    Zero,
    Reg(u8),
    MemReg(u8),
    RegIdx { base: u8, idx: u8, mul: u32 },
    MemRegMul { idx: u8, mul: u32 },
    Imm(u32),
    MemImm(u32),
}

/// The `Debug` text of an operand.
pub open spec fn operand_debug(o: Operand) -> Seq<char> {
    match o {
        Operand::Zero => "Zero"@,
        Operand::Reg(r) => "Reg("@ + dec(r as nat) + ")"@,
        Operand::MemReg(r) => "MemReg("@ + dec(r as nat) + ")"@,
        Operand::RegIdx { base, idx, mul } =>
            "RegIdx { base: "@ + dec(base as nat) + ", idx: "@ + dec(idx as nat) + ", mul: "@ + dec(mul as nat) + " }"@,
        Operand::MemRegMul { idx, mul } =>
            "MemRegMul { idx: "@ + dec(idx as nat) + ", mul: "@ + dec(mul as nat) + " }"@,
        Operand::Imm(v) => "Imm("@ + dec(v as nat) + ")"@,
        Operand::MemImm(v) => "MemImm("@ + dec(v as nat) + ")"@,
    }
}

/// An operand as an operand byte and multiplier.
pub open spec fn sp_to_r_rix(o: Operand) -> Result<(u8, u32), ParseErrorModel> {
    match o {
        Operand::Zero => Ok((0u8, 1u32)),
        Operand::Reg(r) => Ok(((r as u32 * 16) as u8, 1u32)),
        Operand::MemReg(rix) => Ok((rix, 1u32)),
        Operand::RegIdx { base, idx, mul } => Ok((((base as u32 * 16) as u8 | idx) as u8, mul)),
        Operand::MemRegMul { idx, mul } => Ok((idx, mul)),
        _ => Err(ParseErrorModel::NonStrict(operand_debug(o) + " is not a valid r_rix operand"@)),
    }
}

/// An operand as an operand byte that must not carry a multiplier.
pub open spec fn sp_to_r_rix_no_mul(o: Operand) -> Result<u8, ParseErrorModel> {
    match sp_to_r_rix(o) {
        Ok((rrix, mul)) => if mul != 1 {
            Err(ParseErrorModel::NonStrict("multipliers are not permitted on operands in this instruction form"@))
        } else {
            Ok(rrix)
        },
        Err(e) => Err(e),
    }
}

/// An operand that must be a plain register (or zero).
pub open spec fn sp_to_reg4(o: Operand) -> Result<u8, ParseErrorModel> {
    match o {
        Operand::Zero => Ok(0u8),
        Operand::Reg(r) => Ok(r),
        _ => Err(ParseErrorModel::NonStrict(operand_debug(o) + " is not a plain register, but immediate mode requires one"@)),
    }
}

/// The length of a register name `r` plus an optional hex digit, and an optional
/// bracket group, starting at index `i`.
pub open spec fn reg_token_end(b: Seq<char>, i: int) -> int {
    let j = if i < b.len() && is_hex_digit(b[i]) { i + 1 } else { i };
    if j < b.len() && b[j] == '[' {
        let k = bracket_end(b, j + 1);
        if k < b.len() { k + 1 } else { k }
    } else {
        j
    }
}

/// The index of the first `]` at or after `i`, or the end.
pub open spec fn bracket_end(b: Seq<char>, i: int) -> int
    decreases b.len() - i,
{
    if i >= b.len() || b[i] == ']' { i } else { bracket_end(b, i + 1) }
}

/// The index of the first ASCII white space at or after `i`, or the end.
pub open spec fn word_end(b: Seq<char>, i: int) -> int
    decreases b.len() - i,
{
    if i >= b.len() || is_ascii_ws(b[i]) { i } else { word_end(b, i + 1) }
}

/// Splits one operand token off the start of `s`, returning the token and the rest
/// without leading white space.
pub open spec fn sp_consume_operand(s0: Seq<char>) -> Option<(Seq<char>, Seq<char>)> {
    let s = trim_start(s0);
    if s.len() == 0 {
        None
    } else {
        let i: int = if s[0] == '@' {
            if 1 < s.len() && s[1] == 'r' { reg_token_end(s, 2) } else { word_end(s, 1) }
        } else if s[0] == 'r' {
            reg_token_end(s, 1)
        } else {
            word_end(s, 0)
        };
        if s[0] != '@' && s[0] != 'r' && i == 0 {
            None
        } else {
            Some((s.take(i), trim_start(s.skip(i))))
        }
    }
}

/// An integer literal: hexadecimal after `0x`/`0X`, binary after `0b`/`0B`, else decimal.
pub open spec fn sp_parse_int(s0: Seq<char>) -> Option<u64> {
    let s = trim(s0);
    let r = if strip_prefix(s, "0x"@) is Some {
        parse_unsigned_spec(strip_prefix(s, "0x"@).unwrap(), 16, u64::MAX as nat)
    } else if strip_prefix(s, "0X"@) is Some {
        parse_unsigned_spec(strip_prefix(s, "0X"@).unwrap(), 16, u64::MAX as nat)
    } else if strip_prefix(s, "0b"@) is Some {
        parse_unsigned_spec(strip_prefix(s, "0b"@).unwrap(), 2, u64::MAX as nat)
    } else if strip_prefix(s, "0B"@) is Some {
        parse_unsigned_spec(strip_prefix(s, "0B"@).unwrap(), 2, u64::MAX as nat)
    } else {
        parse_unsigned_spec(s, 10, u64::MAX as nat)
    };
    match r {
        Some(v) => Some(v as u64),
        None => None,
    }
}

/// A register name `r1` to `rF`.
pub open spec fn sp_parse_reg_name(s0: Seq<char>) -> Result<u8, ParseErrorModel> {
    let s = trim(s0);
    match strip_prefix(s, seq!['r']) {
        None => Err(ParseErrorModel::InvalidRegister(s)),
        Some(hex) => match parse_unsigned_spec(hex, 16, 255) {
            None => Err(ParseErrorModel::InvalidRegister(s)),
            Some(n) => if n == 0 || n > 15 {
                Err(ParseErrorModel::InvalidRegister("register r"@ + hex_upper(n) + " out of range r1..=rF"@))
            } else {
                Ok(n as u8)
            },
        },
    }
}

/// The product of the multipliers `parts`, each trimmed, in 32-bit wrapping arithmetic.
pub open spec fn sp_fold_mul(parts: Seq<Seq<char>>, acc: u32, whole: Seq<char>) -> Result<u32, ParseErrorModel>
    decreases parts.len(),
{
    if parts.len() == 0 {
        Ok(acc)
    } else {
        match parse_unsigned_spec(trim(parts[0]), 10, u32::MAX as nat) {
            None => Err(ParseErrorModel::InvalidSyntax(
                "invalid multiplier '"@ + parts[0] + "' in '"@ + whole + "'"@)),
            Some(v) => sp_fold_mul(parts.drop_first(), ((acc as nat * v) % 0x1_0000_0000) as u32, whole),
        }
    }
}

/// `str::split` on one character.
pub open spec fn split_on(s: Seq<char>, c: char) -> Seq<Seq<char>>
    decreases s.len(),
{
    match find(s, seq![c]) {
        None => seq![s],
        Some(i) => {
            proof { crate::text::lemma_find(s, seq![c]); }
            seq![s.take(i)] + split_on(s.skip(i + 1), c)
        },
    }
}

/// Whether text looks like a float literal: it holds a `.`, or an `e` without
/// starting with `0x`.
pub open spec fn looks_float(s: Seq<char>) -> bool {
    s.contains('.') || (s.contains('e') && !starts_with(s, "0x"@))
}

/// An operand after `@`: `@rx`, `@rx[*m]`, or `@N`. `s` is the whole operand.
pub open spec fn sp_parse_mem_operand(s: Seq<char>) -> Result<Operand, ParseErrorModel> {
    let rest = s.drop_first();
    if rest.len() > 0 && rest[0] == 'r' {
        match find(rest, seq!['[']) {
            Some(bi) => match sp_parse_reg_name(rest.take(bi)) {
                Err(e) => Err(e),
                Ok(rix) => match strip_suffix(rest.skip(bi + 1), seq![']']) {
                    None => Err(ParseErrorModel::InvalidSyntax("unclosed '[' in '"@ + s + "'"@)),
                    Some(inner) => {
                        let m = match strip_prefix(inner, seq!['*']) {
                            Some(t) => parse_unsigned_spec(trim(t), 10, u32::MAX as nat),
                            None => None,
                        };
                        match m {
                            None => Err(ParseErrorModel::InvalidSyntax(
                                "expected '*N' inside brackets in '"@ + s + "'"@)),
                            Some(mul) => Ok(Operand::MemRegMul { idx: rix, mul: mul as u32 }),
                        }
                    },
                },
            },
            None => match sp_parse_reg_name(rest) {
                Err(e) => Err(e),
                Ok(r) => Ok(Operand::MemReg(r)),
            },
        }
    } else {
        match sp_parse_int(rest) {
            None => Err(ParseErrorModel::InvalidOperand(s)),
            Some(v) => Ok(Operand::MemImm(v as u32)),
        }
    }
}

/// An operand starting with `r`: `rx` or `rx[ry*k*...]`.
pub open spec fn sp_parse_reg_operand(s: Seq<char>) -> Result<Operand, ParseErrorModel> {
    match find(s, seq!['[']) {
        Some(bi) => match sp_parse_reg_name(s.take(bi)) {
            Err(e) => Err(e),
            Ok(base) => match strip_suffix(s.skip(bi + 1), seq![']']) {
                None => Err(ParseErrorModel::InvalidSyntax("unclosed '[' in '"@ + s + "'"@)),
                Some(inner) => {
                    let parts = split_on(inner, '*');
                    match sp_parse_reg_name(trim(parts[0])) {
                        Err(e) => Err(e),
                        Ok(idx) => match sp_fold_mul(parts.drop_first(), 1, s) {
                            Err(e) => Err(e),
                            Ok(mul) => Ok(Operand::RegIdx { base, idx, mul }),
                        },
                    }
                },
            },
        },
        None => match sp_parse_reg_name(s) {
            Err(e) => Err(e),
            Ok(r) => Ok(Operand::Reg(r)),
        },
    }
}

/// One operand.
pub open spec fn sp_parse_operand(s0: Seq<char>) -> Result<Operand, ParseErrorModel> {
    let s = trim(s0);
    if s == seq!['0'] {
        Ok(Operand::Zero)
    } else if looks_float(s) {
        Err(ParseErrorModel::Unimplemented("float literal parsing is not yet implemented"@))
    } else if s.len() > 0 && s[0] == '@' {
        sp_parse_mem_operand(s)
    } else if s.len() > 0 && s[0] == 'r' {
        sp_parse_reg_operand(s)
    } else {
        match sp_parse_int(s) {
            Some(v) => Ok(Operand::Imm(v as u32)),
            None => Err(ParseErrorModel::InvalidOperand(s)),
        }
    }
}

/// Binary operator token number `i` (of 30), longest match first.
pub open spec fn binop_token(i: int) -> Seq<char> {
    if i == 0 { ">>>"@ }
    else if i == 1 { "<<f"@ }
    else if i == 2 { "-rf"@ }
    else if i == 3 { ">>"@ }
    else if i == 4 { "<<"@ }
    else if i == 5 { "!^"@ }
    else if i == 6 { "-r"@ }
    else if i == 7 { "+f"@ }
    else if i == 8 { "-f"@ }
    else if i == 9 { "*f"@ }
    else if i == 10 { "/f"@ }
    else if i == 11 { "%f"@ }
    else if i == 12 { "/u"@ }
    else if i == 13 { "%u"@ }
    else if i == 14 { "minu"@ }
    else if i == 15 { "maxu"@ }
    else if i == 16 { "minf"@ }
    else if i == 17 { "maxf"@ }
    else if i == 18 { "min"@ }
    else if i == 19 { "max"@ }
    else if i == 20 { "rol"@ }
    else if i == 21 { "ror"@ }
    else if i == 22 { "+"@ }
    else if i == 23 { "-"@ }
    else if i == 24 { "*"@ }
    else if i == 25 { "/"@ }
    else if i == 26 { "%"@ }
    else if i == 27 { "&"@ }
    else if i == 28 { "|"@ }
    else { "^"@ }
}

/// The binary operator tokens, longest match first.
pub open spec fn binop_tokens() -> Seq<Seq<char>> {
    Seq::new(30, |i: int| binop_token(i))
}

/// Condition token number `i` (of 16), longest match first.
pub open spec fn cond_token(i: int) -> Seq<char> {
    if i == 0 { "==f"@ }
    else if i == 1 { "!=f"@ }
    else if i == 2 { "<=f"@ }
    else if i == 3 { ">f"@ }
    else if i == 4 { "=="@ }
    else if i == 5 { "!="@ }
    else if i == 6 { "<=u"@ }
    else if i == 7 { ">u"@ }
    else if i == 8 { "<="@ }
    else if i == 9 { ">"@ }
    else if i == 10 { "!&"@ }
    else if i == 11 { "!%2"@ }
    else if i == 12 { "!p"@ }
    else if i == 13 { "&"@ }
    else if i == 14 { "%2"@ }
    else { "p"@ }
}

/// The condition tokens, longest match first.
pub open spec fn cond_tokens() -> Seq<Seq<char>> {
    Seq::new(16, |i: int| cond_token(i))
}

/// A binary operator token.
pub open spec fn sp_parse_binop(s: Seq<char>) -> Result<BinaryOperator, ParseErrorModel> {
    if s == "+"@ { Ok(BinaryOperator::Add) }
    else if s == "-"@ { Ok(BinaryOperator::Sub) }
    else if s == "-r"@ { Ok(BinaryOperator::SubR) }
    else if s == "*"@ { Ok(BinaryOperator::Mul) }
    else if s == "/"@ { Ok(BinaryOperator::Div) }
    else if s == "%"@ { Ok(BinaryOperator::Mod) }
    else if s == "min"@ { Ok(BinaryOperator::Min) }
    else if s == "max"@ { Ok(BinaryOperator::Max) }
    else if s == "+f"@ { Ok(BinaryOperator::AddF) }
    else if s == "-f"@ { Ok(BinaryOperator::SubF) }
    else if s == "-rf"@ { Ok(BinaryOperator::SubFR) }
    else if s == "*f"@ { Ok(BinaryOperator::MulF) }
    else if s == "/f"@ { Ok(BinaryOperator::DivF) }
    else if s == "%f"@ { Ok(BinaryOperator::ModF) }
    else if s == "minf"@ { Ok(BinaryOperator::MinF) }
    else if s == "maxf"@ { Ok(BinaryOperator::MaxF) }
    else if s == "&"@ { Ok(BinaryOperator::And) }
    else if s == "|"@ { Ok(BinaryOperator::Or) }
    else if s == "^"@ { Ok(BinaryOperator::Xor) }
    else if s == "!^"@ { Ok(BinaryOperator::Xnor) }
    else if s == "minu"@ { Ok(BinaryOperator::MinU) }
    else if s == "maxu"@ { Ok(BinaryOperator::MaxU) }
    else if s == "/u"@ { Ok(BinaryOperator::DivU) }
    else if s == "%u"@ { Ok(BinaryOperator::ModU) }
    else if s == "rol"@ { Ok(BinaryOperator::Rol) }
    else if s == "ror"@ { Ok(BinaryOperator::Ror) }
    else if s == "<<"@ { Ok(BinaryOperator::Lsl) }
    else if s == ">>"@ { Ok(BinaryOperator::Lsr) }
    else if s == ">>>"@ { Ok(BinaryOperator::Asr) }
    else if s == "<<f"@ { Ok(BinaryOperator::Fpintexp) }
    else { Err(ParseErrorModel::InvalidOperator(s)) }
}

/// A condition token.
pub open spec fn sp_parse_condition(s: Seq<char>) -> Result<Condition, ParseErrorModel> {
    if s == "=="@ { Ok(Condition::Eq) }
    else if s == "!="@ { Ok(Condition::NEq) }
    else if s == ">"@ { Ok(Condition::Gt) }
    else if s == "<="@ { Ok(Condition::NGt) }
    else if s == ">u"@ { Ok(Condition::GtU) }
    else if s == "<=u"@ { Ok(Condition::NGtU) }
    else if s == "&"@ { Ok(Condition::Mask) }
    else if s == "!&"@ { Ok(Condition::NMask) }
    else if s == "==f"@ { Ok(Condition::EqF) }
    else if s == "!=f"@ { Ok(Condition::NEqF) }
    else if s == ">f"@ { Ok(Condition::GtF) }
    else if s == "<=f"@ { Ok(Condition::NGtF) }
    else if s == "p"@ { Ok(Condition::Par) }
    else if s == "!p"@ { Ok(Condition::NPar) }
    else if s == "%2"@ { Ok(Condition::Even) }
    else if s == "!%2"@ { Ok(Condition::NEven) }
    else { Err(ParseErrorModel::InvalidOperator(s)) }
}

/// The first token of `tokens` (from index `k` on) that `rest` starts with and
/// that leaves a non-empty right operand.
pub open spec fn first_token_split(rest: Seq<char>, tokens: Seq<Seq<char>>, k: int)
    -> Option<(Seq<char>, Seq<char>)>
    decreases tokens.len() - k,
{
    if k >= tokens.len() || k < 0 {
        None
    } else {
        match strip_prefix(rest, tokens[k]) {
            Some(after) => if trim(after).len() > 0 {
                Some((tokens[k], trim(after)))
            } else {
                first_token_split(rest, tokens, k + 1)
            },
            None => first_token_split(rest, tokens, k + 1),
        }
    }
}

/// Splits `A op B` into its operand, operator token and right side.
pub open spec fn sp_split_lhs(s: Seq<char>, tokens: Seq<Seq<char>>) -> Option<(Seq<char>, Seq<char>, Seq<char>)> {
    match sp_consume_operand(s) {
        None => None,
        Some((a, rest)) => match first_token_split(trim(rest), tokens, 0) {
            None => None,
            Some((op, b)) => Some((a, op, b)),
        },
    }
}

/// An immediate that must fit in `bits` bits.
pub open spec fn sp_check_imm(value: u64, bits: u32) -> Result<(), ParseErrorModel> {
    if value >= pow2_64(bits) {
        Err(ParseErrorModel::ImmediateOutOfRange { value, bits })
    } else {
        Ok(())
    }
}

/// `1 << bits` for the bit counts the parser uses.
pub open spec fn pow2_64(bits: u32) -> nat {
    vstd::arithmetic::power2::pow2(bits as nat)
}

/// `str::split_once`.
pub open spec fn split_once(s: Seq<char>, p: Seq<char>) -> Option<(Seq<char>, Seq<char>)> {
    match find(s, p) {
        None => None,
        Some(i) => Some((s.take(i), s.skip(i + p.len()))),
    }
}

/// Whether `p` occurs anywhere in `s`.
pub open spec fn contains(s: Seq<char>, p: Seq<char>) -> bool {
    exists|i: int| occurs_at(s, p, i)
}

/// The condition with the opposite outcome, as the `not` keyword selects it.
pub open spec fn sp_negate_condition(co: Condition) -> Condition {
    match co {
        Condition::Eq => Condition::NEq,
        Condition::NEq => Condition::Eq,
        Condition::Gt => Condition::NGt,
        Condition::NGt => Condition::Gt,
        Condition::GtU => Condition::NGtU,
        Condition::NGtU => Condition::GtU,
        Condition::Mask => Condition::NMask,
        Condition::NMask => Condition::Mask,
        Condition::EqF => Condition::NEqF,
        Condition::NEqF => Condition::EqF,
        Condition::GtF => Condition::NGtF,
        Condition::NGtF => Condition::GtF,
        Condition::Par => Condition::NPar,
        Condition::NPar => Condition::Par,
        Condition::Even => Condition::NEven,
        Condition::NEven => Condition::Even,
    }
}

/// `rx <-> ry`: a swap, encoded as the move `rx[ry] -> 0`.
pub open spec fn sp_parse_swap(s: Seq<char>) -> Result<Instruction, ParseErrorModel> {
    match split_once(s, "<->"@) {
        None => Err(ParseErrorModel::InvalidSyntax("invalid swap: '"@ + s + "'"@)),
        Some((lhs, rhs)) => match sp_parse_operand(trim(lhs)) {
            Err(e) => Err(e),
            Ok(Operand::Reg(rx)) => match sp_parse_operand(trim(rhs)) {
                Err(e) => Err(e),
                Ok(Operand::Reg(ry)) => Ok(Instruction::MvRg {
                    src: ((rx as u32 * 16) as u8 | ry) as u8, dst: 0, src_m: 1, dst_m: 1 }),
                Ok(_) => Err(ParseErrorModel::NonStrict(
                    "swap RHS must be a plain register, got '"@ + trim(rhs) + "'"@)),
            },
            Ok(_) => Err(ParseErrorModel::NonStrict(
                "swap LHS must be a plain register, got '"@ + trim(lhs) + "'"@)),
        },
    }
}

/// `src -> dst`: a load of an immediate, a read of an address, or a register move.
pub open spec fn sp_parse_move(src_str: Seq<char>, dst_str: Seq<char>) -> Result<Instruction, ParseErrorModel> {
    match sp_parse_operand(src_str) {
        Err(e) => Err(e),
        Ok(src) => match sp_parse_operand(dst_str) {
            Err(e) => Err(e),
            Ok(dst) => if dst is Imm || dst is MemImm {
                Err(ParseErrorModel::NonStrict(
                    "move destination cannot be an immediate value: '"@ + dst_str + "'"@))
            } else {
                match src {
                    Operand::Imm(val) => match sp_check_imm(val as u64, 16) {
                        Err(e) => Err(e),
                        Ok(_) => match sp_to_r_rix(dst) {
                            Err(e) => Err(e),
                            Ok((d, _)) => Ok(Instruction::MvLd { dst: d, val }),
                        },
                    },
                    Operand::MemImm(val) => match sp_check_imm(val as u64, 16) {
                        Err(e) => Err(e),
                        Ok(_) => match sp_to_r_rix(dst) {
                            Err(e) => Err(e),
                            Ok((d, _)) => Ok(Instruction::MvRd { dst: d, val }),
                        },
                    },
                    _ => match sp_to_r_rix(src) {
                        Err(e) => Err(e),
                        Ok((sr, sm)) => match sp_to_r_rix(dst) {
                            Err(e) => Err(e),
                            Ok((dr, dm)) => Ok(Instruction::MvRg {
                                src: sr, dst: dr, src_m: sm as u8, dst_m: dm as u8 }),
                        },
                    },
                }
            },
        },
    }
}

/// `A op B -> C`: an operation with an immediate or with register operands.
pub open spec fn sp_parse_binop_instr(lhs_str: Seq<char>, dst_str: Seq<char>) -> Result<Instruction, ParseErrorModel> {
    match sp_split_lhs(lhs_str, binop_tokens()) {
        None => Err(ParseErrorModel::InvalidSyntax("cannot find operator in '"@ + lhs_str + "'"@)),
        Some((a_str, op_str, b_str)) => match sp_parse_binop(op_str) {
            Err(e) => Err(e),
            Ok(op) => match sp_parse_operand(a_str) {
                Err(e) => Err(e),
                Ok(a) => match sp_parse_operand(b_str) {
                    Err(e) => Err(e),
                    Ok(b) => match sp_parse_operand(dst_str) {
                        Err(e) => Err(e),
                        Ok(dst) => match b {
                            Operand::Imm(val) => match sp_check_imm(val as u64, 16) {
                                Err(e) => Err(e),
                                Ok(_) => match sp_to_reg4(a) {
                                    Err(e) => Err(e),
                                    Ok(l) => match sp_to_reg4(dst) {
                                        Err(e) => Err(e),
                                        Ok(d) => Ok(Instruction::OpIm { op, lhs: l, rhs: val, dst: d }),
                                    },
                                },
                            },
                            _ => match sp_to_r_rix_no_mul(a) {
                                Err(e) => Err(e),
                                Ok(l) => match sp_to_r_rix_no_mul(b) {
                                    Err(e) => Err(e),
                                    Ok(r) => match sp_to_r_rix_no_mul(dst) {
                                        Err(e) => Err(e),
                                        Ok(d) => Ok(Instruction::OpRg { op, lhs: l, rhs: r, dst: d }),
                                    },
                                },
                            },
                        },
                    },
                },
            },
        },
    }
}

/// `DAT N`: a raw data word.
pub open spec fn sp_parse_data(s: Seq<char>) -> Result<Instruction, ParseErrorModel> {
    match sp_parse_int(trim(s.skip(4))) {
        Some(v) => Ok(Instruction::RawData(v as u32)),
        None => Err(ParseErrorModel::InvalidSyntax("invalid data syntax, expecting integer"@)),
    }
}

/// `jmp T`: an unconditional jump to an immediate, or `if 0 == 0` to an operand.
pub open spec fn sp_parse_branch_unconditional(s: Seq<char>) -> Result<Instruction, ParseErrorModel> {
    match sp_parse_operand(trim(trim(s.skip(4)))) {
        Err(e) => Err(e),
        Ok(Operand::Imm(dst)) => Ok(Instruction::BrUnconditional { dst }),
        Ok(t) => match sp_to_r_rix_no_mul(t) {
            Err(e) => Err(e),
            Ok(d) => Ok(Instruction::BrCoRg { co: Condition::Eq, lhs: 0, rhs: 0, dst: d }),
        },
    }
}

/// The condition part and target of `if [not] A cond B jmp T`, after `if `.
pub open spec fn branch_parts(s: Seq<char>) -> (bool, Seq<char>) {
    let rest = trim(s.skip(3));
    match strip_prefix(rest, "not "@) {
        Some(r) => (true, trim(r)),
        None => (false, rest),
    }
}

/// `if [not] A cond B jmp T`: a conditional branch.
pub open spec fn sp_parse_branch(s: Seq<char>) -> Result<Instruction, ParseErrorModel> {
    let (negate, rest) = branch_parts(s);
    match split_once(rest, " jmp "@) {
        None => Err(ParseErrorModel::InvalidSyntax("missing 'jmp' in branch: '"@ + s + "'"@)),
        Some((cond_part, target_str)) => match sp_parse_operand(trim(target_str)) {
            Err(e) => Err(e),
            Ok(target) => match sp_split_lhs(trim(cond_part), cond_tokens()) {
                None => Err(ParseErrorModel::InvalidSyntax(
                    "cannot parse condition '"@ + trim(cond_part) + "'"@)),
                Some((a_str, op_str, b_str)) => match sp_parse_condition(op_str) {
                    Err(e) => Err(e),
                    Ok(c) => {
                        let co = if negate { sp_negate_condition(c) } else { c };
                        match sp_parse_operand(a_str) {
                            Err(e) => Err(e),
                            Ok(a) => match sp_parse_operand(b_str) {
                                Err(e) => Err(e),
                                Ok(b) => match target {
                                    Operand::Imm(val) => match sp_check_imm(val as u64, 16) {
                                        Err(e) => Err(e),
                                        Ok(_) => match sp_to_reg4(a) {
                                            Err(e) => Err(e),
                                            Ok(l) => match sp_to_reg4(b) {
                                                Err(e) => Err(e),
                                                Ok(r) => Ok(Instruction::BrCoIm { co, lhs: l, rhs: r, val }),
                                            },
                                        },
                                    },
                                    _ => match sp_to_r_rix_no_mul(a) {
                                        Err(e) => Err(e),
                                        Ok(l) => match sp_to_r_rix_no_mul(b) {
                                            Err(e) => Err(e),
                                            Ok(r) => match sp_to_r_rix_no_mul(target) {
                                                Err(e) => Err(e),
                                                Ok(d) => Ok(Instruction::BrCoRg { co, lhs: l, rhs: r, dst: d }),
                                            },
                                        },
                                    },
                                },
                            },
                        }
                    },
                },
            },
        },
    }
}

/// The special instructions written as one keyword.
pub open spec fn keyword_instruction(s: Seq<char>) -> Option<Instruction> {
    if s == "HALT"@ { Some(Instruction::SpHalt) }
    else if s == "NOP"@ { Some(Instruction::SpNop) }
    else if s == "INT"@ { Some(Instruction::SpInt) }
    else if s == "VEC"@ { Some(Instruction::SpVec) }
    else if s == "WRITH"@ { Some(Instruction::SpWrith) }
    else if s == "REATH"@ { Some(Instruction::SpReath) }
    else if s == "INITH"@ { Some(Instruction::SpInith) }
    else if s == "UMEM"@ { Some(Instruction::SpUmem) }
    else if s == "USER"@ { Some(Instruction::SpUser) }
    else if s == "DEBUG"@ { Some(Instruction::SpDebug) }
    else { None }
}

/// One line of assembly (without comments or labels).
pub open spec fn sp_parse_instruction(s0: Seq<char>) -> Result<Instruction, ParseErrorModel> {
    let s = trim(s0);
    if starts_with(s, "DAT "@) {
        sp_parse_data(s)
    } else if keyword_instruction(s) is Some {
        Ok(keyword_instruction(s).unwrap())
    } else if starts_with(s, "jmp "@) {
        sp_parse_branch_unconditional(s)
    } else if starts_with(s, "if "@) {
        sp_parse_branch(s)
    } else if contains(s, "<->"@) {
        sp_parse_swap(s)
    } else {
        match rfind(s, "->"@) {
            Some(arrow) => {
                let lhs = trim(s.take(arrow));
                let dst = trim(s.skip(arrow + 2));
                if sp_split_lhs(lhs, binop_tokens()) is Some {
                    sp_parse_binop_instr(lhs, dst)
                } else {
                    sp_parse_move(lhs, dst)
                }
            },
            None => Err(ParseErrorModel::InvalidSyntax("unrecognized instruction: '"@ + s + "'"@)),
        }
    }
}

} // verus!
