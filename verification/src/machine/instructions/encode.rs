//! Encoding instructions into 32-bit machine words.
use vstd::prelude::*;
use super::Instruction;
use super::binop::op_code;
use super::condition::cond_code;

verus! {

/// The greatest common divisor, by Euclid's algorithm.
pub open spec fn spec_gcd(a: nat, b: nat) -> nat
    decreases b,
{
    if b == 0 { a } else { spec_gcd(b, a % b) }
}

/// Greatest common divisor of two words.
pub fn gcd(a: u32, b: u32) -> (r: u32)
    ensures
        r as nat == spec_gcd(a as nat, b as nat),
    decreases b,
{
    if b == 0 { a } else { gcd(b, a % b) }
}

/// The common factor and the two reduced multipliers of a register move.
pub open spec fn mv_factors(src_m: u8, dst_m: u8) -> (u32, u32, u32) {
    let n = spec_gcd(src_m as nat, dst_m as nat);
    if n == 0 {
        (0, 0, 0)
    } else {
        (n as u32, (src_m as nat / n) as u32, (dst_m as nat / n) as u32)
    }
}

/// Whether both multipliers of a register move fit the encoding: their common factor
/// and both reduced multipliers lie in `1..=16`.
pub open spec fn mv_multipliers_fit(src_m: u8, dst_m: u8) -> bool {
    let (n, i, j) = mv_factors(src_m, dst_m);
    1 <= n <= 16 && 1 <= i <= 16 && 1 <= j <= 16
}

/// The word of a stack instruction's escape bit.
pub open spec fn esc_bit(esc: bool) -> u32 {
    if esc { 1 } else { 0 }
}

/// Whether `encode` returns a word for the instruction: the variants it has an
/// encoding for, with register-move multipliers that fit.
pub open spec fn encodable(i: Instruction) -> bool {
    match i {
        Instruction::RawData(_) | Instruction::SpHalt | Instruction::SpDebug
        | Instruction::BrCoIm { .. } | Instruction::BrCoRg { .. }
        | Instruction::BrUnconditional { .. } | Instruction::OpIm { .. }
        | Instruction::OpRg { .. } | Instruction::MvRd { .. } | Instruction::MvLd { .. }
        | Instruction::MvLf { .. } | Instruction::StPushRg { .. }
        | Instruction::StPushRgImm { .. } | Instruction::StPushPcI { .. }
        | Instruction::StPushPcR { .. } | Instruction::StPushStI { .. }
        | Instruction::StPushStR { .. } | Instruction::StPeek { .. }
        | Instruction::StPopRg { .. } | Instruction::StPopPc { .. }
        | Instruction::StPopSt { .. } | Instruction::SpStackPos { .. } => true,
        Instruction::MvRg { src_m, dst_m, .. } => mv_multipliers_fit(src_m, dst_m),
        _ => false,
    }
}

/// The machine word of an instruction.
pub open spec fn spec_encode(i: Instruction) -> u32 {
    match i {
        Instruction::RawData(val) => val,
        Instruction::SpHalt => 0,
        Instruction::SpDebug => 1,
        Instruction::BrCoIm { co, lhs, rhs, val } =>
            (1u32 << 30)
                | (((cond_code(co) as u32) & 0xf) << 24)
                | (((lhs as u32) & 0xf) << 20)
                | (((rhs as u32) & 0xf) << 16)
                | (val & 0xffff),
        Instruction::BrCoRg { co, lhs, rhs, dst } =>
            (1u32 << 30)
                | (1u32 << 28)
                | (((cond_code(co) as u32) & 0xf) << 24)
                | ((lhs as u32) << 16)
                | ((rhs as u32) << 8)
                | (dst as u32),
        Instruction::BrUnconditional { dst } => (1u32 << 30) | (dst & 0xfff_ffff),
        Instruction::OpIm { op, lhs, dst, rhs } =>
            (2u32 << 30)
                | (((op_code(op) as u32) & 0x1f) << 24)
                | (((lhs as u32) & 0xf) << 20)
                | (((dst as u32) & 0xf) << 16)
                | (rhs & 0xffff),
        Instruction::OpRg { op, lhs, rhs, dst } =>
            (2u32 << 30)
                | (1u32 << 29)
                | (((op_code(op) as u32) & 0x1f) << 24)
                | ((lhs as u32) << 16)
                | ((rhs as u32) << 8)
                | (dst as u32),
        Instruction::MvRg { src, dst, src_m, dst_m } => {
            let (n, i, j) = mv_factors(src_m, dst_m);
            (3u32 << 30)
                | ((src as u32) << 20)
                | ((dst as u32) << 12)
                | (((j - 1) as u32) << 8)
                | (((i - 1) as u32) << 4)
                | ((n - 1) as u32)
        },
        Instruction::MvRd { dst, val } => (3u32 << 30) | (1u32 << 28) | ((dst as u32) << 20) | (val & 0xffff),
        Instruction::MvLd { dst, val } => (3u32 << 30) | (2u32 << 28) | ((dst as u32) << 20) | (val & 0xffff),
        Instruction::MvLf { dst, val } =>
            (3u32 << 30)
                | (3u32 << 28)
                | (((dst as u32) & 0xf) << 24)
                | (((val >> 31) & 1) << 23)
                | (val & 0x7f_ffff),
        Instruction::StPushRg { esc, src, src_val } =>
            0x3000_0000 | (esc_bit(esc) << 27) | ((src as u32) << 16) | ((src_val as u32) << 8),
        Instruction::StPushRgImm { esc, src, val } =>
            0x3000_0000 | (esc_bit(esc) << 27) | (1u32 << 24) | ((src as u32) << 16) | (val & 0xf_ffff),
        Instruction::StPushPcI { esc, sparam, val } =>
            0x3000_0000 | (esc_bit(esc) << 27) | (2u32 << 24) | ((sparam as u32) << 16) | (1u32 << 19)
                | (val & 0x7_ffff),
        Instruction::StPushPcR { esc, sparam, dst } =>
            0x3000_0000 | (esc_bit(esc) << 27) | (2u32 << 24) | ((sparam as u32) << 16) | ((dst as u32) << 11),
        Instruction::StPushStI { esc, sparam, val } =>
            0x3000_0000 | (esc_bit(esc) << 27) | (3u32 << 24) | ((sparam as u32) << 16) | (1u32 << 19)
                | (val & 0x7_ffff),
        Instruction::StPushStR { esc, sparam, dst } =>
            0x3000_0000 | (esc_bit(esc) << 27) | (3u32 << 24) | ((sparam as u32) << 16) | ((dst as u32) << 11),
        Instruction::StPeek { esc, dst, offset_rg, offset } =>
            0x3000_0000 | (esc_bit(esc) << 27) | (1u32 << 26) | ((dst as u32) << 16)
                | ((offset_rg as u32) << 8) | (offset as u32),
        Instruction::StPopRg { esc, dst } =>
            0x3000_0000 | (esc_bit(esc) << 27) | (1u32 << 26) | (1u32 << 24) | ((dst as u32) << 16),
        Instruction::StPopPc { esc, sparam } =>
            0x3000_0000 | (esc_bit(esc) << 27) | (1u32 << 26) | (2u32 << 24) | ((sparam as u32) << 16),
        Instruction::StPopSt { esc, sparam } =>
            0x3000_0000 | (esc_bit(esc) << 27) | (1u32 << 26) | (3u32 << 24) | ((sparam as u32) << 16),
        Instruction::SpStackPos { val } => 2 | ((val & 0xf_ffff) << 8),
        _ => 0,
    }
}

fn esc_word(esc: bool) -> (r: u32)
    ensures
        r == esc_bit(esc),
{
    if esc { 1 } else { 0 }
}

impl Instruction {
    /// Whether this instruction has a machine word (whether `encode` may be called).
    pub fn is_encodable(&self) -> (r: bool)
        ensures
            r == encodable(*self),
    {
        match self {
            Instruction::MvRg { src_m, dst_m, .. } => {
                let n = gcd(*src_m as u32, *dst_m as u32);
                if n == 0 {
                    return false;
                }
                let i = *src_m as u32 / n;
                let j = *dst_m as u32 / n;
                1 <= n && n <= 16 && 1 <= i && i <= 16 && 1 <= j && j <= 16
            },
            Instruction::BrFlagIm { .. } | Instruction::BrFlagRg { .. } | Instruction::SpNop
            | Instruction::SpInt | Instruction::SpVec | Instruction::SpIntRet | Instruction::SpWrith
            | Instruction::SpReath | Instruction::SpInith | Instruction::SpUmem
            | Instruction::SpUser => false,
            _ => true,
        }
    }

    /// The 32-bit machine word of this instruction. Variants without an encoding,
    /// and register moves whose multipliers do not fit, have no word.
    pub fn encode(&self) -> (w: u32)
        requires
            encodable(*self),
        ensures
            w == spec_encode(*self),
    {
        match self {
            Instruction::RawData(val) => *val,
            Instruction::SpHalt => 0,
            Instruction::SpDebug => 1,
            Instruction::BrCoIm { co, lhs, rhs, val } => {
                (1u32 << 30)
                    | (((co.code() as u32) & 0xf) << 24)
                    | (((*lhs as u32) & 0xf) << 20)
                    | (((*rhs as u32) & 0xf) << 16)
                    | (*val & 0xffff)
            },
            Instruction::BrCoRg { co, lhs, rhs, dst } => {
                (1u32 << 30)
                    | (1u32 << 28)
                    | (((co.code() as u32) & 0xf) << 24)
                    | ((*lhs as u32) << 16)
                    | ((*rhs as u32) << 8)
                    | (*dst as u32)
            },
            Instruction::BrUnconditional { dst } => (1u32 << 30) | (*dst & 0xfff_ffff),
            Instruction::OpIm { op, lhs, dst, rhs } => {
                (2u32 << 30)
                    | (((op.code() as u32) & 0x1f) << 24)
                    | (((*lhs as u32) & 0xf) << 20)
                    | (((*dst as u32) & 0xf) << 16)
                    | (*rhs & 0xffff)
            },
            Instruction::OpRg { op, lhs, rhs, dst } => {
                (2u32 << 30)
                    | (1u32 << 29)
                    | (((op.code() as u32) & 0x1f) << 24)
                    | ((*lhs as u32) << 16)
                    | ((*rhs as u32) << 8)
                    | (*dst as u32)
            },
            Instruction::MvRg { src, dst, src_m, dst_m } => {
                let sm = *src_m as u32;
                let dm = *dst_m as u32;
                let n = gcd(sm, dm);
                let i = sm / n;
                let j = dm / n;
                (3u32 << 30)
                    | ((*src as u32) << 20)
                    | ((*dst as u32) << 12)
                    | ((j - 1) << 8)
                    | ((i - 1) << 4)
                    | (n - 1)
            },
            Instruction::MvRd { dst, val } => (3u32 << 30) | (1u32 << 28) | ((*dst as u32) << 20) | (*val & 0xffff),
            Instruction::MvLd { dst, val } => (3u32 << 30) | (2u32 << 28) | ((*dst as u32) << 20) | (*val & 0xffff),
            Instruction::MvLf { dst, val } => {
                let sign_bit = (*val >> 31) & 1;
                (3u32 << 30)
                    | (3u32 << 28)
                    | (((*dst as u32) & 0xf) << 24)
                    | (sign_bit << 23)
                    | (*val & 0x7f_ffff)
            },
            Instruction::StPushRg { esc, src, src_val } =>
                0x3000_0000 | (esc_word(*esc) << 27) | ((*src as u32) << 16) | ((*src_val as u32) << 8),
            Instruction::StPushRgImm { esc, src, val } =>
                0x3000_0000 | (esc_word(*esc) << 27) | (1u32 << 24) | ((*src as u32) << 16) | (*val & 0xf_ffff),
            Instruction::StPushPcI { esc, sparam, val } =>
                0x3000_0000 | (esc_word(*esc) << 27) | (2u32 << 24) | ((*sparam as u32) << 16) | (1u32 << 19)
                    | (*val & 0x7_ffff),
            Instruction::StPushPcR { esc, sparam, dst } =>
                0x3000_0000 | (esc_word(*esc) << 27) | (2u32 << 24) | ((*sparam as u32) << 16) | ((*dst as u32) << 11),
            Instruction::StPushStI { esc, sparam, val } =>
                0x3000_0000 | (esc_word(*esc) << 27) | (3u32 << 24) | ((*sparam as u32) << 16) | (1u32 << 19)
                    | (*val & 0x7_ffff),
            Instruction::StPushStR { esc, sparam, dst } =>
                0x3000_0000 | (esc_word(*esc) << 27) | (3u32 << 24) | ((*sparam as u32) << 16) | ((*dst as u32) << 11),
            Instruction::StPeek { esc, dst, offset_rg, offset } =>
                0x3000_0000 | (esc_word(*esc) << 27) | (1u32 << 26) | ((*dst as u32) << 16)
                    | ((*offset_rg as u32) << 8) | (*offset as u32),
            Instruction::StPopRg { esc, dst } =>
                0x3000_0000 | (esc_word(*esc) << 27) | (1u32 << 26) | (1u32 << 24) | ((*dst as u32) << 16),
            Instruction::StPopPc { esc, sparam } =>
                0x3000_0000 | (esc_word(*esc) << 27) | (1u32 << 26) | (2u32 << 24) | ((*sparam as u32) << 16),
            Instruction::StPopSt { esc, sparam } =>
                0x3000_0000 | (esc_word(*esc) << 27) | (1u32 << 26) | (3u32 << 24) | ((*sparam as u32) << 16),
            Instruction::SpStackPos { val } => 2 | ((*val & 0xf_ffff) << 8),
            _ => 0,
        }
    }
}

} // verus!
