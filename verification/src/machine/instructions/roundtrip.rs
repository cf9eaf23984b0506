//! The encoding law: decoding the word of an instruction gives the instruction back.
use vstd::prelude::*;
use vstd::arithmetic::div_mod::{lemma_fundamental_div_mod, lemma_mod_multiples_basic};
use super::{Condition, Instruction};
use super::binop::op_code;
use super::condition::cond_code;
use super::encode::{spec_gcd, mv_factors, encodable, spec_encode, esc_bit};
use super::decode::{decodable, spec_decode};

verus! {

/// Whether every field of an instruction survives the trip through its word: the
/// fields fit their bit ranges, and where two fields share bits they agree on them.
/// Raw data words decode as whatever they happen to encode, and an unconditional
/// jump's word decodes as the conditional jump `if 0 == 0 jmp ..`, so neither
/// returns unchanged.
pub open spec fn encoding_roundtrips(i: Instruction) -> bool {
    match i {
        Instruction::SpHalt | Instruction::SpDebug => true,
        Instruction::BrCoIm { lhs, rhs, val, .. } => lhs < 16 && rhs < 16 && val < 0x1_0000,
        Instruction::BrCoRg { .. } | Instruction::OpRg { .. } => true,
        Instruction::OpIm { lhs, dst, rhs, .. } => lhs < 16 && dst < 16 && rhs < 0x1_0000,
        Instruction::MvRg { .. } => true,
        Instruction::MvRd { val, .. } | Instruction::MvLd { val, .. } => val < 0x1_0000,
        Instruction::MvLf { dst, val } => dst < 16 && (val & 0x7f80_0000) == 0,
        Instruction::StPushRg { .. } => true,
        Instruction::StPushRgImm { src, val, .. } => (val >> 16) == ((src & 0xf) as u32),
        Instruction::StPushPcI { sparam, val, .. } | Instruction::StPushStI { sparam, val, .. } =>
            (sparam & 8) != 0 && (val >> 16) == ((sparam & 7) as u32),
        Instruction::StPushPcR { sparam, dst, .. } | Instruction::StPushStR { sparam, dst, .. } =>
            (sparam & 8) == 0 && (dst >> 5) == (sparam & 7),
        Instruction::StPeek { .. } | Instruction::StPopRg { .. } | Instruction::StPopPc { .. }
        | Instruction::StPopSt { .. } => true,
        Instruction::SpStackPos { val } => val < 0x10_0000,
        _ => false,
    }
}

/// Euclid's algorithm yields a common divisor.
proof fn lemma_gcd_divides(a: nat, b: nat)
    requires
        a > 0 || b > 0,
    ensures
        spec_gcd(a, b) > 0,
        a % spec_gcd(a, b) == 0,
        b % spec_gcd(a, b) == 0,
    decreases b,
{
    if b == 0 {
        lemma_mod_multiples_basic(1, a as int);
        lemma_mod_multiples_basic(0, a as int);
    } else {
        let r = a % b;
        lemma_gcd_divides(b, r);
        let g = spec_gcd(b, r);
        lemma_fundamental_div_mod(b as int, g as int);
        lemma_fundamental_div_mod(r as int, g as int);
        lemma_fundamental_div_mod(a as int, b as int);
        let k1 = b as int / g as int;
        let k2 = r as int / g as int;
        let q = a as int / b as int;
        assert(a as int == g * (q * k1 + k2)) by (nonlinear_arith)
            requires
                b as int == g * k1,
                r as int == g * k2,
                a as int == b * q + r;
        lemma_mod_multiples_basic(q * k1 + k2, g as int);
        assert((q * k1 + k2) * g == g * (q * k1 + k2)) by (nonlinear_arith);
    }
}

proof fn lemma_mv_factors(src_m: u8, dst_m: u8)
    requires
        encodable(Instruction::MvRg { src: 0, dst: 0, src_m, dst_m }),
    ensures
        ({
            let (n, i, j) = mv_factors(src_m, dst_m);
            n * i == src_m && n * j == dst_m
        }),
{
    let g = spec_gcd(src_m as nat, dst_m as nat);
    assert(g != 0);
    if src_m == 0 && dst_m == 0 {
        assert(spec_gcd(0, 0) == 0);
    }
    lemma_gcd_divides(src_m as nat, dst_m as nat);
    lemma_fundamental_div_mod(src_m as int, g as int);
    lemma_fundamental_div_mod(dst_m as int, g as int);
    let qs = src_m as int / g as int;
    let qd = dst_m as int / g as int;
    assert(g * qs == src_m);
    assert(g * qd == dst_m);
    assert(g <= 255) by {
        if src_m > 0 {
            assert(g <= src_m) by (nonlinear_arith) requires g * qs == src_m, g > 0, src_m > 0;
        } else {
            assert(g <= dst_m) by (nonlinear_arith) requires g * qd == dst_m, g > 0, dst_m > 0;
        }
    }
    assert(0 <= qs <= 255) by (nonlinear_arith) requires g * qs == src_m, g > 0, src_m <= 255;
    assert(0 <= qd <= 255) by (nonlinear_arith) requires g * qd == dst_m, g > 0, dst_m <= 255;
    assert(mv_factors(src_m, dst_m) == (g as u32, qs as u32, qd as u32));
}

/// Decoding the word of an instruction whose fields fit gives the instruction back.
pub proof fn lemma_decode_encode(i: Instruction)
    requires
        encodable(i),
        encoding_roundtrips(i),
    ensures
        decodable(spec_encode(i)),
        spec_decode(spec_encode(i)) == i,
{
    let w = spec_encode(i);
    match i {
        Instruction::SpHalt => {
            assert(((0u32 >> 30) & 3) == 0 && ((0u32 >> 28) & 3) == 0 && (0u32 & 0xff) == 0) by (bit_vector);
        },
        Instruction::SpDebug => {
            assert(((1u32 >> 30) & 3) == 0 && ((1u32 >> 28) & 3) == 0 && (1u32 & 0xff) == 1) by (bit_vector);
        },
        Instruction::BrCoIm { co, lhs, rhs, val } => {
            let c = cond_code(co) as u32;
            let l = lhs as u32;
            let r = rhs as u32;
            assert({
                &&& (w >> 30) & 3 == 1
                &&& (w >> 29) & 1 == 0
                &&& (w >> 28) & 1 == 0
                &&& ((w >> 24) as u8) & 0xf == c as u8
                &&& ((w >> 20) as u8) & 0xf == l as u8
                &&& ((w >> 16) as u8) & 0xf == r as u8
                &&& w & 0xffff == val
            }) by (bit_vector)
                requires
                    w == (1u32 << 30) | ((c & 0xf) << 24) | ((l & 0xf) << 20) | ((r & 0xf) << 16) | (val & 0xffff),
                    c <= 15, l < 16, r < 16, val < 0x1_0000;
        },
        Instruction::BrCoRg { co, lhs, rhs, dst } => {
            let c = cond_code(co) as u32;
            let l = lhs as u32;
            let r = rhs as u32;
            let d = dst as u32;
            assert({
                &&& (w >> 30) & 3 == 1
                &&& (w >> 29) & 1 == 0
                &&& (w >> 28) & 1 == 1
                &&& ((w >> 24) as u8) & 0xf == c as u8
                &&& (w >> 16) as u8 == l as u8
                &&& (w >> 8) as u8 == r as u8
                &&& w as u8 == d as u8
            }) by (bit_vector)
                requires
                    w == (1u32 << 30) | (1u32 << 28) | ((c & 0xf) << 24) | (l << 16) | (r << 8) | d,
                    c <= 15, l < 256, r < 256, d < 256;
        },
        Instruction::OpIm { op, lhs, dst, rhs } => {
            let c = op_code(op) as u32;
            let l = lhs as u32;
            let d = dst as u32;
            assert({
                &&& (w >> 30) & 3 == 2
                &&& (w >> 29) & 1 == 0
                &&& ((w >> 24) as u8) & 0x1f == c as u8
                &&& ((w >> 20) as u8) & 0xf == l as u8
                &&& ((w >> 16) as u8) & 0xf == d as u8
                &&& w & 0xffff == rhs
            }) by (bit_vector)
                requires
                    w == (2u32 << 30) | ((c & 0x1f) << 24) | ((l & 0xf) << 20) | ((d & 0xf) << 16) | (rhs & 0xffff),
                    c <= 31, l < 16, d < 16, rhs < 0x1_0000;
        },
        Instruction::OpRg { op, lhs, rhs, dst } => {
            let c = op_code(op) as u32;
            let l = lhs as u32;
            let r = rhs as u32;
            let d = dst as u32;
            assert({
                &&& (w >> 30) & 3 == 2
                &&& (w >> 29) & 1 == 1
                &&& ((w >> 24) as u8) & 0x1f == c as u8
                &&& (w >> 16) as u8 == l as u8
                &&& (w >> 8) as u8 == r as u8
                &&& w as u8 == d as u8
            }) by (bit_vector)
                requires
                    w == (2u32 << 30) | (1u32 << 29) | ((c & 0x1f) << 24) | (l << 16) | (r << 8) | d,
                    c <= 31, l < 256, r < 256, d < 256;
        },
        Instruction::MvRg { src, dst, src_m, dst_m } => {
            lemma_mv_factors(src_m, dst_m);
            let (n, ii, j) = mv_factors(src_m, dst_m);
            let s = src as u32;
            let d = dst as u32;
            let n1 = (n - 1) as u32;
            let i1 = (ii - 1) as u32;
            let j1 = (j - 1) as u32;
            assert({
                &&& (w >> 30) & 3 == 3
                &&& (w >> 28) & 3 == 0
                &&& w & 0xf == n1
                &&& (w >> 4) & 0xf == i1
                &&& (w >> 8) & 0xf == j1
                &&& (w >> 20) as u8 == s as u8
                &&& (w >> 12) as u8 == d as u8
            }) by (bit_vector)
                requires
                    w == (3u32 << 30) | (s << 20) | (d << 12) | (j1 << 8) | (i1 << 4) | n1,
                    s < 256, d < 256, n1 < 16, i1 < 16, j1 < 16;
        },
        Instruction::MvRd { dst, val } => {
            let d = dst as u32;
            assert({
                &&& (w >> 30) & 3 == 3
                &&& (w >> 28) & 3 == 1
                &&& (w >> 20) as u8 == d as u8
                &&& w & 0xffff == val
            }) by (bit_vector)
                requires
                    w == (3u32 << 30) | (1u32 << 28) | (d << 20) | (val & 0xffff),
                    d < 256, val < 0x1_0000;
        },
        Instruction::MvLd { dst, val } => {
            let d = dst as u32;
            assert({
                &&& (w >> 30) & 3 == 3
                &&& (w >> 28) & 3 == 2
                &&& (w >> 20) as u8 == d as u8
                &&& w & 0xffff == val
            }) by (bit_vector)
                requires
                    w == (3u32 << 30) | (2u32 << 28) | (d << 20) | (val & 0xffff),
                    d < 256, val < 0x1_0000;
        },
        Instruction::MvLf { dst, val } => {
            let d = dst as u32;
            assert({
                &&& (w >> 30) & 3 == 3
                &&& (w >> 28) & 3 == 3
                &&& ((w >> 24) & 0xf) as u8 == d as u8
                &&& (((w >> 23) & 1) << 31) | (w & 0x7f_ffff) == val
            }) by (bit_vector)
                requires
                    w == (3u32 << 30) | (3u32 << 28) | ((d & 0xf) << 24) | (((val >> 31) & 1) << 23) | (val & 0x7f_ffff),
                    d < 16, (val & 0x7f80_0000) == 0;
        },
        Instruction::StPushRg { esc, src, src_val } => {
            let e = esc_bit(esc);
            let s = src as u32;
            let v = src_val as u32;
            assert({
                &&& (w >> 30) & 3 == 0
                &&& (w >> 28) & 3 == 3
                &&& (w >> 27) & 1 == e
                &&& (w >> 26) & 1 == 0
                &&& (w >> 24) & 3 == 0
                &&& (w >> 16) as u8 == s as u8
                &&& (w >> 8) as u8 == v as u8
            }) by (bit_vector)
                requires
                    w == 0x3000_0000u32 | (e << 27) | (s << 16) | (v << 8),
                    e <= 1, s < 256, v < 256;
        },
        Instruction::StPushRgImm { esc, src, val } => {
            let e = esc_bit(esc);
            let s = src as u32;
            assert({
                &&& (w >> 30) & 3 == 0
                &&& (w >> 28) & 3 == 3
                &&& (w >> 27) & 1 == e
                &&& (w >> 26) & 1 == 0
                &&& (w >> 24) & 3 == 1
                &&& (w >> 16) as u8 == s as u8
                &&& w & 0xf_ffff == val
            }) by (bit_vector)
                requires
                    w == 0x3000_0000u32 | (e << 27) | (1u32 << 24) | (s << 16) | (val & 0xf_ffff),
                    e <= 1, s < 256, (val >> 16) == (s & 0xf);
        },
        Instruction::StPushPcI { esc, sparam, val } => {
            let e = esc_bit(esc);
            let s = sparam as u32;
            assert({
                &&& (w >> 30) & 3 == 0
                &&& (w >> 28) & 3 == 3
                &&& (w >> 27) & 1 == e
                &&& (w >> 26) & 1 == 0
                &&& (w >> 24) & 3 == 2
                &&& (w >> 19) & 1 == 1
                &&& (w >> 16) as u8 == s as u8
                &&& w & 0x7_ffff == val
            }) by (bit_vector)
                requires
                    w == 0x3000_0000u32 | (e << 27) | (2u32 << 24) | (s << 16) | (1u32 << 19) | (val & 0x7_ffff),
                    e <= 1, s < 256, (s & 8) != 0, (val >> 16) == (s & 7);
        },
        Instruction::StPushStI { esc, sparam, val } => {
            let e = esc_bit(esc);
            let s = sparam as u32;
            assert({
                &&& (w >> 30) & 3 == 0
                &&& (w >> 28) & 3 == 3
                &&& (w >> 27) & 1 == e
                &&& (w >> 26) & 1 == 0
                &&& (w >> 24) & 3 == 3
                &&& (w >> 19) & 1 == 1
                &&& (w >> 16) as u8 == s as u8
                &&& w & 0x7_ffff == val
            }) by (bit_vector)
                requires
                    w == 0x3000_0000u32 | (e << 27) | (3u32 << 24) | (s << 16) | (1u32 << 19) | (val & 0x7_ffff),
                    e <= 1, s < 256, (s & 8) != 0, (val >> 16) == (s & 7);
        },
        Instruction::StPushPcR { esc, sparam, dst } => {
            let e = esc_bit(esc);
            let s = sparam as u32;
            let d = dst as u32;
            assert({
                &&& (w >> 30) & 3 == 0
                &&& (w >> 28) & 3 == 3
                &&& (w >> 27) & 1 == e
                &&& (w >> 26) & 1 == 0
                &&& (w >> 24) & 3 == 2
                &&& (w >> 19) & 1 == 0
                &&& (w >> 16) as u8 == s as u8
                &&& (w >> 11) as u8 == d as u8
            }) by (bit_vector)
                requires
                    w == 0x3000_0000u32 | (e << 27) | (2u32 << 24) | (s << 16) | (d << 11),
                    e <= 1, s < 256, d < 256, (s & 8) == 0, (d >> 5) == (s & 7);
        },
        Instruction::StPushStR { esc, sparam, dst } => {
            let e = esc_bit(esc);
            let s = sparam as u32;
            let d = dst as u32;
            assert({
                &&& (w >> 30) & 3 == 0
                &&& (w >> 28) & 3 == 3
                &&& (w >> 27) & 1 == e
                &&& (w >> 26) & 1 == 0
                &&& (w >> 24) & 3 == 3
                &&& (w >> 19) & 1 == 0
                &&& (w >> 16) as u8 == s as u8
                &&& (w >> 11) as u8 == d as u8
            }) by (bit_vector)
                requires
                    w == 0x3000_0000u32 | (e << 27) | (3u32 << 24) | (s << 16) | (d << 11),
                    e <= 1, s < 256, d < 256, (s & 8) == 0, (d >> 5) == (s & 7);
        },
        Instruction::StPeek { esc, dst, offset_rg, offset } => {
            let e = esc_bit(esc);
            let d = dst as u32;
            let r = offset_rg as u32;
            let o = offset as u32;
            assert({
                &&& (w >> 30) & 3 == 0
                &&& (w >> 28) & 3 == 3
                &&& (w >> 27) & 1 == e
                &&& (w >> 26) & 1 == 1
                &&& (w >> 24) & 3 == 0
                &&& (w >> 16) as u8 == d as u8
                &&& (w >> 8) as u8 == r as u8
                &&& w as u8 == o as u8
            }) by (bit_vector)
                requires
                    w == 0x3000_0000u32 | (e << 27) | (1u32 << 26) | (d << 16) | (r << 8) | o,
                    e <= 1, d < 256, r < 256, o < 256;
        },
        Instruction::StPopRg { esc, dst } => {
            let e = esc_bit(esc);
            let d = dst as u32;
            assert({
                &&& (w >> 30) & 3 == 0
                &&& (w >> 28) & 3 == 3
                &&& (w >> 27) & 1 == e
                &&& (w >> 26) & 1 == 1
                &&& (w >> 24) & 3 == 1
                &&& (w >> 16) as u8 == d as u8
            }) by (bit_vector)
                requires
                    w == 0x3000_0000u32 | (e << 27) | (1u32 << 26) | (1u32 << 24) | (d << 16),
                    e <= 1, d < 256;
        },
        Instruction::StPopPc { esc, sparam } => {
            let e = esc_bit(esc);
            let d = sparam as u32;
            assert({
                &&& (w >> 30) & 3 == 0
                &&& (w >> 28) & 3 == 3
                &&& (w >> 27) & 1 == e
                &&& (w >> 26) & 1 == 1
                &&& (w >> 24) & 3 == 2
                &&& (w >> 16) as u8 == d as u8
            }) by (bit_vector)
                requires
                    w == 0x3000_0000u32 | (e << 27) | (1u32 << 26) | (2u32 << 24) | (d << 16),
                    e <= 1, d < 256;
        },
        Instruction::StPopSt { esc, sparam } => {
            let e = esc_bit(esc);
            let d = sparam as u32;
            assert({
                &&& (w >> 30) & 3 == 0
                &&& (w >> 28) & 3 == 3
                &&& (w >> 27) & 1 == e
                &&& (w >> 26) & 1 == 1
                &&& (w >> 24) & 3 == 3
                &&& (w >> 16) as u8 == d as u8
            }) by (bit_vector)
                requires
                    w == 0x3000_0000u32 | (e << 27) | (1u32 << 26) | (3u32 << 24) | (d << 16),
                    e <= 1, d < 256;
        },
        Instruction::SpStackPos { val } => {
            assert({
                &&& (w >> 30) & 3 == 0
                &&& (w >> 28) & 3 == 0
                &&& w & 0xff == 2
                &&& w >> 8 == val
            }) by (bit_vector)
                requires
                    w == 2u32 | ((val & 0xf_ffff) << 8),
                    val < 0x10_0000;
        },
        _ => {},
    }
}

/// The word of an unconditional jump to an address below `0x1_0000` decodes as the
/// conditional jump `if 0 == 0` to the same address.
pub proof fn lemma_unconditional_jump_word(dst: u32)
    requires
        dst < 0x1_0000,
    ensures
        decodable(spec_encode(Instruction::BrUnconditional { dst })),
        spec_decode(spec_encode(Instruction::BrUnconditional { dst }))
            == (Instruction::BrCoIm { co: Condition::Eq, lhs: 0, rhs: 0, val: dst }),
{
    let w = spec_encode(Instruction::BrUnconditional { dst });
    assert({
        &&& (w >> 30) & 3 == 1
        &&& (w >> 29) & 1 == 0
        &&& (w >> 28) & 1 == 0
        &&& ((w >> 24) as u8) & 0xf == 0
        &&& ((w >> 20) as u8) & 0xf == 0
        &&& ((w >> 16) as u8) & 0xf == 0
        &&& w & 0xffff == dst
    }) by (bit_vector)
        requires
            w == (1u32 << 30) | (dst & 0xfff_ffff),
            dst < 0x1_0000;
}

/// Where the word of an instruction keeps each field: the top two bits give the
/// group (1: branches, 2: operations, 3: moves), the next bits the form, then the
/// condition or operator code, the operands from the high end down, and the
/// immediate in the low sixteen bits.
pub proof fn lemma_encoding_layout(i: Instruction)
    ensures
        i matches Instruction::BrCoIm { co, lhs, rhs, val } ==> (lhs < 16 && rhs < 16 ==> ({
            let w = spec_encode(i);
            &&& w >> 28 == 4
            &&& (w >> 24) & 0xf == cond_code(co)
            &&& (w >> 20) & 0xf == lhs
            &&& (w >> 16) & 0xf == rhs
            &&& w & 0xffff == val & 0xffff
        })),
        i matches Instruction::BrCoRg { co, lhs, rhs, dst } ==> ({
            let w = spec_encode(i);
            &&& w >> 28 == 5
            &&& (w >> 24) & 0xf == cond_code(co)
            &&& (w >> 16) & 0xff == lhs
            &&& (w >> 8) & 0xff == rhs
            &&& w & 0xff == dst
        }),
        i matches Instruction::OpIm { op, lhs, dst, rhs } ==> (lhs < 16 && dst < 16 ==> ({
            let w = spec_encode(i);
            &&& w >> 29 == 4
            &&& (w >> 24) & 0x1f == op_code(op)
            &&& (w >> 20) & 0xf == lhs
            &&& (w >> 16) & 0xf == dst
            &&& w & 0xffff == rhs & 0xffff
        })),
        i matches Instruction::OpRg { op, lhs, rhs, dst } ==> ({
            let w = spec_encode(i);
            &&& w >> 29 == 5
            &&& (w >> 24) & 0x1f == op_code(op)
            &&& (w >> 16) & 0xff == lhs
            &&& (w >> 8) & 0xff == rhs
            &&& w & 0xff == dst
        }),
        i matches Instruction::MvLd { dst, val } ==> ({
            let w = spec_encode(i);
            &&& w >> 28 == 0xE
            &&& (w >> 20) & 0xff == dst
            &&& w & 0xffff == val & 0xffff
        }),
{
    match i {
        Instruction::BrCoIm { co, lhs, rhs, val } => {
            if lhs < 16 && rhs < 16 {
                let c = cond_code(co) as u32;
                let l = lhs as u32;
                let r = rhs as u32;
                let w = spec_encode(i);
                assert(c < 16);
                assert(w == (1u32 << 30) | ((c & 0xf) << 24) | ((l & 0xf) << 20) | ((r & 0xf) << 16) | (val & 0xffff));
                assert(w >> 28 == 4 && (w >> 24) & 0xf == c && (w >> 20) & 0xf == l && (w >> 16) & 0xf == r
                    && w & 0xffff == val & 0xffff) by (bit_vector)
                    requires w == (1u32 << 30) | ((c & 0xf) << 24) | ((l & 0xf) << 20) | ((r & 0xf) << 16) | (val & 0xffff),
                        c < 16, l < 16, r < 16;
            }
        },
        Instruction::BrCoRg { co, lhs, rhs, dst } => {
            let c = cond_code(co) as u32;
            let l = lhs as u32;
            let r = rhs as u32;
            let d = dst as u32;
            let w = spec_encode(i);
            assert(c < 16);
            assert(w == (1u32 << 30) | (1u32 << 28) | ((c & 0xf) << 24) | (l << 16) | (r << 8) | d);
            assert(w >> 28 == 5 && (w >> 24) & 0xf == c && (w >> 16) & 0xff == l && (w >> 8) & 0xff == r
                && w & 0xff == d) by (bit_vector)
                requires w == (1u32 << 30) | (1u32 << 28) | ((c & 0xf) << 24) | (l << 16) | (r << 8) | d,
                    c < 16, l < 256, r < 256, d < 256;
        },
        Instruction::OpIm { op, lhs, dst, rhs } => {
            if lhs < 16 && dst < 16 {
                let c = op_code(op) as u32;
                let l = lhs as u32;
                let d = dst as u32;
                let w = spec_encode(i);
                assert(c < 32);
                assert(w == (2u32 << 30) | ((c & 0x1f) << 24) | ((l & 0xf) << 20) | ((d & 0xf) << 16) | (rhs & 0xffff));
                assert(w >> 29 == 4 && (w >> 24) & 0x1f == c && (w >> 20) & 0xf == l && (w >> 16) & 0xf == d
                    && w & 0xffff == rhs & 0xffff) by (bit_vector)
                    requires w == (2u32 << 30) | ((c & 0x1f) << 24) | ((l & 0xf) << 20) | ((d & 0xf) << 16) | (rhs & 0xffff),
                        c < 32, l < 16, d < 16;
            }
        },
        Instruction::OpRg { op, lhs, rhs, dst } => {
            let c = op_code(op) as u32;
            let l = lhs as u32;
            let r = rhs as u32;
            let d = dst as u32;
            let w = spec_encode(i);
            assert(c < 32);
            assert(w == (2u32 << 30) | (1u32 << 29) | ((c & 0x1f) << 24) | (l << 16) | (r << 8) | d);
            assert(w >> 29 == 5 && (w >> 24) & 0x1f == c && (w >> 16) & 0xff == l && (w >> 8) & 0xff == r
                && w & 0xff == d) by (bit_vector)
                requires w == (2u32 << 30) | (1u32 << 29) | ((c & 0x1f) << 24) | (l << 16) | (r << 8) | d,
                    c < 32, l < 256, r < 256, d < 256;
        },
        Instruction::MvLd { dst, val } => {
            let d = dst as u32;
            let w = spec_encode(i);
            assert(w == (3u32 << 30) | (2u32 << 28) | (d << 20) | (val & 0xffff));
            assert(w >> 28 == 0xE && (w >> 20) & 0xff == d && w & 0xffff == val & 0xffff) by (bit_vector)
                requires w == (3u32 << 30) | (2u32 << 28) | (d << 20) | (val & 0xffff), d < 256;
        },
        _ => {},
    }
}

} // verus!
