//! Decoding 32-bit machine words into instructions.
use vstd::prelude::*;
use super::{BinaryOperator, Condition, Instruction};
use super::binop::op_from_code;
use super::condition::cond_from_code;

verus! {

/// Whether `decode` returns an instruction for the word. Special words other than
/// `halt`, `debug` and `stack` (the two middle groups, and the rest of the first
/// group), and flag branches, have no decoding.
pub open spec fn decodable(w: u32) -> bool {
    let top = (w >> 30) & 3;
    let sub = (w >> 28) & 3;
    if top == 0 {
        if sub == 0 { (w & 0xff) <= 2 } else { sub == 3 }
    } else if top == 1 {
        !((w >> 29) & 1 == 1 && (w >> 28) & 1 == 1)
    } else {
        true
    }
}

/// The stack instruction a word denotes (for words of the stack group).
pub open spec fn spec_decode_stack(w: u32) -> Instruction {
    let esc = (w >> 27) & 1 != 0;
    let push = (w >> 26) & 1 == 0;
    let imm_clear = (w >> 19) & 1 == 0;
    let stype = (w >> 24) & 3;
    if push {
        if stype == 0 {
            Instruction::StPushRg { esc, src: (w >> 16) as u8, src_val: (w >> 8) as u8 }
        } else if stype == 1 {
            Instruction::StPushRgImm { esc, src: (w >> 16) as u8, val: w & 0xf_ffff }
        } else if stype == 2 {
            if !imm_clear {
                Instruction::StPushPcI { esc, sparam: (w >> 16) as u8, val: w & 0x7_ffff }
            } else {
                Instruction::StPushPcR { esc, sparam: (w >> 16) as u8, dst: (w >> 11) as u8 }
            }
        } else {
            if !imm_clear {
                Instruction::StPushStI { esc, sparam: (w >> 16) as u8, val: w & 0x7_ffff }
            } else {
                Instruction::StPushStR { esc, sparam: (w >> 16) as u8, dst: (w >> 11) as u8 }
            }
        }
    } else {
        if stype == 0 {
            Instruction::StPeek { esc, dst: (w >> 16) as u8, offset_rg: (w >> 8) as u8, offset: w as u8 }
        } else if stype == 1 {
            Instruction::StPopRg { esc, dst: (w >> 16) as u8 }
        } else if stype == 2 {
            Instruction::StPopPc { esc, sparam: (w >> 16) as u8 }
        } else {
            Instruction::StPopSt { esc, sparam: (w >> 16) as u8 }
        }
    }
}

/// The instruction a decodable word denotes.
pub open spec fn spec_decode(w: u32) -> Instruction {
    let top = (w >> 30) & 3;
    let sub = (w >> 28) & 3;
    if top == 0 {
        if sub == 0 {
            if w & 0xff == 0 {
                Instruction::SpHalt
            } else if w & 0xff == 1 {
                Instruction::SpDebug
            } else {
                Instruction::SpStackPos { val: w >> 8 }
            }
        } else {
            spec_decode_stack(w)
        }
    } else if top == 1 {
        if (w >> 29) & 1 == 0 {
            if (w >> 28) & 1 == 0 {
                Instruction::BrCoIm {
                    co: cond_from_code(((w >> 24) as u8) & 0xf),
                    lhs: ((w >> 20) as u8) & 0xf,
                    rhs: ((w >> 16) as u8) & 0xf,
                    val: w & 0xffff,
                }
            } else {
                Instruction::BrCoRg {
                    co: cond_from_code(((w >> 24) as u8) & 0xf),
                    lhs: (w >> 16) as u8,
                    rhs: (w >> 8) as u8,
                    dst: w as u8,
                }
            }
        } else {
            Instruction::BrUnconditional { dst: w & 0xfff_ffff }
        }
    } else if top == 2 {
        if (w >> 29) & 1 == 0 {
            Instruction::OpIm {
                op: op_from_code(((w >> 24) as u8) & 0x1f),
                lhs: ((w >> 20) as u8) & 0xf,
                dst: ((w >> 16) as u8) & 0xf,
                rhs: w & 0xffff,
            }
        } else {
            Instruction::OpRg {
                op: op_from_code(((w >> 24) as u8) & 0x1f),
                lhs: (w >> 16) as u8,
                rhs: (w >> 8) as u8,
                dst: w as u8,
            }
        }
    } else {
        if sub == 0 {
            let n = (w & 0xf) + 1;
            let i = ((w >> 4) & 0xf) + 1;
            let j = ((w >> 8) & 0xf) + 1;
            Instruction::MvRg {
                src: (w >> 20) as u8,
                dst: (w >> 12) as u8,
                src_m: (n * i) as u8,
                dst_m: (n * j) as u8,
            }
        } else if sub == 1 {
            Instruction::MvRd { dst: (w >> 20) as u8, val: w & 0xffff }
        } else if sub == 2 {
            Instruction::MvLd { dst: (w >> 20) as u8, val: w & 0xffff }
        } else {
            Instruction::MvLf {
                dst: ((w >> 24) & 0xf) as u8,
                val: (((w >> 23) & 1) << 31) | (w & 0x7f_ffff),
            }
        }
    }
}

fn decode_stack(w: u32) -> (r: Instruction)
    requires
        (w >> 30) & 3 == 0,
        (w >> 28) & 3 == 3,
    ensures
        r == spec_decode_stack(w),
{
    let esc = (w >> 27) & 1 != 0;
    let push = (w >> 26) & 1 == 0;
    let imm_clear = (w >> 19) & 1 == 0;
    let stype = (w >> 24) & 3;
    if push {
        if stype == 0 {
            Instruction::StPushRg { esc, src: (w >> 16) as u8, src_val: (w >> 8) as u8 }
        } else if stype == 1 {
            Instruction::StPushRgImm { esc, src: (w >> 16) as u8, val: w & 0xf_ffff }
        } else if stype == 2 {
            if !imm_clear {
                Instruction::StPushPcI { esc, sparam: (w >> 16) as u8, val: w & 0x7_ffff }
            } else {
                Instruction::StPushPcR { esc, sparam: (w >> 16) as u8, dst: (w >> 11) as u8 }
            }
        } else {
            if !imm_clear {
                Instruction::StPushStI { esc, sparam: (w >> 16) as u8, val: w & 0x7_ffff }
            } else {
                Instruction::StPushStR { esc, sparam: (w >> 16) as u8, dst: (w >> 11) as u8 }
            }
        }
    } else {
        if stype == 0 {
            Instruction::StPeek { esc, dst: (w >> 16) as u8, offset_rg: (w >> 8) as u8, offset: w as u8 }
        } else if stype == 1 {
            Instruction::StPopRg { esc, dst: (w >> 16) as u8 }
        } else if stype == 2 {
            Instruction::StPopPc { esc, sparam: (w >> 16) as u8 }
        } else {
            Instruction::StPopSt { esc, sparam: (w >> 16) as u8 }
        }
    }
}

impl Instruction {
    /// The instruction that a machine word denotes.
    pub fn decode(instruction: u32) -> (r: Instruction)
        requires
            decodable(instruction),
        ensures
            r == spec_decode(instruction),
    {
        let w = instruction;
        let top = (w >> 30) & 3;
        let sub = (w >> 28) & 3;
        if top == 0 {
            if sub == 0 {
                if w & 0xff == 0 {
                    Instruction::SpHalt
                } else if w & 0xff == 1 {
                    Instruction::SpDebug
                } else {
                    Instruction::SpStackPos { val: w >> 8 }
                }
            } else {
                decode_stack(w)
            }
        } else if top == 1 {
            if (w >> 29) & 1 == 0 {
                if (w >> 28) & 1 == 0 {
                    let c = ((w >> 24) as u8) & 0xf;
                    proof { assert(c <= 15) by (bit_vector) requires c == ((w >> 24) as u8) & 0xf; }
                    Instruction::BrCoIm {
                        co: Condition::decode(c),
                        lhs: ((w >> 20) as u8) & 0xf,
                        rhs: ((w >> 16) as u8) & 0xf,
                        val: w & 0xffff,
                    }
                } else {
                    let c = ((w >> 24) as u8) & 0xf;
                    proof { assert(c <= 15) by (bit_vector) requires c == ((w >> 24) as u8) & 0xf; }
                    Instruction::BrCoRg {
                        co: Condition::decode(c),
                        lhs: (w >> 16) as u8,
                        rhs: (w >> 8) as u8,
                        dst: w as u8,
                    }
                }
            } else {
                Instruction::BrUnconditional { dst: w & 0xfff_ffff }
            }
        } else if top == 2 {
            let c = ((w >> 24) as u8) & 0x1f;
            proof { assert(c <= 31) by (bit_vector) requires c == ((w >> 24) as u8) & 0x1f; }
            if (w >> 29) & 1 == 0 {
                Instruction::OpIm {
                    op: BinaryOperator::decode(c),
                    lhs: ((w >> 20) as u8) & 0xf,
                    dst: ((w >> 16) as u8) & 0xf,
                    rhs: w & 0xffff,
                }
            } else {
                Instruction::OpRg {
                    op: BinaryOperator::decode(c),
                    lhs: (w >> 16) as u8,
                    rhs: (w >> 8) as u8,
                    dst: w as u8,
                }
            }
        } else {
            if sub == 0 {
                proof {
                    assert((w & 0xf) <= 15 && ((w >> 4) & 0xf) <= 15 && ((w >> 8) & 0xf) <= 15) by (bit_vector);
                }
                let n = (w & 0xf) + 1;
                let i = ((w >> 4) & 0xf) + 1;
                let j = ((w >> 8) & 0xf) + 1;
                proof {
                    assert(n * i <= 256) by (nonlinear_arith) requires n <= 16, i <= 16;
                    assert(n * j <= 256) by (nonlinear_arith) requires n <= 16, j <= 16;
                }
                Instruction::MvRg {
                    src: (w >> 20) as u8,
                    dst: (w >> 12) as u8,
                    src_m: (n * i) as u8,
                    dst_m: (n * j) as u8,
                }
            } else if sub == 1 {
                Instruction::MvRd { dst: (w >> 20) as u8, val: w & 0xffff }
            } else if sub == 2 {
                Instruction::MvLd { dst: (w >> 20) as u8, val: w & 0xffff }
            } else {
                Instruction::MvLf {
                    dst: ((w >> 24) & 0xf) as u8,
                    val: (((w >> 23) & 1) << 31) | (w & 0x7f_ffff),
                }
            }
        }
    }
}

} // verus!
