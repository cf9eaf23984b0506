//! Executing instructions.
use vstd::prelude::*;
use super::{Machine, MachineModel, machine_wf};
use super::instructions::{BinaryOperator, Instruction};
use super::instructions::binop::{op_is_float, compute_defined, spec_compute};
use super::instructions::condition::spec_compare;
use super::instructions::decode::{decodable, spec_decode};
use super::model::{
    cur, reg, with_reg, with_pc, with_stack, addr_ok, read_val, rrix_ok, rrix_read, rrix_write,
};

verus! {

/// Computes the floating point operators (`+f`, `-f`, `-rf`, `*f`, `/f`, `%f`,
/// `minf`, `maxf`, `<<f`) on the bit patterns of two single precision values.
pub trait FloatUnit {
    /// The bits of `lhs op rhs`, where the operands are the bits of `f32` values.
    fn compute_float(&self, op: BinaryOperator, lhs: u32, rhs: u32) -> u32;
}

/// The result of an ALU operation, where `f` is what the float unit returned.
pub open spec fn alu_result(op: BinaryOperator, lhs: u32, rhs: u32, f: u32) -> u32 {
    if op_is_float(op) { f } else { spec_compute(op, lhs, rhs) }
}

/// Whether an ALU operation returns: float operators always, integer operators when
/// `compute` is defined on the operands.
pub open spec fn alu_defined(op: BinaryOperator, lhs: u32, rhs: u32) -> bool {
    op_is_float(op) || compute_defined(op, lhs, rhs)
}

/// Whether a conditional branch with register operands is taken, given the words
/// a device returned for each operand.
pub open spec fn br_rg_taken(
    m: MachineModel, co: super::Condition, lhs: u8, rhs: u8, d0: u32, d1: u32,
) -> bool {
    spec_compare(co, rrix_read(m, lhs, 1, d0), rrix_read(m, rhs, 1, d1))
}

/// Whether executing an instruction returns (rather than panics): the instruction
/// has an implementation, every register index is in range, every address is in
/// bounds, and integer arithmetic neither overflows nor divides by zero, whatever
/// mapped devices return.
pub open spec fn exec_defined(m: MachineModel, i: Instruction) -> bool {
    match i {
        Instruction::MvRg { src, dst, src_m, dst_m } =>
            dst == 0 || (rrix_ok(m, src, src_m) && rrix_ok(m, dst, dst_m)),
        Instruction::MvRd { dst, val } => addr_ok(m, val as int) && rrix_ok(m, dst, 1),
        Instruction::MvLd { dst, .. } | Instruction::MvLf { dst, .. } => rrix_ok(m, dst, 1),
        Instruction::OpIm { op, lhs, dst, rhs } =>
            dst == 0 || (lhs < 16 && dst < 16 && alu_defined(op, reg(m, lhs as int), rhs)),
        Instruction::OpRg { op, lhs, rhs, dst } => dst == 0 || {
            &&& rrix_ok(m, lhs, 1)
            &&& rrix_ok(m, rhs, 1)
            &&& rrix_ok(m, dst, 1)
            &&& forall|d0: u32, d1: u32|
                alu_defined(op, #[trigger] rrix_read(m, lhs, 1, d0), #[trigger] rrix_read(m, rhs, 1, d1))
        },
        Instruction::BrCoIm { lhs, rhs, .. } => lhs < 16 && rhs < 16,
        Instruction::BrCoRg { co, lhs, rhs, dst } => {
            &&& rrix_ok(m, lhs, 1)
            &&& rrix_ok(m, rhs, 1)
            &&& (rrix_ok(m, dst, 1) || forall|d0: u32, d1: u32| !#[trigger] br_rg_taken(m, co, lhs, rhs, d0, d1))
        },
        Instruction::BrUnconditional { .. } | Instruction::SpStackPos { .. } | Instruction::SpHalt
        | Instruction::SpDebug => true,
        _ => false,
    }
}

/// The machine after executing an instruction. `d0`, `d1` and `d2` are the words
/// that mapped devices returned for the first, second and third operand read, and
/// `f` is what the float unit returned.
pub open spec fn exec_spec(m: MachineModel, i: Instruction, d0: u32, d1: u32, d2: u32, f: u32) -> MachineModel {
    match i {
        Instruction::MvRg { src, dst, src_m, dst_m } => {
            if dst == 0 {
                let a = (src % 16) as int;
                let b = (src / 16) as int;
                if a != 0 && b != 0 {
                    let va = reg(m, a);
                    let vb = reg(m, b);
                    with_reg(with_reg(m, a, vb), b, va)
                } else {
                    m
                }
            } else {
                rrix_write(m, dst, dst_m, rrix_read(m, src, src_m, d0))
            }
        },
        Instruction::MvRd { dst, val } =>
            if dst != 0 { rrix_write(m, dst, 1, read_val(m, val as int, d0)) } else { m },
        Instruction::MvLd { dst, val } | Instruction::MvLf { dst, val } =>
            if dst != 0 { rrix_write(m, dst, 1, val) } else { m },
        Instruction::OpIm { op, lhs, dst, rhs } => {
            if dst != 0 {
                with_reg(m, dst as int, alu_result(op, reg(m, lhs as int), rhs, f))
            } else {
                m
            }
        },
        Instruction::OpRg { op, lhs, rhs, dst } => {
            if dst != 0 {
                rrix_write(m, dst, 1, alu_result(op, rrix_read(m, lhs, 1, d0), rrix_read(m, rhs, 1, d1), f))
            } else {
                m
            }
        },
        Instruction::BrCoIm { co, lhs, rhs, val } => {
            if spec_compare(co, reg(m, lhs as int), reg(m, rhs as int)) {
                with_pc(m, val)
            } else {
                m
            }
        },
        Instruction::BrCoRg { co, lhs, rhs, dst } => {
            if br_rg_taken(m, co, lhs, rhs, d0, d1) {
                with_pc(m, rrix_read(m, dst, 1, d2))
            } else {
                m
            }
        },
        Instruction::BrUnconditional { dst } => with_pc(m, dst),
        Instruction::SpStackPos { val } => with_stack(m, val),
        Instruction::SpHalt => MachineModel { halted: true, ..m },
        _ => m,
    }
}

/// The model after the program counter moved past the instruction it pointed at.
pub open spec fn fetched(m: MachineModel) -> MachineModel {
    with_pc(m, (cur(m).pc + 1) as u32)
}

/// The instruction the program counter points at.
pub open spec fn current_instruction(m: MachineModel) -> Instruction {
    spec_decode(m.memory[cur(m).pc as int])
}

/// Whether `step` returns: the program counter points into RAM at a word that
/// decodes, can move on without overflow, and the instruction there executes.
pub open spec fn step_defined(m: MachineModel) -> bool {
    &&& machine_wf(m)
    &&& cur(m).pc < m.memory.len()
    &&& cur(m).pc < u32::MAX
    &&& decodable(m.memory[cur(m).pc as int])
    &&& exec_defined(fetched(m), current_instruction(m))
}

/// The machine after one step, given what devices and the float unit returned.
pub open spec fn step_spec(m: MachineModel, d0: u32, d1: u32, d2: u32, f: u32) -> MachineModel {
    exec_spec(fetched(m), current_instruction(m), d0, d1, d2, f)
}

impl Machine {
    /// Executes one instruction. Float operators are computed by `fpu`.
    pub fn exec<F: FloatUnit>(&mut self, instruction: Instruction, fpu: &F)
        requires
            machine_wf(old(self)@),
            exec_defined(old(self)@, instruction),
        ensures
            machine_wf(final(self)@),
            exists|d0: u32, d1: u32, d2: u32, f: u32|
                final(self)@ == exec_spec(old(self)@, instruction, d0, d1, d2, f),
    {
        let ghost m0 = self@;
        match instruction {
            Instruction::MvRg { src, dst, src_m, dst_m } => {
                if dst == 0 {
                    let a = src & 0xf;
                    let b = (src >> 4) & 0xf;
                    proof {
                        assert(src & 0xf == src % 16 && (src >> 4) & 0xf == src / 16) by (bit_vector);
                    }
                    if a != 0 && b != 0 {
                        let val_a = self.r_read(a);
                        let val_b = self.r_read(b);
                        self.r_write(a, val_b);
                        self.r_write(b, val_a);
                    }
                    assert(self@ == exec_spec(m0, instruction, 0, 0, 0, 0));
                } else {
                    let v = self.r_rix_m_read(src, src_m);
                    self.r_rix_m_write(dst, dst_m, v);
                    assert(self@ == exec_spec(m0, instruction, v, 0, 0, 0));
                }
            },
            Instruction::MvRd { dst, val } => {
                let v = self.read_address(val as usize);
                if dst != 0 {
                    self.r_rix_write(dst, v);
                }
                assert(self@ == exec_spec(m0, instruction, v, 0, 0, 0));
            },
            Instruction::MvLd { dst, val } | Instruction::MvLf { dst, val } => {
                if dst != 0 {
                    self.r_rix_write(dst, val);
                }
                assert(self@ == exec_spec(m0, instruction, 0, 0, 0, 0));
            },
            Instruction::OpIm { op, lhs, dst, rhs } => {
                if dst != 0 {
                    let l = self.r_read(lhs);
                    let r = if op.is_float() { fpu.compute_float(op, l, rhs) } else { op.compute(l, rhs) };
                    self.r_write(dst, r);
                    assert(self@ == exec_spec(m0, instruction, 0, 0, 0, r));
                } else {
                    assert(self@ == exec_spec(m0, instruction, 0, 0, 0, 0));
                }
            },
            Instruction::OpRg { op, lhs, rhs, dst } => {
                if dst != 0 {
                    let l = self.r_rix_read(lhs);
                    let r = self.r_rix_read(rhs);
                    proof {
                        assert(alu_defined(op, rrix_read(m0, lhs, 1, l), rrix_read(m0, rhs, 1, r)));
                    }
                    let v = if op.is_float() { fpu.compute_float(op, l, r) } else { op.compute(l, r) };
                    self.r_rix_write(dst, v);
                    assert(self@ == exec_spec(m0, instruction, l, r, 0, v));
                } else {
                    assert(self@ == exec_spec(m0, instruction, 0, 0, 0, 0));
                }
            },
            Instruction::BrCoIm { co, lhs, rhs, val } => {
                let l = self.r_read(lhs);
                let r = self.r_read(rhs);
                if co.compare(l, r) {
                    self.set_pc(val);
                }
                assert(self@ == exec_spec(m0, instruction, 0, 0, 0, 0));
            },
            Instruction::BrCoRg { co, lhs, rhs, dst } => {
                let l = self.r_rix_read(lhs);
                let r = self.r_rix_read(rhs);
                if co.compare(l, r) {
                    proof {
                        assert(br_rg_taken(m0, co, lhs, rhs, l, r));
                    }
                    let t = self.r_rix_read(dst);
                    self.set_pc(t);
                    assert(self@ == exec_spec(m0, instruction, l, r, t, 0));
                } else {
                    assert(self@ == exec_spec(m0, instruction, l, r, 0, 0));
                }
            },
            Instruction::BrUnconditional { dst } => {
                self.set_pc(dst);
                assert(self@ == exec_spec(m0, instruction, 0, 0, 0, 0));
            },
            Instruction::SpStackPos { val } => {
                let ring = self.current_ring;
                self.states[ring].stack = val;
                proof {
                    assert(self@.states =~= with_stack(m0, val).states);
                    assert(self@.devices =~= m0.devices);
                }
                assert(self@ == exec_spec(m0, instruction, 0, 0, 0, 0));
            },
            Instruction::SpHalt => {
                self.halted = true;
                proof {
                    assert(self@.states =~= m0.states);
                    assert(self@.devices =~= m0.devices);
                }
                assert(self@ == exec_spec(m0, instruction, 0, 0, 0, 0));
            },
            _ => {
                assert(self@ == exec_spec(m0, instruction, 0, 0, 0, 0));
            },
        }
    }

    /// Sets the current ring's program counter.
    pub(crate) fn set_pc(&mut self, v: u32)
        requires
            machine_wf(old(self)@),
        ensures
            final(self)@ == with_pc(old(self)@, v),
    {
        let ring = self.current_ring;
        self.states[ring].pc = v;
        proof {
            assert(self@.states =~= with_pc(old(self)@, v).states);
            assert(self@.devices =~= old(self)@.devices);
        }
    }

    /// Executes the instruction at the program counter, after moving the counter
    /// past it. Returns whether the machine is still running.
    pub fn step<F: FloatUnit>(&mut self, fpu: &F) -> (running: bool)
        requires
            step_defined(old(self)@),
        ensures
            machine_wf(final(self)@),
            exists|d0: u32, d1: u32, d2: u32, f: u32|
                final(self)@ == step_spec(old(self)@, d0, d1, d2, f),
            running == !final(self)@.halted,
    {
        let ring = self.current_ring;
        let addr = self.states[ring].pc;
        self.set_pc(addr + 1);
        let ghost m1 = self@;
        let instr = Instruction::decode(self.memory[addr as usize]);
        self.exec(instr, fpu);
        proof {
            assert(m1 == fetched(old(self)@));
            let (d0, d1, d2, f) = choose|d0: u32, d1: u32, d2: u32, f: u32|
                self@ == exec_spec(m1, instr, d0, d1, d2, f);
            assert(self@ == step_spec(old(self)@, d0, d1, d2, f));
        }
        !self.halted
    }
}

} // verus!
