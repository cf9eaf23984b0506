//! Deciding, before a step, whether the step can run.
use vstd::prelude::*;
use super::{Machine, MachineModel, machine_wf};
use super::instructions::{BinaryOperator, Instruction};
use super::instructions::binop::{compute_defined, op_is_float};
use super::instructions::conv::{i_i32, signed_value};
use super::instructions::decode::decodable;
use super::execute::{
    alu_defined, br_rg_taken, step_defined, fetched, current_instruction, exec_defined, exec_spec, step_spec,
    FloatUnit,
};
use super::model::{
    cur, reg, with_pc, device_of, addr_ok, rrix_ok, rrix_read, rrix_index, rrix_addr, rrix_write,
};

verus! {

/// Whether a word decodes into an instruction.
pub fn word_decodable(w: u32) -> (r: bool)
    ensures
        r == decodable(w),
{
    let top = (w >> 30) & 3;
    let sub = (w >> 28) & 3;
    if top == 0 {
        if sub == 0 { (w & 0xff) <= 2 } else { sub == 3 }
    } else if top == 1 {
        !((w >> 29) & 1 == 1 && (w >> 28) & 1 == 1)
    } else {
        true
    }
}

/// Whether an integer operator is defined on two words.
pub fn int_op_defined(op: BinaryOperator, lhs: u32, rhs: u32) -> (r: bool)
    ensures
        r == compute_defined(op, lhs, rhs),
{
    let a = i_i32(lhs) as i64;
    let b = i_i32(rhs) as i64;
    let min: i64 = -0x8000_0000;
    let max: i64 = 0x7fff_ffff;
    match op {
        BinaryOperator::Add => min <= a + b && a + b <= max,
        BinaryOperator::Sub => min <= a - b && a - b <= max,
        BinaryOperator::SubR => min <= b - a && b - a <= max,
        BinaryOperator::Mul => {
            assert(-0x8000_0000 * 0x8000_0000 <= a * b <= 0x8000_0000 * 0x8000_0000) by (nonlinear_arith)
                requires -0x8000_0000 <= a <= 0x7fff_ffff, -0x8000_0000 <= b <= 0x7fff_ffff;
            min <= a * b && a * b <= max
        },
        BinaryOperator::Div | BinaryOperator::Mod => b != 0 && !(a == min && b == -1),
        BinaryOperator::DivU | BinaryOperator::ModU => rhs != 0,
        BinaryOperator::Lsl | BinaryOperator::Lsr | BinaryOperator::Asr => rhs < 32,
        _ => !op.is_float(),
    }
}

/// Whether an operand is read from a mapped device (and so may hold any word).
pub open spec fn device_operand(m: MachineModel, r_rix: u8, mult: u8) -> bool {
    &&& rrix_index(r_rix) != 0
    &&& device_of(rrix_addr(m, r_rix, mult)) != 0
    &&& m.devices[device_of(rrix_addr(m, r_rix, mult))] is Some
}

/// Whether the instruction at the program counter is arithmetic, or a branch
/// through an inaccessible target, on an operand read from a mapped device: whether
/// it runs then depends on the word the device returns.
pub open spec fn device_dependent(m: MachineModel) -> bool {
    let f = fetched(m);
    match current_instruction(m) {
        Instruction::OpRg { op, lhs, rhs, dst } =>
            dst != 0 && !op_is_float(op) && (device_operand(f, lhs, 1) || device_operand(f, rhs, 1)),
        Instruction::BrCoRg { lhs, rhs, dst, .. } =>
            !rrix_ok(f, dst, 1) && (device_operand(f, lhs, 1) || device_operand(f, rhs, 1)),
        _ => false,
    }
}

/// Whether an integer operator is defined on every pair of words: every integer
/// operator but those that can overflow, divide by zero or shift too far.
fn op_total(op: BinaryOperator) -> (r: bool)
    ensures
        r == (!op_is_float(op) && forall|a: u32, b: u32| #[trigger] compute_defined(op, a, b)),
{
    match op {
        BinaryOperator::Add => {
            assert(!compute_defined(op, 0x7fff_ffff, 1));
            false
        },
        BinaryOperator::Sub => {
            assert(!compute_defined(op, 0x8000_0000, 1));
            false
        },
        BinaryOperator::SubR => {
            assert(!compute_defined(op, 1, 0x8000_0000));
            false
        },
        BinaryOperator::Mul => {
            assert(signed_value(0x7fff_ffff) == 0x7fff_ffff);
            assert(signed_value(2) == 2);
            assert(0x7fff_ffffint * 2int == 0xffff_fffeint) by (nonlinear_arith);
            assert(!compute_defined(op, 0x7fff_ffff, 2));
            false
        },
        BinaryOperator::Div | BinaryOperator::Mod | BinaryOperator::DivU | BinaryOperator::ModU => {
            assert(!compute_defined(op, 0, 0));
            false
        },
        BinaryOperator::Lsl | BinaryOperator::Lsr | BinaryOperator::Asr => {
            assert(!compute_defined(op, 0, 32));
            false
        },
        _ => !op.is_float(),
    }
}

/// An operator defined on every pair of words is defined on these two.
proof fn lemma_total(op: BinaryOperator, a: u32, b: u32)
    requires
        forall|x: u32, y: u32| #[trigger] compute_defined(op, x, y),
    ensures
        alu_defined(op, a, b),
{
    assert(compute_defined(op, a, b));
}

/// The address model of a machine with a moved program counter is unchanged.
proof fn lemma_with_pc_keeps(m: MachineModel, v: u32)
    requires
        machine_wf(m),
    ensures
        forall|r: int| 0 <= r < 16 ==> #[trigger] reg(with_pc(m, v), r) == reg(m, r),
        forall|a: int| #[trigger] addr_ok(with_pc(m, v), a) == addr_ok(m, a),
        forall|x: u8, k: u8| #[trigger] rrix_ok(with_pc(m, v), x, k) == rrix_ok(m, x, k),
        forall|x: u8, k: u8, d: u32| #[trigger] rrix_read(with_pc(m, v), x, k, d) == rrix_read(m, x, k, d),
        forall|x: u8, k: u8| #[trigger] device_operand(with_pc(m, v), x, k) == device_operand(m, x, k),
        machine_wf(with_pc(m, v)),
{
    let m2 = with_pc(m, v);
    assert(cur(m2).reg == cur(m).reg);
    assert forall|x: u8, k: u8| #[trigger] rrix_ok(m2, x, k) == rrix_ok(m, x, k) by {
        assert(rrix_addr(m2, x, k) == rrix_addr(m, x, k));
    }
    assert forall|x: u8, k: u8, d: u32| #[trigger] rrix_read(m2, x, k, d) == rrix_read(m, x, k, d) by {
        assert(rrix_addr(m2, x, k) == rrix_addr(m, x, k));
    }
    assert forall|x: u8, k: u8| #[trigger] device_operand(m2, x, k) == device_operand(m, x, k) by {
        assert(rrix_addr(m2, x, k) == rrix_addr(m, x, k));
    }
}

/// Whether an instruction executes when the mapped devices hold `d0` and `d1` for
/// its first and second operand: as `exec_defined`, with those words in place of
/// every word a device could hold.
pub open spec fn exec_ok_with(m: MachineModel, i: Instruction, d0: u32, d1: u32) -> bool {
    match i {
        Instruction::OpRg { op, lhs, rhs, dst } => dst == 0 || {
            &&& rrix_ok(m, lhs, 1)
            &&& rrix_ok(m, rhs, 1)
            &&& rrix_ok(m, dst, 1)
            &&& alu_defined(op, rrix_read(m, lhs, 1, d0), rrix_read(m, rhs, 1, d1))
        },
        Instruction::BrCoRg { co, lhs, rhs, dst } => {
            &&& rrix_ok(m, lhs, 1)
            &&& rrix_ok(m, rhs, 1)
            &&& (br_rg_taken(m, co, lhs, rhs, d0, d1) ==> rrix_ok(m, dst, 1))
        },
        _ => exec_defined(m, i),
    }
}

/// Whether the next step runs when the mapped devices hold `d0` and `d1` for the
/// instruction's first and second operand.
pub open spec fn step_ok_with(m: MachineModel, d0: u32, d1: u32) -> bool {
    &&& machine_wf(m)
    &&& cur(m).pc < m.memory.len()
    &&& cur(m).pc < u32::MAX
    &&& decodable(m.memory[cur(m).pc as int])
    &&& exec_ok_with(fetched(m), current_instruction(m), d0, d1)
}

/// A step runs whatever the devices hold exactly when it runs for each pair of
/// words they could hold.
pub proof fn lemma_defined_iff_ok(m: MachineModel)
    ensures
        step_defined(m) <==> forall|d0: u32, d1: u32| #[trigger] step_ok_with(m, d0, d1),
{
    if step_defined(m) {
        assert forall|d0: u32, d1: u32| #[trigger] step_ok_with(m, d0, d1) by {
            let f = fetched(m);
            match current_instruction(m) {
                Instruction::OpRg { op, lhs, rhs, dst } => {
                    if dst != 0 {
                        assert(alu_defined(op, rrix_read(f, lhs, 1, d0), rrix_read(f, rhs, 1, d1)));
                    }
                },
                Instruction::BrCoRg { co, lhs, rhs, dst } => {
                    if !rrix_ok(f, dst, 1) {
                        assert(!br_rg_taken(f, co, lhs, rhs, d0, d1));
                    }
                },
                _ => {},
            }
        }
    }
    if forall|d0: u32, d1: u32| #[trigger] step_ok_with(m, d0, d1) {
        assert(step_ok_with(m, 0, 0));
        let f = fetched(m);
        match current_instruction(m) {
            Instruction::OpRg { op, lhs, rhs, dst } => {
                if dst != 0 {
                    assert forall|d0: u32, d1: u32|
                        alu_defined(op, #[trigger] rrix_read(f, lhs, 1, d0), #[trigger] rrix_read(f, rhs, 1, d1)) by {
                        assert(step_ok_with(m, d0, d1));
                    }
                }
            },
            Instruction::BrCoRg { co, lhs, rhs, dst } => {
                if !rrix_ok(f, dst, 1) {
                    assert forall|d0: u32, d1: u32| !#[trigger] br_rg_taken(f, co, lhs, rhs, d0, d1) by {
                        assert(step_ok_with(m, d0, d1));
                    }
                }
            },
            _ => {},
        }
    }
}

/// Moving the program counter away and back restores the machine.
proof fn lemma_pc_back(m: MachineModel, v: u32)
    requires
        machine_wf(m),
    ensures
        with_pc(with_pc(m, v), cur(m).pc) == m,
{
    let m2 = with_pc(with_pc(m, v), cur(m).pc);
    assert(m2.states[m.current_ring as int] =~= m.states[m.current_ring as int]);
    assert(m2.states =~= m.states);
}

impl Machine {
    /// Register `r` of the current ring.
    fn reg_value(&self, r: u8) -> (v: u32)
        requires
            machine_wf(self@),
            r < 16,
        ensures
            v == reg(self@, r as int),
    {
        self.states[self.current_ring].reg[r as usize]
    }

    /// Whether an address can be read and written.
    fn address_ok(&self, a: u64) -> (r: bool)
        requires
            machine_wf(self@),
        ensures
            r == addr_ok(self@, a as int),
    {
        if a > 0xffff_ffff {
            return false;
        }
        let dev = (a / 0x1000_0000) as usize;
        let off = (a % 0x1000_0000) as usize;
        if dev == 0 {
            a < self.memory.len() as u64
        } else {
            match &self.mmio_devices[dev] {
                Some(d) => off < d.data.len(),
                None => true,
            }
        }
    }

    /// Whether an operand can be accessed with multiplier `mult`.
    fn operand_ok(&self, r_rix: u8, mult: u8) -> (r: bool)
        requires
            machine_wf(self@),
        ensures
            r == rrix_ok(self@, r_rix, mult),
    {
        let idx = r_rix & 0xF;
        let base = r_rix >> 4;
        proof { assert(r_rix >> 4 == r_rix / 16 && r_rix & 0xF == r_rix % 16) by (bit_vector); }
        if idx == 0 {
            return true;
        }
        let iv = self.reg_value(idx);
        assert(iv as u64 * mult as u64 <= 0xffff_ffff * 0xff) by (nonlinear_arith)
            requires iv <= 0xffff_ffff, mult <= 0xff;
        let scaled = iv as u64 * mult as u64;
        assert(scaled == reg(self@, rrix_index(r_rix)) * mult);
        if scaled > 0xffff_ffff {
            return false;
        }
        let addr = self.reg_value(base) as u64 + scaled;
        if addr > 0xffff_ffff {
            return false;
        }
        self.address_ok(addr)
    }

    /// The word an operand reads, when no mapped device supplies it.
    fn operand_fixed(&self, r_rix: u8, mult: u8) -> (r: Option<u32>)
        requires
            machine_wf(self@),
            rrix_ok(self@, r_rix, mult),
        ensures
            r matches Some(v) ==> forall|d: u32| #[trigger] rrix_read(self@, r_rix, mult, d) == v,
            r is None <==> device_operand(self@, r_rix, mult),
    {
        let idx = r_rix & 0xF;
        let base = r_rix >> 4;
        proof { assert(r_rix >> 4 == r_rix / 16 && r_rix & 0xF == r_rix % 16) by (bit_vector); }
        if idx == 0 {
            return Some(self.reg_value(base));
        }
        let iv = self.reg_value(idx);
        assert(iv as u64 * mult as u64 <= 0xffff_ffff * 0xff) by (nonlinear_arith)
            requires iv <= 0xffff_ffff, mult <= 0xff;
        let addr = self.reg_value(base) as u64 + iv as u64 * mult as u64;
        assert(addr == rrix_addr(self@, r_rix, mult));
        let dev = (addr / 0x1000_0000) as usize;
        if dev == 0 {
            Some(self.memory[addr as usize])
        } else if self.mmio_devices[dev].is_none() {
            Some(0)
        } else {
            None
        }
    }

    /// Whether the next `step` can run: the program counter points into RAM at a
    /// word that decodes, and the instruction there executes whatever mapped
    /// devices return. Where that depends on a word read from a mapped device
    /// (arithmetic that could overflow or divide by zero, or a branch through an
    /// inaccessible target), only operators defined on every word, and branches
    /// that are never taken on the words known, are taken as runnable.
    pub fn can_step(&self) -> (r: bool)
        ensures
            r ==> step_defined(self@),
            step_defined(self@) && !device_dependent(self@) ==> r,
    {
        if self.current_ring >= 3 {
            return false;
        }
        let pc = self.states[self.current_ring].pc;
        if pc as usize >= self.memory.len() || pc == 0xffff_ffff {
            return false;
        }
        let w = self.memory[pc as usize];
        if !word_decodable(w) {
            return false;
        }
        let instr = Instruction::decode(w);
        proof {
            lemma_with_pc_keeps(self@, (pc + 1) as u32);
            assert(fetched(self@) == with_pc(self@, (pc + 1) as u32));
            assert(current_instruction(self@) == instr);
        }
        match instr {
            Instruction::MvRg { src, dst, src_m, dst_m } =>
                dst == 0 || (self.operand_ok(src, src_m) && self.operand_ok(dst, dst_m)),
            Instruction::MvRd { dst, val } => self.address_ok(val as u64) && self.operand_ok(dst, 1),
            Instruction::MvLd { dst, .. } | Instruction::MvLf { dst, .. } => self.operand_ok(dst, 1),
            Instruction::OpIm { op, lhs, dst, rhs } => dst == 0 || (lhs < 16 && dst < 16
                && (op.is_float() || int_op_defined(op, self.reg_value(lhs), rhs))),
            Instruction::OpRg { op, lhs, rhs, dst } => {
                if dst == 0 {
                    return true;
                }
                if !(self.operand_ok(lhs, 1) && self.operand_ok(rhs, 1) && self.operand_ok(dst, 1)) {
                    return false;
                }
                if op.is_float() {
                    return true;
                }
                match (self.operand_fixed(lhs, 1), self.operand_fixed(rhs, 1)) {
                    (Some(a), Some(b)) => {
                        let ok = int_op_defined(op, a, b);
                        proof {
                            if !ok {
                                assert(!alu_defined(op, rrix_read(fetched(self@), lhs, 1, 0),
                                    rrix_read(fetched(self@), rhs, 1, 0)));
                            }
                            if ok {
                                assert forall|d0: u32, d1: u32| alu_defined(op,
                                    #[trigger] rrix_read(fetched(self@), lhs, 1, d0),
                                    #[trigger] rrix_read(fetched(self@), rhs, 1, d1)) by {
                                    assert(rrix_read(self@, lhs, 1, d0) == a);
                                    assert(rrix_read(self@, rhs, 1, d1) == b);
                                }
                            }
                        }
                        ok
                    },
                    _ => {
                        let ok = op_total(op);
                        proof {
                            if ok {
                                assert forall|d0: u32, d1: u32| alu_defined(op,
                                    #[trigger] rrix_read(fetched(self@), lhs, 1, d0),
                                    #[trigger] rrix_read(fetched(self@), rhs, 1, d1)) by {
                                    lemma_total(op, rrix_read(fetched(self@), lhs, 1, d0),
                                        rrix_read(fetched(self@), rhs, 1, d1));
                                }
                            }
                        }
                        ok
                    },
                }
            },
            Instruction::BrCoIm { lhs, rhs, .. } => lhs < 16 && rhs < 16,
            Instruction::BrCoRg { co, lhs, rhs, dst } => {
                if !(self.operand_ok(lhs, 1) && self.operand_ok(rhs, 1)) {
                    return false;
                }
                if self.operand_ok(dst, 1) {
                    return true;
                }
                match (self.operand_fixed(lhs, 1), self.operand_fixed(rhs, 1)) {
                    (Some(a), Some(b)) => {
                        let taken = co.compare(a, b);
                        proof {
                            if taken {
                                assert(br_rg_taken(fetched(self@), co, lhs, rhs, 0, 0));
                            }
                            if !taken {
                                assert forall|d0: u32, d1: u32|
                                    !#[trigger] br_rg_taken(fetched(self@), co, lhs, rhs, d0, d1) by {
                                    assert(rrix_read(self@, lhs, 1, d0) == a);
                                    assert(rrix_read(self@, rhs, 1, d1) == b);
                                }
                            }
                        }
                        !taken
                    },
                    _ => false,
                }
            },
            Instruction::BrUnconditional { .. } | Instruction::SpStackPos { .. } | Instruction::SpHalt
            | Instruction::SpDebug => true,
            _ => false,
        }
    }

    /// Executes the instruction at the program counter, as `step` does, where it
    /// runs with the words the mapped devices hold now; returns whether the machine
    /// is still running. Where it would not run (the instruction cannot execute,
    /// or arithmetic on a word read from a device overflows or divides by zero, or
    /// a branch taken on such words jumps through an inaccessible target), it
    /// changes nothing and returns `None`.
    pub fn step_checked<F: FloatUnit>(&mut self, fpu: &F) -> (r: Option<bool>)
        requires
            machine_wf(old(self)@),
        ensures
            machine_wf(final(self)@),
            r matches Some(running) ==> running == !final(self)@.halted
                && exists|d0: u32, d1: u32, d2: u32, f: u32| step_ok_with(old(self)@, d0, d1)
                    && #[trigger] step_spec(old(self)@, d0, d1, d2, f) == final(self)@,
            r is None ==> final(self)@ == old(self)@
                && exists|d0: u32, d1: u32| !#[trigger] step_ok_with(old(self)@, d0, d1),
            step_defined(old(self)@) ==> r is Some,
    {
        let ghost m0 = self@;
        proof { lemma_defined_iff_ok(m0); }
        if self.can_step() {
            let running = self.step(fpu);
            proof {
                let (d0, d1, d2, f) = choose|d0: u32, d1: u32, d2: u32, f: u32|
                    self@ == step_spec(m0, d0, d1, d2, f);
                assert(step_ok_with(m0, d0, d1));
            }
            return Some(running);
        }
        let ring = self.current_ring;
        let pc = self.states[ring].pc;
        if pc as usize >= self.memory.len() || pc == 0xffff_ffff {
            assert(!step_ok_with(m0, 0, 0));
            return None;
        }
        let w = self.memory[pc as usize];
        if !word_decodable(w) {
            assert(!step_ok_with(m0, 0, 0));
            return None;
        }
        let instr = Instruction::decode(w);
        proof {
            lemma_with_pc_keeps(m0, (pc + 1) as u32);
            assert(fetched(m0) == with_pc(m0, (pc + 1) as u32));
            assert(current_instruction(m0) == instr);
            lemma_pc_back(m0, (pc + 1) as u32);
        }
        let ghost f0 = fetched(m0);
        match instr {
            Instruction::OpRg { op, lhs, rhs, dst } => {
                if dst == 0 || !(self.operand_ok(lhs, 1) && self.operand_ok(rhs, 1) && self.operand_ok(dst, 1)) {
                    return None;
                }
                self.set_pc(pc + 1);
                let l = self.r_rix_read(lhs);
                let r = self.r_rix_read(rhs);
                if !op.is_float() && !int_op_defined(op, l, r) {
                    self.set_pc(pc);
                    assert(!step_ok_with(m0, l, r));
                    return None;
                }
                let v = if op.is_float() { fpu.compute_float(op, l, r) } else { op.compute(l, r) };
                self.r_rix_write(dst, v);
                proof {
                    assert(self@ == exec_spec(f0, instr, l, r, 0, v));
                    assert(step_ok_with(m0, l, r));
                    assert(step_spec(m0, l, r, 0, v) == self@);
                }
                Some(!self.halted)
            },
            Instruction::BrCoRg { co, lhs, rhs, dst } => {
                if !(self.operand_ok(lhs, 1) && self.operand_ok(rhs, 1)) {
                    return None;
                }
                self.set_pc(pc + 1);
                let l = self.r_rix_read(lhs);
                let r = self.r_rix_read(rhs);
                let ghost d2: u32 = 0;
                if co.compare(l, r) {
                    assert(br_rg_taken(f0, co, lhs, rhs, l, r));
                    if !self.operand_ok(dst, 1) {
                        self.set_pc(pc);
                        assert(!step_ok_with(m0, l, r));
                        return None;
                    }
                    let t = self.r_rix_read(dst);
                    self.set_pc(t);
                    proof { d2 = t; }
                }
                proof {
                    assert(self@ == exec_spec(f0, instr, l, r, d2, 0));
                    assert(step_ok_with(m0, l, r));
                    assert(step_spec(m0, l, r, d2, 0) == self@);
                }
                Some(!self.halted)
            },
            _ => {
                assert(!step_defined(m0));
                None
            },
        }
    }
}

} // verus!
