//! Laws of the machine model.
use vstd::prelude::*;
use super::{MachineModel, machine_wf, Instruction};
use super::model::{cur, reg, with_reg, addr_ok, device_of, read_val, write_val, rrix_write, rrix_read, rrix_index, rrix_base};
use super::execute::{exec_spec, step_spec, fetched, current_instruction, alu_result};
use super::check::step_ok_with;
use super::model::{rrix_ok, rrix_addr};
use super::instructions::Condition;
use super::instructions::condition::{spec_compare, f32_eq, f32_gt};
use super::instructions::conv::signed_value;
use super::instructions::bits::popcount;
use super::instructions::BinaryOperator;
use super::instructions::binop::{spec_compute, compute_defined, fits_i32, word_of, abs};

verus! {

/// Reading a RAM address gives back the last word written there, and writing one
/// address leaves every other address as it was.
pub proof fn lemma_read_after_write(m: MachineModel, a: int, b: int, v: u32, d: u32)
    requires
        addr_ok(m, a),
        addr_ok(m, b),
    ensures
        device_of(a) == 0 ==> read_val(write_val(m, a, v), a, d) == v,
        a != b ==> read_val(write_val(m, a, v), b, d) == read_val(m, b, d),
        addr_ok(write_val(m, a, v), b),
{
}

/// Reading a register gives back the last value written to it, and writing one
/// register leaves the others as they were.
pub proof fn lemma_register_read_after_write(m: MachineModel, r: int, s: int, v: u32)
    requires
        machine_wf(m),
        cur(m).reg.len() == 16,
        0 <= r < 16,
        0 <= s < 16,
    ensures
        reg(with_reg(m, r, v), r) == v,
        r != s ==> reg(with_reg(m, r, v), s) == reg(m, s),
        machine_wf(with_reg(m, r, v)),
{
}

/// Swapping two registers twice restores the machine.
pub proof fn lemma_swap_twice(m: MachineModel, src: u8, src_m: u8, dst_m: u8, d0: u32, d1: u32, d2: u32, f: u32)
    requires
        machine_wf(m),
        cur(m).reg.len() == 16,
    ensures
        ({
            let i = Instruction::MvRg { src, dst: 0, src_m, dst_m };
            exec_spec(exec_spec(m, i, d0, d1, d2, f), i, d0, d1, d2, f) == m
        }),
{
    let i = Instruction::MvRg { src, dst: 0, src_m, dst_m };
    let a = (src % 16) as int;
    let b = (src / 16) as int;
    let m1 = exec_spec(m, i, d0, d1, d2, f);
    let m2 = exec_spec(m1, i, d0, d1, d2, f);
    if a != 0 && b != 0 {
        assert(cur(m2).reg =~= cur(m).reg);
        assert(m2.states =~= m.states);
    }
}

/// A step of any instruction other than a branch moves the program counter to the
/// next word; a halt stops the machine.
pub proof fn lemma_step_advances(m: MachineModel, d0: u32, d1: u32, d2: u32, f: u32)
    requires
        machine_wf(m),
        cur(m).pc < u32::MAX,
    ensures
        !(current_instruction(m) is BrCoIm || current_instruction(m) is BrCoRg
            || current_instruction(m) is BrUnconditional)
            ==> cur(step_spec(m, d0, d1, d2, f)).pc == cur(m).pc + 1,
        current_instruction(m) is SpHalt ==> step_spec(m, d0, d1, d2, f).halted,
        !(current_instruction(m) is SpHalt) ==> step_spec(m, d0, d1, d2, f).halted == m.halted,
{
    let m1 = fetched(m);
    assert(cur(m1).pc == cur(m).pc + 1);
}

/// A step never changes the ring, the flags register or the mapped devices.
pub proof fn lemma_step_keeps_ring_and_flags(m: MachineModel, d0: u32, d1: u32, d2: u32, f: u32)
    requires
        machine_wf(m),
    ensures
        step_spec(m, d0, d1, d2, f).current_ring == m.current_ring,
        cur(step_spec(m, d0, d1, d2, f)).flags == cur(m).flags,
        step_spec(m, d0, d1, d2, f).devices == m.devices,
{
}

/// Register 0 always holds zero: no step that runs writes it.
pub proof fn lemma_step_keeps_zero_register(m: MachineModel, d0: u32, d1: u32, d2: u32, f: u32)
    requires
        step_ok_with(m, d0, d1),
        reg(m, 0) == 0,
    ensures
        reg(step_spec(m, d0, d1, d2, f), 0) == 0,
{
    let m1 = fetched(m);
    assert(reg(m1, 0) == 0);
    assert(cur(m1).reg.len() == 16);
    let i = current_instruction(m);
    match i {
        Instruction::MvRg { src, dst, src_m, dst_m } => {
            if dst == 0 {
                let a = (src % 16) as int;
                let b = (src / 16) as int;
                if a != 0 && b != 0 {
                    let ma = with_reg(m1, a, reg(m1, b));
                    assert(cur(ma).reg == cur(m1).reg.update(a, reg(m1, b)));
                    assert(reg(ma, 0) == 0);
                    assert(machine_wf(ma));
                    assert(cur(ma).reg.len() == 16);
                    let mb = with_reg(ma, b, reg(m1, a));
                    assert(cur(mb).reg == cur(ma).reg.update(b, reg(m1, a)));
                    assert(step_spec(m, d0, d1, d2, f) == mb);
                    assert(reg(mb, 0) == 0);
                }
            } else {
                lemma_operand_write_keeps_zero(m1, dst, dst_m, rrix_read(m1, src, src_m, d0));
            }
        },
        Instruction::MvRd { dst, val } => {
            if dst != 0 {
                lemma_operand_write_keeps_zero(m1, dst, 1, read_val(m1, val as int, d0));
            }
        },
        Instruction::MvLd { dst, val } => {
            if dst != 0 {
                lemma_operand_write_keeps_zero(m1, dst, 1, val);
            }
        },
        Instruction::MvLf { dst, val } => {
            if dst != 0 {
                lemma_operand_write_keeps_zero(m1, dst, 1, val);
            }
        },
        Instruction::OpIm { op, lhs, dst, rhs } => {
            if dst != 0 {
                assert(cur(with_reg(m1, dst as int, alu_result(op, reg(m1, lhs as int), rhs, f))).reg
                    == cur(m1).reg.update(dst as int, alu_result(op, reg(m1, lhs as int), rhs, f)));
            }
        },
        Instruction::OpRg { op, lhs, rhs, dst } => {
            if dst != 0 {
                lemma_operand_write_keeps_zero(m1, dst, 1, alu_result(op, rrix_read(m1, lhs, 1, d0), rrix_read(m1, rhs, 1, d1), f));
            }
        },
        _ => {},
    }
}

/// Writing a non-zero operand byte leaves register 0 as it was.
proof fn lemma_operand_write_keeps_zero(m: MachineModel, x: u8, mult: u8, v: u32)
    requires
        machine_wf(m),
        cur(m).reg.len() == 16,
        x != 0,
    ensures
        reg(rrix_write(m, x, mult, v), 0) == reg(m, 0),
{
    if rrix_index(x) == 0 {
        let b = rrix_base(x);
        assert(0 < b < 16);
        assert(cur(with_reg(m, b, v)).reg == cur(m).reg.update(b, v));
    }
}

/// What each branch condition tests of its two words, the first word being the
/// branch's left operand: equality, signed and unsigned order, no common set bit,
/// float equality and order, equal bit counts, equal parity; each odd-numbered
/// condition is the negation of the one before it.
pub proof fn lemma_condition_meaning(a: u32, b: u32)
    ensures
        spec_compare(Condition::Eq, a, b) == (a == b),
        spec_compare(Condition::NEq, a, b) == (a != b),
        spec_compare(Condition::Gt, a, b) == (signed_value(a) > signed_value(b)),
        spec_compare(Condition::NGt, a, b) == (signed_value(a) <= signed_value(b)),
        spec_compare(Condition::GtU, a, b) == (a >= b),
        spec_compare(Condition::NGtU, a, b) == (a < b),
        spec_compare(Condition::Mask, a, b) == (a & b == 0),
        spec_compare(Condition::NMask, a, b) == (a & b != 0),
        spec_compare(Condition::EqF, a, b) == f32_eq(a, b),
        spec_compare(Condition::NEqF, a, b) == !f32_eq(a, b),
        spec_compare(Condition::GtF, a, b) == f32_gt(a, b),
        spec_compare(Condition::NGtF, a, b) == !f32_gt(a, b),
        spec_compare(Condition::Par, a, b) == (popcount(a) == popcount(b)),
        spec_compare(Condition::NPar, a, b) == (popcount(a) != popcount(b)),
        spec_compare(Condition::Even, a, b) == (a % 2 == b % 2),
        spec_compare(Condition::NEven, a, b) == (a % 2 != b % 2),
{
}

/// A conditional branch to an immediate target jumps there exactly when its
/// condition holds of its left register and its right register, in that order;
/// otherwise it changes nothing.
pub proof fn lemma_immediate_branch(m: MachineModel, co: Condition, lhs: u8, rhs: u8, val: u32,
    d0: u32, d1: u32, d2: u32, f: u32)
    requires
        machine_wf(m),
        lhs < 16,
        rhs < 16,
    ensures
        spec_compare(co, reg(m, lhs as int), reg(m, rhs as int)) ==> ({
            let m2 = exec_spec(m, Instruction::BrCoIm { co, lhs, rhs, val }, d0, d1, d2, f);
            cur(m2).pc == val && cur(m2).reg == cur(m).reg && m2.memory == m.memory
        }),
        !spec_compare(co, reg(m, lhs as int), reg(m, rhs as int))
            ==> exec_spec(m, Instruction::BrCoIm { co, lhs, rhs, val }, d0, d1, d2, f) == m,
{
}

/// A conditional branch through an operand jumps to the word that operand reads
/// exactly when its condition holds of the words its left and right operands read,
/// in that order; otherwise it changes nothing.
pub proof fn lemma_operand_branch(m: MachineModel, co: Condition, lhs: u8, rhs: u8, dst: u8,
    d0: u32, d1: u32, d2: u32, f: u32)
    requires
        machine_wf(m),
    ensures
        spec_compare(co, rrix_read(m, lhs, 1, d0), rrix_read(m, rhs, 1, d1)) ==> ({
            let m2 = exec_spec(m, Instruction::BrCoRg { co, lhs, rhs, dst }, d0, d1, d2, f);
            cur(m2).pc == rrix_read(m, dst, 1, d2) && cur(m2).reg == cur(m).reg && m2.memory == m.memory
        }),
        !spec_compare(co, rrix_read(m, lhs, 1, d0), rrix_read(m, rhs, 1, d1))
            ==> exec_spec(m, Instruction::BrCoRg { co, lhs, rhs, dst }, d0, d1, d2, f) == m,
{
}

/// An unconditional jump moves the program counter to its target and changes
/// nothing else.
pub proof fn lemma_jump(m: MachineModel, dst: u32, d0: u32, d1: u32, d2: u32, f: u32)
    requires
        machine_wf(m),
    ensures
        ({
            let m2 = exec_spec(m, Instruction::BrUnconditional { dst }, d0, d1, d2, f);
            cur(m2).pc == dst && cur(m2).reg == cur(m).reg && m2.memory == m.memory && m2.halted == m.halted
        }),
{
}

/// An operation with an immediate puts into its destination register the result of
/// its operator on its left register (first) and the immediate (second), and
/// leaves the other registers as they were; one with destination 0 does nothing.
pub proof fn lemma_immediate_operation(m: MachineModel, op: super::instructions::BinaryOperator,
    lhs: u8, dst: u8, rhs: u32, d0: u32, d1: u32, d2: u32, f: u32)
    requires
        machine_wf(m),
        lhs < 16,
        dst < 16,
    ensures
        ({
            let m2 = exec_spec(m, Instruction::OpIm { op, lhs, dst, rhs }, d0, d1, d2, f);
            &&& dst != 0 ==> reg(m2, dst as int) == alu_result(op, reg(m, lhs as int), rhs, f)
            &&& forall|r: int| 0 <= r < 16 && r != dst ==> #[trigger] reg(m2, r) == reg(m, r)
            &&& m2.memory == m.memory
        }),
{
    let m2 = exec_spec(m, Instruction::OpIm { op, lhs, dst, rhs }, d0, d1, d2, f);
    if dst != 0 {
        assert(cur(m2).reg == cur(m).reg.update(dst as int, alu_result(op, reg(m, lhs as int), rhs, f)));
    }
}

/// The word of a value that fits in an `i32` has that value.
proof fn lemma_word_value(v: int)
    requires
        fits_i32(v),
    ensures
        signed_value(word_of(v)) == v,
{
}

/// What the integer operators compute, left operand first: the value of a sum,
/// difference, reversed difference or product is that of the operands' values;
/// a signed quotient times the divisor plus the remainder gives back the dividend,
/// the remainder smaller than the divisor and of the dividend's sign; min and max
/// give one of the operands, no larger (no smaller) than either; the bitwise
/// operators act bit by bit; unsigned quotient and remainder divide the words.
pub proof fn lemma_compute_meaning(x: u32, y: u32)
    ensures
        fits_i32(signed_value(x) + signed_value(y))
            ==> signed_value(spec_compute(BinaryOperator::Add, x, y)) == signed_value(x) + signed_value(y),
        fits_i32(signed_value(x) - signed_value(y))
            ==> signed_value(spec_compute(BinaryOperator::Sub, x, y)) == signed_value(x) - signed_value(y),
        fits_i32(signed_value(y) - signed_value(x))
            ==> signed_value(spec_compute(BinaryOperator::SubR, x, y)) == signed_value(y) - signed_value(x),
        fits_i32(signed_value(x) * signed_value(y))
            ==> signed_value(spec_compute(BinaryOperator::Mul, x, y)) == signed_value(x) * signed_value(y),
        compute_defined(BinaryOperator::Div, x, y) ==> ({
            let q = signed_value(spec_compute(BinaryOperator::Div, x, y));
            let r = signed_value(spec_compute(BinaryOperator::Mod, x, y));
            &&& q * signed_value(y) + r == signed_value(x)
            &&& abs(r) < abs(signed_value(y))
            &&& (r == 0 || (r < 0) == (signed_value(x) < 0))
        }),
        ({
            let m = spec_compute(BinaryOperator::Min, x, y);
            (m == x || m == y) && signed_value(m) <= signed_value(x) && signed_value(m) <= signed_value(y)
        }),
        ({
            let m = spec_compute(BinaryOperator::Max, x, y);
            (m == x || m == y) && signed_value(m) >= signed_value(x) && signed_value(m) >= signed_value(y)
        }),
        ({
            let m = spec_compute(BinaryOperator::MinU, x, y);
            (m == x || m == y) && m <= x && m <= y
        }),
        ({
            let m = spec_compute(BinaryOperator::MaxU, x, y);
            (m == x || m == y) && m >= x && m >= y
        }),
        spec_compute(BinaryOperator::And, x, y) == x & y,
        spec_compute(BinaryOperator::Or, x, y) == x | y,
        spec_compute(BinaryOperator::Xor, x, y) == x ^ y,
        spec_compute(BinaryOperator::Xnor, x, y) == !(x ^ y),
        y != 0 ==> spec_compute(BinaryOperator::DivU, x, y) * y + spec_compute(BinaryOperator::ModU, x, y) == x
            && spec_compute(BinaryOperator::ModU, x, y) < y,
{
    let a = signed_value(x);
    let b = signed_value(y);
    if fits_i32(a + b) { lemma_word_value(a + b); }
    if fits_i32(a - b) { lemma_word_value(a - b); }
    if fits_i32(b - a) { lemma_word_value(b - a); }
    if fits_i32(a * b) { lemma_word_value(a * b); }
    if compute_defined(BinaryOperator::Div, x, y) {
        lemma_division(a, b);
    }
    if y != 0 {
        assert((x / y) * y + x % y == x) by (nonlinear_arith) requires y != 0;
    }
}

/// Signed division rounded toward zero and its remainder, as words.
proof fn lemma_division(a: int, b: int)
    requires
        fits_i32(a),
        fits_i32(b),
        b != 0,
        !(a == -0x8000_0000 && b == -1),
    ensures
        ({
            let q = signed_value(spec_compute(BinaryOperator::Div, word_of(a), word_of(b)));
            let r = signed_value(spec_compute(BinaryOperator::Mod, word_of(a), word_of(b)));
            &&& q * b + r == a
            &&& abs(r) < abs(b)
            &&& (r == 0 || (r < 0) == (a < 0))
        }),
{
    lemma_word_value(a);
    lemma_word_value(b);
    let aa = abs(a);
    let ab = abs(b);
    let q0 = aa / ab;
    let m0 = aa % ab;
    assert(q0 * ab + m0 == aa && 0 <= m0 < ab) by (nonlinear_arith) requires ab > 0, aa >= 0, q0 == aa / ab, m0 == aa % ab;
    assert(0 <= q0 <= aa) by (nonlinear_arith) requires ab >= 1, aa >= 0, q0 == aa / ab;
    assert(ab >= 2 ==> q0 * 2 <= aa) by (nonlinear_arith) requires q0 * ab + m0 == aa, 0 <= m0, q0 >= 0;
    assert(ab == 1 ==> q0 == aa) by (nonlinear_arith) requires q0 * ab + m0 == aa, 0 <= m0 < ab;
    let q = if (a < 0) != (b < 0) { -q0 } else { q0 };
    let r = if a < 0 { -m0 } else { m0 };
    assert(fits_i32(q));
    assert(fits_i32(r));
    lemma_word_value(q);
    lemma_word_value(r);
    assert(q * b + r == a) by (nonlinear_arith)
        requires q0 * ab + m0 == aa,
            aa == (if a < 0 { -a } else { a }), ab == (if b < 0 { -b } else { b }),
            q == (if (a < 0) != (b < 0) { -q0 } else { q0 }), r == (if a < 0 { -m0 } else { m0 });
}

/// Whether a word written through an operand can be read back from it: a plain
/// register other than register 0, or an indexed address in RAM.
pub open spec fn reads_back(m: MachineModel, x: u8, mult: u8) -> bool {
    if rrix_index(x) == 0 {
        rrix_base(x) != 0
    } else {
        rrix_ok(m, x, mult) && device_of(rrix_addr(m, x, mult)) == 0
    }
}

/// Reading an operand right after writing a word through it gives the word.
proof fn lemma_operand_write_read(m: MachineModel, x: u8, mult: u8, v: u32, d: u32)
    requires
        machine_wf(m),
        reads_back(m, x, mult),
    ensures
        rrix_read(rrix_write(m, x, mult, v), x, mult, d) == v,
{
    let m2 = rrix_write(m, x, mult, v);
    if rrix_index(x) == 0 {
        assert(cur(m2).reg == cur(m).reg.update(rrix_base(x), v));
    } else {
        assert(cur(m2).reg == cur(m).reg);
        assert(rrix_addr(m2, x, mult) == rrix_addr(m, x, mult));
    }
}

/// Where each moving or computing instruction puts its result: the destination
/// operand then reads the result of the operator on the left and right operands (in
/// that order), the loaded immediate, the word read from the address, or the word
/// the source operand read.
pub proof fn lemma_results_land(m: MachineModel, i: Instruction, d0: u32, d1: u32, d2: u32, f: u32, d: u32)
    requires
        machine_wf(m),
    ensures
        i matches Instruction::OpRg { op, lhs, rhs, dst } ==> (dst != 0 && reads_back(m, dst, 1) ==>
            rrix_read(exec_spec(m, i, d0, d1, d2, f), dst, 1, d)
                == alu_result(op, rrix_read(m, lhs, 1, d0), rrix_read(m, rhs, 1, d1), f)),
        i matches Instruction::MvLd { dst, val } ==> (dst != 0 && reads_back(m, dst, 1) ==>
            rrix_read(exec_spec(m, i, d0, d1, d2, f), dst, 1, d) == val),
        i matches Instruction::MvRd { dst, val } ==> (dst != 0 && reads_back(m, dst, 1) ==>
            rrix_read(exec_spec(m, i, d0, d1, d2, f), dst, 1, d) == read_val(m, val as int, d0)),
        i matches Instruction::MvRg { src, dst, src_m, dst_m } ==> (dst != 0 && reads_back(m, dst, dst_m) ==>
            rrix_read(exec_spec(m, i, d0, d1, d2, f), dst, dst_m, d) == rrix_read(m, src, src_m, d0)),
{
    match i {
        Instruction::OpRg { op, lhs, rhs, dst } => {
            if dst != 0 && reads_back(m, dst, 1) {
                lemma_operand_write_read(m, dst, 1, alu_result(op, rrix_read(m, lhs, 1, d0), rrix_read(m, rhs, 1, d1), f), d);
            }
        },
        Instruction::MvLd { dst, val } => {
            if dst != 0 && reads_back(m, dst, 1) {
                lemma_operand_write_read(m, dst, 1, val, d);
            }
        },
        Instruction::MvRd { dst, val } => {
            if dst != 0 && reads_back(m, dst, 1) {
                lemma_operand_write_read(m, dst, 1, read_val(m, val as int, d0), d);
            }
        },
        Instruction::MvRg { src, dst, src_m, dst_m } => {
            if dst != 0 && reads_back(m, dst, dst_m) {
                lemma_operand_write_read(m, dst, dst_m, rrix_read(m, src, src_m, d0), d);
            }
        },
        _ => {},
    }
}

/// A swap (`rA <-> rB`, a move with destination 0) exchanges the two registers.
pub proof fn lemma_swap_exchanges(m: MachineModel, src: u8, src_m: u8, dst_m: u8, d0: u32, d1: u32, d2: u32, f: u32)
    requires
        machine_wf(m),
        src % 16 != 0,
        src / 16 != 0,
        src % 16 != src / 16,
    ensures
        ({
            let m2 = exec_spec(m, Instruction::MvRg { src, dst: 0, src_m, dst_m }, d0, d1, d2, f);
            reg(m2, (src % 16) as int) == reg(m, (src / 16) as int)
                && reg(m2, (src / 16) as int) == reg(m, (src % 16) as int)
        }),
{
    let a = (src % 16) as int;
    let b = (src / 16) as int;
    let ma = with_reg(m, a, reg(m, b));
    assert(cur(ma).reg == cur(m).reg.update(a, reg(m, b)));
    let mb = with_reg(ma, b, reg(m, a));
    assert(cur(mb).reg == cur(ma).reg.update(b, reg(m, a)));
}

/// Setting the stack position changes the stack pointer to the given value and
/// nothing else of the registers or memory.
pub proof fn lemma_stack_position(m: MachineModel, val: u32, d0: u32, d1: u32, d2: u32, f: u32)
    requires
        machine_wf(m),
    ensures
        ({
            let m2 = exec_spec(m, Instruction::SpStackPos { val }, d0, d1, d2, f);
            cur(m2).stack == val && cur(m2).pc == cur(m).pc && cur(m2).reg == cur(m).reg
                && m2.memory == m.memory && m2.halted == m.halted
        }),
{
}

} // verus!
