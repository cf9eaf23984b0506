use tinyarch::machine::{BinaryOperator, Condition, FloatUnit, Instruction, Machine, SharedMMIO, State};

/// A float unit that is never expected to be used.
struct NoFloat;

impl FloatUnit for NoFloat {
    fn compute_float(&self, _op: BinaryOperator, lhs: u32, rhs: u32) -> u32 {
        (f32::from_bits(lhs) + f32::from_bits(rhs)).to_bits()
    }
}

fn load(m: &mut Machine, words: &[u32]) {
    for (i, w) in words.iter().enumerate() {
        m.memory[i] = *w;
    }
}

#[test]
fn new_machine_is_zeroed() {
    let mut m = Machine::new(8);
    assert_eq!(m.memory, vec![0; 8]);
    assert_eq!(m.current_ring, 0);
    assert!(!m.halted);
    assert!(m.mmio_devices.iter().all(|d| d.is_none()));
    let s = m.state();
    assert_eq!(s.pc, 0);
    assert_eq!(s.reg, [0; 16]);
    let fresh = State::new();
    assert_eq!(fresh.stack, 0);
    assert_eq!(fresh.sparam, 0);
}

#[test]
fn read_after_write() {
    let mut m = Machine::new(8);
    m.write_address(3, 77);
    assert_eq!(m.read_address(3), 77);
    assert_eq!(m.read_address(4), 0);
    // an unmapped device reads as zero and ignores writes
    m.write_address(0x2000_0005, 9);
    assert_eq!(m.read_address(0x2000_0005), 0);
}

#[test]
fn registers_and_operands() {
    let mut m = Machine::new(8);
    m.r_write(1, 5);
    m.r_write(2, 1);
    assert_eq!(m.r_read(1), 5);
    assert_eq!(m.r_rix_read(0x10), 5);
    // r1[r2] is the word at r1 + r2
    m.r_rix_write(0x12, 42);
    assert_eq!(m.memory[6], 42);
    assert_eq!(m.r_rix_read(0x12), 42);
    // with a multiplier: r1 + r2 * 2
    m.r_rix_m_write(0x12, 2, 7);
    assert_eq!(m.memory[7], 7);
    assert_eq!(m.r_rix_m_read(0x12, 2), 7);
    m.state().reg[3] = 9;
    assert_eq!(m.r_read(3), 9);
}

#[test]
fn mapped_devices_share_cells() {
    let mut m = Machine::new(4);
    let dev = m.map_new_mmio(2, 8);
    assert_eq!(dev.data.len(), 8);
    m.write_address(0x2000_0003, 11);
    assert_eq!(dev.read(3), 11);
    dev.write(4, 12);
    assert_eq!(m.read_address(0x2000_0004), 12);
    let second = dev.clone();
    second.write(0, 1);
    assert_eq!(dev.read(0), 1);
    let fresh = SharedMMIO::new(3);
    assert_eq!(fresh.read(2), 0);
    let tx = m.get_interrupt_channel();
    tx.send(5).unwrap();
    assert_eq!(m.interrupt.try_recv().unwrap(), 5);
}

#[test]
fn step_runs_until_halt() {
    let mut m = Machine::new(16);
    load(&mut m, &[
        Instruction::MvLd { dst: 0x10, val: 5 }.encode(),
        Instruction::OpIm { op: BinaryOperator::Add, lhs: 1, dst: 2, rhs: 3 }.encode(),
        Instruction::SpHalt.encode(),
    ]);
    assert!(m.can_step());
    assert!(m.step(&NoFloat));
    assert_eq!(m.r_read(1), 5);
    assert_eq!(m.state().pc, 1);
    assert!(m.step(&NoFloat));
    assert_eq!(m.r_read(2), 8);
    assert!(!m.step(&NoFloat));
    assert!(m.halted);
    assert_eq!(m.state().pc, 3);
}

#[test]
fn branches_and_swaps() {
    let mut m = Machine::new(16);
    load(&mut m, &[
        Instruction::BrCoIm { co: Condition::Eq, lhs: 1, rhs: 2, val: 3 }.encode(),
        Instruction::SpHalt.encode(),
        Instruction::SpHalt.encode(),
        Instruction::MvRg { src: 0x12, dst: 0, src_m: 1, dst_m: 1 }.encode(),
        Instruction::MvRg { src: 0x12, dst: 0, src_m: 1, dst_m: 1 }.encode(),
        Instruction::SpHalt.encode(),
    ]);
    m.r_write(1, 4);
    m.r_write(2, 4);
    assert!(m.step(&NoFloat));
    assert_eq!(m.state().pc, 3);
    m.r_write(2, 6);
    assert!(m.step(&NoFloat));
    assert_eq!((m.r_read(1), m.r_read(2)), (6, 4));
    assert!(m.step(&NoFloat));
    assert_eq!((m.r_read(1), m.r_read(2)), (4, 6));
    assert!(!m.step(&NoFloat));
}

#[test]
fn float_operations_use_the_float_unit() {
    let mut m = Machine::new(4);
    load(&mut m, &[
        Instruction::OpRg { op: BinaryOperator::AddF, lhs: 0x10, rhs: 0x20, dst: 0x30 }.encode(),
    ]);
    m.r_write(1, 1.5f32.to_bits());
    m.r_write(2, 2.25f32.to_bits());
    assert!(m.can_step());
    assert!(m.step(&NoFloat));
    assert_eq!(f32::from_bits(m.r_read(3)), 3.75);
}

#[test]
fn steps_that_cannot_run() {
    // the program counter runs off the end of memory
    let mut m = Machine::new(1);
    m.state().pc = 1;
    assert!(!m.can_step());
    // a word that does not decode
    let mut m = Machine::new(2);
    m.memory[0] = 3;
    assert!(!m.can_step());
    // division by zero
    let mut m = Machine::new(2);
    m.memory[0] = Instruction::OpIm { op: BinaryOperator::Div, lhs: 1, dst: 2, rhs: 0 }.encode();
    assert!(!m.can_step());
    // an address outside memory
    let mut m = Machine::new(2);
    m.memory[0] = Instruction::MvRd { dst: 0x10, val: 100 }.encode();
    assert!(!m.can_step());
    // an arithmetic operand read from a mapped device
    let mut m = Machine::new(2);
    let _d = m.map_new_mmio(1, 4);
    m.memory[0] = Instruction::OpRg { op: BinaryOperator::Add, lhs: 0x12, rhs: 0x10, dst: 0x30 }.encode();
    m.r_write(1, 0x1000_0000);
    assert!(!m.can_step());
    // a bitwise one is fine
    m.memory[0] = Instruction::OpRg { op: BinaryOperator::Xor, lhs: 0x12, rhs: 0x10, dst: 0x30 }.encode();
    assert!(m.can_step());
}

#[test]
fn exec_single_instructions() {
    let mut m = Machine::new(4);
    m.exec(Instruction::SpStackPos { val: 12 }, &NoFloat);
    assert_eq!(m.state().stack, 12);
    m.exec(Instruction::BrUnconditional { dst: 2 }, &NoFloat);
    assert_eq!(m.state().pc, 2);
    m.exec(Instruction::MvLd { dst: 0x40, val: 0xfff }, &NoFloat);
    assert_eq!(m.r_read(4), 0xfff);
}

#[test]
fn state_debug_text() {
    let mut s = State::new();
    s.pc = 0x1f;
    s.stack = 2;
    s.reg[1] = 255;
    s.reg[15] = 0xdead_beef;
    assert_eq!(
        s.debug_text(),
        "PC:1f, ST: 2 (0), REG: [0, ff, 0, 0, 0, 0, 0, 0, 0, 0, 0, 0, 0, 0, 0, deadbeef]"
    );
}

#[test]
fn step_checked_runs_on_device_words() {
    let mut m = Machine::new(8);
    let dev = m.map_new_mmio(1, 4);
    m.states[0].reg[1] = 0x1000_0000;
    m.states[0].reg[3] = 7;
    load(
        &mut m,
        &[
            // r1[r2] + r3 -> r4: the left operand is device cell 0
            Instruction::OpRg { op: BinaryOperator::Add, lhs: 0x12, rhs: 0x30, dst: 0x40 }.encode(),
            // r3 / r1[r2] -> r5: divides by device cell 0
            Instruction::OpRg { op: BinaryOperator::Div, lhs: 0x30, rhs: 0x12, dst: 0x50 }.encode(),
            Instruction::SpHalt.encode(),
        ],
    );
    dev.write(0, 5);
    assert!(!m.can_step());
    assert_eq!(m.step_checked(&NoFloat), Some(true));
    assert_eq!(m.states[0].reg[4], 12);
    assert_eq!(m.states[0].pc, 1);

    // a zero divisor from the device: nothing changes
    dev.write(0, 0);
    assert_eq!(m.step_checked(&NoFloat), None);
    assert_eq!(m.states[0].pc, 1);
    assert_eq!(m.states[0].reg[5], 0);

    dev.write(0, 7);
    assert_eq!(m.step_checked(&NoFloat), Some(true));
    assert_eq!(m.states[0].reg[5], 1);
    assert_eq!(m.step_checked(&NoFloat), Some(false));
    assert!(m.halted);
}

#[test]
fn register_zero_stays_zero() {
    let mut m = Machine::new(8);
    load(
        &mut m,
        &[
            Instruction::MvLd { dst: 0, val: 5 }.encode(),
            Instruction::MvRd { dst: 0, val: 0 }.encode(),
            Instruction::SpHalt.encode(),
        ],
    );
    assert!(m.step(&NoFloat));
    assert_eq!(m.states[0].reg[0], 0);
    assert!(m.step(&NoFloat));
    assert_eq!(m.states[0].reg[0], 0);
    assert!(!m.step(&NoFloat));
}

#[test]
fn device_fifteen_can_be_mapped() {
    let mut m = Machine::new(4);
    let dev = m.map_new_mmio(15, 2);
    m.write_address(0xF000_0001, 9);
    assert_eq!(dev.read(1), 9);
}
