use tinyarch::{assembler, devices, machine};
use tinyarch::machine::{BinaryOperator, FloatUnit};

/// Single precision float operations for the tests.
struct Fpu;

impl FloatUnit for Fpu {
    fn compute_float(&self, op: BinaryOperator, lhs: u32, rhs: u32) -> u32 {
        let a = f32::from_bits(lhs);
        let b = f32::from_bits(rhs);
        let r = match op {
            BinaryOperator::AddF => a + b,
            BinaryOperator::SubF => a - b,
            BinaryOperator::SubFR => b - a,
            BinaryOperator::MulF => a * b,
            BinaryOperator::DivF => a / b,
            BinaryOperator::ModF => a % b,
            BinaryOperator::MinF => a.min(b),
            BinaryOperator::MaxF => a.max(b),
            BinaryOperator::Fpintexp => a * 2f32.powi(rhs as i32),
            _ => 0.0,
        };
        r.to_bits()
    }
}

/// Prints "Hello World!" and a line break through the text output device.
const HELLO_WORLD: &str = "\
; Hello World for TinyArch: copies a zero-terminated text into the output buffer
        0x1000 -> r1
        r1 * 0x100 -> r1
        r1 * 0x100 -> r1        ; r1: the output buffer, device 1
        text -> r5              ; r5: the next character to copy
        1 -> r3                 ; r3: the next cell of the buffer
loop:   r5[r4] -> r2            ; r4 stays zero
        if r2 == r4 jmp done
        r2 -> r1[r3]
        r3 + 1 -> r3
        r5 + 1 -> r5
        jmp loop
done:   r3 - 1 -> r3
        r3 -> r1[r4]            ; the number of characters, into cell 0
        HALT
text:   DAT 0x48
        DAT 0x65
        DAT 0x6C
        DAT 0x6C
        DAT 0x6F
        DAT 0x20
        DAT 0x57
        DAT 0x6F
        DAT 0x72
        DAT 0x6C
        DAT 0x64
        DAT 0x21
        DAT 0x0A
        DAT 0
";

#[test]
fn hw_ta_produces_hello_world() {
    let source = HELLO_WORLD;
    let mut m = machine::Machine::new(64 * 1024);
    let mut writer = assembler::SimpleExecutableWriter::new(&mut m, 0);
    assembler::assemble(source, &mut writer).expect("assembly failed");

    let dev = devices::buffer_output::BufferOutputDevice::connect(&mut m);

    let mut output = String::new();
    while m.can_step() && m.step(&Fpu) {
        output.push_str(&dev.drain());
    }
    output.push_str(&dev.drain()); // final drain after halt

    assert_eq!(output, "Hello World!\n");
}

#[test]
fn hello_world_halts_with_registers_set() {
    let mut m = machine::Machine::new(1024);
    let mut writer = assembler::SimpleExecutableWriter::new(&mut m, 0);
    assembler::assemble(HELLO_WORLD, &mut writer).expect("assembly failed");
    let _dev = devices::buffer_output::BufferOutputDevice::connect(&mut m);
    let mut steps = 0;
    while m.can_step() && m.step(&Fpu) {
        steps += 1;
    }
    assert!(m.halted);
    assert_eq!(m.state().reg[1], 0x1000_0000);
    assert_eq!(m.state().reg[3], 13);
    assert!(steps > 13 * 6);
}

#[test]
fn drain_is_empty_while_nothing_was_written() {
    let mut m = machine::Machine::new(16);
    let dev = devices::buffer_output::BufferOutputDevice::connect(&mut m);
    assert_eq!(dev.drain(), "");
    assert!(m.mmio_devices[1].is_some());
}

#[test]
fn drain_takes_text_and_acknowledges() {
    let mut m = machine::Machine::new(16);
    let dev = devices::buffer_output::BufferOutputDevice::connect(&mut m);
    m.write_address(0x1000_0001, 'O' as u32);
    m.write_address(0x1000_0002, 0x14B); // only the low byte counts: 'K'
    m.write_address(0x1000_0000, 2);
    assert_eq!(dev.drain(), "OK");
    assert_eq!(m.read_address(0x1000_0000), 0);
    assert_eq!(dev.drain(), "");
}

#[test]
fn text_of_words_keeps_low_bytes() {
    let words = vec![0x41u32, 0x142, 0xE9];
    assert_eq!(devices::buffer_output::text_of_words(&words), "AB\u{e9}");
}
