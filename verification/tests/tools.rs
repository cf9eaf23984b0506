use tinyarch::cli::{parse_reg_index, parse_register_value, RegisterValueError};
use tinyarch::machine::mem_dump::memory_dump;
use tinyarch::machine::{BinaryOperator, Condition, FloatUnit, Instruction};
use tinyarch::wasm::TinyArchWasm;

struct Fpu;

impl FloatUnit for Fpu {
    fn compute_float(&self, _op: BinaryOperator, _lhs: u32, _rhs: u32) -> u32 {
        0
    }
}

#[test]
fn memory_dump_folds_zero_runs() {
    let data = vec![0u32, 0, 5, 0, 0xdead_beef, 0, 0, 0, 0, 0, 0, 0, 0, 0, 0, 0, 1];
    assert_eq!(
        memory_dump(&data),
        "[ 0- 1]: 0\n[ 2]: 00000005\n[ 3]: 0\n[ 4]: DEADBEEF\n[ 5- F]: 0\n[10]: 00000001\n"
    );
    assert_eq!(memory_dump(&[]), "");
    assert_eq!(memory_dump(&[0]), "[0]: 0\n");
    assert_eq!(memory_dump(&[7, 0]), "[0]: 00000007\n[1]: 0\n");
}

#[test]
fn register_indices() {
    assert_eq!(parse_reg_index("1"), Some(1));
    assert_eq!(parse_reg_index("f"), Some(15));
    assert_eq!(parse_reg_index("B"), Some(11));
    assert_eq!(parse_reg_index("0"), None);
    assert_eq!(parse_reg_index("10"), None);
    assert_eq!(parse_reg_index(""), None);
    assert_eq!(parse_reg_index("g"), None);
}

#[test]
fn register_values() {
    assert_eq!(parse_register_value("42"), Ok(42));
    assert_eq!(parse_register_value("4294967295"), Ok(u32::MAX));
    assert_eq!(parse_register_value("+7"), Ok(7));
    assert_eq!(parse_register_value("-1"), Ok(u32::MAX));
    assert_eq!(parse_register_value("-2147483648"), Ok(0x8000_0000));
    assert_eq!(parse_register_value("0"), Err(RegisterValueError::Zero));
    assert_eq!(parse_register_value("-0"), Err(RegisterValueError::Zero));
    assert_eq!(parse_register_value("-2147483649"), Err(RegisterValueError::InvalidSigned));
    assert_eq!(parse_register_value("-x"), Err(RegisterValueError::InvalidSigned));
    assert_eq!(parse_register_value("4294967296"), Err(RegisterValueError::InvalidUnsigned));
    assert_eq!(parse_register_value("0x10"), Err(RegisterValueError::InvalidUnsigned));
}

const COUNTER: &str = "\
        0x1000 -> r1
        r1 * 0x100 -> r1
        r1 * 0x100 -> r1
        1 -> r3
        0x41 -> r2
        r2 -> r1[r3]
        r3 -> r1[r4]
        r5 + 1 -> r5
        HALT
";

#[test]
fn web_session_runs_a_program() {
    let mut s = TinyArchWasm::new(256, 1000);
    assert_eq!(s.assemble(COUNTER), Ok(()));
    assert_eq!(s.pc(), 0);
    assert!(s.step_n(3, &Fpu));
    assert_eq!(s.cycle_count(), 3);
    assert_eq!(s.registers()[1], 0x1000_0000);
    assert!(!s.step_n(100, &Fpu));
    assert!(s.is_halted());
    assert_eq!(s.cycle_count(), 9);
    assert_eq!(s.drain_output(), "A");
    assert_eq!(s.drain_output(), "");
    assert_eq!(s.pc(), 9);
    assert_eq!(s.flags(), 0);
    assert_eq!(s.stack_ptr(), 0);
    assert_eq!(s.registers()[5], 1);
    assert_eq!(s.memory_range(8, 4), vec![0, 0, 0, 0]);
    assert_eq!(s.memory_range(254, 10).len(), 2);
    assert_eq!(s.memory_range(300, 1), Vec::<u32>::new());
    assert_eq!(s.memory_range(0, 1), vec![0xE100_1000]);
}

#[test]
fn web_session_budget_and_errors() {
    let mut s = TinyArchWasm::new(64, 2);
    assert_eq!(s.assemble(COUNTER), Ok(()));
    assert!(s.step_n(2, &Fpu));
    assert!(!s.step_n(1, &Fpu));
    assert_eq!(s.cycle_count(), 2);
    assert_eq!(s.assemble("nonsense"), Err("Assembly error at instruction: invalid syntax: unrecognized instruction: 'nonsense'".to_string()));
    assert_eq!(s.cycle_count(), 0);
}

#[test]
fn web_session_budget_reached_exactly() {
    let mut s = TinyArchWasm::new(64, 3);
    assert_eq!(s.assemble(COUNTER), Ok(()));
    assert!(s.step_n(3, &Fpu));
    assert_eq!(s.cycle_count(), 3);
    assert!(!s.step_n(1, &Fpu));
    assert_eq!(s.cycle_count(), 3);
}

#[test]
fn web_session_assemble_resets_the_machine() {
    let mut s = TinyArchWasm::new(16, 1000);
    assert_eq!(s.assemble(COUNTER), Ok(()));
    assert!(!s.step_n(100, &Fpu));
    assert!(s.is_halted());
    assert_eq!(s.assemble("start: 5 -> r1 ; load\njmp start"), Ok(()));
    assert!(!s.is_halted());
    assert_eq!(s.pc(), 0);
    assert_eq!(s.cycle_count(), 0);
    assert_eq!(s.registers(), vec![0u32; 16]);
    assert_eq!(s.drain_output(), "");
    let mut expected = vec![0u32; 16];
    expected[0] = 0xE100_0005;
    // `jmp 0` is a jump through register 0
    expected[1] = Instruction::BrCoRg { co: Condition::Eq, lhs: 0, rhs: 0, dst: 0 }.encode();
    assert_eq!(s.memory_range(0, 16), expected);
}

#[test]
fn web_session_keeps_words_before_a_failing_line() {
    let mut s = TinyArchWasm::new(4, 1000);
    let r = s.assemble("5 -> r1\nfoo\n6 -> r2");
    assert!(r.unwrap_err().starts_with("Assembly error at instruction: "));
    assert_eq!(s.memory_range(0, 4), vec![0xE100_0005, 0, 0, 0]);
}
