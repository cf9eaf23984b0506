use tinyarch::assembler::{self, assemble, parse_instruction, parse_reg_name, ExecutableWriter, ParseError, SimpleExecutableWriter};
use tinyarch::assembler::default_macros::asm_string_macro;
use tinyarch::assembler::program::{assemble_instruction, byte_len, sort_labels, source_items, substitute_label};
use tinyarch::machine::{BinaryOperator, Condition, Instruction, Machine};

#[test]
fn parse_keywords_and_data() {
    assert_eq!(parse_instruction("HALT").unwrap(), Instruction::SpHalt);
    assert_eq!(parse_instruction("  NOP  ").unwrap(), Instruction::SpNop);
    assert_eq!(parse_instruction("DEBUG").unwrap(), Instruction::SpDebug);
    assert_eq!(parse_instruction("DAT 0x41").unwrap(), Instruction::RawData(0x41));
    assert_eq!(parse_instruction("DAT 0b101").unwrap(), Instruction::RawData(5));
    assert_eq!(parse_instruction("DAT 42").unwrap(), Instruction::RawData(42));
}

#[test]
fn parse_moves() {
    assert_eq!(parse_instruction("5 -> r1").unwrap(), Instruction::MvLd { dst: 0x10, val: 5 });
    assert_eq!(parse_instruction("@0x20 -> r1").unwrap(), Instruction::MvRd { dst: 0x10, val: 0x20 });
    assert_eq!(
        parse_instruction("r2 -> r1").unwrap(),
        Instruction::MvRg { src: 0x20, dst: 0x10, src_m: 1, dst_m: 1 }
    );
    assert_eq!(
        parse_instruction("@r3 -> r1").unwrap(),
        Instruction::MvRg { src: 0x03, dst: 0x10, src_m: 1, dst_m: 1 }
    );
    assert_eq!(
        parse_instruction("r1[r2*2*3] -> r4").unwrap(),
        Instruction::MvRg { src: 0x12, dst: 0x40, src_m: 6, dst_m: 1 }
    );
    assert_eq!(
        parse_instruction("r1 <-> r2").unwrap(),
        Instruction::MvRg { src: 0x12, dst: 0, src_m: 1, dst_m: 1 }
    );
}

#[test]
fn parse_operations_and_branches() {
    assert_eq!(
        parse_instruction("r1 + 5 -> r3").unwrap(),
        Instruction::OpIm { op: BinaryOperator::Add, lhs: 1, dst: 3, rhs: 5 }
    );
    assert_eq!(
        parse_instruction("r1 >>> r2 -> r3").unwrap(),
        Instruction::OpRg { op: BinaryOperator::Asr, lhs: 0x10, rhs: 0x20, dst: 0x30 }
    );
    assert_eq!(
        parse_instruction("r1 -rf r2 -> r3").unwrap(),
        Instruction::OpRg { op: BinaryOperator::SubFR, lhs: 0x10, rhs: 0x20, dst: 0x30 }
    );
    assert_eq!(parse_instruction("jmp 5").unwrap(), Instruction::BrUnconditional { dst: 5 });
    assert_eq!(
        parse_instruction("jmp r3").unwrap(),
        Instruction::BrCoRg { co: Condition::Eq, lhs: 0, rhs: 0, dst: 0x30 }
    );
    assert_eq!(
        parse_instruction("if r1 <=u r2 jmp 7").unwrap(),
        Instruction::BrCoIm { co: Condition::NGtU, lhs: 1, rhs: 2, val: 7 }
    );
    assert_eq!(
        parse_instruction("if not r1 == r2 jmp 7").unwrap(),
        Instruction::BrCoIm { co: Condition::NEq, lhs: 1, rhs: 2, val: 7 }
    );
    assert_eq!(
        parse_instruction("if r1 !%2 r2 jmp r3").unwrap(),
        Instruction::BrCoRg { co: Condition::NEven, lhs: 0x10, rhs: 0x20, dst: 0x30 }
    );
}

#[test]
fn parse_errors() {
    match parse_instruction("hello") {
        Err(e @ ParseError::InvalidSyntax(_)) => assert_eq!(e.to_string(), "invalid syntax: unrecognized instruction: 'hello'"),
        other => panic!("unexpected {:?}", other),
    }
    match parse_instruction("DAT x") {
        Err(e @ ParseError::InvalidSyntax(_)) => assert_eq!(e.to_string(), "invalid syntax: invalid data syntax, expecting integer"),
        other => panic!("unexpected {:?}", other),
    }
    match parse_instruction("rG -> r1") {
        Err(e @ ParseError::InvalidRegister(_)) => assert_eq!(e.to_string(), "invalid register: rG"),
        other => panic!("unexpected {:?}", other),
    }
    match parse_instruction("@zz -> r1") {
        Err(e @ ParseError::InvalidOperand(_)) => assert_eq!(e.to_string(), "invalid operand: @zz"),
        other => panic!("unexpected {:?}", other),
    }
    match parse_instruction("5 -> 7") {
        Err(e @ ParseError::NonStrict(_)) => assert_eq!(
            e.to_string(),
            "non-strict instruction: move destination cannot be an immediate value: '7'"
        ),
        other => panic!("unexpected {:?}", other),
    }
    match parse_instruction("0x10000 -> r1") {
        Err(e @ ParseError::ImmediateOutOfRange { value: 65536, bits: 16 }) => {
            assert_eq!(e.to_string(), "immediate 65536 does not fit in 16 bits")
        },
        other => panic!("unexpected {:?}", other),
    }
    match parse_instruction("1.5 -> r1") {
        Err(e @ ParseError::Unimplemented(_)) => {
            assert_eq!(e.to_string(), "unimplemented: float literal parsing is not yet implemented")
        },
        other => panic!("unexpected {:?}", other),
    }
    let op = ParseError::InvalidOperator("??".to_string());
    assert_eq!(op.to_string(), "unknown operator: ??");
}

#[test]
fn register_names_parse() {
    assert_eq!(parse_reg_name("r1").unwrap(), 1);
    assert_eq!(parse_reg_name(" rf ").unwrap(), 15);
    assert!(matches!(parse_reg_name("x1"), Err(ParseError::InvalidRegister(s)) if s == "x1"));
    assert!(matches!(parse_reg_name("r0"),
        Err(ParseError::InvalidRegister(s)) if s == "register r0 out of range r1..=rF"));
    assert!(matches!(parse_reg_name("r10"),
        Err(ParseError::InvalidRegister(s)) if s == "register r10 out of range r1..=rF"));
}

#[test]
fn assemble_with_labels_and_offset() {
    let mut m = Machine::new(32);
    let mut w = SimpleExecutableWriter::new(&mut m, 10);
    assemble("start: 5 -> r1 ; load\n\n    jmp start\n", &mut w).unwrap();
    assert_eq!(w.get_label_pos("start").unwrap(), 10);
    assert_eq!(w.get_labels().unwrap(), vec!["start"]);
    drop(w);
    assert_eq!(m.memory[10], 0xE100_0005);
    assert_eq!(m.memory[11], 0x4000_000A);
    assert_eq!(m.memory[9], 0);
}

#[test]
fn assemble_replaces_longest_labels_first() {
    let mut m = Machine::new(16);
    let mut w = SimpleExecutableWriter::new(&mut m, 0);
    assemble("ab: DAT 1\na: DAT 2\njmp ab\njmp a\nx: @a -> r1", &mut w).unwrap();
    drop(w);
    assert_eq!(m.memory[0], 1);
    assert_eq!(m.memory[1], 2);
    // `jmp 0` names the zero operand, not the address 0: a jump through register 0
    assert_eq!(m.memory[2], Instruction::BrCoRg { co: Condition::Eq, lhs: 0, rhs: 0, dst: 0 }.encode());
    assert_eq!(m.memory[3], 0x4000_0001);
    assert_eq!(m.memory[4], Instruction::MvRd { dst: 0x10, val: 1 }.encode());
}

#[test]
fn assemble_errors() {
    let mut m = Machine::new(16);
    let mut w = SimpleExecutableWriter::new(&mut m, 0);
    assert_eq!(assemble("a: HALT\na: HALT", &mut w), Err("Label a defined twice?".to_string()));

    let mut m = Machine::new(16);
    let mut w = SimpleExecutableWriter::new(&mut m, 0);
    assert_eq!(
        assemble("HALT\nfoo", &mut w),
        Err("Assembly error at instruction: invalid syntax: unrecognized instruction: 'foo'".to_string())
    );

    let mut m = Machine::new(16);
    let mut w = SimpleExecutableWriter::new(&mut m, 0);
    assert_eq!(assemble("NOP", &mut w), Err("Assembly error at instruction: no machine word for 'NOP'".to_string()));

    // a STRING line without its closing quote
    let mut m = Machine::new(16);
    let mut w = SimpleExecutableWriter::new(&mut m, 0);
    assert_eq!(assemble("STRING \"hi", &mut w), Err("Malformed STRING macro: STRING \"hi".to_string()));

    let mut m = Machine::new(1);
    let mut w = SimpleExecutableWriter::new(&mut m, 0);
    assert_eq!(assemble("HALT\nHALT", &mut w), Err("Executable writer: position out of memory".to_string()));
}

/// A writer that keeps words in a vector and knows one macro, `TWICE`.
struct ListWriter {
    words: Vec<(usize, u32)>,
    labels: Vec<(String, u32)>,
}

impl ExecutableWriter for ListWriter {
    fn write_instruction(&mut self, instr: u32, pos: usize) -> Result<(), String> {
        self.words.push((pos, instr));
        Ok(())
    }
    fn add_label(&mut self, label: &str, pos: u32) -> Result<(), String> {
        self.labels.push((label.to_string(), pos + 100));
        Ok(())
    }
    fn get_labels(&self) -> Result<Vec<&str>, String> {
        Ok(self.labels.iter().map(|(l, _)| l.as_str()).collect())
    }
    fn get_label_pos(&self, label: &str) -> Result<u32, String> {
        self.labels.iter().find(|(l, _)| l == label).map(|(_, p)| *p).ok_or("missing".to_string())
    }
    fn macro_names() -> Vec<&'static str> {
        vec!["TWICE"]
    }
    fn apply_macro(&mut self, index: usize, line: &str, instructions: &mut Vec<String>) -> Result<(), String> {
        assert_eq!((index, line), (0, "TWICE"));
        instructions.push("HALT".to_string());
        Ok(())
    }
}

#[test]
fn assemble_into_custom_writer_with_macro() {
    let mut w = ListWriter { words: Vec::new(), labels: Vec::new() };
    let r = assemble("here: DAT 3\nTWICE\njmp here", &mut w);
    // the macro line is replaced by what the macro pushed
    assert_eq!(r, Ok(()));
    assert_eq!(w.words, vec![(0, 3), (1, Instruction::SpHalt.encode()), (2, Instruction::BrUnconditional { dst: 100 }.encode())]);
}

#[test]
fn source_items_of_a_program() {
    let items = source_items("  ; comment\nstart: HALT ; x\n\nnext:\nr1 + 1 -> r1\r\n1 2: HALT\n");
    assert_eq!(items, vec![
        (Some("start".to_string()), "HALT".to_string()),
        (Some("next".to_string()), "".to_string()),
        (None, "r1 + 1 -> r1".to_string()),
        (None, "1 2: HALT".to_string()),
    ]);
}

#[test]
fn labels_sorted_longest_first() {
    assert_eq!(sort_labels(vec!["a", "abc", "ab", "xyz"]), vec!["abc", "xyz", "ab", "a"]);
    assert_eq!(sort_labels(vec!["\u{e9}\u{e9}", "abc"]), vec!["\u{e9}\u{e9}", "abc"]);
    assert_eq!(byte_len("\u{e9}"), 2);
    assert_eq!(byte_len("ab"), 2);
    assert_eq!(byte_len("\u{1F600}"), 4);
}

#[test]
fn substitute_label_in_lines() {
    let mut lines = vec!["jmp loop".to_string(), "@loop -> r1".to_string(), "looper + loop".to_string()];
    substitute_label(&mut lines, "loop", 12);
    assert_eq!(lines, vec!["jmp 12", "@12 -> r1", "looper + 12"]);
}

#[test]
fn assemble_single_instructions() {
    assert_eq!(assemble_instruction("HALT"), Ok(0));
    assert_eq!(assemble_instruction("5 -> r1"), Ok(0xE100_0005));
    assert_eq!(
        assemble_instruction("0x10000 -> r1"),
        Err("Assembly error at instruction: immediate 65536 does not fit in 16 bits".to_string())
    );
}

#[test]
fn whole_word_replacement() {
    assert_eq!(assembler::replace_whole_word("a_b ab b", "b", "X"), "a_b ab X");
    assert_eq!(assembler::replace_whole_word("b.b", "b", "X"), "X.X");
    assert_eq!(assembler::replace_whole_word("bb", "b", "X"), "bb");
    assert_eq!(assembler::replace_whole_word("abc", "", "X"), "abc");
    assert_eq!(assembler::replace_whole_word("x \u{e9}b b\u{e9}", "b", "1"), "x \u{e9}b b\u{e9}");
}

#[test]
fn string_macro_lines() {
    let mut v: Vec<String> = vec!["HALT".to_string()];
    assert_eq!(asm_string_macro("STRING \"Hi\"", &mut v), Ok(()));
    assert_eq!(v, vec!["HALT", "DAT 0x48", "DAT 0x69"]);
    let mut v: Vec<String> = Vec::new();
    assert_eq!(asm_string_macro("STRING \"\u{1F600}\"", &mut v), Ok(()));
    assert_eq!(v, vec!["DAT 0x1F600"]);
    assert_eq!(asm_string_macro("STRING \"x", &mut v), Err("Malformed STRING macro: STRING \"x".to_string()));
    assert_eq!(asm_string_macro("\"\"", &mut v), Ok(()));
    assert_eq!(v.len(), 1);
}

#[test]
fn writer_labels_read_back() {
    let mut m = Machine::new(4);
    let mut w = SimpleExecutableWriter::new(&mut m, 2);
    assert_eq!(w.add_label("a", 1), Ok(()));
    assert_eq!(w.add_label("b", 0), Ok(()));
    assert_eq!(w.get_label_pos("a"), Ok(3));
    assert_eq!(w.add_label("a", 5), Err("Label a defined twice?".to_string()));
    assert_eq!(w.get_label_pos("a"), Ok(7));
    assert_eq!(w.get_labels().unwrap(), vec!["a", "b"]);
    assert!(w.get_label_pos("c").is_err());
    assert_eq!(w.write_instruction(9, 1), Ok(()));
    assert!(w.write_instruction(9, 2).is_err());
    drop(w);
    assert_eq!(m.memory, vec![0, 0, 0, 9]);
}

#[test]
fn assembled_words_decode_to_what_was_parsed() {
    for line in ["r1 + 5 -> r3", "r1 >>> r2 -> r3", "if not r1 == r2 jmp 7", "@r3 -> r1", "r1 <-> r2", "HALT"] {
        let word = assemble_instruction(line).unwrap();
        assert_eq!(Instruction::decode(word), parse_instruction(line).unwrap());
    }
    // data words and unconditional jumps decode as something else
    let word = assemble_instruction("jmp 9").unwrap();
    assert_eq!(Instruction::decode(word), Instruction::BrCoIm { co: Condition::Eq, lhs: 0, rhs: 0, val: 9 });
}

#[test]
fn labels_of_equal_length_keep_their_order() {
    assert_eq!(sort_labels(vec!["b", "a", "cc", "d"]), vec!["cc", "b", "a", "d"]);
}

#[test]
fn words_before_a_failing_line_are_written() {
    let mut m = Machine::new(4);
    let mut w = SimpleExecutableWriter::new(&mut m, 0);
    let r = assemble("5 -> r1\nfoo\n6 -> r2", &mut w);
    assert!(r.unwrap_err().starts_with("Assembly error at instruction: "));
    drop(w);
    assert_eq!(m.memory, vec![0xE100_0005, 0, 0, 0]);
}

#[test]
fn operator_and_condition_symbols_parse_back() {
    for n in 0u8..=29 {
        let op = BinaryOperator::decode(n);
        let line = format!("r1 {} r2 -> r3", op.to_string());
        assert_eq!(
            parse_instruction(&line).unwrap(),
            Instruction::OpRg { op, lhs: 0x10, rhs: 0x20, dst: 0x30 }
        );
    }
    for n in 0u8..16 {
        let c = Condition::decode(n);
        let plain = parse_instruction(&format!("if r1 {} r2 jmp 7", c.to_string())).unwrap();
        let negated = parse_instruction(&format!("if not r1 {} r2 jmp 7", c.to_string())).unwrap();
        assert_eq!(plain, Instruction::BrCoIm { co: c, lhs: 1, rhs: 2, val: 7 });
        assert_eq!(negated, Instruction::BrCoIm { co: Condition::decode(n ^ 1), lhs: 1, rhs: 2, val: 7 });
    }
}

#[test]
fn data_and_jump_text_parse_back() {
    for v in [0u32, 1, 0x2a, 0xdead_beef, u32::MAX] {
        let data = Instruction::RawData(v);
        assert_eq!(parse_instruction(&data.to_string()).unwrap(), data);
        let jump = Instruction::BrUnconditional { dst: v };
        assert_eq!(parse_instruction(&jump.to_string()).unwrap(), jump);
    }
    assert_eq!(Instruction::RawData(0xbe).to_string(), "DAT 0xbe");
    assert_eq!(Instruction::BrUnconditional { dst: 16 }.to_string(), "jmp 0x10");
}

#[test]
fn nop_operator_text_is_refused() {
    assert_eq!(BinaryOperator::Nop.to_string(), "nop");
    assert!(parse_instruction("r1 nop r2 -> r3").is_err());
}

#[test]
fn string_macro_writes_one_word_per_character() {
    let mut m = Machine::new(4);
    let mut w = SimpleExecutableWriter::new(&mut m, 0);
    assert_eq!(assemble("STRING \"Hi\"", &mut w), Ok(()));
    drop(w);
    assert_eq!(m.memory, vec![0x48, 0x69, 0, 0]);
}

#[test]
fn label_after_a_string_counts_its_words() {
    let mut m = Machine::new(8);
    let mut w = SimpleExecutableWriter::new(&mut m, 0);
    assert_eq!(assemble("STRING \"ab\"\nend: jmp end", &mut w), Ok(()));
    assert_eq!(w.get_label_pos("end"), Ok(2));
    drop(w);
    assert_eq!(m.memory[..3].to_vec(), vec![0x61, 0x62, 0x4000_0002]);
}
