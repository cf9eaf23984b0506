use tinyarch::machine::{BinaryOperator, Condition, Instruction};
use tinyarch::machine::instructions::fmt::{reg_name, r_rix_name};
use tinyarch::machine::instructions::conv::{i_i32, f_i32};
use tinyarch::machine::check::word_decodable;

#[test]
fn encode_known_words() {
    assert_eq!(Instruction::SpHalt.encode(), 0);
    assert_eq!(Instruction::SpDebug.encode(), 1);
    assert_eq!(Instruction::RawData(0xdead_beef).encode(), 0xdead_beef);
    assert_eq!(Instruction::MvLd { dst: 0x10, val: 5 }.encode(), 0xE100_0005);
    assert_eq!(Instruction::OpIm { op: BinaryOperator::Add, lhs: 1, dst: 3, rhs: 5 }.encode(), 0x8013_0005);
    assert_eq!(Instruction::OpRg { op: BinaryOperator::Add, lhs: 0x10, rhs: 0x20, dst: 0x30 }.encode(), 0xA010_2030);
    assert_eq!(Instruction::BrUnconditional { dst: 5 }.encode(), 0x4000_0005);
    assert_eq!(Instruction::SpStackPos { val: 0x12 }.encode(), 0x1202);
}

#[test]
fn encode_register_move_reduces_multipliers() {
    // gcd(4, 6) = 2, so the word holds n-1 = 1, i-1 = 1, j-1 = 2
    let w = Instruction::MvRg { src: 0x12, dst: 0x34, src_m: 4, dst_m: 6 }.encode();
    assert_eq!(w, 0xC000_0000 | (0x12 << 20) | (0x34 << 12) | (2 << 8) | (1 << 4) | 1);
}

#[test]
fn decode_inverts_encode() {
    let samples = vec![
        Instruction::SpHalt,
        Instruction::SpDebug,
        Instruction::MvLd { dst: 0x10, val: 5 },
        Instruction::MvRd { dst: 0x23, val: 0xffff },
        Instruction::OpIm { op: BinaryOperator::Mul, lhs: 1, dst: 3, rhs: 0x100 },
        Instruction::OpRg { op: BinaryOperator::Xor, lhs: 0x10, rhs: 0x21, dst: 0x30 },
        Instruction::BrCoIm { co: Condition::NGtU, lhs: 2, rhs: 4, val: 12 },
        Instruction::BrCoRg { co: Condition::Even, lhs: 0x10, rhs: 0x20, dst: 0x31 },
        Instruction::MvRg { src: 0x12, dst: 0x34, src_m: 1, dst_m: 1 },
        Instruction::SpStackPos { val: 0x1234 },
    ];
    for i in samples {
        assert_eq!(Instruction::decode(i.encode()), i);
    }
}

#[test]
fn unconditional_jump_decodes_as_always_taken_branch() {
    let w = Instruction::BrUnconditional { dst: 5 }.encode();
    assert_eq!(Instruction::decode(w), Instruction::BrCoIm { co: Condition::Eq, lhs: 0, rhs: 0, val: 5 });
}

#[test]
fn encodable_instructions() {
    assert!(Instruction::SpHalt.is_encodable());
    assert!(!Instruction::SpNop.is_encodable());
    assert!(!Instruction::SpInt.is_encodable());
    assert!(!Instruction::MvRg { src: 0x10, dst: 0x20, src_m: 17, dst_m: 1 }.is_encodable());
    assert!(Instruction::MvRg { src: 0x10, dst: 0x20, src_m: 16, dst_m: 1 }.is_encodable());
}

#[test]
fn decodable_words() {
    assert!(word_decodable(0));
    assert!(word_decodable(2));
    assert!(!word_decodable(3));
    assert!(!word_decodable(0x1000_0000));
    assert!(word_decodable(0x3000_0000));
    assert!(!word_decodable(0x7000_0000));
    assert!(word_decodable(0xE100_0005));
}

#[test]
fn compute_integer_operators() {
    let m1 = f_i32(-1);
    assert_eq!(BinaryOperator::Add.compute(2, 3), 5);
    assert_eq!(BinaryOperator::Sub.compute(2, 3), m1);
    assert_eq!(BinaryOperator::SubR.compute(2, 3), 1);
    assert_eq!(BinaryOperator::Mul.compute(f_i32(-4), 3), f_i32(-12));
    assert_eq!(BinaryOperator::Div.compute(f_i32(-7), 2), f_i32(-3));
    assert_eq!(BinaryOperator::Mod.compute(f_i32(-7), 2), m1);
    assert_eq!(BinaryOperator::Min.compute(m1, 1), m1);
    assert_eq!(BinaryOperator::Max.compute(m1, 1), 1);
    assert_eq!(BinaryOperator::MinU.compute(m1, 1), 1);
    assert_eq!(BinaryOperator::MaxU.compute(m1, 1), m1);
    assert_eq!(BinaryOperator::DivU.compute(7, 2), 3);
    assert_eq!(BinaryOperator::ModU.compute(7, 2), 1);
    assert_eq!(BinaryOperator::And.compute(0b1100, 0b1010), 0b1000);
    assert_eq!(BinaryOperator::Or.compute(0b1100, 0b1010), 0b1110);
    assert_eq!(BinaryOperator::Xor.compute(0b1100, 0b1010), 0b0110);
    assert_eq!(BinaryOperator::Xnor.compute(0b1100, 0b1010), !0b0110u32);
    assert_eq!(BinaryOperator::Rol.compute(0x8000_0001, 1), 3);
    assert_eq!(BinaryOperator::Ror.compute(3, 1), 0x8000_0001);
    assert_eq!(BinaryOperator::Rol.compute(1, 33), 2);
    assert_eq!(BinaryOperator::Lsl.compute(8, 1), 4);
    assert_eq!(BinaryOperator::Lsr.compute(8, 1), 16);
    assert_eq!(BinaryOperator::Asr.compute(f_i32(-8), 1), f_i32(-4));
    assert_eq!(BinaryOperator::Nop.compute(8, 1), 0);
}

#[test]
fn operator_numbers_roundtrip() {
    for n in 0u8..=29 {
        assert_eq!(BinaryOperator::decode(n).code(), n);
    }
    assert_eq!(BinaryOperator::decode(30), BinaryOperator::Nop);
    assert_eq!(BinaryOperator::Nop.code(), 31);
    assert!(BinaryOperator::AddF.is_float());
    assert!(BinaryOperator::Fpintexp.is_float());
    assert!(!BinaryOperator::Add.is_float());
}

#[test]
fn compare_integer_conditions() {
    assert!(Condition::Eq.compare(5, 5));
    assert!(!Condition::NEq.compare(5, 5));
    assert!(Condition::Gt.compare(1, f_i32(-1)));
    assert!(!Condition::GtU.compare(1, f_i32(-1)));
    assert!(Condition::GtU.compare(5, 5));
    assert!(Condition::NGt.compare(5, 5));
    assert!(Condition::Mask.compare(0b1010, 0b0101));
    assert!(Condition::NMask.compare(0b1010, 0b0010));
    assert!(Condition::Par.compare(0b1010, 0b0011));
    assert!(Condition::NPar.compare(0b1011, 0b0011));
    assert!(Condition::Even.compare(4, 10));
    assert!(Condition::NEven.compare(3, 10));
}

#[test]
fn compare_float_conditions_as_f32() {
    let vals = [0.0f32, -0.0, 1.5, -2.25, f32::INFINITY, f32::NEG_INFINITY, f32::NAN, 1e-40];
    for &a in vals.iter() {
        for &b in vals.iter() {
            let (x, y) = (a.to_bits(), b.to_bits());
            assert_eq!(Condition::EqF.compare(x, y), a == b);
            assert_eq!(Condition::NEqF.compare(x, y), !(a == b));
            assert_eq!(Condition::GtF.compare(x, y), a > b);
            assert_eq!(Condition::NGtF.compare(x, y), !(a > b));
        }
    }
}

#[test]
fn negated_conditions_flip() {
    for n in 0u8..16 {
        let c = Condition::decode(n);
        assert_eq!(c.code(), n);
        let other = Condition::decode(n ^ 1);
        for (a, b) in [(1u32, 2u32), (7, 7), (0x8000_0000, 3)] {
            assert_eq!(other.compare(a, b), !c.compare(a, b));
        }
    }
}

#[test]
fn conversions() {
    assert_eq!(i_i32(0xffff_ffff), -1);
    assert_eq!(i_i32(5), 5);
    assert_eq!(f_i32(-2), 0xffff_fffe);
}

#[test]
fn register_names() {
    assert_eq!(reg_name(0), "0");
    assert_eq!(reg_name(10), "rA");
    assert_eq!(r_rix_name(0x00, 1), "0");
    assert_eq!(r_rix_name(0x30, 4), "r3");
    assert_eq!(r_rix_name(0x05, 1), "@r5");
    assert_eq!(r_rix_name(0x05, 2), "@r5*2");
    assert_eq!(r_rix_name(0x1F, 1), "r1[rF]");
    assert_eq!(r_rix_name(0x1F, 3), "r1[rF*3]");
}

#[test]
fn instruction_text() {
    assert_eq!(Instruction::RawData(255).to_string(), "DAT 0xff");
    assert_eq!(Instruction::MvLd { dst: 0x10, val: 5 }.to_string(), "0x5 -> r1");
    assert_eq!(Instruction::MvRd { dst: 0x23, val: 16 }.to_string(), "@0x10 -> r2[r3]");
    assert_eq!(Instruction::OpIm { op: BinaryOperator::Add, lhs: 1, dst: 3, rhs: 5 }.to_string(), "r1 + 0x5 -> r3");
    assert_eq!(
        Instruction::OpRg { op: BinaryOperator::Asr, lhs: 0x10, rhs: 0x20, dst: 0x30 }.to_string(),
        "r1 >>> r2 -> r3"
    );
    assert_eq!(
        Instruction::BrCoIm { co: Condition::NGtU, lhs: 2, rhs: 4, val: 12 }.to_string(),
        "if r2 <=u r4 jmp 0xc"
    );
    assert_eq!(Instruction::BrUnconditional { dst: 0 }.to_string(), "jmp 0x0");
    assert_eq!(Instruction::SpStackPos { val: 12 }.to_string(), "stack 12");
    assert_eq!(BinaryOperator::Fpintexp.to_string(), "<<f");
    assert_eq!(Condition::NEven.to_string(), "!%2");
}
