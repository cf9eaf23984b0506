//! The assembly text of instructions, operators, conditions and operands.
use vstd::prelude::*;
use super::{BinaryOperator, Condition, Instruction};
use crate::text::{append_chars, append_str, string_of};
use crate::numtext::{fmt_digits, dec, hex_upper, hex_lower};

verus! {

/// The symbol of an operator.
pub open spec fn op_text(op: BinaryOperator) -> Seq<char> {
    match op {
        BinaryOperator::Add => "+"@,
        BinaryOperator::Sub => "-"@,
        BinaryOperator::SubR => "-r"@,
        BinaryOperator::Mul => "*"@,
        BinaryOperator::Div => "/"@,
        BinaryOperator::Mod => "%"@,
        BinaryOperator::Min => "min"@,
        BinaryOperator::Max => "max"@,
        BinaryOperator::AddF => "+f"@,
        BinaryOperator::SubF => "-f"@,
        BinaryOperator::SubFR => "-rf"@,
        BinaryOperator::MulF => "*f"@,
        BinaryOperator::DivF => "/f"@,
        BinaryOperator::ModF => "%f"@,
        BinaryOperator::MinF => "minf"@,
        BinaryOperator::MaxF => "maxf"@,
        BinaryOperator::And => "&"@,
        BinaryOperator::Or => "|"@,
        BinaryOperator::Xor => "^"@,
        BinaryOperator::Xnor => "!^"@,
        BinaryOperator::MinU => "minu"@,
        BinaryOperator::MaxU => "maxu"@,
        BinaryOperator::DivU => "/u"@,
        BinaryOperator::ModU => "%u"@,
        BinaryOperator::Rol => "rol"@,
        BinaryOperator::Ror => "ror"@,
        BinaryOperator::Lsl => "<<"@,
        BinaryOperator::Lsr => ">>"@,
        BinaryOperator::Asr => ">>>"@,
        BinaryOperator::Fpintexp => "<<f"@,
        BinaryOperator::Nop => "nop"@,
    }
}

/// The symbol of a condition.
pub open spec fn cond_text(c: Condition) -> Seq<char> {
    match c {
        Condition::Eq => "=="@,
        Condition::NEq => "!="@,
        Condition::Gt => ">"@,
        Condition::NGt => "<="@,
        Condition::GtU => ">u"@,
        Condition::NGtU => "<=u"@,
        Condition::Mask => "&"@,
        Condition::NMask => "!&"@,
        Condition::EqF => "==f"@,
        Condition::NEqF => "!=f"@,
        Condition::GtF => ">f"@,
        Condition::NGtF => "<=f"@,
        Condition::Par => "p"@,
        Condition::NPar => "!p"@,
        Condition::Even => "%2"@,
        Condition::NEven => "!%2"@,
    }
}

/// The name of a 4-bit register operand: `0`, or `r` and the upper-case hex index.
pub open spec fn reg_text(r: u8) -> Seq<char> {
    if r == 0 { "0"@ } else { "r"@ + hex_upper(r as nat) }
}

/// The text of an operand byte with multiplier `m`.
pub open spec fn r_rix_text(r_rix: u8, m: u8) -> Seq<char> {
    let r = r_rix / 16;
    let rix = r_rix % 16;
    if r == 0 && rix == 0 {
        "0"@
    } else if rix == 0 {
        "r"@ + hex_upper(r as nat)
    } else if r == 0 && m == 1 {
        "@r"@ + hex_upper(rix as nat)
    } else if r == 0 {
        "@r"@ + hex_upper(rix as nat) + "*"@ + dec(m as nat)
    } else if m == 1 {
        "r"@ + hex_upper(r as nat) + "[r"@ + hex_upper(rix as nat) + "]"@
    } else {
        "r"@ + hex_upper(r as nat) + "[r"@ + hex_upper(rix as nat) + "*"@ + dec(m as nat) + "]"@
    }
}

/// `{:#x}`: `0x` and lower-case hex digits.
pub open spec fn alt_hex(n: nat) -> Seq<char> {
    "0x"@ + hex_lower(n)
}

/// `text` followed by ` (sparam)` unless the parameter is zero.
pub open spec fn with_sparam(text: Seq<char>, sparam: u8) -> Seq<char> {
    if sparam == 0 { text } else { text + " ("@ + dec(sparam as nat) + ")"@ }
}

/// The assembly text of an instruction (float loads, whose text holds a float, aside).
pub open spec fn instr_text(i: Instruction) -> Seq<char> {
    match i {
        Instruction::RawData(val) => "DAT "@ + alt_hex(val as nat),
        Instruction::MvRg { src, dst, src_m, dst_m } => r_rix_text(src, src_m) + " -> "@ + r_rix_text(dst, dst_m),
        Instruction::MvRd { dst, val } => "@"@ + alt_hex(val as nat) + " -> "@ + r_rix_text(dst, 1),
        Instruction::MvLd { dst, val } => alt_hex(val as nat) + " -> "@ + r_rix_text(dst, 1),
        Instruction::OpIm { op, lhs, dst, rhs } =>
            reg_text(lhs) + " "@ + op_text(op) + " "@ + alt_hex(rhs as nat) + " -> "@ + reg_text(dst),
        Instruction::OpRg { op, lhs, rhs, dst } =>
            r_rix_text(lhs, 1) + " "@ + op_text(op) + " "@ + r_rix_text(rhs, 1) + " -> "@ + r_rix_text(dst, 1),
        Instruction::BrCoIm { co, lhs, rhs, val } =>
            "if "@ + reg_text(lhs) + " "@ + cond_text(co) + " "@ + reg_text(rhs) + " jmp "@ + alt_hex(val as nat),
        Instruction::BrCoRg { co, lhs, rhs, dst } =>
            "if "@ + r_rix_text(lhs, 1) + " "@ + cond_text(co) + " "@ + r_rix_text(rhs, 1) + " jmp "@ + r_rix_text(dst, 1),
        Instruction::BrFlagIm { flag, val } => "if flag("@ + dec(flag as nat) + ") jmp "@ + alt_hex(val as nat),
        Instruction::BrFlagRg { flat, dst } => "if flag("@ + dec(flat as nat) + ") jmp "@ + reg_text(dst),
        Instruction::BrUnconditional { dst } => "jmp "@ + alt_hex(dst as nat),
        Instruction::SpStackPos { val } => "stack "@ + dec(val as nat),
        Instruction::StPushRg { src, src_val, .. } =>
            if src_val == 0 { "push "@ + r_rix_text(src, 1) }
            else { "push "@ + r_rix_text(src, 1) + " <- "@ + r_rix_text(src_val, 1) },
        Instruction::StPushRgImm { src, val, .. } => "push "@ + r_rix_text(src, 1) + " <- "@ + alt_hex(val as nat),
        Instruction::StPushPcI { sparam, val, .. } => with_sparam("sjmp "@ + alt_hex(val as nat), sparam),
        Instruction::StPushPcR { sparam, dst, .. } => with_sparam("sjmp "@ + r_rix_text(dst, 1), sparam),
        Instruction::StPushStI { sparam, val, .. } => with_sparam("call "@ + alt_hex(val as nat), sparam),
        Instruction::StPushStR { sparam, dst, .. } => with_sparam("call "@ + r_rix_text(dst, 1), sparam),
        Instruction::StPeek { dst, offset_rg, offset, .. } =>
            if offset_rg == 0 && offset == 0 {
                "peek "@ + r_rix_text(offset_rg, 1) + " + "@ + dec(offset as nat) + " -> "@ + r_rix_text(dst, 1)
            } else if offset == 0 {
                "peek "@ + r_rix_text(offset_rg, 1) + " -> "@ + r_rix_text(dst, 1)
            } else if offset_rg == 0 {
                "peek "@ + dec(offset as nat) + " -> "@ + r_rix_text(dst, 1)
            } else {
                "peek "@ + r_rix_text(dst, 1)
            },
        Instruction::StPopRg { dst, .. } => "pop "@ + r_rix_text(dst, 1),
        Instruction::StPopPc { sparam, .. } => with_sparam("sret"@, sparam),
        Instruction::StPopSt { sparam, .. } => with_sparam("ret"@, sparam),
        Instruction::SpHalt => "halt"@,
        Instruction::SpNop => "nop"@,
        Instruction::SpIntRet => "intret"@,
        Instruction::SpInt => "int"@,
        Instruction::SpVec => "vec"@,
        Instruction::SpWrith => "writh"@,
        Instruction::SpReath => "reath"@,
        Instruction::SpInith => "inith"@,
        Instruction::SpUmem => "umem"@,
        Instruction::SpUser => "user"@,
        Instruction::SpDebug => "debug"@,
        Instruction::MvLf { .. } => Seq::empty(),
    }
}

fn push_hex_upper(v: &mut Vec<char>, n: u64)
    ensures
        final(v)@ == old(v)@ + hex_upper(n as nat),
{
    let d = fmt_digits(n, 16, true);
    append_chars(v, &d);
}

fn push_dec(v: &mut Vec<char>, n: u64)
    ensures
        final(v)@ == old(v)@ + dec(n as nat),
{
    let d = fmt_digits(n, 10, false);
    append_chars(v, &d);
}

fn push_alt_hex(v: &mut Vec<char>, n: u64)
    ensures
        final(v)@ == old(v)@ + alt_hex(n as nat),
{
    append_str(v, "0x");
    let d = fmt_digits(n, 16, false);
    append_chars(v, &d);
    assert(final(v)@ =~= old(v)@ + alt_hex(n as nat));
}

impl BinaryOperator {
    /// The symbol of the operator.
    pub fn to_str(&self) -> (s: &'static str)
        ensures
            s@ == op_text(*self),
    {
        match self {
            BinaryOperator::Add => "+",
            BinaryOperator::Sub => "-",
            BinaryOperator::SubR => "-r",
            BinaryOperator::Mul => "*",
            BinaryOperator::Div => "/",
            BinaryOperator::Mod => "%",
            BinaryOperator::Min => "min",
            BinaryOperator::Max => "max",
            BinaryOperator::AddF => "+f",
            BinaryOperator::SubF => "-f",
            BinaryOperator::SubFR => "-rf",
            BinaryOperator::MulF => "*f",
            BinaryOperator::DivF => "/f",
            BinaryOperator::ModF => "%f",
            BinaryOperator::MinF => "minf",
            BinaryOperator::MaxF => "maxf",
            BinaryOperator::And => "&",
            BinaryOperator::Or => "|",
            BinaryOperator::Xor => "^",
            BinaryOperator::Xnor => "!^",
            BinaryOperator::MinU => "minu",
            BinaryOperator::MaxU => "maxu",
            BinaryOperator::DivU => "/u",
            BinaryOperator::ModU => "%u",
            BinaryOperator::Rol => "rol",
            BinaryOperator::Ror => "ror",
            BinaryOperator::Lsl => "<<",
            BinaryOperator::Lsr => ">>",
            BinaryOperator::Asr => ">>>",
            BinaryOperator::Fpintexp => "<<f",
            BinaryOperator::Nop => "nop",
        }
    }

    /// The symbol of the operator, as `Display` writes it.
    pub fn to_string(&self) -> (s: String)
        ensures
            s@ == op_text(*self),
    {
        let mut v: Vec<char> = Vec::new();
        append_str(&mut v, self.to_str());
        string_of(&v)
    }
}

impl Condition {
    /// The symbol of the condition.
    pub fn to_str(&self) -> (s: &'static str)
        ensures
            s@ == cond_text(*self),
    {
        match self {
            Condition::Eq => "==",
            Condition::NEq => "!=",
            Condition::Gt => ">",
            Condition::NGt => "<=",
            Condition::GtU => ">u",
            Condition::NGtU => "<=u",
            Condition::Mask => "&",
            Condition::NMask => "!&",
            Condition::EqF => "==f",
            Condition::NEqF => "!=f",
            Condition::GtF => ">f",
            Condition::NGtF => "<=f",
            Condition::Par => "p",
            Condition::NPar => "!p",
            Condition::Even => "%2",
            Condition::NEven => "!%2",
        }
    }

    /// The symbol of the condition, as `Display` writes it.
    pub fn to_string(&self) -> (s: String)
        ensures
            s@ == cond_text(*self),
    {
        let mut v: Vec<char> = Vec::new();
        append_str(&mut v, self.to_str());
        string_of(&v)
    }
}

fn push_reg(v: &mut Vec<char>, r: u8)
    ensures
        final(v)@ == old(v)@ + reg_text(r),
{
    if r == 0 {
        append_str(v, "0");
    } else {
        append_str(v, "r");
        push_hex_upper(v, r as u64);
        assert(final(v)@ =~= old(v)@ + reg_text(r));
    }
}

fn push_r_rix(v: &mut Vec<char>, r_rix: u8, m: u8)
    ensures
        final(v)@ == old(v)@ + r_rix_text(r_rix, m),
{
    let r = r_rix >> 4;
    let rix = r_rix & 0xF;
    proof {
        assert(r_rix >> 4 == r_rix / 16 && r_rix & 0xF == r_rix % 16) by (bit_vector);
    }
    let ghost o = v@;
    if r == 0 && rix == 0 {
        append_str(v, "0");
    } else if rix == 0 {
        append_str(v, "r");
        push_hex_upper(v, r as u64);
    } else if r == 0 && m == 1 {
        append_str(v, "@r");
        push_hex_upper(v, rix as u64);
    } else if r == 0 {
        append_str(v, "@r");
        push_hex_upper(v, rix as u64);
        append_str(v, "*");
        push_dec(v, m as u64);
    } else if m == 1 {
        append_str(v, "r");
        push_hex_upper(v, r as u64);
        append_str(v, "[r");
        push_hex_upper(v, rix as u64);
        append_str(v, "]");
    } else {
        append_str(v, "r");
        push_hex_upper(v, r as u64);
        append_str(v, "[r");
        push_hex_upper(v, rix as u64);
        append_str(v, "*");
        push_dec(v, m as u64);
        append_str(v, "]");
    }
    assert(v@ =~= o + r_rix_text(r_rix, m));
}

/// The name of a 4-bit register operand.
pub fn reg_name(r: u8) -> (s: String)
    ensures
        s@ == reg_text(r),
{
    let mut v: Vec<char> = Vec::new();
    push_reg(&mut v, r);
    assert(v@ =~= reg_text(r));
    string_of(&v)
}

/// The text of an operand byte with multiplier `m`.
pub fn r_rix_name(r_rix: u8, m: u8) -> (s: String)
    ensures
        s@ == r_rix_text(r_rix, m),
{
    let mut v: Vec<char> = Vec::new();
    push_r_rix(&mut v, r_rix, m);
    assert(v@ =~= r_rix_text(r_rix, m));
    string_of(&v)
}

fn push_sparam(v: &mut Vec<char>, sparam: u8)
    ensures
        final(v)@ == with_sparam(old(v)@, sparam),
{
    if sparam != 0 {
        append_str(v, " (");
        push_dec(v, sparam as u64);
        append_str(v, ")");
        assert(final(v)@ =~= with_sparam(old(v)@, sparam));
    }
}

impl Instruction {
    /// The assembly text of the instruction, as `Display` writes it. The text of a
    /// float load holds a float and is not written here.
    pub fn to_string(&self) -> (s: String)
        requires
            !(*self is MvLf),
        ensures
            s@ == instr_text(*self),
    {
        let mut v: Vec<char> = Vec::new();
        match self {
            Instruction::RawData(val) => {
                append_str(&mut v, "DAT ");
                push_alt_hex(&mut v, *val as u64);
            },
            Instruction::MvRg { src, dst, src_m, dst_m } => {
                push_r_rix(&mut v, *src, *src_m);
                append_str(&mut v, " -> ");
                push_r_rix(&mut v, *dst, *dst_m);
            },
            Instruction::MvRd { dst, val } => {
                append_str(&mut v, "@");
                push_alt_hex(&mut v, *val as u64);
                append_str(&mut v, " -> ");
                push_r_rix(&mut v, *dst, 1);
            },
            Instruction::MvLd { dst, val } => {
                push_alt_hex(&mut v, *val as u64);
                append_str(&mut v, " -> ");
                push_r_rix(&mut v, *dst, 1);
            },
            Instruction::MvLf { .. } => {},
            Instruction::OpIm { op, lhs, dst, rhs } => {
                push_reg(&mut v, *lhs);
                append_str(&mut v, " ");
                append_str(&mut v, op.to_str());
                append_str(&mut v, " ");
                push_alt_hex(&mut v, *rhs as u64);
                append_str(&mut v, " -> ");
                push_reg(&mut v, *dst);
            },
            Instruction::OpRg { op, lhs, rhs, dst } => {
                push_r_rix(&mut v, *lhs, 1);
                append_str(&mut v, " ");
                append_str(&mut v, op.to_str());
                append_str(&mut v, " ");
                push_r_rix(&mut v, *rhs, 1);
                append_str(&mut v, " -> ");
                push_r_rix(&mut v, *dst, 1);
            },
            Instruction::BrCoIm { co, lhs, rhs, val } => {
                append_str(&mut v, "if ");
                push_reg(&mut v, *lhs);
                append_str(&mut v, " ");
                append_str(&mut v, co.to_str());
                append_str(&mut v, " ");
                push_reg(&mut v, *rhs);
                append_str(&mut v, " jmp ");
                push_alt_hex(&mut v, *val as u64);
            },
            Instruction::BrCoRg { co, lhs, rhs, dst } => {
                append_str(&mut v, "if ");
                push_r_rix(&mut v, *lhs, 1);
                append_str(&mut v, " ");
                append_str(&mut v, co.to_str());
                append_str(&mut v, " ");
                push_r_rix(&mut v, *rhs, 1);
                append_str(&mut v, " jmp ");
                push_r_rix(&mut v, *dst, 1);
            },
            Instruction::BrFlagIm { flag, val } => {
                append_str(&mut v, "if flag(");
                push_dec(&mut v, *flag as u64);
                append_str(&mut v, ") jmp ");
                push_alt_hex(&mut v, *val as u64);
            },
            Instruction::BrFlagRg { flat, dst } => {
                append_str(&mut v, "if flag(");
                push_dec(&mut v, *flat as u64);
                append_str(&mut v, ") jmp ");
                push_reg(&mut v, *dst);
            },
            Instruction::BrUnconditional { dst } => {
                append_str(&mut v, "jmp ");
                push_alt_hex(&mut v, *dst as u64);
            },
            Instruction::SpStackPos { val } => {
                append_str(&mut v, "stack ");
                push_dec(&mut v, *val as u64);
            },
            Instruction::StPushRg { src, src_val, .. } => {
                append_str(&mut v, "push ");
                push_r_rix(&mut v, *src, 1);
                if *src_val != 0 {
                    append_str(&mut v, " <- ");
                    push_r_rix(&mut v, *src_val, 1);
                }
            },
            Instruction::StPushRgImm { src, val, .. } => {
                append_str(&mut v, "push ");
                push_r_rix(&mut v, *src, 1);
                append_str(&mut v, " <- ");
                push_alt_hex(&mut v, *val as u64);
            },
            Instruction::StPushPcI { sparam, val, .. } => {
                append_str(&mut v, "sjmp ");
                push_alt_hex(&mut v, *val as u64);
                push_sparam(&mut v, *sparam);
            },
            Instruction::StPushPcR { sparam, dst, .. } => {
                append_str(&mut v, "sjmp ");
                push_r_rix(&mut v, *dst, 1);
                push_sparam(&mut v, *sparam);
            },
            Instruction::StPushStI { sparam, val, .. } => {
                append_str(&mut v, "call ");
                push_alt_hex(&mut v, *val as u64);
                push_sparam(&mut v, *sparam);
            },
            Instruction::StPushStR { sparam, dst, .. } => {
                append_str(&mut v, "call ");
                push_r_rix(&mut v, *dst, 1);
                push_sparam(&mut v, *sparam);
            },
            Instruction::StPeek { dst, offset_rg, offset, .. } => {
                append_str(&mut v, "peek ");
                if *offset_rg == 0 && *offset == 0 {
                    push_r_rix(&mut v, *offset_rg, 1);
                    append_str(&mut v, " + ");
                    push_dec(&mut v, *offset as u64);
                    append_str(&mut v, " -> ");
                    push_r_rix(&mut v, *dst, 1);
                } else if *offset == 0 {
                    push_r_rix(&mut v, *offset_rg, 1);
                    append_str(&mut v, " -> ");
                    push_r_rix(&mut v, *dst, 1);
                } else if *offset_rg == 0 {
                    push_dec(&mut v, *offset as u64);
                    append_str(&mut v, " -> ");
                    push_r_rix(&mut v, *dst, 1);
                } else {
                    push_r_rix(&mut v, *dst, 1);
                }
            },
            Instruction::StPopRg { dst, .. } => {
                append_str(&mut v, "pop ");
                push_r_rix(&mut v, *dst, 1);
            },
            Instruction::StPopPc { sparam, .. } => {
                append_str(&mut v, "sret");
                push_sparam(&mut v, *sparam);
            },
            Instruction::StPopSt { sparam, .. } => {
                append_str(&mut v, "ret");
                push_sparam(&mut v, *sparam);
            },
            Instruction::SpHalt => { append_str(&mut v, "halt"); },
            Instruction::SpNop => { append_str(&mut v, "nop"); },
            Instruction::SpIntRet => { append_str(&mut v, "intret"); },
            Instruction::SpInt => { append_str(&mut v, "int"); },
            Instruction::SpVec => { append_str(&mut v, "vec"); },
            Instruction::SpWrith => { append_str(&mut v, "writh"); },
            Instruction::SpReath => { append_str(&mut v, "reath"); },
            Instruction::SpInith => { append_str(&mut v, "inith"); },
            Instruction::SpUmem => { append_str(&mut v, "umem"); },
            Instruction::SpUser => { append_str(&mut v, "user"); },
            Instruction::SpDebug => { append_str(&mut v, "debug"); },
        }
        assert(v@ =~= instr_text(*self));
        string_of(&v)
    }
}

} // verus!
