//! What assembling a line promises of the machine that runs it.
use vstd::prelude::*;
use crate::machine::{Instruction, BinaryOperator, Condition};
use crate::machine::instructions::fmt::{op_text, cond_text, instr_text, alt_hex, r_rix_text, reg_text};
use crate::numtext::{digit_of, digits_of, digit_char, dec, hex_lower, hex_upper, parse_unsigned_spec, lemma_digits_of_value};
use crate::machine::instructions::encode::{encodable, spec_encode};
use crate::machine::instructions::decode::{decodable, spec_decode};
use crate::machine::instructions::roundtrip::{encoding_roundtrips, lemma_decode_encode};
use crate::text::{trim, trim_start, trim_end, starts_with, strip_prefix, is_ws, occurs_at, lemma_find, find, rfind, is_hex_digit};
use super::parse_spec::{
    Operand, first_token_split, sp_parse_operand, sp_parse_reg_name, sp_to_reg4, sp_check_imm, pow2_64,
    sp_parse_branch, sp_parse_binop_instr, sp_parse_move, sp_split_lhs, binop_tokens,
    cond_tokens, branch_parts, split_once, sp_parse_instruction, keyword_instruction, contains,
    sp_parse_binop, sp_parse_condition, ParseErrorModel, sp_negate_condition, sp_parse_int, looks_float,
};
use super::program::assembled;

verus! {

/// Whether the word of an instruction decodes back to it, or the instruction is one
/// of those whose word means something else (data, unconditional jumps) or that has
/// no word.
pub open spec fn runs_as_parsed(i: Instruction) -> bool {
    encoding_roundtrips(i) || i is RawData || i is BrUnconditional || !encodable(i)
}

/// Register names denote registers 1 to 15.
proof fn lemma_reg_name_small(s: Seq<char>)
    ensures
        sp_parse_reg_name(s) matches Ok(r) ==> 1 <= r <= 15,
{
}

/// A parsed operand that is a plain register names one of the 16 registers.
proof fn lemma_operand_small(s: Seq<char>)
    ensures
        sp_parse_operand(s) matches Ok(o) ==> (sp_to_reg4(o) matches Ok(r) ==> r < 16),
{
    lemma_reg_name_small(trim(s));
}

/// An immediate accepted as 16 bits is below `0x1_0000`.
proof fn lemma_imm16()
    ensures
        forall|v: u64| #[trigger] sp_check_imm(v, 16) is Ok ==> v < 0x1_0000,
{
    assert(pow2_64(16) == 0x1_0000) by {
        vstd::arithmetic::power2::lemma2_to64();
    }
}

proof fn lemma_branch(s: Seq<char>)
    ensures
        sp_parse_branch(s) matches Ok(i) ==> runs_as_parsed(i),
{
    lemma_imm16();
    let (negate, rest) = branch_parts(s);
    if let Some((cond_part, target_str)) = split_once(rest, " jmp "@) {
        if let Some((a_str, op_str, b_str)) = sp_split_lhs(trim(cond_part), cond_tokens()) {
            lemma_operand_small(a_str);
            lemma_operand_small(b_str);
        }
    }
}

proof fn lemma_binop(lhs: Seq<char>, dst: Seq<char>)
    ensures
        sp_parse_binop_instr(lhs, dst) matches Ok(i) ==> runs_as_parsed(i),
{
    lemma_imm16();
    lemma_operand_small(dst);
    if let Some((a_str, op_str, b_str)) = sp_split_lhs(lhs, binop_tokens()) {
        lemma_operand_small(a_str);
    }
}

proof fn lemma_move(lhs: Seq<char>, dst: Seq<char>)
    ensures
        sp_parse_move(lhs, dst) matches Ok(i) ==> runs_as_parsed(i),
{
    lemma_imm16();
}

/// Every instruction the parser yields runs as parsed (see `runs_as_parsed`).
#[verifier::rlimit(100)]
pub proof fn lemma_parsed_runs_as_parsed(text: Seq<char>)
    ensures
        sp_parse_instruction(text) matches Ok(i) ==> runs_as_parsed(i),
{
    let s = trim(text);
    if starts_with(s, "DAT "@) {
    } else if keyword_instruction(s) is Some {
    } else if starts_with(s, "jmp "@) {
    } else if starts_with(s, "if "@) {
        assert(sp_parse_instruction(text) == sp_parse_branch(s));
        lemma_branch(s);
    } else if contains(s, "<->"@) {
    } else {
        match crate::text::rfind(s, "->"@) {
            Some(arrow) => {
                let lhs = trim(s.take(arrow));
                let dst = trim(s.skip(arrow + 2));
                if sp_split_lhs(lhs, binop_tokens()) is Some {
                    assert(sp_parse_instruction(text) == sp_parse_binop_instr(lhs, dst));
                    lemma_binop(lhs, dst);
                } else {
                    assert(sp_parse_instruction(text) == sp_parse_move(lhs, dst));
                    lemma_move(lhs, dst);
                }
            },
            None => {},
        }
    }
}

/// What a line assembles to runs as the instruction it was parsed into: decoding
/// the word gives that instruction back, for every instruction but data words and
/// unconditional jumps (whose words decode as branches that are always taken).
pub proof fn lemma_assembled_decodes(text: Seq<char>)
    requires
        assembled(text) is Ok,
        !(sp_parse_instruction(text)->Ok_0 is RawData),
        !(sp_parse_instruction(text)->Ok_0 is BrUnconditional),
    ensures
        sp_parse_instruction(text) is Ok,
        decodable(assembled(text)->Ok_0),
        spec_decode(assembled(text)->Ok_0) == sp_parse_instruction(text)->Ok_0,
{
    lemma_parsed_runs_as_parsed(text);
    let i = sp_parse_instruction(text)->Ok_0;
    lemma_decode_encode(i);
}

/// `nop`, the text printed for the operator that does nothing, is no operator
/// symbol: it does not parse back.
pub proof fn lemma_nop_text_refused()
    ensures
        sp_parse_binop(op_text(BinaryOperator::Nop)) == Err::<BinaryOperator, ParseErrorModel>(
            ParseErrorModel::InvalidOperator("nop"@)),
{
    reveal_strlit("nop");
    reveal_strlit("+");
    assert("nop"@.len() != "+"@.len());
    assert("nop"@ != "+"@);
    reveal_strlit("-");
    assert("nop"@.len() != "-"@.len());
    assert("nop"@ != "-"@);
    reveal_strlit("-r");
    assert("nop"@.len() != "-r"@.len());
    assert("nop"@ != "-r"@);
    reveal_strlit("*");
    assert("nop"@.len() != "*"@.len());
    assert("nop"@ != "*"@);
    reveal_strlit("/");
    assert("nop"@.len() != "/"@.len());
    assert("nop"@ != "/"@);
    reveal_strlit("%");
    assert("nop"@.len() != "%"@.len());
    assert("nop"@ != "%"@);
    reveal_strlit("min");
    assert("nop"@[0] != "min"@[0]);
    assert("nop"@ != "min"@);
    reveal_strlit("max");
    assert("nop"@[0] != "max"@[0]);
    assert("nop"@ != "max"@);
    reveal_strlit("+f");
    assert("nop"@.len() != "+f"@.len());
    assert("nop"@ != "+f"@);
    reveal_strlit("-f");
    assert("nop"@.len() != "-f"@.len());
    assert("nop"@ != "-f"@);
    reveal_strlit("-rf");
    assert("nop"@[0] != "-rf"@[0]);
    assert("nop"@ != "-rf"@);
    reveal_strlit("*f");
    assert("nop"@.len() != "*f"@.len());
    assert("nop"@ != "*f"@);
    reveal_strlit("/f");
    assert("nop"@.len() != "/f"@.len());
    assert("nop"@ != "/f"@);
    reveal_strlit("%f");
    assert("nop"@.len() != "%f"@.len());
    assert("nop"@ != "%f"@);
    reveal_strlit("minf");
    assert("nop"@.len() != "minf"@.len());
    assert("nop"@ != "minf"@);
    reveal_strlit("maxf");
    assert("nop"@.len() != "maxf"@.len());
    assert("nop"@ != "maxf"@);
    reveal_strlit("&");
    assert("nop"@.len() != "&"@.len());
    assert("nop"@ != "&"@);
    reveal_strlit("|");
    assert("nop"@.len() != "|"@.len());
    assert("nop"@ != "|"@);
    reveal_strlit("^");
    assert("nop"@.len() != "^"@.len());
    assert("nop"@ != "^"@);
    reveal_strlit("!^");
    assert("nop"@.len() != "!^"@.len());
    assert("nop"@ != "!^"@);
    reveal_strlit("minu");
    assert("nop"@.len() != "minu"@.len());
    assert("nop"@ != "minu"@);
    reveal_strlit("maxu");
    assert("nop"@.len() != "maxu"@.len());
    assert("nop"@ != "maxu"@);
    reveal_strlit("/u");
    assert("nop"@.len() != "/u"@.len());
    assert("nop"@ != "/u"@);
    reveal_strlit("%u");
    assert("nop"@.len() != "%u"@.len());
    assert("nop"@ != "%u"@);
    reveal_strlit("rol");
    assert("nop"@[0] != "rol"@[0]);
    assert("nop"@ != "rol"@);
    reveal_strlit("ror");
    assert("nop"@[0] != "ror"@[0]);
    assert("nop"@ != "ror"@);
    reveal_strlit("<<");
    assert("nop"@.len() != "<<"@.len());
    assert("nop"@ != "<<"@);
    reveal_strlit(">>");
    assert("nop"@.len() != ">>"@.len());
    assert("nop"@ != ">>"@);
    reveal_strlit(">>>");
    assert("nop"@[0] != ">>>"@[0]);
    assert("nop"@ != ">>>"@);
    reveal_strlit("<<f");
    assert("nop"@[0] != "<<f"@[0]);
    assert("nop"@ != "<<f"@);
}

/// Every operator's symbol, as the disassembler prints it, parses back to that
/// operator (all but `Nop`, which has no symbol of its own).
#[verifier::rlimit(50)]
pub proof fn lemma_operator_text_parses(op: BinaryOperator)
    ensures
        op != BinaryOperator::Nop ==> sp_parse_binop(op_text(op)) == Ok::<BinaryOperator, ParseErrorModel>(op),
{
    match op {
        BinaryOperator::Add => {
            reveal_strlit("+");
            assert(sp_parse_binop(op_text(op)) == Ok::<BinaryOperator, ParseErrorModel>(op));
        },
        BinaryOperator::Sub => {
            reveal_strlit("-");
            reveal_strlit("+");
            assert("-"@[0] != "+"@[0]);
            assert("-"@ != "+"@);
            assert(sp_parse_binop(op_text(op)) == Ok::<BinaryOperator, ParseErrorModel>(op));
        },
        BinaryOperator::SubR => {
            reveal_strlit("-r");
            reveal_strlit("+");
            assert("-r"@.len() != "+"@.len());
            assert("-r"@ != "+"@);
            reveal_strlit("-");
            assert("-r"@.len() != "-"@.len());
            assert("-r"@ != "-"@);
            assert(sp_parse_binop(op_text(op)) == Ok::<BinaryOperator, ParseErrorModel>(op));
        },
        BinaryOperator::Mul => {
            reveal_strlit("*");
            reveal_strlit("+");
            assert("*"@[0] != "+"@[0]);
            assert("*"@ != "+"@);
            reveal_strlit("-");
            assert("*"@[0] != "-"@[0]);
            assert("*"@ != "-"@);
            reveal_strlit("-r");
            assert("*"@.len() != "-r"@.len());
            assert("*"@ != "-r"@);
            assert(sp_parse_binop(op_text(op)) == Ok::<BinaryOperator, ParseErrorModel>(op));
        },
        BinaryOperator::Div => {
            reveal_strlit("/");
            reveal_strlit("+");
            assert("/"@[0] != "+"@[0]);
            assert("/"@ != "+"@);
            reveal_strlit("-");
            assert("/"@[0] != "-"@[0]);
            assert("/"@ != "-"@);
            reveal_strlit("-r");
            assert("/"@.len() != "-r"@.len());
            assert("/"@ != "-r"@);
            reveal_strlit("*");
            assert("/"@[0] != "*"@[0]);
            assert("/"@ != "*"@);
            assert(sp_parse_binop(op_text(op)) == Ok::<BinaryOperator, ParseErrorModel>(op));
        },
        BinaryOperator::Mod => {
            reveal_strlit("%");
            reveal_strlit("+");
            assert("%"@[0] != "+"@[0]);
            assert("%"@ != "+"@);
            reveal_strlit("-");
            assert("%"@[0] != "-"@[0]);
            assert("%"@ != "-"@);
            reveal_strlit("-r");
            assert("%"@.len() != "-r"@.len());
            assert("%"@ != "-r"@);
            reveal_strlit("*");
            assert("%"@[0] != "*"@[0]);
            assert("%"@ != "*"@);
            reveal_strlit("/");
            assert("%"@[0] != "/"@[0]);
            assert("%"@ != "/"@);
            assert(sp_parse_binop(op_text(op)) == Ok::<BinaryOperator, ParseErrorModel>(op));
        },
        BinaryOperator::Min => {
            reveal_strlit("min");
            reveal_strlit("+");
            assert("min"@.len() != "+"@.len());
            assert("min"@ != "+"@);
            reveal_strlit("-");
            assert("min"@.len() != "-"@.len());
            assert("min"@ != "-"@);
            reveal_strlit("-r");
            assert("min"@.len() != "-r"@.len());
            assert("min"@ != "-r"@);
            reveal_strlit("*");
            assert("min"@.len() != "*"@.len());
            assert("min"@ != "*"@);
            reveal_strlit("/");
            assert("min"@.len() != "/"@.len());
            assert("min"@ != "/"@);
            reveal_strlit("%");
            assert("min"@.len() != "%"@.len());
            assert("min"@ != "%"@);
            assert(sp_parse_binop(op_text(op)) == Ok::<BinaryOperator, ParseErrorModel>(op));
        },
        BinaryOperator::Max => {
            reveal_strlit("max");
            reveal_strlit("+");
            assert("max"@.len() != "+"@.len());
            assert("max"@ != "+"@);
            reveal_strlit("-");
            assert("max"@.len() != "-"@.len());
            assert("max"@ != "-"@);
            reveal_strlit("-r");
            assert("max"@.len() != "-r"@.len());
            assert("max"@ != "-r"@);
            reveal_strlit("*");
            assert("max"@.len() != "*"@.len());
            assert("max"@ != "*"@);
            reveal_strlit("/");
            assert("max"@.len() != "/"@.len());
            assert("max"@ != "/"@);
            reveal_strlit("%");
            assert("max"@.len() != "%"@.len());
            assert("max"@ != "%"@);
            reveal_strlit("min");
            assert("max"@[1] != "min"@[1]);
            assert("max"@ != "min"@);
            assert(sp_parse_binop(op_text(op)) == Ok::<BinaryOperator, ParseErrorModel>(op));
        },
        BinaryOperator::AddF => {
            reveal_strlit("+f");
            reveal_strlit("+");
            assert("+f"@.len() != "+"@.len());
            assert("+f"@ != "+"@);
            reveal_strlit("-");
            assert("+f"@.len() != "-"@.len());
            assert("+f"@ != "-"@);
            reveal_strlit("-r");
            assert("+f"@[0] != "-r"@[0]);
            assert("+f"@ != "-r"@);
            reveal_strlit("*");
            assert("+f"@.len() != "*"@.len());
            assert("+f"@ != "*"@);
            reveal_strlit("/");
            assert("+f"@.len() != "/"@.len());
            assert("+f"@ != "/"@);
            reveal_strlit("%");
            assert("+f"@.len() != "%"@.len());
            assert("+f"@ != "%"@);
            reveal_strlit("min");
            assert("+f"@.len() != "min"@.len());
            assert("+f"@ != "min"@);
            reveal_strlit("max");
            assert("+f"@.len() != "max"@.len());
            assert("+f"@ != "max"@);
            assert(sp_parse_binop(op_text(op)) == Ok::<BinaryOperator, ParseErrorModel>(op));
        },
        BinaryOperator::SubF => {
            reveal_strlit("-f");
            reveal_strlit("+");
            assert("-f"@.len() != "+"@.len());
            assert("-f"@ != "+"@);
            reveal_strlit("-");
            assert("-f"@.len() != "-"@.len());
            assert("-f"@ != "-"@);
            reveal_strlit("-r");
            assert("-f"@[1] != "-r"@[1]);
            assert("-f"@ != "-r"@);
            reveal_strlit("*");
            assert("-f"@.len() != "*"@.len());
            assert("-f"@ != "*"@);
            reveal_strlit("/");
            assert("-f"@.len() != "/"@.len());
            assert("-f"@ != "/"@);
            reveal_strlit("%");
            assert("-f"@.len() != "%"@.len());
            assert("-f"@ != "%"@);
            reveal_strlit("min");
            assert("-f"@.len() != "min"@.len());
            assert("-f"@ != "min"@);
            reveal_strlit("max");
            assert("-f"@.len() != "max"@.len());
            assert("-f"@ != "max"@);
            reveal_strlit("+f");
            assert("-f"@[0] != "+f"@[0]);
            assert("-f"@ != "+f"@);
            assert(sp_parse_binop(op_text(op)) == Ok::<BinaryOperator, ParseErrorModel>(op));
        },
        BinaryOperator::SubFR => {
            reveal_strlit("-rf");
            reveal_strlit("+");
            assert("-rf"@.len() != "+"@.len());
            assert("-rf"@ != "+"@);
            reveal_strlit("-");
            assert("-rf"@.len() != "-"@.len());
            assert("-rf"@ != "-"@);
            reveal_strlit("-r");
            assert("-rf"@.len() != "-r"@.len());
            assert("-rf"@ != "-r"@);
            reveal_strlit("*");
            assert("-rf"@.len() != "*"@.len());
            assert("-rf"@ != "*"@);
            reveal_strlit("/");
            assert("-rf"@.len() != "/"@.len());
            assert("-rf"@ != "/"@);
            reveal_strlit("%");
            assert("-rf"@.len() != "%"@.len());
            assert("-rf"@ != "%"@);
            reveal_strlit("min");
            assert("-rf"@[0] != "min"@[0]);
            assert("-rf"@ != "min"@);
            reveal_strlit("max");
            assert("-rf"@[0] != "max"@[0]);
            assert("-rf"@ != "max"@);
            reveal_strlit("+f");
            assert("-rf"@.len() != "+f"@.len());
            assert("-rf"@ != "+f"@);
            reveal_strlit("-f");
            assert("-rf"@.len() != "-f"@.len());
            assert("-rf"@ != "-f"@);
            assert(sp_parse_binop(op_text(op)) == Ok::<BinaryOperator, ParseErrorModel>(op));
        },
        BinaryOperator::MulF => {
            reveal_strlit("*f");
            reveal_strlit("+");
            assert("*f"@.len() != "+"@.len());
            assert("*f"@ != "+"@);
            reveal_strlit("-");
            assert("*f"@.len() != "-"@.len());
            assert("*f"@ != "-"@);
            reveal_strlit("-r");
            assert("*f"@[0] != "-r"@[0]);
            assert("*f"@ != "-r"@);
            reveal_strlit("*");
            assert("*f"@.len() != "*"@.len());
            assert("*f"@ != "*"@);
            reveal_strlit("/");
            assert("*f"@.len() != "/"@.len());
            assert("*f"@ != "/"@);
            reveal_strlit("%");
            assert("*f"@.len() != "%"@.len());
            assert("*f"@ != "%"@);
            reveal_strlit("min");
            assert("*f"@.len() != "min"@.len());
            assert("*f"@ != "min"@);
            reveal_strlit("max");
            assert("*f"@.len() != "max"@.len());
            assert("*f"@ != "max"@);
            reveal_strlit("+f");
            assert("*f"@[0] != "+f"@[0]);
            assert("*f"@ != "+f"@);
            reveal_strlit("-f");
            assert("*f"@[0] != "-f"@[0]);
            assert("*f"@ != "-f"@);
            reveal_strlit("-rf");
            assert("*f"@.len() != "-rf"@.len());
            assert("*f"@ != "-rf"@);
            assert(sp_parse_binop(op_text(op)) == Ok::<BinaryOperator, ParseErrorModel>(op));
        },
        BinaryOperator::DivF => {
            reveal_strlit("/f");
            reveal_strlit("+");
            assert("/f"@.len() != "+"@.len());
            assert("/f"@ != "+"@);
            reveal_strlit("-");
            assert("/f"@.len() != "-"@.len());
            assert("/f"@ != "-"@);
            reveal_strlit("-r");
            assert("/f"@[0] != "-r"@[0]);
            assert("/f"@ != "-r"@);
            reveal_strlit("*");
            assert("/f"@.len() != "*"@.len());
            assert("/f"@ != "*"@);
            reveal_strlit("/");
            assert("/f"@.len() != "/"@.len());
            assert("/f"@ != "/"@);
            reveal_strlit("%");
            assert("/f"@.len() != "%"@.len());
            assert("/f"@ != "%"@);
            reveal_strlit("min");
            assert("/f"@.len() != "min"@.len());
            assert("/f"@ != "min"@);
            reveal_strlit("max");
            assert("/f"@.len() != "max"@.len());
            assert("/f"@ != "max"@);
            reveal_strlit("+f");
            assert("/f"@[0] != "+f"@[0]);
            assert("/f"@ != "+f"@);
            reveal_strlit("-f");
            assert("/f"@[0] != "-f"@[0]);
            assert("/f"@ != "-f"@);
            reveal_strlit("-rf");
            assert("/f"@.len() != "-rf"@.len());
            assert("/f"@ != "-rf"@);
            reveal_strlit("*f");
            assert("/f"@[0] != "*f"@[0]);
            assert("/f"@ != "*f"@);
            assert(sp_parse_binop(op_text(op)) == Ok::<BinaryOperator, ParseErrorModel>(op));
        },
        BinaryOperator::ModF => {
            reveal_strlit("%f");
            reveal_strlit("+");
            assert("%f"@.len() != "+"@.len());
            assert("%f"@ != "+"@);
            reveal_strlit("-");
            assert("%f"@.len() != "-"@.len());
            assert("%f"@ != "-"@);
            reveal_strlit("-r");
            assert("%f"@[0] != "-r"@[0]);
            assert("%f"@ != "-r"@);
            reveal_strlit("*");
            assert("%f"@.len() != "*"@.len());
            assert("%f"@ != "*"@);
            reveal_strlit("/");
            assert("%f"@.len() != "/"@.len());
            assert("%f"@ != "/"@);
            reveal_strlit("%");
            assert("%f"@.len() != "%"@.len());
            assert("%f"@ != "%"@);
            reveal_strlit("min");
            assert("%f"@.len() != "min"@.len());
            assert("%f"@ != "min"@);
            reveal_strlit("max");
            assert("%f"@.len() != "max"@.len());
            assert("%f"@ != "max"@);
            reveal_strlit("+f");
            assert("%f"@[0] != "+f"@[0]);
            assert("%f"@ != "+f"@);
            reveal_strlit("-f");
            assert("%f"@[0] != "-f"@[0]);
            assert("%f"@ != "-f"@);
            reveal_strlit("-rf");
            assert("%f"@.len() != "-rf"@.len());
            assert("%f"@ != "-rf"@);
            reveal_strlit("*f");
            assert("%f"@[0] != "*f"@[0]);
            assert("%f"@ != "*f"@);
            reveal_strlit("/f");
            assert("%f"@[0] != "/f"@[0]);
            assert("%f"@ != "/f"@);
            assert(sp_parse_binop(op_text(op)) == Ok::<BinaryOperator, ParseErrorModel>(op));
        },
        BinaryOperator::MinF => {
            reveal_strlit("minf");
            reveal_strlit("+");
            assert("minf"@.len() != "+"@.len());
            assert("minf"@ != "+"@);
            reveal_strlit("-");
            assert("minf"@.len() != "-"@.len());
            assert("minf"@ != "-"@);
            reveal_strlit("-r");
            assert("minf"@.len() != "-r"@.len());
            assert("minf"@ != "-r"@);
            reveal_strlit("*");
            assert("minf"@.len() != "*"@.len());
            assert("minf"@ != "*"@);
            reveal_strlit("/");
            assert("minf"@.len() != "/"@.len());
            assert("minf"@ != "/"@);
            reveal_strlit("%");
            assert("minf"@.len() != "%"@.len());
            assert("minf"@ != "%"@);
            reveal_strlit("min");
            assert("minf"@.len() != "min"@.len());
            assert("minf"@ != "min"@);
            reveal_strlit("max");
            assert("minf"@.len() != "max"@.len());
            assert("minf"@ != "max"@);
            reveal_strlit("+f");
            assert("minf"@.len() != "+f"@.len());
            assert("minf"@ != "+f"@);
            reveal_strlit("-f");
            assert("minf"@.len() != "-f"@.len());
            assert("minf"@ != "-f"@);
            reveal_strlit("-rf");
            assert("minf"@.len() != "-rf"@.len());
            assert("minf"@ != "-rf"@);
            reveal_strlit("*f");
            assert("minf"@.len() != "*f"@.len());
            assert("minf"@ != "*f"@);
            reveal_strlit("/f");
            assert("minf"@.len() != "/f"@.len());
            assert("minf"@ != "/f"@);
            reveal_strlit("%f");
            assert("minf"@.len() != "%f"@.len());
            assert("minf"@ != "%f"@);
            assert(sp_parse_binop(op_text(op)) == Ok::<BinaryOperator, ParseErrorModel>(op));
        },
        BinaryOperator::MaxF => {
            reveal_strlit("maxf");
            reveal_strlit("+");
            assert("maxf"@.len() != "+"@.len());
            assert("maxf"@ != "+"@);
            reveal_strlit("-");
            assert("maxf"@.len() != "-"@.len());
            assert("maxf"@ != "-"@);
            reveal_strlit("-r");
            assert("maxf"@.len() != "-r"@.len());
            assert("maxf"@ != "-r"@);
            reveal_strlit("*");
            assert("maxf"@.len() != "*"@.len());
            assert("maxf"@ != "*"@);
            reveal_strlit("/");
            assert("maxf"@.len() != "/"@.len());
            assert("maxf"@ != "/"@);
            reveal_strlit("%");
            assert("maxf"@.len() != "%"@.len());
            assert("maxf"@ != "%"@);
            reveal_strlit("min");
            assert("maxf"@.len() != "min"@.len());
            assert("maxf"@ != "min"@);
            reveal_strlit("max");
            assert("maxf"@.len() != "max"@.len());
            assert("maxf"@ != "max"@);
            reveal_strlit("+f");
            assert("maxf"@.len() != "+f"@.len());
            assert("maxf"@ != "+f"@);
            reveal_strlit("-f");
            assert("maxf"@.len() != "-f"@.len());
            assert("maxf"@ != "-f"@);
            reveal_strlit("-rf");
            assert("maxf"@.len() != "-rf"@.len());
            assert("maxf"@ != "-rf"@);
            reveal_strlit("*f");
            assert("maxf"@.len() != "*f"@.len());
            assert("maxf"@ != "*f"@);
            reveal_strlit("/f");
            assert("maxf"@.len() != "/f"@.len());
            assert("maxf"@ != "/f"@);
            reveal_strlit("%f");
            assert("maxf"@.len() != "%f"@.len());
            assert("maxf"@ != "%f"@);
            reveal_strlit("minf");
            assert("maxf"@[1] != "minf"@[1]);
            assert("maxf"@ != "minf"@);
            assert(sp_parse_binop(op_text(op)) == Ok::<BinaryOperator, ParseErrorModel>(op));
        },
        BinaryOperator::And => {
            reveal_strlit("&");
            reveal_strlit("+");
            assert("&"@[0] != "+"@[0]);
            assert("&"@ != "+"@);
            reveal_strlit("-");
            assert("&"@[0] != "-"@[0]);
            assert("&"@ != "-"@);
            reveal_strlit("-r");
            assert("&"@.len() != "-r"@.len());
            assert("&"@ != "-r"@);
            reveal_strlit("*");
            assert("&"@[0] != "*"@[0]);
            assert("&"@ != "*"@);
            reveal_strlit("/");
            assert("&"@[0] != "/"@[0]);
            assert("&"@ != "/"@);
            reveal_strlit("%");
            assert("&"@[0] != "%"@[0]);
            assert("&"@ != "%"@);
            reveal_strlit("min");
            assert("&"@.len() != "min"@.len());
            assert("&"@ != "min"@);
            reveal_strlit("max");
            assert("&"@.len() != "max"@.len());
            assert("&"@ != "max"@);
            reveal_strlit("+f");
            assert("&"@.len() != "+f"@.len());
            assert("&"@ != "+f"@);
            reveal_strlit("-f");
            assert("&"@.len() != "-f"@.len());
            assert("&"@ != "-f"@);
            reveal_strlit("-rf");
            assert("&"@.len() != "-rf"@.len());
            assert("&"@ != "-rf"@);
            reveal_strlit("*f");
            assert("&"@.len() != "*f"@.len());
            assert("&"@ != "*f"@);
            reveal_strlit("/f");
            assert("&"@.len() != "/f"@.len());
            assert("&"@ != "/f"@);
            reveal_strlit("%f");
            assert("&"@.len() != "%f"@.len());
            assert("&"@ != "%f"@);
            reveal_strlit("minf");
            assert("&"@.len() != "minf"@.len());
            assert("&"@ != "minf"@);
            reveal_strlit("maxf");
            assert("&"@.len() != "maxf"@.len());
            assert("&"@ != "maxf"@);
            assert(sp_parse_binop(op_text(op)) == Ok::<BinaryOperator, ParseErrorModel>(op));
        },
        BinaryOperator::Or => {
            reveal_strlit("|");
            reveal_strlit("+");
            assert("|"@[0] != "+"@[0]);
            assert("|"@ != "+"@);
            reveal_strlit("-");
            assert("|"@[0] != "-"@[0]);
            assert("|"@ != "-"@);
            reveal_strlit("-r");
            assert("|"@.len() != "-r"@.len());
            assert("|"@ != "-r"@);
            reveal_strlit("*");
            assert("|"@[0] != "*"@[0]);
            assert("|"@ != "*"@);
            reveal_strlit("/");
            assert("|"@[0] != "/"@[0]);
            assert("|"@ != "/"@);
            reveal_strlit("%");
            assert("|"@[0] != "%"@[0]);
            assert("|"@ != "%"@);
            reveal_strlit("min");
            assert("|"@.len() != "min"@.len());
            assert("|"@ != "min"@);
            reveal_strlit("max");
            assert("|"@.len() != "max"@.len());
            assert("|"@ != "max"@);
            reveal_strlit("+f");
            assert("|"@.len() != "+f"@.len());
            assert("|"@ != "+f"@);
            reveal_strlit("-f");
            assert("|"@.len() != "-f"@.len());
            assert("|"@ != "-f"@);
            reveal_strlit("-rf");
            assert("|"@.len() != "-rf"@.len());
            assert("|"@ != "-rf"@);
            reveal_strlit("*f");
            assert("|"@.len() != "*f"@.len());
            assert("|"@ != "*f"@);
            reveal_strlit("/f");
            assert("|"@.len() != "/f"@.len());
            assert("|"@ != "/f"@);
            reveal_strlit("%f");
            assert("|"@.len() != "%f"@.len());
            assert("|"@ != "%f"@);
            reveal_strlit("minf");
            assert("|"@.len() != "minf"@.len());
            assert("|"@ != "minf"@);
            reveal_strlit("maxf");
            assert("|"@.len() != "maxf"@.len());
            assert("|"@ != "maxf"@);
            reveal_strlit("&");
            assert("|"@[0] != "&"@[0]);
            assert("|"@ != "&"@);
            assert(sp_parse_binop(op_text(op)) == Ok::<BinaryOperator, ParseErrorModel>(op));
        },
        BinaryOperator::Xor => {
            reveal_strlit("^");
            reveal_strlit("+");
            assert("^"@[0] != "+"@[0]);
            assert("^"@ != "+"@);
            reveal_strlit("-");
            assert("^"@[0] != "-"@[0]);
            assert("^"@ != "-"@);
            reveal_strlit("-r");
            assert("^"@.len() != "-r"@.len());
            assert("^"@ != "-r"@);
            reveal_strlit("*");
            assert("^"@[0] != "*"@[0]);
            assert("^"@ != "*"@);
            reveal_strlit("/");
            assert("^"@[0] != "/"@[0]);
            assert("^"@ != "/"@);
            reveal_strlit("%");
            assert("^"@[0] != "%"@[0]);
            assert("^"@ != "%"@);
            reveal_strlit("min");
            assert("^"@.len() != "min"@.len());
            assert("^"@ != "min"@);
            reveal_strlit("max");
            assert("^"@.len() != "max"@.len());
            assert("^"@ != "max"@);
            reveal_strlit("+f");
            assert("^"@.len() != "+f"@.len());
            assert("^"@ != "+f"@);
            reveal_strlit("-f");
            assert("^"@.len() != "-f"@.len());
            assert("^"@ != "-f"@);
            reveal_strlit("-rf");
            assert("^"@.len() != "-rf"@.len());
            assert("^"@ != "-rf"@);
            reveal_strlit("*f");
            assert("^"@.len() != "*f"@.len());
            assert("^"@ != "*f"@);
            reveal_strlit("/f");
            assert("^"@.len() != "/f"@.len());
            assert("^"@ != "/f"@);
            reveal_strlit("%f");
            assert("^"@.len() != "%f"@.len());
            assert("^"@ != "%f"@);
            reveal_strlit("minf");
            assert("^"@.len() != "minf"@.len());
            assert("^"@ != "minf"@);
            reveal_strlit("maxf");
            assert("^"@.len() != "maxf"@.len());
            assert("^"@ != "maxf"@);
            reveal_strlit("&");
            assert("^"@[0] != "&"@[0]);
            assert("^"@ != "&"@);
            reveal_strlit("|");
            assert("^"@[0] != "|"@[0]);
            assert("^"@ != "|"@);
            assert(sp_parse_binop(op_text(op)) == Ok::<BinaryOperator, ParseErrorModel>(op));
        },
        BinaryOperator::Xnor => {
            reveal_strlit("!^");
            reveal_strlit("+");
            assert("!^"@.len() != "+"@.len());
            assert("!^"@ != "+"@);
            reveal_strlit("-");
            assert("!^"@.len() != "-"@.len());
            assert("!^"@ != "-"@);
            reveal_strlit("-r");
            assert("!^"@[0] != "-r"@[0]);
            assert("!^"@ != "-r"@);
            reveal_strlit("*");
            assert("!^"@.len() != "*"@.len());
            assert("!^"@ != "*"@);
            reveal_strlit("/");
            assert("!^"@.len() != "/"@.len());
            assert("!^"@ != "/"@);
            reveal_strlit("%");
            assert("!^"@.len() != "%"@.len());
            assert("!^"@ != "%"@);
            reveal_strlit("min");
            assert("!^"@.len() != "min"@.len());
            assert("!^"@ != "min"@);
            reveal_strlit("max");
            assert("!^"@.len() != "max"@.len());
            assert("!^"@ != "max"@);
            reveal_strlit("+f");
            assert("!^"@[0] != "+f"@[0]);
            assert("!^"@ != "+f"@);
            reveal_strlit("-f");
            assert("!^"@[0] != "-f"@[0]);
            assert("!^"@ != "-f"@);
            reveal_strlit("-rf");
            assert("!^"@.len() != "-rf"@.len());
            assert("!^"@ != "-rf"@);
            reveal_strlit("*f");
            assert("!^"@[0] != "*f"@[0]);
            assert("!^"@ != "*f"@);
            reveal_strlit("/f");
            assert("!^"@[0] != "/f"@[0]);
            assert("!^"@ != "/f"@);
            reveal_strlit("%f");
            assert("!^"@[0] != "%f"@[0]);
            assert("!^"@ != "%f"@);
            reveal_strlit("minf");
            assert("!^"@.len() != "minf"@.len());
            assert("!^"@ != "minf"@);
            reveal_strlit("maxf");
            assert("!^"@.len() != "maxf"@.len());
            assert("!^"@ != "maxf"@);
            reveal_strlit("&");
            assert("!^"@.len() != "&"@.len());
            assert("!^"@ != "&"@);
            reveal_strlit("|");
            assert("!^"@.len() != "|"@.len());
            assert("!^"@ != "|"@);
            reveal_strlit("^");
            assert("!^"@.len() != "^"@.len());
            assert("!^"@ != "^"@);
            assert(sp_parse_binop(op_text(op)) == Ok::<BinaryOperator, ParseErrorModel>(op));
        },
        BinaryOperator::MinU => {
            reveal_strlit("minu");
            reveal_strlit("+");
            assert("minu"@.len() != "+"@.len());
            assert("minu"@ != "+"@);
            reveal_strlit("-");
            assert("minu"@.len() != "-"@.len());
            assert("minu"@ != "-"@);
            reveal_strlit("-r");
            assert("minu"@.len() != "-r"@.len());
            assert("minu"@ != "-r"@);
            reveal_strlit("*");
            assert("minu"@.len() != "*"@.len());
            assert("minu"@ != "*"@);
            reveal_strlit("/");
            assert("minu"@.len() != "/"@.len());
            assert("minu"@ != "/"@);
            reveal_strlit("%");
            assert("minu"@.len() != "%"@.len());
            assert("minu"@ != "%"@);
            reveal_strlit("min");
            assert("minu"@.len() != "min"@.len());
            assert("minu"@ != "min"@);
            reveal_strlit("max");
            assert("minu"@.len() != "max"@.len());
            assert("minu"@ != "max"@);
            reveal_strlit("+f");
            assert("minu"@.len() != "+f"@.len());
            assert("minu"@ != "+f"@);
            reveal_strlit("-f");
            assert("minu"@.len() != "-f"@.len());
            assert("minu"@ != "-f"@);
            reveal_strlit("-rf");
            assert("minu"@.len() != "-rf"@.len());
            assert("minu"@ != "-rf"@);
            reveal_strlit("*f");
            assert("minu"@.len() != "*f"@.len());
            assert("minu"@ != "*f"@);
            reveal_strlit("/f");
            assert("minu"@.len() != "/f"@.len());
            assert("minu"@ != "/f"@);
            reveal_strlit("%f");
            assert("minu"@.len() != "%f"@.len());
            assert("minu"@ != "%f"@);
            reveal_strlit("minf");
            assert("minu"@[3] != "minf"@[3]);
            assert("minu"@ != "minf"@);
            reveal_strlit("maxf");
            assert("minu"@[1] != "maxf"@[1]);
            assert("minu"@ != "maxf"@);
            reveal_strlit("&");
            assert("minu"@.len() != "&"@.len());
            assert("minu"@ != "&"@);
            reveal_strlit("|");
            assert("minu"@.len() != "|"@.len());
            assert("minu"@ != "|"@);
            reveal_strlit("^");
            assert("minu"@.len() != "^"@.len());
            assert("minu"@ != "^"@);
            reveal_strlit("!^");
            assert("minu"@.len() != "!^"@.len());
            assert("minu"@ != "!^"@);
            assert(sp_parse_binop(op_text(op)) == Ok::<BinaryOperator, ParseErrorModel>(op));
        },
        BinaryOperator::MaxU => {
            reveal_strlit("maxu");
            reveal_strlit("+");
            assert("maxu"@.len() != "+"@.len());
            assert("maxu"@ != "+"@);
            reveal_strlit("-");
            assert("maxu"@.len() != "-"@.len());
            assert("maxu"@ != "-"@);
            reveal_strlit("-r");
            assert("maxu"@.len() != "-r"@.len());
            assert("maxu"@ != "-r"@);
            reveal_strlit("*");
            assert("maxu"@.len() != "*"@.len());
            assert("maxu"@ != "*"@);
            reveal_strlit("/");
            assert("maxu"@.len() != "/"@.len());
            assert("maxu"@ != "/"@);
            reveal_strlit("%");
            assert("maxu"@.len() != "%"@.len());
            assert("maxu"@ != "%"@);
            reveal_strlit("min");
            assert("maxu"@.len() != "min"@.len());
            assert("maxu"@ != "min"@);
            reveal_strlit("max");
            assert("maxu"@.len() != "max"@.len());
            assert("maxu"@ != "max"@);
            reveal_strlit("+f");
            assert("maxu"@.len() != "+f"@.len());
            assert("maxu"@ != "+f"@);
            reveal_strlit("-f");
            assert("maxu"@.len() != "-f"@.len());
            assert("maxu"@ != "-f"@);
            reveal_strlit("-rf");
            assert("maxu"@.len() != "-rf"@.len());
            assert("maxu"@ != "-rf"@);
            reveal_strlit("*f");
            assert("maxu"@.len() != "*f"@.len());
            assert("maxu"@ != "*f"@);
            reveal_strlit("/f");
            assert("maxu"@.len() != "/f"@.len());
            assert("maxu"@ != "/f"@);
            reveal_strlit("%f");
            assert("maxu"@.len() != "%f"@.len());
            assert("maxu"@ != "%f"@);
            reveal_strlit("minf");
            assert("maxu"@[1] != "minf"@[1]);
            assert("maxu"@ != "minf"@);
            reveal_strlit("maxf");
            assert("maxu"@[3] != "maxf"@[3]);
            assert("maxu"@ != "maxf"@);
            reveal_strlit("&");
            assert("maxu"@.len() != "&"@.len());
            assert("maxu"@ != "&"@);
            reveal_strlit("|");
            assert("maxu"@.len() != "|"@.len());
            assert("maxu"@ != "|"@);
            reveal_strlit("^");
            assert("maxu"@.len() != "^"@.len());
            assert("maxu"@ != "^"@);
            reveal_strlit("!^");
            assert("maxu"@.len() != "!^"@.len());
            assert("maxu"@ != "!^"@);
            reveal_strlit("minu");
            assert("maxu"@[1] != "minu"@[1]);
            assert("maxu"@ != "minu"@);
            assert(sp_parse_binop(op_text(op)) == Ok::<BinaryOperator, ParseErrorModel>(op));
        },
        BinaryOperator::DivU => {
            reveal_strlit("/u");
            reveal_strlit("+");
            assert("/u"@.len() != "+"@.len());
            assert("/u"@ != "+"@);
            reveal_strlit("-");
            assert("/u"@.len() != "-"@.len());
            assert("/u"@ != "-"@);
            reveal_strlit("-r");
            assert("/u"@[0] != "-r"@[0]);
            assert("/u"@ != "-r"@);
            reveal_strlit("*");
            assert("/u"@.len() != "*"@.len());
            assert("/u"@ != "*"@);
            reveal_strlit("/");
            assert("/u"@.len() != "/"@.len());
            assert("/u"@ != "/"@);
            reveal_strlit("%");
            assert("/u"@.len() != "%"@.len());
            assert("/u"@ != "%"@);
            reveal_strlit("min");
            assert("/u"@.len() != "min"@.len());
            assert("/u"@ != "min"@);
            reveal_strlit("max");
            assert("/u"@.len() != "max"@.len());
            assert("/u"@ != "max"@);
            reveal_strlit("+f");
            assert("/u"@[0] != "+f"@[0]);
            assert("/u"@ != "+f"@);
            reveal_strlit("-f");
            assert("/u"@[0] != "-f"@[0]);
            assert("/u"@ != "-f"@);
            reveal_strlit("-rf");
            assert("/u"@.len() != "-rf"@.len());
            assert("/u"@ != "-rf"@);
            reveal_strlit("*f");
            assert("/u"@[0] != "*f"@[0]);
            assert("/u"@ != "*f"@);
            reveal_strlit("/f");
            assert("/u"@[1] != "/f"@[1]);
            assert("/u"@ != "/f"@);
            reveal_strlit("%f");
            assert("/u"@[0] != "%f"@[0]);
            assert("/u"@ != "%f"@);
            reveal_strlit("minf");
            assert("/u"@.len() != "minf"@.len());
            assert("/u"@ != "minf"@);
            reveal_strlit("maxf");
            assert("/u"@.len() != "maxf"@.len());
            assert("/u"@ != "maxf"@);
            reveal_strlit("&");
            assert("/u"@.len() != "&"@.len());
            assert("/u"@ != "&"@);
            reveal_strlit("|");
            assert("/u"@.len() != "|"@.len());
            assert("/u"@ != "|"@);
            reveal_strlit("^");
            assert("/u"@.len() != "^"@.len());
            assert("/u"@ != "^"@);
            reveal_strlit("!^");
            assert("/u"@[0] != "!^"@[0]);
            assert("/u"@ != "!^"@);
            reveal_strlit("minu");
            assert("/u"@.len() != "minu"@.len());
            assert("/u"@ != "minu"@);
            reveal_strlit("maxu");
            assert("/u"@.len() != "maxu"@.len());
            assert("/u"@ != "maxu"@);
            assert(sp_parse_binop(op_text(op)) == Ok::<BinaryOperator, ParseErrorModel>(op));
        },
        BinaryOperator::ModU => {
            reveal_strlit("%u");
            reveal_strlit("+");
            assert("%u"@.len() != "+"@.len());
            assert("%u"@ != "+"@);
            reveal_strlit("-");
            assert("%u"@.len() != "-"@.len());
            assert("%u"@ != "-"@);
            reveal_strlit("-r");
            assert("%u"@[0] != "-r"@[0]);
            assert("%u"@ != "-r"@);
            reveal_strlit("*");
            assert("%u"@.len() != "*"@.len());
            assert("%u"@ != "*"@);
            reveal_strlit("/");
            assert("%u"@.len() != "/"@.len());
            assert("%u"@ != "/"@);
            reveal_strlit("%");
            assert("%u"@.len() != "%"@.len());
            assert("%u"@ != "%"@);
            reveal_strlit("min");
            assert("%u"@.len() != "min"@.len());
            assert("%u"@ != "min"@);
            reveal_strlit("max");
            assert("%u"@.len() != "max"@.len());
            assert("%u"@ != "max"@);
            reveal_strlit("+f");
            assert("%u"@[0] != "+f"@[0]);
            assert("%u"@ != "+f"@);
            reveal_strlit("-f");
            assert("%u"@[0] != "-f"@[0]);
            assert("%u"@ != "-f"@);
            reveal_strlit("-rf");
            assert("%u"@.len() != "-rf"@.len());
            assert("%u"@ != "-rf"@);
            reveal_strlit("*f");
            assert("%u"@[0] != "*f"@[0]);
            assert("%u"@ != "*f"@);
            reveal_strlit("/f");
            assert("%u"@[0] != "/f"@[0]);
            assert("%u"@ != "/f"@);
            reveal_strlit("%f");
            assert("%u"@[1] != "%f"@[1]);
            assert("%u"@ != "%f"@);
            reveal_strlit("minf");
            assert("%u"@.len() != "minf"@.len());
            assert("%u"@ != "minf"@);
            reveal_strlit("maxf");
            assert("%u"@.len() != "maxf"@.len());
            assert("%u"@ != "maxf"@);
            reveal_strlit("&");
            assert("%u"@.len() != "&"@.len());
            assert("%u"@ != "&"@);
            reveal_strlit("|");
            assert("%u"@.len() != "|"@.len());
            assert("%u"@ != "|"@);
            reveal_strlit("^");
            assert("%u"@.len() != "^"@.len());
            assert("%u"@ != "^"@);
            reveal_strlit("!^");
            assert("%u"@[0] != "!^"@[0]);
            assert("%u"@ != "!^"@);
            reveal_strlit("minu");
            assert("%u"@.len() != "minu"@.len());
            assert("%u"@ != "minu"@);
            reveal_strlit("maxu");
            assert("%u"@.len() != "maxu"@.len());
            assert("%u"@ != "maxu"@);
            reveal_strlit("/u");
            assert("%u"@[0] != "/u"@[0]);
            assert("%u"@ != "/u"@);
            assert(sp_parse_binop(op_text(op)) == Ok::<BinaryOperator, ParseErrorModel>(op));
        },
        BinaryOperator::Rol => {
            reveal_strlit("rol");
            reveal_strlit("+");
            assert("rol"@.len() != "+"@.len());
            assert("rol"@ != "+"@);
            reveal_strlit("-");
            assert("rol"@.len() != "-"@.len());
            assert("rol"@ != "-"@);
            reveal_strlit("-r");
            assert("rol"@.len() != "-r"@.len());
            assert("rol"@ != "-r"@);
            reveal_strlit("*");
            assert("rol"@.len() != "*"@.len());
            assert("rol"@ != "*"@);
            reveal_strlit("/");
            assert("rol"@.len() != "/"@.len());
            assert("rol"@ != "/"@);
            reveal_strlit("%");
            assert("rol"@.len() != "%"@.len());
            assert("rol"@ != "%"@);
            reveal_strlit("min");
            assert("rol"@[0] != "min"@[0]);
            assert("rol"@ != "min"@);
            reveal_strlit("max");
            assert("rol"@[0] != "max"@[0]);
            assert("rol"@ != "max"@);
            reveal_strlit("+f");
            assert("rol"@.len() != "+f"@.len());
            assert("rol"@ != "+f"@);
            reveal_strlit("-f");
            assert("rol"@.len() != "-f"@.len());
            assert("rol"@ != "-f"@);
            reveal_strlit("-rf");
            assert("rol"@[0] != "-rf"@[0]);
            assert("rol"@ != "-rf"@);
            reveal_strlit("*f");
            assert("rol"@.len() != "*f"@.len());
            assert("rol"@ != "*f"@);
            reveal_strlit("/f");
            assert("rol"@.len() != "/f"@.len());
            assert("rol"@ != "/f"@);
            reveal_strlit("%f");
            assert("rol"@.len() != "%f"@.len());
            assert("rol"@ != "%f"@);
            reveal_strlit("minf");
            assert("rol"@.len() != "minf"@.len());
            assert("rol"@ != "minf"@);
            reveal_strlit("maxf");
            assert("rol"@.len() != "maxf"@.len());
            assert("rol"@ != "maxf"@);
            reveal_strlit("&");
            assert("rol"@.len() != "&"@.len());
            assert("rol"@ != "&"@);
            reveal_strlit("|");
            assert("rol"@.len() != "|"@.len());
            assert("rol"@ != "|"@);
            reveal_strlit("^");
            assert("rol"@.len() != "^"@.len());
            assert("rol"@ != "^"@);
            reveal_strlit("!^");
            assert("rol"@.len() != "!^"@.len());
            assert("rol"@ != "!^"@);
            reveal_strlit("minu");
            assert("rol"@.len() != "minu"@.len());
            assert("rol"@ != "minu"@);
            reveal_strlit("maxu");
            assert("rol"@.len() != "maxu"@.len());
            assert("rol"@ != "maxu"@);
            reveal_strlit("/u");
            assert("rol"@.len() != "/u"@.len());
            assert("rol"@ != "/u"@);
            reveal_strlit("%u");
            assert("rol"@.len() != "%u"@.len());
            assert("rol"@ != "%u"@);
            assert(sp_parse_binop(op_text(op)) == Ok::<BinaryOperator, ParseErrorModel>(op));
        },
        BinaryOperator::Ror => {
            reveal_strlit("ror");
            reveal_strlit("+");
            assert("ror"@.len() != "+"@.len());
            assert("ror"@ != "+"@);
            reveal_strlit("-");
            assert("ror"@.len() != "-"@.len());
            assert("ror"@ != "-"@);
            reveal_strlit("-r");
            assert("ror"@.len() != "-r"@.len());
            assert("ror"@ != "-r"@);
            reveal_strlit("*");
            assert("ror"@.len() != "*"@.len());
            assert("ror"@ != "*"@);
            reveal_strlit("/");
            assert("ror"@.len() != "/"@.len());
            assert("ror"@ != "/"@);
            reveal_strlit("%");
            assert("ror"@.len() != "%"@.len());
            assert("ror"@ != "%"@);
            reveal_strlit("min");
            assert("ror"@[0] != "min"@[0]);
            assert("ror"@ != "min"@);
            reveal_strlit("max");
            assert("ror"@[0] != "max"@[0]);
            assert("ror"@ != "max"@);
            reveal_strlit("+f");
            assert("ror"@.len() != "+f"@.len());
            assert("ror"@ != "+f"@);
            reveal_strlit("-f");
            assert("ror"@.len() != "-f"@.len());
            assert("ror"@ != "-f"@);
            reveal_strlit("-rf");
            assert("ror"@[0] != "-rf"@[0]);
            assert("ror"@ != "-rf"@);
            reveal_strlit("*f");
            assert("ror"@.len() != "*f"@.len());
            assert("ror"@ != "*f"@);
            reveal_strlit("/f");
            assert("ror"@.len() != "/f"@.len());
            assert("ror"@ != "/f"@);
            reveal_strlit("%f");
            assert("ror"@.len() != "%f"@.len());
            assert("ror"@ != "%f"@);
            reveal_strlit("minf");
            assert("ror"@.len() != "minf"@.len());
            assert("ror"@ != "minf"@);
            reveal_strlit("maxf");
            assert("ror"@.len() != "maxf"@.len());
            assert("ror"@ != "maxf"@);
            reveal_strlit("&");
            assert("ror"@.len() != "&"@.len());
            assert("ror"@ != "&"@);
            reveal_strlit("|");
            assert("ror"@.len() != "|"@.len());
            assert("ror"@ != "|"@);
            reveal_strlit("^");
            assert("ror"@.len() != "^"@.len());
            assert("ror"@ != "^"@);
            reveal_strlit("!^");
            assert("ror"@.len() != "!^"@.len());
            assert("ror"@ != "!^"@);
            reveal_strlit("minu");
            assert("ror"@.len() != "minu"@.len());
            assert("ror"@ != "minu"@);
            reveal_strlit("maxu");
            assert("ror"@.len() != "maxu"@.len());
            assert("ror"@ != "maxu"@);
            reveal_strlit("/u");
            assert("ror"@.len() != "/u"@.len());
            assert("ror"@ != "/u"@);
            reveal_strlit("%u");
            assert("ror"@.len() != "%u"@.len());
            assert("ror"@ != "%u"@);
            reveal_strlit("rol");
            assert("ror"@[2] != "rol"@[2]);
            assert("ror"@ != "rol"@);
            assert(sp_parse_binop(op_text(op)) == Ok::<BinaryOperator, ParseErrorModel>(op));
        },
        BinaryOperator::Lsl => {
            reveal_strlit("<<");
            reveal_strlit("+");
            assert("<<"@.len() != "+"@.len());
            assert("<<"@ != "+"@);
            reveal_strlit("-");
            assert("<<"@.len() != "-"@.len());
            assert("<<"@ != "-"@);
            reveal_strlit("-r");
            assert("<<"@[0] != "-r"@[0]);
            assert("<<"@ != "-r"@);
            reveal_strlit("*");
            assert("<<"@.len() != "*"@.len());
            assert("<<"@ != "*"@);
            reveal_strlit("/");
            assert("<<"@.len() != "/"@.len());
            assert("<<"@ != "/"@);
            reveal_strlit("%");
            assert("<<"@.len() != "%"@.len());
            assert("<<"@ != "%"@);
            reveal_strlit("min");
            assert("<<"@.len() != "min"@.len());
            assert("<<"@ != "min"@);
            reveal_strlit("max");
            assert("<<"@.len() != "max"@.len());
            assert("<<"@ != "max"@);
            reveal_strlit("+f");
            assert("<<"@[0] != "+f"@[0]);
            assert("<<"@ != "+f"@);
            reveal_strlit("-f");
            assert("<<"@[0] != "-f"@[0]);
            assert("<<"@ != "-f"@);
            reveal_strlit("-rf");
            assert("<<"@.len() != "-rf"@.len());
            assert("<<"@ != "-rf"@);
            reveal_strlit("*f");
            assert("<<"@[0] != "*f"@[0]);
            assert("<<"@ != "*f"@);
            reveal_strlit("/f");
            assert("<<"@[0] != "/f"@[0]);
            assert("<<"@ != "/f"@);
            reveal_strlit("%f");
            assert("<<"@[0] != "%f"@[0]);
            assert("<<"@ != "%f"@);
            reveal_strlit("minf");
            assert("<<"@.len() != "minf"@.len());
            assert("<<"@ != "minf"@);
            reveal_strlit("maxf");
            assert("<<"@.len() != "maxf"@.len());
            assert("<<"@ != "maxf"@);
            reveal_strlit("&");
            assert("<<"@.len() != "&"@.len());
            assert("<<"@ != "&"@);
            reveal_strlit("|");
            assert("<<"@.len() != "|"@.len());
            assert("<<"@ != "|"@);
            reveal_strlit("^");
            assert("<<"@.len() != "^"@.len());
            assert("<<"@ != "^"@);
            reveal_strlit("!^");
            assert("<<"@[0] != "!^"@[0]);
            assert("<<"@ != "!^"@);
            reveal_strlit("minu");
            assert("<<"@.len() != "minu"@.len());
            assert("<<"@ != "minu"@);
            reveal_strlit("maxu");
            assert("<<"@.len() != "maxu"@.len());
            assert("<<"@ != "maxu"@);
            reveal_strlit("/u");
            assert("<<"@[0] != "/u"@[0]);
            assert("<<"@ != "/u"@);
            reveal_strlit("%u");
            assert("<<"@[0] != "%u"@[0]);
            assert("<<"@ != "%u"@);
            reveal_strlit("rol");
            assert("<<"@.len() != "rol"@.len());
            assert("<<"@ != "rol"@);
            reveal_strlit("ror");
            assert("<<"@.len() != "ror"@.len());
            assert("<<"@ != "ror"@);
            assert(sp_parse_binop(op_text(op)) == Ok::<BinaryOperator, ParseErrorModel>(op));
        },
        BinaryOperator::Lsr => {
            reveal_strlit(">>");
            reveal_strlit("+");
            assert(">>"@.len() != "+"@.len());
            assert(">>"@ != "+"@);
            reveal_strlit("-");
            assert(">>"@.len() != "-"@.len());
            assert(">>"@ != "-"@);
            reveal_strlit("-r");
            assert(">>"@[0] != "-r"@[0]);
            assert(">>"@ != "-r"@);
            reveal_strlit("*");
            assert(">>"@.len() != "*"@.len());
            assert(">>"@ != "*"@);
            reveal_strlit("/");
            assert(">>"@.len() != "/"@.len());
            assert(">>"@ != "/"@);
            reveal_strlit("%");
            assert(">>"@.len() != "%"@.len());
            assert(">>"@ != "%"@);
            reveal_strlit("min");
            assert(">>"@.len() != "min"@.len());
            assert(">>"@ != "min"@);
            reveal_strlit("max");
            assert(">>"@.len() != "max"@.len());
            assert(">>"@ != "max"@);
            reveal_strlit("+f");
            assert(">>"@[0] != "+f"@[0]);
            assert(">>"@ != "+f"@);
            reveal_strlit("-f");
            assert(">>"@[0] != "-f"@[0]);
            assert(">>"@ != "-f"@);
            reveal_strlit("-rf");
            assert(">>"@.len() != "-rf"@.len());
            assert(">>"@ != "-rf"@);
            reveal_strlit("*f");
            assert(">>"@[0] != "*f"@[0]);
            assert(">>"@ != "*f"@);
            reveal_strlit("/f");
            assert(">>"@[0] != "/f"@[0]);
            assert(">>"@ != "/f"@);
            reveal_strlit("%f");
            assert(">>"@[0] != "%f"@[0]);
            assert(">>"@ != "%f"@);
            reveal_strlit("minf");
            assert(">>"@.len() != "minf"@.len());
            assert(">>"@ != "minf"@);
            reveal_strlit("maxf");
            assert(">>"@.len() != "maxf"@.len());
            assert(">>"@ != "maxf"@);
            reveal_strlit("&");
            assert(">>"@.len() != "&"@.len());
            assert(">>"@ != "&"@);
            reveal_strlit("|");
            assert(">>"@.len() != "|"@.len());
            assert(">>"@ != "|"@);
            reveal_strlit("^");
            assert(">>"@.len() != "^"@.len());
            assert(">>"@ != "^"@);
            reveal_strlit("!^");
            assert(">>"@[0] != "!^"@[0]);
            assert(">>"@ != "!^"@);
            reveal_strlit("minu");
            assert(">>"@.len() != "minu"@.len());
            assert(">>"@ != "minu"@);
            reveal_strlit("maxu");
            assert(">>"@.len() != "maxu"@.len());
            assert(">>"@ != "maxu"@);
            reveal_strlit("/u");
            assert(">>"@[0] != "/u"@[0]);
            assert(">>"@ != "/u"@);
            reveal_strlit("%u");
            assert(">>"@[0] != "%u"@[0]);
            assert(">>"@ != "%u"@);
            reveal_strlit("rol");
            assert(">>"@.len() != "rol"@.len());
            assert(">>"@ != "rol"@);
            reveal_strlit("ror");
            assert(">>"@.len() != "ror"@.len());
            assert(">>"@ != "ror"@);
            reveal_strlit("<<");
            assert(">>"@[0] != "<<"@[0]);
            assert(">>"@ != "<<"@);
            assert(sp_parse_binop(op_text(op)) == Ok::<BinaryOperator, ParseErrorModel>(op));
        },
        BinaryOperator::Asr => {
            reveal_strlit(">>>");
            reveal_strlit("+");
            assert(">>>"@.len() != "+"@.len());
            assert(">>>"@ != "+"@);
            reveal_strlit("-");
            assert(">>>"@.len() != "-"@.len());
            assert(">>>"@ != "-"@);
            reveal_strlit("-r");
            assert(">>>"@.len() != "-r"@.len());
            assert(">>>"@ != "-r"@);
            reveal_strlit("*");
            assert(">>>"@.len() != "*"@.len());
            assert(">>>"@ != "*"@);
            reveal_strlit("/");
            assert(">>>"@.len() != "/"@.len());
            assert(">>>"@ != "/"@);
            reveal_strlit("%");
            assert(">>>"@.len() != "%"@.len());
            assert(">>>"@ != "%"@);
            reveal_strlit("min");
            assert(">>>"@[0] != "min"@[0]);
            assert(">>>"@ != "min"@);
            reveal_strlit("max");
            assert(">>>"@[0] != "max"@[0]);
            assert(">>>"@ != "max"@);
            reveal_strlit("+f");
            assert(">>>"@.len() != "+f"@.len());
            assert(">>>"@ != "+f"@);
            reveal_strlit("-f");
            assert(">>>"@.len() != "-f"@.len());
            assert(">>>"@ != "-f"@);
            reveal_strlit("-rf");
            assert(">>>"@[0] != "-rf"@[0]);
            assert(">>>"@ != "-rf"@);
            reveal_strlit("*f");
            assert(">>>"@.len() != "*f"@.len());
            assert(">>>"@ != "*f"@);
            reveal_strlit("/f");
            assert(">>>"@.len() != "/f"@.len());
            assert(">>>"@ != "/f"@);
            reveal_strlit("%f");
            assert(">>>"@.len() != "%f"@.len());
            assert(">>>"@ != "%f"@);
            reveal_strlit("minf");
            assert(">>>"@.len() != "minf"@.len());
            assert(">>>"@ != "minf"@);
            reveal_strlit("maxf");
            assert(">>>"@.len() != "maxf"@.len());
            assert(">>>"@ != "maxf"@);
            reveal_strlit("&");
            assert(">>>"@.len() != "&"@.len());
            assert(">>>"@ != "&"@);
            reveal_strlit("|");
            assert(">>>"@.len() != "|"@.len());
            assert(">>>"@ != "|"@);
            reveal_strlit("^");
            assert(">>>"@.len() != "^"@.len());
            assert(">>>"@ != "^"@);
            reveal_strlit("!^");
            assert(">>>"@.len() != "!^"@.len());
            assert(">>>"@ != "!^"@);
            reveal_strlit("minu");
            assert(">>>"@.len() != "minu"@.len());
            assert(">>>"@ != "minu"@);
            reveal_strlit("maxu");
            assert(">>>"@.len() != "maxu"@.len());
            assert(">>>"@ != "maxu"@);
            reveal_strlit("/u");
            assert(">>>"@.len() != "/u"@.len());
            assert(">>>"@ != "/u"@);
            reveal_strlit("%u");
            assert(">>>"@.len() != "%u"@.len());
            assert(">>>"@ != "%u"@);
            reveal_strlit("rol");
            assert(">>>"@[0] != "rol"@[0]);
            assert(">>>"@ != "rol"@);
            reveal_strlit("ror");
            assert(">>>"@[0] != "ror"@[0]);
            assert(">>>"@ != "ror"@);
            reveal_strlit("<<");
            assert(">>>"@.len() != "<<"@.len());
            assert(">>>"@ != "<<"@);
            reveal_strlit(">>");
            assert(">>>"@.len() != ">>"@.len());
            assert(">>>"@ != ">>"@);
            assert(sp_parse_binop(op_text(op)) == Ok::<BinaryOperator, ParseErrorModel>(op));
        },
        BinaryOperator::Fpintexp => {
            reveal_strlit("<<f");
            reveal_strlit("+");
            assert("<<f"@.len() != "+"@.len());
            assert("<<f"@ != "+"@);
            reveal_strlit("-");
            assert("<<f"@.len() != "-"@.len());
            assert("<<f"@ != "-"@);
            reveal_strlit("-r");
            assert("<<f"@.len() != "-r"@.len());
            assert("<<f"@ != "-r"@);
            reveal_strlit("*");
            assert("<<f"@.len() != "*"@.len());
            assert("<<f"@ != "*"@);
            reveal_strlit("/");
            assert("<<f"@.len() != "/"@.len());
            assert("<<f"@ != "/"@);
            reveal_strlit("%");
            assert("<<f"@.len() != "%"@.len());
            assert("<<f"@ != "%"@);
            reveal_strlit("min");
            assert("<<f"@[0] != "min"@[0]);
            assert("<<f"@ != "min"@);
            reveal_strlit("max");
            assert("<<f"@[0] != "max"@[0]);
            assert("<<f"@ != "max"@);
            reveal_strlit("+f");
            assert("<<f"@.len() != "+f"@.len());
            assert("<<f"@ != "+f"@);
            reveal_strlit("-f");
            assert("<<f"@.len() != "-f"@.len());
            assert("<<f"@ != "-f"@);
            reveal_strlit("-rf");
            assert("<<f"@[0] != "-rf"@[0]);
            assert("<<f"@ != "-rf"@);
            reveal_strlit("*f");
            assert("<<f"@.len() != "*f"@.len());
            assert("<<f"@ != "*f"@);
            reveal_strlit("/f");
            assert("<<f"@.len() != "/f"@.len());
            assert("<<f"@ != "/f"@);
            reveal_strlit("%f");
            assert("<<f"@.len() != "%f"@.len());
            assert("<<f"@ != "%f"@);
            reveal_strlit("minf");
            assert("<<f"@.len() != "minf"@.len());
            assert("<<f"@ != "minf"@);
            reveal_strlit("maxf");
            assert("<<f"@.len() != "maxf"@.len());
            assert("<<f"@ != "maxf"@);
            reveal_strlit("&");
            assert("<<f"@.len() != "&"@.len());
            assert("<<f"@ != "&"@);
            reveal_strlit("|");
            assert("<<f"@.len() != "|"@.len());
            assert("<<f"@ != "|"@);
            reveal_strlit("^");
            assert("<<f"@.len() != "^"@.len());
            assert("<<f"@ != "^"@);
            reveal_strlit("!^");
            assert("<<f"@.len() != "!^"@.len());
            assert("<<f"@ != "!^"@);
            reveal_strlit("minu");
            assert("<<f"@.len() != "minu"@.len());
            assert("<<f"@ != "minu"@);
            reveal_strlit("maxu");
            assert("<<f"@.len() != "maxu"@.len());
            assert("<<f"@ != "maxu"@);
            reveal_strlit("/u");
            assert("<<f"@.len() != "/u"@.len());
            assert("<<f"@ != "/u"@);
            reveal_strlit("%u");
            assert("<<f"@.len() != "%u"@.len());
            assert("<<f"@ != "%u"@);
            reveal_strlit("rol");
            assert("<<f"@[0] != "rol"@[0]);
            assert("<<f"@ != "rol"@);
            reveal_strlit("ror");
            assert("<<f"@[0] != "ror"@[0]);
            assert("<<f"@ != "ror"@);
            reveal_strlit("<<");
            assert("<<f"@.len() != "<<"@.len());
            assert("<<f"@ != "<<"@);
            reveal_strlit(">>");
            assert("<<f"@.len() != ">>"@.len());
            assert("<<f"@ != ">>"@);
            reveal_strlit(">>>");
            assert("<<f"@[0] != ">>>"@[0]);
            assert("<<f"@ != ">>>"@);
            assert(sp_parse_binop(op_text(op)) == Ok::<BinaryOperator, ParseErrorModel>(op));
        },
        BinaryOperator::Nop => {},
    }
}

/// Every condition's symbol parses back to that condition.
pub proof fn lemma_condition_text_parses(c: Condition)
    ensures
        sp_parse_condition(cond_text(c)) == Ok::<Condition, ParseErrorModel>(c),
{
    match c {
        Condition::Eq => {
            reveal_strlit("==");
            assert(sp_parse_condition(cond_text(c)) == Ok::<Condition, ParseErrorModel>(c));
        },
        Condition::NEq => {
            reveal_strlit("!=");
            reveal_strlit("==");
            assert("!="@[0] != "=="@[0]);
            assert("!="@ != "=="@);
            assert(sp_parse_condition(cond_text(c)) == Ok::<Condition, ParseErrorModel>(c));
        },
        Condition::Gt => {
            reveal_strlit(">");
            reveal_strlit("==");
            assert(">"@.len() != "=="@.len());
            assert(">"@ != "=="@);
            reveal_strlit("!=");
            assert(">"@.len() != "!="@.len());
            assert(">"@ != "!="@);
            assert(sp_parse_condition(cond_text(c)) == Ok::<Condition, ParseErrorModel>(c));
        },
        Condition::NGt => {
            reveal_strlit("<=");
            reveal_strlit("==");
            assert("<="@[0] != "=="@[0]);
            assert("<="@ != "=="@);
            reveal_strlit("!=");
            assert("<="@[0] != "!="@[0]);
            assert("<="@ != "!="@);
            reveal_strlit(">");
            assert("<="@.len() != ">"@.len());
            assert("<="@ != ">"@);
            assert(sp_parse_condition(cond_text(c)) == Ok::<Condition, ParseErrorModel>(c));
        },
        Condition::GtU => {
            reveal_strlit(">u");
            reveal_strlit("==");
            assert(">u"@[0] != "=="@[0]);
            assert(">u"@ != "=="@);
            reveal_strlit("!=");
            assert(">u"@[0] != "!="@[0]);
            assert(">u"@ != "!="@);
            reveal_strlit(">");
            assert(">u"@.len() != ">"@.len());
            assert(">u"@ != ">"@);
            reveal_strlit("<=");
            assert(">u"@[0] != "<="@[0]);
            assert(">u"@ != "<="@);
            assert(sp_parse_condition(cond_text(c)) == Ok::<Condition, ParseErrorModel>(c));
        },
        Condition::NGtU => {
            reveal_strlit("<=u");
            reveal_strlit("==");
            assert("<=u"@.len() != "=="@.len());
            assert("<=u"@ != "=="@);
            reveal_strlit("!=");
            assert("<=u"@.len() != "!="@.len());
            assert("<=u"@ != "!="@);
            reveal_strlit(">");
            assert("<=u"@.len() != ">"@.len());
            assert("<=u"@ != ">"@);
            reveal_strlit("<=");
            assert("<=u"@.len() != "<="@.len());
            assert("<=u"@ != "<="@);
            reveal_strlit(">u");
            assert("<=u"@.len() != ">u"@.len());
            assert("<=u"@ != ">u"@);
            assert(sp_parse_condition(cond_text(c)) == Ok::<Condition, ParseErrorModel>(c));
        },
        Condition::Mask => {
            reveal_strlit("&");
            reveal_strlit("==");
            assert("&"@.len() != "=="@.len());
            assert("&"@ != "=="@);
            reveal_strlit("!=");
            assert("&"@.len() != "!="@.len());
            assert("&"@ != "!="@);
            reveal_strlit(">");
            assert("&"@[0] != ">"@[0]);
            assert("&"@ != ">"@);
            reveal_strlit("<=");
            assert("&"@.len() != "<="@.len());
            assert("&"@ != "<="@);
            reveal_strlit(">u");
            assert("&"@.len() != ">u"@.len());
            assert("&"@ != ">u"@);
            reveal_strlit("<=u");
            assert("&"@.len() != "<=u"@.len());
            assert("&"@ != "<=u"@);
            assert(sp_parse_condition(cond_text(c)) == Ok::<Condition, ParseErrorModel>(c));
        },
        Condition::NMask => {
            reveal_strlit("!&");
            reveal_strlit("==");
            assert("!&"@[0] != "=="@[0]);
            assert("!&"@ != "=="@);
            reveal_strlit("!=");
            assert("!&"@[1] != "!="@[1]);
            assert("!&"@ != "!="@);
            reveal_strlit(">");
            assert("!&"@.len() != ">"@.len());
            assert("!&"@ != ">"@);
            reveal_strlit("<=");
            assert("!&"@[0] != "<="@[0]);
            assert("!&"@ != "<="@);
            reveal_strlit(">u");
            assert("!&"@[0] != ">u"@[0]);
            assert("!&"@ != ">u"@);
            reveal_strlit("<=u");
            assert("!&"@.len() != "<=u"@.len());
            assert("!&"@ != "<=u"@);
            reveal_strlit("&");
            assert("!&"@.len() != "&"@.len());
            assert("!&"@ != "&"@);
            assert(sp_parse_condition(cond_text(c)) == Ok::<Condition, ParseErrorModel>(c));
        },
        Condition::EqF => {
            reveal_strlit("==f");
            reveal_strlit("==");
            assert("==f"@.len() != "=="@.len());
            assert("==f"@ != "=="@);
            reveal_strlit("!=");
            assert("==f"@.len() != "!="@.len());
            assert("==f"@ != "!="@);
            reveal_strlit(">");
            assert("==f"@.len() != ">"@.len());
            assert("==f"@ != ">"@);
            reveal_strlit("<=");
            assert("==f"@.len() != "<="@.len());
            assert("==f"@ != "<="@);
            reveal_strlit(">u");
            assert("==f"@.len() != ">u"@.len());
            assert("==f"@ != ">u"@);
            reveal_strlit("<=u");
            assert("==f"@[0] != "<=u"@[0]);
            assert("==f"@ != "<=u"@);
            reveal_strlit("&");
            assert("==f"@.len() != "&"@.len());
            assert("==f"@ != "&"@);
            reveal_strlit("!&");
            assert("==f"@.len() != "!&"@.len());
            assert("==f"@ != "!&"@);
            assert(sp_parse_condition(cond_text(c)) == Ok::<Condition, ParseErrorModel>(c));
        },
        Condition::NEqF => {
            reveal_strlit("!=f");
            reveal_strlit("==");
            assert("!=f"@.len() != "=="@.len());
            assert("!=f"@ != "=="@);
            reveal_strlit("!=");
            assert("!=f"@.len() != "!="@.len());
            assert("!=f"@ != "!="@);
            reveal_strlit(">");
            assert("!=f"@.len() != ">"@.len());
            assert("!=f"@ != ">"@);
            reveal_strlit("<=");
            assert("!=f"@.len() != "<="@.len());
            assert("!=f"@ != "<="@);
            reveal_strlit(">u");
            assert("!=f"@.len() != ">u"@.len());
            assert("!=f"@ != ">u"@);
            reveal_strlit("<=u");
            assert("!=f"@[0] != "<=u"@[0]);
            assert("!=f"@ != "<=u"@);
            reveal_strlit("&");
            assert("!=f"@.len() != "&"@.len());
            assert("!=f"@ != "&"@);
            reveal_strlit("!&");
            assert("!=f"@.len() != "!&"@.len());
            assert("!=f"@ != "!&"@);
            reveal_strlit("==f");
            assert("!=f"@[0] != "==f"@[0]);
            assert("!=f"@ != "==f"@);
            assert(sp_parse_condition(cond_text(c)) == Ok::<Condition, ParseErrorModel>(c));
        },
        Condition::GtF => {
            reveal_strlit(">f");
            reveal_strlit("==");
            assert(">f"@[0] != "=="@[0]);
            assert(">f"@ != "=="@);
            reveal_strlit("!=");
            assert(">f"@[0] != "!="@[0]);
            assert(">f"@ != "!="@);
            reveal_strlit(">");
            assert(">f"@.len() != ">"@.len());
            assert(">f"@ != ">"@);
            reveal_strlit("<=");
            assert(">f"@[0] != "<="@[0]);
            assert(">f"@ != "<="@);
            reveal_strlit(">u");
            assert(">f"@[1] != ">u"@[1]);
            assert(">f"@ != ">u"@);
            reveal_strlit("<=u");
            assert(">f"@.len() != "<=u"@.len());
            assert(">f"@ != "<=u"@);
            reveal_strlit("&");
            assert(">f"@.len() != "&"@.len());
            assert(">f"@ != "&"@);
            reveal_strlit("!&");
            assert(">f"@[0] != "!&"@[0]);
            assert(">f"@ != "!&"@);
            reveal_strlit("==f");
            assert(">f"@.len() != "==f"@.len());
            assert(">f"@ != "==f"@);
            reveal_strlit("!=f");
            assert(">f"@.len() != "!=f"@.len());
            assert(">f"@ != "!=f"@);
            assert(sp_parse_condition(cond_text(c)) == Ok::<Condition, ParseErrorModel>(c));
        },
        Condition::NGtF => {
            reveal_strlit("<=f");
            reveal_strlit("==");
            assert("<=f"@.len() != "=="@.len());
            assert("<=f"@ != "=="@);
            reveal_strlit("!=");
            assert("<=f"@.len() != "!="@.len());
            assert("<=f"@ != "!="@);
            reveal_strlit(">");
            assert("<=f"@.len() != ">"@.len());
            assert("<=f"@ != ">"@);
            reveal_strlit("<=");
            assert("<=f"@.len() != "<="@.len());
            assert("<=f"@ != "<="@);
            reveal_strlit(">u");
            assert("<=f"@.len() != ">u"@.len());
            assert("<=f"@ != ">u"@);
            reveal_strlit("<=u");
            assert("<=f"@[2] != "<=u"@[2]);
            assert("<=f"@ != "<=u"@);
            reveal_strlit("&");
            assert("<=f"@.len() != "&"@.len());
            assert("<=f"@ != "&"@);
            reveal_strlit("!&");
            assert("<=f"@.len() != "!&"@.len());
            assert("<=f"@ != "!&"@);
            reveal_strlit("==f");
            assert("<=f"@[0] != "==f"@[0]);
            assert("<=f"@ != "==f"@);
            reveal_strlit("!=f");
            assert("<=f"@[0] != "!=f"@[0]);
            assert("<=f"@ != "!=f"@);
            reveal_strlit(">f");
            assert("<=f"@.len() != ">f"@.len());
            assert("<=f"@ != ">f"@);
            assert(sp_parse_condition(cond_text(c)) == Ok::<Condition, ParseErrorModel>(c));
        },
        Condition::Par => {
            reveal_strlit("p");
            reveal_strlit("==");
            assert("p"@.len() != "=="@.len());
            assert("p"@ != "=="@);
            reveal_strlit("!=");
            assert("p"@.len() != "!="@.len());
            assert("p"@ != "!="@);
            reveal_strlit(">");
            assert("p"@[0] != ">"@[0]);
            assert("p"@ != ">"@);
            reveal_strlit("<=");
            assert("p"@.len() != "<="@.len());
            assert("p"@ != "<="@);
            reveal_strlit(">u");
            assert("p"@.len() != ">u"@.len());
            assert("p"@ != ">u"@);
            reveal_strlit("<=u");
            assert("p"@.len() != "<=u"@.len());
            assert("p"@ != "<=u"@);
            reveal_strlit("&");
            assert("p"@[0] != "&"@[0]);
            assert("p"@ != "&"@);
            reveal_strlit("!&");
            assert("p"@.len() != "!&"@.len());
            assert("p"@ != "!&"@);
            reveal_strlit("==f");
            assert("p"@.len() != "==f"@.len());
            assert("p"@ != "==f"@);
            reveal_strlit("!=f");
            assert("p"@.len() != "!=f"@.len());
            assert("p"@ != "!=f"@);
            reveal_strlit(">f");
            assert("p"@.len() != ">f"@.len());
            assert("p"@ != ">f"@);
            reveal_strlit("<=f");
            assert("p"@.len() != "<=f"@.len());
            assert("p"@ != "<=f"@);
            assert(sp_parse_condition(cond_text(c)) == Ok::<Condition, ParseErrorModel>(c));
        },
        Condition::NPar => {
            reveal_strlit("!p");
            reveal_strlit("==");
            assert("!p"@[0] != "=="@[0]);
            assert("!p"@ != "=="@);
            reveal_strlit("!=");
            assert("!p"@[1] != "!="@[1]);
            assert("!p"@ != "!="@);
            reveal_strlit(">");
            assert("!p"@.len() != ">"@.len());
            assert("!p"@ != ">"@);
            reveal_strlit("<=");
            assert("!p"@[0] != "<="@[0]);
            assert("!p"@ != "<="@);
            reveal_strlit(">u");
            assert("!p"@[0] != ">u"@[0]);
            assert("!p"@ != ">u"@);
            reveal_strlit("<=u");
            assert("!p"@.len() != "<=u"@.len());
            assert("!p"@ != "<=u"@);
            reveal_strlit("&");
            assert("!p"@.len() != "&"@.len());
            assert("!p"@ != "&"@);
            reveal_strlit("!&");
            assert("!p"@[1] != "!&"@[1]);
            assert("!p"@ != "!&"@);
            reveal_strlit("==f");
            assert("!p"@.len() != "==f"@.len());
            assert("!p"@ != "==f"@);
            reveal_strlit("!=f");
            assert("!p"@.len() != "!=f"@.len());
            assert("!p"@ != "!=f"@);
            reveal_strlit(">f");
            assert("!p"@[0] != ">f"@[0]);
            assert("!p"@ != ">f"@);
            reveal_strlit("<=f");
            assert("!p"@.len() != "<=f"@.len());
            assert("!p"@ != "<=f"@);
            reveal_strlit("p");
            assert("!p"@.len() != "p"@.len());
            assert("!p"@ != "p"@);
            assert(sp_parse_condition(cond_text(c)) == Ok::<Condition, ParseErrorModel>(c));
        },
        Condition::Even => {
            reveal_strlit("%2");
            reveal_strlit("==");
            assert("%2"@[0] != "=="@[0]);
            assert("%2"@ != "=="@);
            reveal_strlit("!=");
            assert("%2"@[0] != "!="@[0]);
            assert("%2"@ != "!="@);
            reveal_strlit(">");
            assert("%2"@.len() != ">"@.len());
            assert("%2"@ != ">"@);
            reveal_strlit("<=");
            assert("%2"@[0] != "<="@[0]);
            assert("%2"@ != "<="@);
            reveal_strlit(">u");
            assert("%2"@[0] != ">u"@[0]);
            assert("%2"@ != ">u"@);
            reveal_strlit("<=u");
            assert("%2"@.len() != "<=u"@.len());
            assert("%2"@ != "<=u"@);
            reveal_strlit("&");
            assert("%2"@.len() != "&"@.len());
            assert("%2"@ != "&"@);
            reveal_strlit("!&");
            assert("%2"@[0] != "!&"@[0]);
            assert("%2"@ != "!&"@);
            reveal_strlit("==f");
            assert("%2"@.len() != "==f"@.len());
            assert("%2"@ != "==f"@);
            reveal_strlit("!=f");
            assert("%2"@.len() != "!=f"@.len());
            assert("%2"@ != "!=f"@);
            reveal_strlit(">f");
            assert("%2"@[0] != ">f"@[0]);
            assert("%2"@ != ">f"@);
            reveal_strlit("<=f");
            assert("%2"@.len() != "<=f"@.len());
            assert("%2"@ != "<=f"@);
            reveal_strlit("p");
            assert("%2"@.len() != "p"@.len());
            assert("%2"@ != "p"@);
            reveal_strlit("!p");
            assert("%2"@[0] != "!p"@[0]);
            assert("%2"@ != "!p"@);
            assert(sp_parse_condition(cond_text(c)) == Ok::<Condition, ParseErrorModel>(c));
        },
        Condition::NEven => {
            reveal_strlit("!%2");
            reveal_strlit("==");
            assert("!%2"@.len() != "=="@.len());
            assert("!%2"@ != "=="@);
            reveal_strlit("!=");
            assert("!%2"@.len() != "!="@.len());
            assert("!%2"@ != "!="@);
            reveal_strlit(">");
            assert("!%2"@.len() != ">"@.len());
            assert("!%2"@ != ">"@);
            reveal_strlit("<=");
            assert("!%2"@.len() != "<="@.len());
            assert("!%2"@ != "<="@);
            reveal_strlit(">u");
            assert("!%2"@.len() != ">u"@.len());
            assert("!%2"@ != ">u"@);
            reveal_strlit("<=u");
            assert("!%2"@[0] != "<=u"@[0]);
            assert("!%2"@ != "<=u"@);
            reveal_strlit("&");
            assert("!%2"@.len() != "&"@.len());
            assert("!%2"@ != "&"@);
            reveal_strlit("!&");
            assert("!%2"@.len() != "!&"@.len());
            assert("!%2"@ != "!&"@);
            reveal_strlit("==f");
            assert("!%2"@[0] != "==f"@[0]);
            assert("!%2"@ != "==f"@);
            reveal_strlit("!=f");
            assert("!%2"@[1] != "!=f"@[1]);
            assert("!%2"@ != "!=f"@);
            reveal_strlit(">f");
            assert("!%2"@.len() != ">f"@.len());
            assert("!%2"@ != ">f"@);
            reveal_strlit("<=f");
            assert("!%2"@[0] != "<=f"@[0]);
            assert("!%2"@ != "<=f"@);
            reveal_strlit("p");
            assert("!%2"@.len() != "p"@.len());
            assert("!%2"@ != "p"@);
            reveal_strlit("!p");
            assert("!%2"@.len() != "!p"@.len());
            assert("!%2"@ != "!p"@);
            reveal_strlit("%2");
            assert("!%2"@.len() != "%2"@.len());
            assert("!%2"@ != "%2"@);
            assert(sp_parse_condition(cond_text(c)) == Ok::<Condition, ParseErrorModel>(c));
        },
    }
}

/// `not` before a branch's condition negates the condition and changes nothing
/// else: two branches whose text after `if` (and after `not`, for the first) is the
/// same both fail, or both parse to the same kind of branch with the same operands
/// and target, the first with the negated condition.
pub proof fn lemma_branch_not_negates(s1: Seq<char>, s2: Seq<char>)
    requires
        branch_parts(s1).0,
        !branch_parts(s2).0,
        branch_parts(s1).1 == branch_parts(s2).1,
    ensures
        sp_parse_branch(s1) is Err <==> sp_parse_branch(s2) is Err,
        sp_parse_branch(s2) matches Ok(Instruction::BrCoIm { co, lhs, rhs, val })
            ==> sp_parse_branch(s1) == Ok::<Instruction, ParseErrorModel>(
                Instruction::BrCoIm { co: sp_negate_condition(co), lhs, rhs, val }),
        sp_parse_branch(s2) matches Ok(Instruction::BrCoRg { co, lhs, rhs, dst })
            ==> sp_parse_branch(s1) == Ok::<Instruction, ParseErrorModel>(
                Instruction::BrCoRg { co: sp_negate_condition(co), lhs, rhs, dst }),
        sp_parse_branch(s2) is Ok ==> sp_parse_branch(s2)->Ok_0 is BrCoIm || sp_parse_branch(s2)->Ok_0 is BrCoRg,
{
}

/// Trimming the start leaves text that starts with a non-blank character as it is.
proof fn lemma_trim_start_keeps(p: Seq<char>, x: Seq<char>)
    requires
        p.len() > 0,
        !is_ws(p[0]),
    ensures
        trim_start(p + x) == p + x,
{
    assert((p + x)[0] == p[0]);
}

/// Trimming the end of `p + x` trims `x`, or, where `x` is all blank, `p`.
proof fn lemma_trim_end_concat(p: Seq<char>, x: Seq<char>)
    ensures
        trim_end(x).len() > 0 ==> trim_end(p + x) == p + trim_end(x),
        trim_end(x).len() == 0 ==> trim_end(p + x) == trim_end(p),
    decreases x.len(),
{
    if x.len() == 0 {
        assert(p + x =~= p);
    } else {
        assert((p + x).last() == x.last());
        assert((p + x).drop_last() =~= p + x.drop_last());
        if is_ws(x.last()) {
            lemma_trim_end_concat(p, x.drop_last());
        }
    }
}

/// Trimming the end twice is trimming it once.
proof fn lemma_trim_end_idem(y: Seq<char>)
    ensures
        trim_end(trim_end(y)) == trim_end(y),
    decreases y.len(),
{
    if y.len() > 0 && is_ws(y.last()) {
        lemma_trim_end_idem(y.drop_last());
    }
}

/// The two ends can be trimmed in either order.
proof fn lemma_trim_swap(x: Seq<char>)
    ensures
        trim_start(trim_end(x)) == trim_end(trim_start(x)),
    decreases x.len(),
{
    if x.len() > 0 {
        let x0 = seq![x[0]];
        let x1 = x.drop_first();
        assert(x =~= x0 + x1);
        lemma_trim_end_concat(x0, x1);
        assert(x0.drop_last() =~= Seq::<char>::empty());
        assert(x0.len() == 1 && x0[0] == x[0] && x0.last() == x[0]);
        if is_ws(x[0]) {
            lemma_trim_swap(x1);
            assert(trim_start(x) == trim_start(x1));
            if trim_end(x1).len() > 0 {
                let t = trim_end(x1);
                assert(trim_end(x) == x0 + t);
                assert((x0 + t)[0] == x[0]);
                assert((x0 + t).drop_first() =~= t);
                assert(trim_start(x0 + t) == trim_start(t));
            } else {
                assert(trim_end(x) == trim_end(x0));
                assert(trim_end(x0) == trim_end(x0.drop_last()));
                assert(trim_end(x0) =~= Seq::<char>::empty());
                assert(trim_start(trim_end(x1)) =~= Seq::<char>::empty());
            }
        } else {
            assert(trim_start(x) == x);
            if trim_end(x1).len() > 0 {
                lemma_trim_start_keeps(x0, trim_end(x1));
            } else {
                assert(trim_end(x) == trim_end(x0));
                assert(trim_end(x0) == x0);
                assert(x0 =~= x0 + Seq::<char>::empty());
                lemma_trim_start_keeps(x0, Seq::<char>::empty());
            }
        }
    }
}

/// Trimming text that starts with `not ` keeps the word, and what follows it
/// trims to the trimmed remainder.
proof fn lemma_not_parts(x: Seq<char>)
    requires
        trim(x).len() > 0,
    ensures
        trim("not "@ + x) == "not "@ + trim_end(x),
        trim(trim_end(x)) == trim(x),
{
    reveal_strlit("not ");
    let n = "not "@;
    lemma_trim_swap(x);
    assert(trim_end(x).len() > 0);
    lemma_trim_start_keeps(n, x);
    lemma_trim_end_concat(n, x);
    lemma_trim_swap(trim_end(x));
    lemma_trim_end_idem(trim_start(x));
}

/// The parts of `if not x`: negated, with the trimmed `x`.
proof fn lemma_if_not_parts(x: Seq<char>)
    requires
        trim(x).len() > 0,
    ensures
        branch_parts("if not "@ + x) == (true, trim(x)),
{
    reveal_strlit("if not ");
    reveal_strlit("not ");
    let s1 = "if not "@ + x;
    let n = "not "@;
    assert(s1.skip(3) =~= n + x);
    lemma_not_parts(x);
    let r = n + trim_end(x);
    assert(r.take(4) =~= n);
    assert(r.skip(4) =~= trim_end(x));
    assert(strip_prefix(r, n) == Some(trim_end(x)));
}

/// The parts of `if x` where the trimmed `x` does not start with `not `.
proof fn lemma_if_parts(x: Seq<char>)
    requires
        !starts_with(trim(x), "not "@),
    ensures
        branch_parts("if "@ + x) == (false, trim(x)),
{
    reveal_strlit("if ");
    let s2 = "if "@ + x;
    assert(s2.skip(3) =~= x);
}

/// A branch whose condition part is too short to hold ` jmp ` fails.
proof fn lemma_short_branch_fails(s: Seq<char>)
    requires
        branch_parts(s).1.len() < 5,
    ensures
        sp_parse_branch(s) is Err,
{
    reveal_strlit(" jmp ");
    assert forall|i: int| !occurs_at(branch_parts(s).1, " jmp "@, i) by {}
    lemma_find(branch_parts(s).1, " jmp "@);
}

/// The condition parts of `if not x` and `if x` for a blank `x`.
proof fn lemma_if_blank_parts(x: Seq<char>)
    requires
        trim(x).len() == 0,
    ensures
        branch_parts("if not "@ + x).1.len() < 5,
        branch_parts("if "@ + x).1.len() < 5,
{
    reveal_strlit("if not ");
    reveal_strlit("if ");
    reveal_strlit("not ");
    reveal_strlit("not");
    let n = "not "@;
    let s1 = "if not "@ + x;
    let s2 = "if "@ + x;
    assert(s1.skip(3) =~= n + x);
    assert(s2.skip(3) =~= x);
    lemma_trim_swap(x);
    if trim_end(x).len() > 0 {
        lemma_trim_end_last(x);
        lemma_trim_start_nonblank_end(trim_end(x));
    }
    assert(trim_end(x).len() == 0);
    lemma_trim_start_keeps(n, x);
    lemma_trim_end_concat(n, x);
    assert(n.drop_last() =~= "not"@);
    assert(trim_end("not"@) == "not"@);
    assert(trim(n + x).len() == 3);
    assert(trim_end(trim_start(x)).len() == 0);
}

/// A blank `x` leaves both `if not x` and `if x` without a ` jmp `: both fail.
proof fn lemma_if_blank_fails(x: Seq<char>)
    requires
        trim(x).len() == 0,
    ensures
        sp_parse_branch("if not "@ + x) is Err,
        sp_parse_branch("if "@ + x) is Err,
{
    lemma_if_blank_parts(x);
    lemma_short_branch_fails("if not "@ + x);
    lemma_short_branch_fails("if "@ + x);
}

/// What trimming the end leaves ends in a non-blank character.
proof fn lemma_trim_end_last(y: Seq<char>)
    requires
        trim_end(y).len() > 0,
    ensures
        !is_ws(trim_end(y).last()),
    decreases y.len(),
{
    if y.len() > 0 && is_ws(y.last()) {
        lemma_trim_end_last(y.drop_last());
    }
}

/// Text whose last character is not blank keeps a character after trimming its
/// start.
proof fn lemma_trim_start_nonblank_end(y: Seq<char>)
    requires
        y.len() > 0,
        !is_ws(y.last()),
    ensures
        trim_start(y).len() > 0,
    decreases y.len(),
{
    if is_ws(y[0]) {
        assert(y.len() > 1);
        assert(y.drop_first().last() == y.last());
        lemma_trim_start_nonblank_end(y.drop_first());
    }
}

/// `if not x` and `if x` parse to the same branch but for the negated condition,
/// or both fail, for every `x` whose trimmed text does not itself start with `not `.
pub proof fn lemma_if_not_negates(x: Seq<char>)
    requires
        !starts_with(trim(x), "not "@),
    ensures
        sp_parse_branch("if not "@ + x) is Err <==> sp_parse_branch("if "@ + x) is Err,
        sp_parse_branch("if "@ + x) matches Ok(Instruction::BrCoIm { co, lhs, rhs, val })
            ==> sp_parse_branch("if not "@ + x) == Ok::<Instruction, ParseErrorModel>(
                Instruction::BrCoIm { co: sp_negate_condition(co), lhs, rhs, val }),
        sp_parse_branch("if "@ + x) matches Ok(Instruction::BrCoRg { co, lhs, rhs, dst })
            ==> sp_parse_branch("if not "@ + x) == Ok::<Instruction, ParseErrorModel>(
                Instruction::BrCoRg { co: sp_negate_condition(co), lhs, rhs, dst }),
{
    if trim(x).len() == 0 {
        lemma_if_blank_fails(x);
    } else {
        lemma_if_not_parts(x);
        lemma_if_parts(x);
        lemma_branch_not_negates("if not "@ + x, "if "@ + x);
    }
}

/// A digit is no blank and no `.`.
proof fn lemma_digit_char_kind(c: char)
    requires
        digit_of(c, 16) is Some,
    ensures
        !is_ws(c),
        c != '.',
        c != '[',
        c != 'r',
        c != '+',
{
}

/// `0x` and the hex digits of a number: no blanks around it, no float, and it
/// reads back as the number.
proof fn lemma_alt_hex_reads_back(n: nat)
    requires
        n <= u64::MAX,
    ensures
        trim(alt_hex(n)) == alt_hex(n),
        !looks_float(alt_hex(n)),
        alt_hex(n).len() > 2,
        alt_hex(n)[0] == '0',
        sp_parse_int(alt_hex(n)) == Some(n as u64),
        n <= u32::MAX ==> sp_parse_operand(alt_hex(n)) == Ok::<Operand, ParseErrorModel>(Operand::Imm(n as u32)),
{
    reveal_strlit("0x");
    let h = hex_lower(n);
    let s = alt_hex(n);
    lemma_digits_of_value(n, 16, false);
    assert(s == "0x"@ + h);
    assert(s[0] == '0' && s[1] == 'x');
    lemma_trim_start_keeps("0x"@, h);
    assert(s.last() == h.last());
    assert(digit_of(h[h.len() - 1], 16) is Some);
    lemma_digit_char_kind(h.last());
    assert(trim_end(s) == s);
    assert forall|i: int| 0 <= i < s.len() implies s[i] != '.' by {
        if i >= 2 {
            assert(s[i] == h[i - 2]);
            assert(digit_of(h[i - 2], 16) is Some);
            lemma_digit_char_kind(h[i - 2]);
        }
    }
    assert(starts_with(s, "0x"@)) by {
        assert(s.take(2) =~= "0x"@);
    }
    assert(!s.contains('.'));
    assert(s.skip(2) =~= h);
    assert(strip_prefix(s, "0x"@) == Some(h));
    assert(parse_unsigned_spec(h, 16, u64::MAX as nat) == Some(n));
    assert(s != seq!['0']) by {
        assert(s.len() != 1);
    }
}

/// A line that starts with a non-blank character and ends in a number's hex text
/// is already trimmed.
proof fn lemma_trimmed_before_hex(p: Seq<char>, n: nat)
    requires
        n <= u64::MAX,
        p.len() > 0,
        !is_ws(p[0]),
    ensures
        trim(p + alt_hex(n)) == p + alt_hex(n),
{
    lemma_alt_hex_reads_back(n);
    lemma_trim_start_keeps(p, alt_hex(n));
    lemma_trim_end_concat(p, alt_hex(n));
}

/// The text printed for a data word parses back to it.
pub proof fn lemma_data_text_parses(v: u32)
    ensures
        sp_parse_instruction(instr_text(Instruction::RawData(v)))
            == Ok::<Instruction, ParseErrorModel>(Instruction::RawData(v)),
{
    reveal_strlit("DAT ");
    let p = "DAT "@;
    let s = instr_text(Instruction::RawData(v));
    assert(s == p + alt_hex(v as nat));
    lemma_alt_hex_reads_back(v as nat);
    lemma_trimmed_before_hex(p, v as nat);
    assert(starts_with(s, p)) by {
        assert(s.take(4) =~= p);
    }
    assert(s.skip(4) =~= alt_hex(v as nat));
}

/// The text printed for an unconditional jump parses back to it.
pub proof fn lemma_jump_text_parses(dst: u32)
    ensures
        sp_parse_instruction(instr_text(Instruction::BrUnconditional { dst }))
            == Ok::<Instruction, ParseErrorModel>(Instruction::BrUnconditional { dst }),
{
    reveal_strlit("jmp ");
    reveal_strlit("DAT ");
    let p = "jmp "@;
    let s = instr_text(Instruction::BrUnconditional { dst });
    assert(s == p + alt_hex(dst as nat));
    lemma_alt_hex_reads_back(dst as nat);
    lemma_trimmed_before_hex(p, dst as nat);
    assert(s[0] == 'j');
    assert(!starts_with(s, "DAT "@)) by {
        assert(s.take(4)[0] != "DAT "@[0]);
    }
    assert(keyword_instruction(s) is None) by {
        reveal_strlit("HALT");
        reveal_strlit("NOP");
        reveal_strlit("INT");
        reveal_strlit("VEC");
        reveal_strlit("WRITH");
        reveal_strlit("REATH");
        reveal_strlit("INITH");
        reveal_strlit("UMEM");
        reveal_strlit("USER");
        reveal_strlit("DEBUG");
        assert(s != "HALT"@ && s != "NOP"@ && s != "INT"@ && s != "VEC"@ && s != "WRITH"@);
        assert(s != "REATH"@ && s != "INITH"@ && s != "UMEM"@ && s != "USER"@ && s != "DEBUG"@);
    }
    assert(starts_with(s, p)) by {
        assert(s.take(4) =~= p);
    }
    assert(s.skip(4) =~= alt_hex(dst as nat));
}

/// A move from an indexed memory operand without a base keeps its index register
/// and its multiplier: `@rX[*N] -> rD` reads with index register X and multiplier
/// N, and writes register D with multiplier 1.
#[verifier::rlimit(100)]
pub proof fn lemma_move_keeps_multiplier(src_str: Seq<char>, dst_str: Seq<char>, d: u8, idx: u8, mul: u32)
    requires
        sp_parse_operand(src_str) == Ok::<Operand, ParseErrorModel>(Operand::MemRegMul { idx, mul }),
        sp_parse_operand(dst_str) == Ok::<Operand, ParseErrorModel>(Operand::Reg(d)),
        d < 16,
    ensures
        sp_parse_move(src_str, dst_str) matches Ok(Instruction::MvRg { src, dst, src_m, dst_m })
            && src == idx && src_m == mul as u8 && dst / 16 == d && dst % 16 == 0 && dst_m == 1,
{
    let db = (d as u32 * 16) as u8;
    assert(db / 16 == d && db % 16 == 0) by (bit_vector)
        requires db == (d as u32 * 16) as u8, d < 16;
}

/// A move from an indexed operand with a base keeps its registers and its
/// multiplier: `rB[rX*N] -> rD` reads with base B, index X and multiplier N.
#[verifier::rlimit(100)]
pub proof fn lemma_indexed_move_keeps_multiplier(src_str: Seq<char>, dst_str: Seq<char>, d: u8,
    base: u8, idx: u8, mul: u32)
    requires
        sp_parse_operand(src_str) == Ok::<Operand, ParseErrorModel>(Operand::RegIdx { base, idx, mul }),
        sp_parse_operand(dst_str) == Ok::<Operand, ParseErrorModel>(Operand::Reg(d)),
        d < 16,
        base < 16,
        idx < 16,
    ensures
        sp_parse_move(src_str, dst_str) matches Ok(Instruction::MvRg { src, dst, src_m, dst_m })
            && src / 16 == base && src % 16 == idx && src_m == mul as u8 && dst / 16 == d && dst % 16 == 0
            && dst_m == 1,
{
    let db = (d as u32 * 16) as u8;
    assert(db / 16 == d && db % 16 == 0) by (bit_vector)
        requires db == (d as u32 * 16) as u8, d < 16;
    let b = ((base as u32 * 16) as u8 | idx) as u8;
    assert(b / 16 == base && b % 16 == idx) by (bit_vector)
        requires b == ((base as u32 * 16) as u8 | idx) as u8, base < 16, idx < 16;
}

/// The text of a register move names its source operand, then ` -> `, then its
/// destination operand.
pub proof fn lemma_move_text(src: u8, dst: u8, src_m: u8, dst_m: u8)
    ensures
        ({
            let t = instr_text(Instruction::MvRg { src, dst, src_m, dst_m });
            let a = r_rix_text(src, src_m);
            let b = r_rix_text(dst, dst_m);
            &&& t.len() == a.len() + 4 + b.len()
            &&& t.take(a.len() as int) == a
            &&& t.subrange(a.len() as int, a.len() + 4int) == " -> "@
            &&& t.skip(a.len() + 4int) == b
        }),
{
    reveal_strlit(" -> ");
    let t = instr_text(Instruction::MvRg { src, dst, src_m, dst_m });
    let a = r_rix_text(src, src_m);
    let b = r_rix_text(dst, dst_m);
    assert(t.take(a.len() as int) =~= a);
    assert(t.subrange(a.len() as int, a.len() + 4int) =~= " -> "@);
    assert(t.skip(a.len() + 4int) =~= b);
}

/// The text of a register: `r` and one upper-case hex digit, no blank at either end.
proof fn lemma_register_text_shape(r: u8)
    requires
        0 < r < 16,
    ensures
        reg_text(r).len() == 2,
        reg_text(r)[0] == 'r',
        trim(reg_text(r)) == reg_text(r),
        strip_prefix(reg_text(r), seq!['r']) == Some(hex_upper(r as nat)),
        parse_unsigned_spec(hex_upper(r as nat), 16, 255) == Some(r as nat),
        !reg_text(r).contains('.'),
        !reg_text(r).contains('e'),
        find(reg_text(r), seq!['[']) is None,
{
    let h = hex_upper(r as nat);
    lemma_digits_of_value(r as nat, 16, true);
    assert(h == seq![digit_char(r as nat, true)]);
    let c = h[0];
    lemma_digit_char_kind(c);
    assert(c != 'e');
    let s = reg_text(r);
    reveal_strlit("r");
    assert(s == "r"@ + h);
    assert(s =~= seq!['r', c]);
    assert(trim_start(s) == s);
    assert(trim_end(s) == s);
    assert(s.take(1) =~= seq!['r']);
    assert(s.skip(1) =~= h);
    assert(h.drop_last() =~= Seq::<char>::empty());
    assert forall|j: int| !occurs_at(s, seq!['['], j) by {
        if occurs_at(s, seq!['['], j) {
            assert(s.subrange(j, j + 1)[0] == s[j]);
        }
    }
    lemma_find(s, seq!['[']);
}

/// The name the disassembler prints for a register, `r1` to `rF`, parses back to
/// that register, as a name and as an operand.
#[verifier::rlimit(100)]
pub proof fn lemma_register_text_parses(r: u8)
    requires
        0 < r < 16,
    ensures
        sp_parse_reg_name(reg_text(r)) == Ok::<u8, ParseErrorModel>(r),
        sp_parse_operand(reg_text(r)) == Ok::<Operand, ParseErrorModel>(Operand::Reg(r)),
{
    lemma_register_text_shape(r);
    assert(reg_text(r) != seq!['0']);
}

/// Every operator token has at least one character.
proof fn lemma_binop_tokens_nonempty()
    ensures
        forall|k: int| 0 <= k < binop_tokens().len() ==> (#[trigger] binop_tokens()[k]).len() > 0,
{
    reveal_strlit(">>>");
    reveal_strlit("<<f");
    reveal_strlit("-rf");
    reveal_strlit(">>");
    reveal_strlit("<<");
    reveal_strlit("!^");
    reveal_strlit("-r");
    reveal_strlit("+f");
    reveal_strlit("-f");
    reveal_strlit("*f");
    reveal_strlit("/f");
    reveal_strlit("%f");
    reveal_strlit("/u");
    reveal_strlit("%u");
    reveal_strlit("minu");
    reveal_strlit("maxu");
    reveal_strlit("minf");
    reveal_strlit("maxf");
    reveal_strlit("min");
    reveal_strlit("max");
    reveal_strlit("rol");
    reveal_strlit("ror");
    reveal_strlit("+");
    reveal_strlit("-");
    reveal_strlit("*");
    reveal_strlit("/");
    reveal_strlit("%");
    reveal_strlit("&");
    reveal_strlit("|");
    reveal_strlit("^");
}

/// No operator token starts empty text.
proof fn lemma_no_token_in_empty(tokens: Seq<Seq<char>>, k: int)
    requires
        forall|j: int| 0 <= j < tokens.len() ==> (#[trigger] tokens[j]).len() > 0,
        k >= 0,
    ensures
        first_token_split(Seq::<char>::empty(), tokens, k) is None,
    decreases tokens.len() - k,
{
    if k < tokens.len() {
        assert(tokens[k].len() > 0);
        assert(strip_prefix(Seq::<char>::empty(), tokens[k]) is None);
        lemma_no_token_in_empty(tokens, k + 1);
    }
}

/// A register's text alone holds one operand and no operator.
proof fn lemma_register_no_operator(r: u8)
    requires
        0 < r < 16,
    ensures
        sp_split_lhs(reg_text(r), binop_tokens()) is None,
{
    lemma_register_text_shape(r);
    let s = reg_text(r);
    lemma_digits_of_value(r as nat, 16, true);
    assert(s[1] == hex_upper(r as nat)[0]);
    assert(is_hex_digit(s[1]));
    assert(trim_start(s) == s);
    assert(s.take(2) =~= s);
    assert(s.skip(2) =~= Seq::<char>::empty());
    assert(trim_start(Seq::<char>::empty()) == Seq::<char>::empty());
    assert(trim(Seq::<char>::empty()) =~= Seq::<char>::empty());
    lemma_binop_tokens_nonempty();
    lemma_no_token_in_empty(binop_tokens(), 0);
}

/// The text of a move between two registers, `rA -> rB`, character by character,
/// and the parts the parser cuts it into.
proof fn lemma_register_move_text_shape(a: u8, b: u8)
    requires
        0 < a < 16,
        0 < b < 16,
    ensures
        ({
            let t = reg_text(a) + " -> "@ + reg_text(b);
            &&& trim(t) == t
            &&& !starts_with(t, "DAT "@)
            &&& keyword_instruction(t) is None
            &&& !starts_with(t, "jmp "@)
            &&& !starts_with(t, "if "@)
            &&& !contains(t, "<->"@)
            &&& rfind(t, "->"@) == Some(3int)
            &&& trim(t.take(3)) == reg_text(a)
            &&& trim(t.skip(5)) == reg_text(b)
        }),
{
    reveal_strlit(" -> ");
    reveal_strlit("->");
    reveal_strlit("<->");
    reveal_strlit("DAT ");
    reveal_strlit("jmp ");
    reveal_strlit("if ");
    lemma_register_text_shape(a);
    lemma_register_text_shape(b);
    let ra = reg_text(a);
    let rb = reg_text(b);
    let ca = ra[1];
    let cb = rb[1];
    lemma_digits_of_value(a as nat, 16, true);
    lemma_digits_of_value(b as nat, 16, true);
    assert(ca == hex_upper(a as nat)[0]);
    assert(cb == hex_upper(b as nat)[0]);
    lemma_digit_char_kind(ca);
    lemma_digit_char_kind(cb);
    let t = ra + " -> "@ + rb;
    assert(t =~= seq!['r', ca, ' ', '-', '>', ' ', 'r', cb]);
    assert(is_hex_digit(ca) && is_hex_digit(cb));
    assert(trim_start(t) == t);
    assert(trim_end(t) == t);
    assert(t.take(4)[0] != "DAT "@[0]);
    assert(t.take(4)[0] != "jmp "@[0]);
    assert(t.take(3)[0] != "if "@[0]);
    assert(keyword_instruction(t) is None) by {
        reveal_strlit("HALT");
        reveal_strlit("NOP");
        reveal_strlit("INT");
        reveal_strlit("VEC");
        reveal_strlit("WRITH");
        reveal_strlit("REATH");
        reveal_strlit("INITH");
        reveal_strlit("UMEM");
        reveal_strlit("USER");
        reveal_strlit("DEBUG");
        assert(t != "HALT"@ && t != "NOP"@ && t != "INT"@ && t != "VEC"@ && t != "WRITH"@);
        assert(t != "REATH"@ && t != "INITH"@ && t != "UMEM"@ && t != "USER"@ && t != "DEBUG"@);
    }
    assert forall|j: int| !occurs_at(t, "<->"@, j) by {
        if occurs_at(t, "<->"@, j) {
            assert(t.subrange(j, j + 3)[0] == t[j]);
        }
    }
    assert(occurs_at(t, "->"@, 3)) by {
        assert(t.subrange(3, 5) =~= "->"@);
    }
    assert forall|j: int| 3 < j implies !occurs_at(t, "->"@, j) by {
        if occurs_at(t, "->"@, j) {
            assert(t.subrange(j, j + 2)[0] == t[j]);
        }
    }
    lemma_find(t, "->"@);
    assert(t.take(3) =~= ra + seq![' ']);
    assert(trim_end(ra + seq![' ']) == trim_end(ra)) by {
        assert((ra + seq![' ']).drop_last() =~= ra);
    }
    assert(trim_start(ra + seq![' ']) == ra + seq![' ']);
    assert(t.skip(5) =~= seq![' '] + rb);
    assert(trim_start(seq![' '] + rb) == trim_start(rb)) by {
        assert((seq![' '] + rb).drop_first() =~= rb);
    }
    assert(trim_end(rb) == rb);
}

/// The text printed for a move between two registers parses back to that move:
/// `rA -> rB` is read as a move from register A to register B, not the other way.
#[verifier::rlimit(100)]
pub proof fn lemma_register_move_text_parses(a: u8, b: u8)
    requires
        0 < a < 16,
        0 < b < 16,
    ensures
        ({
            let i = Instruction::MvRg { src: (a * 16) as u8, dst: (b * 16) as u8, src_m: 1, dst_m: 1 };
            sp_parse_instruction(instr_text(i)) == Ok::<Instruction, ParseErrorModel>(i)
        }),
{
    let i = Instruction::MvRg { src: (a * 16) as u8, dst: (b * 16) as u8, src_m: 1, dst_m: 1 };
    reveal_strlit("r");
    assert(((a * 16) as u8) / 16 == a && ((a * 16) as u8) % 16 == 0);
    assert(((b * 16) as u8) / 16 == b && ((b * 16) as u8) % 16 == 0);
    assert(r_rix_text((a * 16) as u8, 1) == reg_text(a));
    assert(r_rix_text((b * 16) as u8, 1) == reg_text(b));
    let t = reg_text(a) + " -> "@ + reg_text(b);
    assert(instr_text(i) == t);
    lemma_register_move_text_shape(a, b);
    lemma_register_no_operator(a);
    lemma_register_text_parses(a);
    lemma_register_text_parses(b);
    assert(((a as u32 * 16) as u8) == (a * 16) as u8);
    assert(((b as u32 * 16) as u8) == (b * 16) as u8);
}

/// A decimal digit is no blank, bracket, `e`, `.` or `+`.
proof fn lemma_dec_char_kind(c: char)
    requires
        digit_of(c, 10) is Some,
    ensures
        !is_ws(c),
        c != '.',
        c != 'e',
        c != '[',
        c != ']',
        c != '+',
{
}

/// An indexed memory operand written `@rX[*N]` parses to index register X with
/// multiplier N.
#[verifier::rlimit(100)]
pub proof fn lemma_memory_operand_text_parses(x: u8, n: u32)
    requires
        0 < x < 16,
    ensures
        sp_parse_operand(seq!['@'] + reg_text(x) + seq!['[', '*'] + dec(n as nat) + seq![']'])
            == Ok::<Operand, ParseErrorModel>(Operand::MemRegMul { idx: x, mul: n }),
{
    lemma_register_text_shape(x);
    lemma_digits_of_value(n as nat, 10, false);
    let rx = reg_text(x);
    let d = dec(n as nat);
    let s = seq!['@'] + rx + seq!['[', '*'] + d + seq![']'];
    let rest = rx + seq!['[', '*'] + d + seq![']'];
    assert(s.drop_first() =~= rest);
    assert forall|k: int| 0 <= k < d.len() implies !is_ws(#[trigger] d[k]) && d[k] != '.' && d[k] != 'e'
        && d[k] != '[' && d[k] != ']' by {
        assert(digit_of(d[k], 10) is Some);
        lemma_dec_char_kind(d[k]);
    }
    lemma_digits_of_value(x as nat, 16, true);
    assert(rx[1] == hex_upper(x as nat)[0]);
    lemma_digit_char_kind(rx[1]);
    assert(s[0] == '@' && s[1] == 'r' && s[2] == rx[1] && s[3] == '[' && s[4] == '*');
    assert(s.last() == ']');
    assert(trim_start(s) == s);
    assert(trim_end(s) == s);
    assert(s != seq!['0']) by { assert(s.len() != 1); }
    assert forall|k: int| 0 <= k < s.len() implies s[k] != '.' && s[k] != 'e' by {
        if 5 <= k < s.len() - 1 {
            assert(s[k] == d[k - 5]);
        }
    }
    assert(!s.contains('.') && !s.contains('e'));
    // the bracket is the first one, right after the register
    assert(occurs_at(rest, seq!['['], 2)) by {
        assert(rest.subrange(2, 3) =~= seq!['[']);
    }
    assert forall|j: int| 0 <= j < 2 implies !occurs_at(rest, seq!['['], j) by {
        if occurs_at(rest, seq!['['], j) {
            assert(rest.subrange(j, j + 1)[0] == rest[j]);
        }
    }
    lemma_find(rest, seq!['[']);
    assert(rest.take(2) =~= rx);
    let after = rest.skip(3);
    assert(after =~= seq!['*'] + d + seq![']']);
    assert(after.skip(after.len() - 1) =~= seq![']']);
    assert(after.take(after.len() - 1) =~= seq!['*'] + d);
    let inner = seq!['*'] + d;
    assert(inner.take(1) =~= seq!['*']);
    assert(inner.skip(1) =~= d);
    assert(trim_start(d) == d);
    assert(trim_end(d) == d);
    assert(d[0] != '+');
}

/// The text of an operation on two operands names the left operand, the
/// operator, the right operand and, after ` -> `, the destination, in that order.
pub proof fn lemma_operation_text(op: BinaryOperator, lhs: u8, rhs: u8, dst: u8)
    ensures
        ({
            let t = instr_text(Instruction::OpRg { op, lhs, rhs, dst });
            let a = r_rix_text(lhs, 1);
            let o = op_text(op);
            let b = r_rix_text(rhs, 1);
            let d = r_rix_text(dst, 1);
            let n1: int = a.len() + 1int;
            let n2: int = n1 + o.len() + 1;
            let n3: int = n2 + b.len();
            &&& t.len() == n3 + 4 + d.len()
            &&& t.take(a.len() as int) == a
            &&& t.subrange(n1, n1 + o.len()) == o
            &&& t.subrange(n2, n3) == b
            &&& t.subrange(n3, n3 + 4) == " -> "@
            &&& t.skip(n3 + 4) == d
        }),
{
    reveal_strlit(" -> ");
    reveal_strlit(" ");
    let t = instr_text(Instruction::OpRg { op, lhs, rhs, dst });
    let a = r_rix_text(lhs, 1);
    let o = op_text(op);
    let b = r_rix_text(rhs, 1);
    let d = r_rix_text(dst, 1);
    let n1: int = a.len() + 1int;
    let n2: int = n1 + o.len() + 1;
    let n3: int = n2 + b.len();
    assert(t.take(a.len() as int) =~= a);
    assert(t.subrange(n1, n1 + o.len()) =~= o);
    assert(t.subrange(n2, n3) =~= b);
    assert(t.subrange(n3, n3 + 4) =~= " -> "@);
    assert(t.skip(n3 + 4) =~= d);
}

/// The text of a conditional branch to an immediate names, after `if `, the left
/// register, the condition and the right register, then ` jmp ` and the target.
pub proof fn lemma_branch_text(co: Condition, lhs: u8, rhs: u8, val: u32)
    ensures
        ({
            let t = instr_text(Instruction::BrCoIm { co, lhs, rhs, val });
            let a = reg_text(lhs);
            let c = cond_text(co);
            let b = reg_text(rhs);
            let n1: int = 3int + a.len() + 1;
            let n2: int = n1 + c.len() + 1;
            let n3: int = n2 + b.len();
            &&& t.len() == n3 + 5 + alt_hex(val as nat).len()
            &&& t.take(3) == "if "@
            &&& t.subrange(3int, 3int + a.len()) == a
            &&& t.subrange(n1, n1 + c.len()) == c
            &&& t.subrange(n2, n3) == b
            &&& t.subrange(n3, n3 + 5) == " jmp "@
            &&& t.skip(n3 + 5) == alt_hex(val as nat)
        }),
{
    reveal_strlit(" jmp ");
    reveal_strlit("if ");
    reveal_strlit(" ");
    let t = instr_text(Instruction::BrCoIm { co, lhs, rhs, val });
    let a = reg_text(lhs);
    let c = cond_text(co);
    let b = reg_text(rhs);
    let n1: int = 3int + a.len() + 1;
    let n2: int = n1 + c.len() + 1;
    let n3: int = n2 + b.len();
    assert(t.take(3) =~= "if "@);
    assert(t.subrange(3int, 3int + a.len()) =~= a);
    assert(t.subrange(n1, n1 + c.len()) =~= c);
    assert(t.subrange(n2, n3) =~= b);
    assert(t.subrange(n3, n3 + 5) =~= " jmp "@);
    assert(t.skip(n3 + 5) =~= alt_hex(val as nat));
}

} // verus!
