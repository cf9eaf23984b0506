//! Parsing one line of assembly into an `Instruction`.
use vstd::prelude::*;
use crate::machine::{BinaryOperator, Condition, Instruction};
use crate::text::{
    starts_with, strip_prefix, find, occurs_at, chars_of, string_of, slice_chars,
    append_chars, append_str, trim_chars, trim_start_chars, is_ascii_whitespace,
    is_ascii_hexdigit, chars_start_with, find_chars, rfind_chars, strip_prefix_chars,
    strip_suffix_chars, lemma_find,
};
use crate::numtext::{parse_unsigned, fmt_digits, dec};
use super::parse_spec::{
    ParseErrorModel, Operand, operand_debug, sp_to_r_rix, sp_to_r_rix_no_mul, sp_to_reg4,
    word_end, bracket_end, reg_token_end, sp_consume_operand, sp_parse_int,
    sp_parse_reg_name, split_on, sp_fold_mul, looks_float, sp_parse_operand,
    sp_parse_mem_operand, sp_parse_reg_operand, binop_token, cond_token, binop_tokens,
    cond_tokens, first_token_split, sp_split_lhs, sp_parse_binop, sp_parse_condition,
    sp_negate_condition, sp_check_imm, split_once, contains, sp_parse_swap, sp_parse_move,
    sp_parse_binop_instr, sp_parse_data, sp_parse_branch_unconditional, branch_parts,
    sp_parse_branch, keyword_instruction, sp_parse_instruction,
};

verus! {

/// Possible errors when parsing an instruction with `parse_instruction`.
#[derive(Debug, Clone)]
pub enum ParseError {
    InvalidSyntax(String),
    InvalidRegister(String),
    InvalidOperator(String),
    InvalidOperand(String),
    NonStrict(String),
    ImmediateOutOfRange { value: u64, bits: u32 },
    Unimplemented(String),
}

impl View for ParseError {
    type V = ParseErrorModel;

    open spec fn view(&self) -> ParseErrorModel {
        match self {
            ParseError::InvalidSyntax(s) => ParseErrorModel::InvalidSyntax(s@),
            ParseError::InvalidRegister(s) => ParseErrorModel::InvalidRegister(s@),
            ParseError::InvalidOperator(s) => ParseErrorModel::InvalidOperator(s@),
            ParseError::InvalidOperand(s) => ParseErrorModel::InvalidOperand(s@),
            ParseError::NonStrict(s) => ParseErrorModel::NonStrict(s@),
            ParseError::ImmediateOutOfRange { value, bits } => ParseErrorModel::ImmediateOutOfRange { value: *value, bits: *bits },
            ParseError::Unimplemented(s) => ParseErrorModel::Unimplemented(s@),
        }
    }
}

impl ParseError {
    /// The error's message.
    pub fn to_string(&self) -> (r: String)
        ensures
            r@ == self@.message(),
    {
        let mut v: Vec<char> = Vec::new();
        match self {
            ParseError::InvalidSyntax(s) => {
                append_str(&mut v, "invalid syntax: ");
                append_str(&mut v, s.as_str());
            },
            ParseError::InvalidRegister(s) => {
                append_str(&mut v, "invalid register: ");
                append_str(&mut v, s.as_str());
            },
            ParseError::InvalidOperator(s) => {
                append_str(&mut v, "unknown operator: ");
                append_str(&mut v, s.as_str());
            },
            ParseError::InvalidOperand(s) => {
                append_str(&mut v, "invalid operand: ");
                append_str(&mut v, s.as_str());
            },
            ParseError::NonStrict(s) => {
                append_str(&mut v, "non-strict instruction: ");
                append_str(&mut v, s.as_str());
            },
            ParseError::ImmediateOutOfRange { value, bits } => {
                append_str(&mut v, "immediate ");
                append_chars(&mut v, &fmt_digits(*value, 10, false));
                append_str(&mut v, " does not fit in ");
                append_chars(&mut v, &fmt_digits(*bits as u64, 10, false));
                append_str(&mut v, " bits");
            },
            ParseError::Unimplemented(s) => {
                append_str(&mut v, "unimplemented: ");
                append_str(&mut v, s.as_str());
            },
        }
        string_of(&v)
    }
}

/// A parse result with its error taken by its view.
pub open spec fn res_view<T>(r: Result<T, ParseError>) -> Result<T, ParseErrorModel> {
    match r {
        Ok(t) => Ok(t),
        Err(e) => Err(e@),
    }
}

fn syntax_error(v: &Vec<char>) -> (e: ParseError)
    ensures e@ == ParseErrorModel::InvalidSyntax(v@),
{
    ParseError::InvalidSyntax(string_of(v))
}

fn non_strict(v: &Vec<char>) -> (e: ParseError)
    ensures e@ == ParseErrorModel::NonStrict(v@),
{
    ParseError::NonStrict(string_of(v))
}

/// `lit` followed by `mid` followed by `tail`.
fn concat3(lit: &str, mid: &Vec<char>, tail: &str) -> (r: Vec<char>)
    ensures
        r@ == lit@ + mid@ + tail@,
{
    let mut v: Vec<char> = Vec::new();
    append_str(&mut v, lit);
    append_chars(&mut v, mid);
    append_str(&mut v, tail);
    assert(v@ =~= lit@ + mid@ + tail@);
    v
}

/// Whether the characters of `v` are those of `lit`.
pub fn eq_lit(v: &Vec<char>, lit: &str) -> (r: bool)
    ensures
        r == (v@ == lit@),
{
    let w = chars_of(lit);
    if v.len() != w.len() {
        return false;
    }
    let b = chars_start_with(v, &w);
    assert(v@.take(w@.len() as int) =~= v@);
    b
}

/// Whether `v` starts with the characters of `lit`.
fn starts_with_lit(v: &Vec<char>, lit: &str) -> (r: bool)
    ensures
        r == starts_with(v@, lit@),
{
    let w = chars_of(lit);
    chars_start_with(v, &w)
}

/// `v` without the prefix `lit`.
fn strip_prefix_lit(v: &Vec<char>, lit: &str) -> (r: Option<Vec<char>>)
    ensures
        r matches Some(t) ==> strip_prefix(v@, lit@) == Some(t@),
        r is None ==> strip_prefix(v@, lit@) is None,
{
    let w = chars_of(lit);
    strip_prefix_chars(v, &w)
}

/// A one-character pattern.
fn one_char(c: char) -> (r: Vec<char>)
    ensures
        r@ == seq![c],
{
    let mut v: Vec<char> = Vec::new();
    v.push(c);
    assert(v@ =~= seq![c]);
    v
}

/// Whether `v` holds `c`.
fn contains_char(v: &Vec<char>, c: char) -> (r: bool)
    ensures
        r == v@.contains(c),
{
    let mut i: usize = 0;
    while i < v.len()
        invariant
            i <= v@.len(),
            forall|k: int| 0 <= k < i ==> v@[k] != c,
        decreases v@.len() - i,
    {
        if v[i] == c {
            assert(v@[i as int] == c);
            return true;
        }
        i = i + 1;
    }
    false
}

/// Decimal text of a number.
fn dec_chars(n: u64) -> (r: Vec<char>)
    ensures
        r@ == dec(n as nat),
{
    fmt_digits(n, 10, false)
}

/// Appends decimal text of a number.
fn push_dec(v: &mut Vec<char>, n: u64)
    ensures
        final(v)@ == old(v)@ + dec(n as nat),
{
    let d = dec_chars(n);
    append_chars(v, &d);
}

impl Operand {
    /// The `Debug` text of the operand.
    fn debug_chars(&self) -> (r: Vec<char>)
        ensures
            r@ == operand_debug(*self),
    {
        let mut v: Vec<char> = Vec::new();
        match self {
            Operand::Zero => { append_str(&mut v, "Zero"); },
            Operand::Reg(r) => {
                append_str(&mut v, "Reg(");
                push_dec(&mut v, *r as u64);
                append_str(&mut v, ")");
            },
            Operand::MemReg(r) => {
                append_str(&mut v, "MemReg(");
                push_dec(&mut v, *r as u64);
                append_str(&mut v, ")");
            },
            Operand::RegIdx { base, idx, mul } => {
                append_str(&mut v, "RegIdx { base: ");
                push_dec(&mut v, *base as u64);
                append_str(&mut v, ", idx: ");
                push_dec(&mut v, *idx as u64);
                append_str(&mut v, ", mul: ");
                push_dec(&mut v, *mul as u64);
                append_str(&mut v, " }");
            },
            Operand::MemRegMul { idx, mul } => {
                append_str(&mut v, "MemRegMul { idx: ");
                push_dec(&mut v, *idx as u64);
                append_str(&mut v, ", mul: ");
                push_dec(&mut v, *mul as u64);
                append_str(&mut v, " }");
            },
            Operand::Imm(x) => {
                append_str(&mut v, "Imm(");
                push_dec(&mut v, *x as u64);
                append_str(&mut v, ")");
            },
            Operand::MemImm(x) => {
                append_str(&mut v, "MemImm(");
                push_dec(&mut v, *x as u64);
                append_str(&mut v, ")");
            },
        }
        assert(v@ =~= operand_debug(*self));
        v
    }

    /// Converts to an operand byte and a multiplier.
    fn to_r_rix(&self) -> (r: Result<(u8, u32), ParseError>)
        ensures
            res_view(r) == sp_to_r_rix(*self),
    {
        match self {
            Operand::Zero => Ok((0x00, 1)),
            Operand::Reg(r) => {
                let b = *r << 4;
                proof { assert(b == ((*r as u32 * 16) as u8)) by (bit_vector) requires b == *r << 4; }
                Ok((b, 1))
            },
            Operand::MemReg(rix) => Ok((*rix, 1)),
            Operand::RegIdx { base, idx, mul } => {
                let b = (*base << 4) | *idx;
                proof {
                    assert(b == (((*base as u32 * 16) as u8 | *idx) as u8)) by (bit_vector)
                        requires b == (*base << 4) | *idx;
                }
                Ok((b, *mul))
            },
            Operand::MemRegMul { idx, mul } => Ok((*idx, *mul)),
            _ => {
                let d = self.debug_chars();
                let mut m = d;
                append_str(&mut m, " is not a valid r_rix operand");
                Err(non_strict(&m))
            },
        }
    }

    /// Like `to_r_rix`, but rejects a multiplier other than 1.
    fn to_r_rix_no_mul(&self) -> (r: Result<u8, ParseError>)
        ensures
            res_view(r) == sp_to_r_rix_no_mul(*self),
    {
        let (rrix, mul) = self.to_r_rix()?;
        if mul != 1 {
            let mut m: Vec<char> = Vec::new();
            append_str(&mut m, "multipliers are not permitted on operands in this instruction form");
            return Err(non_strict(&m));
        }
        Ok(rrix)
    }

    /// Requires a plain register.
    fn to_reg4(&self) -> (r: Result<u8, ParseError>)
        ensures
            res_view(r) == sp_to_reg4(*self),
    {
        match self {
            Operand::Zero => Ok(0),
            Operand::Reg(r) => Ok(*r),
            _ => {
                let d = self.debug_chars();
                let mut m = d;
                append_str(&mut m, " is not a plain register, but immediate mode requires one");
                Err(non_strict(&m))
            },
        }
    }
}

/// The index of the first ASCII white space at or after `i`.
fn word_end_at(b: &Vec<char>, i: usize) -> (r: usize)
    requires
        i <= b@.len(),
    ensures
        r as int == word_end(b@, i as int),
        i <= r <= b@.len(),
{
    let mut j = i;
    while j < b.len() && !is_ascii_whitespace(b[j])
        invariant
            i <= j <= b@.len(),
            word_end(b@, i as int) == word_end(b@, j as int),
        decreases b@.len() - j,
    {
        j = j + 1;
    }
    j
}

/// The index of the first `]` at or after `i`.
fn bracket_end_at(b: &Vec<char>, i: usize) -> (r: usize)
    requires
        i <= b@.len(),
    ensures
        r as int == bracket_end(b@, i as int),
        i <= r <= b@.len(),
{
    let mut j = i;
    while j < b.len() && b[j] != ']'
        invariant
            i <= j <= b@.len(),
            bracket_end(b@, i as int) == bracket_end(b@, j as int),
        decreases b@.len() - j,
    {
        j = j + 1;
    }
    j
}

/// The end of a register token whose name starts before index `i`.
fn reg_token_end_at(b: &Vec<char>, i: usize) -> (r: usize)
    requires
        i <= b@.len(),
    ensures
        r as int == reg_token_end(b@, i as int),
        i <= r <= b@.len(),
{
    let j = if i < b.len() && is_ascii_hexdigit(b[i]) { i + 1 } else { i };
    if j < b.len() && b[j] == '[' {
        let k = bracket_end_at(b, j + 1);
        if k < b.len() { k + 1 } else { k }
    } else {
        j
    }
}

/// Splits one operand token off the start of `s0`; the rest loses its leading
/// white space.
fn consume_operand(s0: &Vec<char>) -> (r: Option<(Vec<char>, Vec<char>)>)
    ensures
        r matches Some((a, b)) ==> sp_consume_operand(s0@) == Some((a@, b@)),
        r is None ==> sp_consume_operand(s0@) is None,
{
    let s = trim_start_chars(s0);
    if s.len() == 0 {
        return None;
    }
    let i: usize = if s[0] == '@' {
        if 1 < s.len() && s[1] == 'r' { reg_token_end_at(&s, 2) } else { word_end_at(&s, 1) }
    } else if s[0] == 'r' {
        reg_token_end_at(&s, 1)
    } else {
        word_end_at(&s, 0)
    };
    if s[0] != '@' && s[0] != 'r' && i == 0 {
        return None;
    }
    let tok = slice_chars(&s, 0, i);
    let rest = slice_chars(&s, i, s.len());
    assert(rest@ =~= s@.skip(i as int));
    Some((tok, trim_start_chars(&rest)))
}

/// An integer literal: `0x`/`0X` hexadecimal, `0b`/`0B` binary, else decimal.
fn parse_int(s0: &Vec<char>) -> (r: Option<u64>)
    ensures
        r == sp_parse_int(s0@),
{
    let s = trim_chars(s0);
    let r = if let Some(h) = strip_prefix_lit(&s, "0x") {
        parse_unsigned(&h, 16, u64::MAX)
    } else if let Some(h) = strip_prefix_lit(&s, "0X") {
        parse_unsigned(&h, 16, u64::MAX)
    } else if let Some(b) = strip_prefix_lit(&s, "0b") {
        parse_unsigned(&b, 2, u64::MAX)
    } else if let Some(b) = strip_prefix_lit(&s, "0B") {
        parse_unsigned(&b, 2, u64::MAX)
    } else {
        parse_unsigned(&s, 10, u64::MAX)
    };
    r
}

/// A register name `r1` to `rF`.
fn parse_reg_name_chars(s0: &Vec<char>) -> (r: Result<u8, ParseError>)
    ensures
        res_view(r) == sp_parse_reg_name(s0@),
{
    let s = trim_chars(s0);
    let p = one_char('r');
    let hex = match strip_prefix_chars(&s, &p) {
        Some(h) => h,
        None => return Err(ParseError::InvalidRegister(string_of(&s))),
    };
    let n = match parse_unsigned(&hex, 16, 255) {
        Some(n) => n,
        None => return Err(ParseError::InvalidRegister(string_of(&s))),
    };
    if n == 0 || n > 0xF {
        let h = fmt_digits(n, 16, true);
        let m = concat3("register r", &h, " out of range r1..=rF");
        return Err(ParseError::InvalidRegister(string_of(&m)));
    }
    Ok(n as u8)
}

/// Parses a register name `r1` to `rF` into its 4-bit index.
pub fn parse_reg_name(s: &str) -> (r: Result<u8, ParseError>)
    ensures
        res_view(r) == sp_parse_reg_name(s@),
{
    let v = chars_of(s);
    parse_reg_name_chars(&v)
}

/// Whether two character vectors hold the same characters.
fn chars_eq(a: &Vec<char>, b: &Vec<char>) -> (r: bool)
    ensures
        r == (a@ == b@),
{
    if a.len() != b.len() {
        return false;
    }
    let r = chars_start_with(a, b);
    assert(a@.take(b@.len() as int) =~= a@);
    r
}

/// The views of a vector of character vectors.
pub open spec fn views(v: Seq<Vec<char>>) -> Seq<Seq<char>> {
    v.map_values(|p: Vec<char>| p@)
}

/// `str::split` on one character.
#[verifier::rlimit(50)]
fn split_on_char(s: &Vec<char>, c: char) -> (r: Vec<Vec<char>>)
    ensures
        views(r@) == split_on(s@, c),
{
    let pat = one_char(c);
    let mut parts: Vec<Vec<char>> = Vec::new();
    let mut rest = slice_chars(s, 0, s.len());
    assert(rest@ =~= s@);
    loop
        invariant
            pat@ == seq![c],
            views(parts@) + split_on(rest@, c) == split_on(s@, c),
        decreases rest@.len(),
    {
        match find_chars(&rest, &pat) {
            None => {
                let ghost before = parts@;
                parts.push(rest);
                assert(views(parts@) =~= views(before) + split_on(rest@, c));
                return parts;
            },
            Some(i) => {
                proof {
                    lemma_find(rest@, pat@);
                    assert(pat@.len() == 1);
                    assert(find(rest@, pat@) == Some(i as int));
                    assert(occurs_at(rest@, pat@, i as int));
                    assert(i + 1 <= rest@.len());
                }
                let n = rest.len();
                let head = slice_chars(&rest, 0, i);
                let tail = slice_chars(&rest, i + 1, n);
                let ghost before = parts@;
                let ghost old_rest = rest@;
                parts.push(head);
                assert(tail@ =~= old_rest.skip(i + 1));
                assert(views(parts@) =~= views(before).push(head@));
                assert(split_on(old_rest, c) == seq![old_rest.take(i as int)] + split_on(tail@, c));
                assert(views(before) + split_on(old_rest, c) =~= views(parts@) + split_on(tail@, c));
                rest = tail;
            },
        }
    }
}

/// The product of the multipliers `parts[from..]`, each trimmed, wrapping at 32 bits.
fn fold_mul(parts: &Vec<Vec<char>>, from: usize, whole: &Vec<char>) -> (r: Result<u32, ParseError>)
    requires
        from <= parts@.len(),
    ensures
        res_view(r) == sp_fold_mul(views(parts@).skip(from as int), 1, whole@),
{
    let mut acc: u32 = 1;
    let mut i = from;
    assert(views(parts@).skip(from as int) =~= views(parts@).skip(from as int));
    while i < parts.len()
        invariant
            from <= i <= parts@.len(),
            sp_fold_mul(views(parts@).skip(from as int), 1, whole@)
                == sp_fold_mul(views(parts@).skip(i as int), acc, whole@),
        decreases parts@.len() - i,
    {
        let ghost rest = views(parts@).skip(i as int);
        assert(rest[0] == parts@[i as int]@);
        assert(rest.drop_first() =~= views(parts@).skip(i + 1));
        let t = trim_chars(&parts[i]);
        match parse_unsigned(&t, 10, u32::MAX as u64) {
            None => {
                let mut m: Vec<char> = Vec::new();
                append_str(&mut m, "invalid multiplier '");
                append_chars(&mut m, &parts[i]);
                append_str(&mut m, "' in '");
                append_chars(&mut m, whole);
                append_str(&mut m, "'");
                assert(m@ =~= "invalid multiplier '"@ + rest[0] + "' in '"@ + whole@ + "'"@);
                return Err(syntax_error(&m));
            },
            Some(v) => {
                acc = acc.wrapping_mul(v as u32);
            },
        }
        i = i + 1;
    }
    assert(views(parts@).skip(i as int) =~= Seq::<Seq<char>>::empty());
    Ok(acc)
}

/// Whether text looks like a float literal.
fn looks_float_chars(s: &Vec<char>) -> (r: bool)
    ensures
        r == looks_float(s@),
{
    contains_char(s, '.') || (contains_char(s, 'e') && !starts_with_lit(s, "0x"))
}

/// An operand after `@`; `s` is the whole (trimmed) operand.
fn parse_mem_operand(s: &Vec<char>) -> (r: Result<Operand, ParseError>)
    requires
        s@.len() > 0,
    ensures
        res_view(r) == sp_parse_mem_operand(s@),
{
    let open = one_char('[');
    let close = one_char(']');
    let rest = slice_chars(s, 1, s.len());
    assert(rest@ =~= s@.drop_first());
    if rest.len() > 0 && rest[0] == 'r' {
        match find_chars(&rest, &open) {
            Some(bi) => {
                proof { lemma_find(rest@, open@); }
                let name = slice_chars(&rest, 0, bi);
                let rix = parse_reg_name_chars(&name)?;
                let after = slice_chars(&rest, bi + 1, rest.len());
                assert(after@ =~= rest@.skip(bi + 1));
                let inner = match strip_suffix_chars(&after, &close) {
                    Some(x) => x,
                    None => {
                        let m = concat3("unclosed '[' in '", s, "'");
                        return Err(syntax_error(&m));
                    },
                };
                let star = one_char('*');
                let m = match strip_prefix_chars(&inner, &star) {
                    Some(t) => {
                        let tt = trim_chars(&t);
                        parse_unsigned(&tt, 10, u32::MAX as u64)
                    },
                    None => None,
                };
                match m {
                    None => {
                        let msg = concat3("expected '*N' inside brackets in '", s, "'");
                        Err(syntax_error(&msg))
                    },
                    Some(mul) => Ok(Operand::MemRegMul { idx: rix, mul: mul as u32 }),
                }
            },
            None => {
                let r = parse_reg_name_chars(&rest)?;
                Ok(Operand::MemReg(r))
            },
        }
    } else {
        match parse_int(&rest) {
            None => Err(ParseError::InvalidOperand(string_of(s))),
            Some(v) => Ok(Operand::MemImm(v as u32)),
        }
    }
}

/// An operand starting with `r`.
#[verifier::rlimit(50)]
fn parse_reg_operand(s: &Vec<char>) -> (r: Result<Operand, ParseError>)
    ensures
        res_view(r) == sp_parse_reg_operand(s@),
{
    let open = one_char('[');
    let close = one_char(']');
    match find_chars(s, &open) {
        Some(bi) => {
            proof {
                lemma_find(s@, open@);
                assert(open@.len() == 1);
                assert(occurs_at(s@, open@, bi as int));
            }
            let n = s.len();
            let name = slice_chars(s, 0, bi);
            let base = parse_reg_name_chars(&name)?;
            let after = slice_chars(s, bi + 1, n);
            assert(after@ =~= s@.skip(bi + 1));
            let inner = match strip_suffix_chars(&after, &close) {
                Some(x) => x,
                None => {
                    let m = concat3("unclosed '[' in '", s, "'");
                    return Err(syntax_error(&m));
                },
            };
            let parts = split_on_char(&inner, '*');
            proof { lemma_split_nonempty(inner@, '*'); }
            assert(views(parts@)[0] == parts@[0]@);
            let first = trim_chars(&parts[0]);
            let idx = parse_reg_name_chars(&first)?;
            assert(views(parts@).skip(1) =~= views(parts@).drop_first());
            let mul = fold_mul(&parts, 1, s)?;
            Ok(Operand::RegIdx { base, idx, mul })
        },
        None => {
            let r = parse_reg_name_chars(s)?;
            Ok(Operand::Reg(r))
        },
    }
}

/// One operand.
fn parse_operand(s0: &Vec<char>) -> (r: Result<Operand, ParseError>)
    ensures
        res_view(r) == sp_parse_operand(s0@),
{
    let s = trim_chars(s0);
    let zero = one_char('0');
    if chars_eq(&s, &zero) {
        return Ok(Operand::Zero);
    }
    if looks_float_chars(&s) {
        let mut m: Vec<char> = Vec::new();
        append_str(&mut m, "float literal parsing is not yet implemented");
        return Err(ParseError::Unimplemented(string_of(&m)));
    }
    if s.len() > 0 && s[0] == '@' {
        parse_mem_operand(&s)
    } else if s.len() > 0 && s[0] == 'r' {
        parse_reg_operand(&s)
    } else {
        match parse_int(&s) {
            Some(v) => Ok(Operand::Imm(v as u32)),
            None => Err(ParseError::InvalidOperand(string_of(&s))),
        }
    }
}

/// Splitting yields at least one part.
proof fn lemma_split_nonempty(s: Seq<char>, c: char)
    ensures
        split_on(s, c).len() >= 1,
{
}

/// Token number `i` of the table.
fn binop_token_str(i: usize) -> (r: &'static str)
    requires
        i < 30,
    ensures
        r@ == binop_token(i as int),
{
    match i {
        0 => ">>>",
        1 => "<<f",
        2 => "-rf",
        3 => ">>",
        4 => "<<",
        5 => "!^",
        6 => "-r",
        7 => "+f",
        8 => "-f",
        9 => "*f",
        10 => "/f",
        11 => "%f",
        12 => "/u",
        13 => "%u",
        14 => "minu",
        15 => "maxu",
        16 => "minf",
        17 => "maxf",
        18 => "min",
        19 => "max",
        20 => "rol",
        21 => "ror",
        22 => "+",
        23 => "-",
        24 => "*",
        25 => "/",
        26 => "%",
        27 => "&",
        28 => "|",
        _ => "^",
    }
}

/// Token number `i` of the table.
fn cond_token_str(i: usize) -> (r: &'static str)
    requires
        i < 16,
    ensures
        r@ == cond_token(i as int),
{
    match i {
        0 => "==f",
        1 => "!=f",
        2 => "<=f",
        3 => ">f",
        4 => "==",
        5 => "!=",
        6 => "<=u",
        7 => ">u",
        8 => "<=",
        9 => ">",
        10 => "!&",
        11 => "!%2",
        12 => "!p",
        13 => "&",
        14 => "%2",
        _ => "p",
    }
}

/// The first token of the table (operators when `conds` is false, conditions when
/// true) that `rest` starts with and that leaves a non-empty right operand.
fn first_token(rest: &Vec<char>, conds: bool) -> (r: Option<(Vec<char>, Vec<char>)>)
    ensures
        ({
            let tokens = if conds { cond_tokens() } else { binop_tokens() };
            &&& r matches Some((op, b)) ==> first_token_split(rest@, tokens, 0) == Some((op@, b@))
            &&& r is None ==> first_token_split(rest@, tokens, 0) is None
        }),
{
    let ghost tokens = if conds { cond_tokens() } else { binop_tokens() };
    let n: usize = if conds { 16 } else { 30 };
    let mut k: usize = 0;
    while k < n
        invariant
            k <= n,
            tokens == if conds { cond_tokens() } else { binop_tokens() },
            n == tokens.len(),
            first_token_split(rest@, tokens, 0) == first_token_split(rest@, tokens, k as int),
        decreases n - k,
    {
        let tok = if conds { cond_token_str(k) } else { binop_token_str(k) };
        assert(tok@ == tokens[k as int]);
        match strip_prefix_lit(rest, tok) {
            Some(after) => {
                let b = trim_chars(&after);
                if b.len() > 0 {
                    let op = chars_of(tok);
                    return Some((op, b));
                }
            },
            None => {},
        }
        k = k + 1;
    }
    None
}

/// Splits `A op B` into operand, token and right side.
fn split_lhs(s: &Vec<char>, conds: bool) -> (r: Option<(Vec<char>, Vec<char>, Vec<char>)>)
    ensures
        ({
            let tokens = if conds { cond_tokens() } else { binop_tokens() };
            &&& r matches Some((a, op, b)) ==> sp_split_lhs(s@, tokens) == Some((a@, op@, b@))
            &&& r is None ==> sp_split_lhs(s@, tokens) is None
        }),
{
    let (a, rest) = consume_operand(s)?;
    let rest = trim_chars(&rest);
    let (op, b) = first_token(&rest, conds)?;
    Some((a, op, b))
}

/// A binary operator token.
fn parse_binop(s: &Vec<char>) -> (r: Result<BinaryOperator, ParseError>)
    ensures
        res_view(r) == sp_parse_binop(s@),
{
    if eq_lit(s, "+") { Ok(BinaryOperator::Add) }
    else if eq_lit(s, "-") { Ok(BinaryOperator::Sub) }
    else if eq_lit(s, "-r") { Ok(BinaryOperator::SubR) }
    else if eq_lit(s, "*") { Ok(BinaryOperator::Mul) }
    else if eq_lit(s, "/") { Ok(BinaryOperator::Div) }
    else if eq_lit(s, "%") { Ok(BinaryOperator::Mod) }
    else if eq_lit(s, "min") { Ok(BinaryOperator::Min) }
    else if eq_lit(s, "max") { Ok(BinaryOperator::Max) }
    else if eq_lit(s, "+f") { Ok(BinaryOperator::AddF) }
    else if eq_lit(s, "-f") { Ok(BinaryOperator::SubF) }
    else if eq_lit(s, "-rf") { Ok(BinaryOperator::SubFR) }
    else if eq_lit(s, "*f") { Ok(BinaryOperator::MulF) }
    else if eq_lit(s, "/f") { Ok(BinaryOperator::DivF) }
    else if eq_lit(s, "%f") { Ok(BinaryOperator::ModF) }
    else if eq_lit(s, "minf") { Ok(BinaryOperator::MinF) }
    else if eq_lit(s, "maxf") { Ok(BinaryOperator::MaxF) }
    else if eq_lit(s, "&") { Ok(BinaryOperator::And) }
    else if eq_lit(s, "|") { Ok(BinaryOperator::Or) }
    else if eq_lit(s, "^") { Ok(BinaryOperator::Xor) }
    else if eq_lit(s, "!^") { Ok(BinaryOperator::Xnor) }
    else if eq_lit(s, "minu") { Ok(BinaryOperator::MinU) }
    else if eq_lit(s, "maxu") { Ok(BinaryOperator::MaxU) }
    else if eq_lit(s, "/u") { Ok(BinaryOperator::DivU) }
    else if eq_lit(s, "%u") { Ok(BinaryOperator::ModU) }
    else if eq_lit(s, "rol") { Ok(BinaryOperator::Rol) }
    else if eq_lit(s, "ror") { Ok(BinaryOperator::Ror) }
    else if eq_lit(s, "<<") { Ok(BinaryOperator::Lsl) }
    else if eq_lit(s, ">>") { Ok(BinaryOperator::Lsr) }
    else if eq_lit(s, ">>>") { Ok(BinaryOperator::Asr) }
    else if eq_lit(s, "<<f") { Ok(BinaryOperator::Fpintexp) }
    else { Err(ParseError::InvalidOperator(string_of(s))) }
}

/// A condition token.
fn parse_condition(s: &Vec<char>) -> (r: Result<Condition, ParseError>)
    ensures
        res_view(r) == sp_parse_condition(s@),
{
    if eq_lit(s, "==") { Ok(Condition::Eq) }
    else if eq_lit(s, "!=") { Ok(Condition::NEq) }
    else if eq_lit(s, ">") { Ok(Condition::Gt) }
    else if eq_lit(s, "<=") { Ok(Condition::NGt) }
    else if eq_lit(s, ">u") { Ok(Condition::GtU) }
    else if eq_lit(s, "<=u") { Ok(Condition::NGtU) }
    else if eq_lit(s, "&") { Ok(Condition::Mask) }
    else if eq_lit(s, "!&") { Ok(Condition::NMask) }
    else if eq_lit(s, "==f") { Ok(Condition::EqF) }
    else if eq_lit(s, "!=f") { Ok(Condition::NEqF) }
    else if eq_lit(s, ">f") { Ok(Condition::GtF) }
    else if eq_lit(s, "<=f") { Ok(Condition::NGtF) }
    else if eq_lit(s, "p") { Ok(Condition::Par) }
    else if eq_lit(s, "!p") { Ok(Condition::NPar) }
    else if eq_lit(s, "%2") { Ok(Condition::Even) }
    else if eq_lit(s, "!%2") { Ok(Condition::NEven) }
    else { Err(ParseError::InvalidOperator(string_of(s))) }
}

/// The condition with the opposite outcome.
pub fn negate_condition(co: Condition) -> (r: Condition)
    ensures
        r == sp_negate_condition(co),
{
    match co {
        Condition::Eq => Condition::NEq,
        Condition::NEq => Condition::Eq,
        Condition::Gt => Condition::NGt,
        Condition::NGt => Condition::Gt,
        Condition::GtU => Condition::NGtU,
        Condition::NGtU => Condition::GtU,
        Condition::Mask => Condition::NMask,
        Condition::NMask => Condition::Mask,
        Condition::EqF => Condition::NEqF,
        Condition::NEqF => Condition::EqF,
        Condition::GtF => Condition::NGtF,
        Condition::NGtF => Condition::GtF,
        Condition::Par => Condition::NPar,
        Condition::NPar => Condition::Par,
        Condition::Even => Condition::NEven,
        Condition::NEven => Condition::Even,
    }
}

/// Rejects an immediate that does not fit in `bits` bits (`bits` at most 63).
pub fn check_imm(value: u64, bits: u32) -> (r: Result<(), ParseError>)
    requires
        bits < 64,
    ensures
        res_view(r) == sp_check_imm(value, bits),
{
    let limit: u64 = 1u64 << bits;
    proof {
        vstd::bits::lemma_u64_pow2_no_overflow(bits as nat);
        vstd::bits::lemma_u64_shl_is_mul(1, bits as u64);
    }
    if value >= limit {
        Err(ParseError::ImmediateOutOfRange { value, bits })
    } else {
        Ok(())
    }
}

/// `str::split_once` on a literal pattern.
fn split_once_lit(s: &Vec<char>, lit: &str) -> (r: Option<(Vec<char>, Vec<char>)>)
    ensures
        r matches Some((a, b)) ==> split_once(s@, lit@) == Some((a@, b@)),
        r is None ==> split_once(s@, lit@) is None,
{
    let p = chars_of(lit);
    match find_chars(s, &p) {
        None => None,
        Some(i) => {
            proof {
                lemma_find(s@, p@);
                assert(occurs_at(s@, p@, i as int));
            }
            let n = s.len();
            let a = slice_chars(s, 0, i);
            let b = slice_chars(s, i + p.len(), n);
            assert(b@ =~= s@.skip(i + p@.len()));
            Some((a, b))
        },
    }
}

/// `rx <-> ry`.
fn parse_swap(s: &Vec<char>) -> (r: Result<Instruction, ParseError>)
    ensures
        res_view(r) == sp_parse_swap(s@),
{
    let (lhs, rhs) = match split_once_lit(s, "<->") {
        Some(x) => x,
        None => {
            let m = concat3("invalid swap: '", s, "'");
            return Err(syntax_error(&m));
        },
    };
    let lt = trim_chars(&lhs);
    let rx = match parse_operand(&lt)? {
        Operand::Reg(r) => r,
        _ => {
            let m = concat3("swap LHS must be a plain register, got '", &lt, "'");
            return Err(non_strict(&m));
        },
    };
    let rt = trim_chars(&rhs);
    let ry = match parse_operand(&rt)? {
        Operand::Reg(r) => r,
        _ => {
            let m = concat3("swap RHS must be a plain register, got '", &rt, "'");
            return Err(non_strict(&m));
        },
    };
    let src = (rx << 4) | ry;
    proof {
        assert(src == (((rx as u32 * 16) as u8 | ry) as u8)) by (bit_vector)
            requires src == (rx << 4) | ry;
    }
    Ok(Instruction::MvRg { src, dst: 0, src_m: 1, dst_m: 1 })
}

/// `src -> dst`.
fn parse_move(src_str: &Vec<char>, dst_str: &Vec<char>) -> (r: Result<Instruction, ParseError>)
    ensures
        res_view(r) == sp_parse_move(src_str@, dst_str@),
{
    let src = parse_operand(src_str)?;
    let dst = parse_operand(dst_str)?;
    match dst {
        Operand::Imm(_) | Operand::MemImm(_) => {
            let m = concat3("move destination cannot be an immediate value: '", dst_str, "'");
            return Err(non_strict(&m));
        },
        _ => {},
    }
    match src {
        Operand::Imm(val) => {
            check_imm(val as u64, 16)?;
            let (d, _) = dst.to_r_rix()?;
            Ok(Instruction::MvLd { dst: d, val })
        },
        Operand::MemImm(val) => {
            check_imm(val as u64, 16)?;
            let (d, _) = dst.to_r_rix()?;
            Ok(Instruction::MvRd { dst: d, val })
        },
        _ => {
            let (src_rrix, src_m) = src.to_r_rix()?;
            let (dst_rrix, dst_m) = dst.to_r_rix()?;
            Ok(Instruction::MvRg { src: src_rrix, dst: dst_rrix, src_m: src_m as u8, dst_m: dst_m as u8 })
        },
    }
}

/// `A op B -> C`.
fn parse_binop_instr(lhs_str: &Vec<char>, dst_str: &Vec<char>) -> (r: Result<Instruction, ParseError>)
    ensures
        res_view(r) == sp_parse_binop_instr(lhs_str@, dst_str@),
{
    let (a_str, op_str, b_str) = match split_lhs(lhs_str, false) {
        Some(x) => x,
        None => {
            let m = concat3("cannot find operator in '", lhs_str, "'");
            return Err(syntax_error(&m));
        },
    };
    let op = parse_binop(&op_str)?;
    let a = parse_operand(&a_str)?;
    let b = parse_operand(&b_str)?;
    let dst = parse_operand(dst_str)?;
    match b {
        Operand::Imm(val) => {
            check_imm(val as u64, 16)?;
            let l = a.to_reg4()?;
            let d = dst.to_reg4()?;
            Ok(Instruction::OpIm { op, lhs: l, rhs: val, dst: d })
        },
        _ => {
            let l = a.to_r_rix_no_mul()?;
            let r = b.to_r_rix_no_mul()?;
            let d = dst.to_r_rix_no_mul()?;
            Ok(Instruction::OpRg { op, lhs: l, rhs: r, dst: d })
        },
    }
}

/// `DAT N`.
fn parse_data(s: &Vec<char>) -> (r: Result<Instruction, ParseError>)
    requires
        s@.len() >= 4,
    ensures
        res_view(r) == sp_parse_data(s@),
{
    let rest0 = slice_chars(s, 4, s.len());
    assert(rest0@ =~= s@.skip(4));
    let rest = trim_chars(&rest0);
    match parse_int(&rest) {
        Some(val) => Ok(Instruction::RawData(val as u32)),
        None => {
            let mut m: Vec<char> = Vec::new();
            append_str(&mut m, "invalid data syntax, expecting integer");
            Err(syntax_error(&m))
        },
    }
}

/// `jmp T`.
fn parse_branch_unconditional(s: &Vec<char>) -> (r: Result<Instruction, ParseError>)
    requires
        s@.len() >= 4,
    ensures
        res_view(r) == sp_parse_branch_unconditional(s@),
{
    let rest0 = slice_chars(s, 4, s.len());
    assert(rest0@ =~= s@.skip(4));
    let rest = trim_chars(&rest0);
    let rest2 = trim_chars(&rest);
    let target = parse_operand(&rest2)?;
    match target {
        Operand::Imm(dst) => Ok(Instruction::BrUnconditional { dst }),
        _ => {
            let d = target.to_r_rix_no_mul()?;
            Ok(Instruction::BrCoRg { co: Condition::Eq, lhs: 0, rhs: 0, dst: d })
        },
    }
}

/// `if [not] A cond B jmp T`.
#[verifier::rlimit(50)]
fn parse_branch(s: &Vec<char>) -> (r: Result<Instruction, ParseError>)
    requires
        s@.len() >= 3,
    ensures
        res_view(r) == sp_parse_branch(s@),
{
    let rest0 = slice_chars(s, 3, s.len());
    assert(rest0@ =~= s@.skip(3));
    let rest1 = trim_chars(&rest0);
    let (negate, rest) = match strip_prefix_lit(&rest1, "not ") {
        Some(r) => (true, trim_chars(&r)),
        None => (false, rest1),
    };
    assert((negate, rest@) == branch_parts(s@));
    let (cond_part, target_str) = match split_once_lit(&rest, " jmp ") {
        Some(x) => x,
        None => {
            let m = concat3("missing 'jmp' in branch: '", s, "'");
            return Err(syntax_error(&m));
        },
    };
    let tt = trim_chars(&target_str);
    let target = parse_operand(&tt)?;
    let ct = trim_chars(&cond_part);
    let (a_str, op_str, b_str) = match split_lhs(&ct, true) {
        Some(x) => x,
        None => {
            let m = concat3("cannot parse condition '", &ct, "'");
            return Err(syntax_error(&m));
        },
    };
    let c = parse_condition(&op_str)?;
    let co = if negate { negate_condition(c) } else { c };
    let a = parse_operand(&a_str)?;
    let b = parse_operand(&b_str)?;
    match target {
        Operand::Imm(val) => {
            check_imm(val as u64, 16)?;
            let l = a.to_reg4()?;
            let r = b.to_reg4()?;
            Ok(Instruction::BrCoIm { co, lhs: l, rhs: r, val })
        },
        _ => {
            let l = a.to_r_rix_no_mul()?;
            let r = b.to_r_rix_no_mul()?;
            let d = target.to_r_rix_no_mul()?;
            Ok(Instruction::BrCoRg { co, lhs: l, rhs: r, dst: d })
        },
    }
}

/// The special instruction a keyword names.
fn keyword(s: &Vec<char>) -> (r: Option<Instruction>)
    ensures
        r == keyword_instruction(s@),
{
    if eq_lit(s, "HALT") { Some(Instruction::SpHalt) }
    else if eq_lit(s, "NOP") { Some(Instruction::SpNop) }
    else if eq_lit(s, "INT") { Some(Instruction::SpInt) }
    else if eq_lit(s, "VEC") { Some(Instruction::SpVec) }
    else if eq_lit(s, "WRITH") { Some(Instruction::SpWrith) }
    else if eq_lit(s, "REATH") { Some(Instruction::SpReath) }
    else if eq_lit(s, "INITH") { Some(Instruction::SpInith) }
    else if eq_lit(s, "UMEM") { Some(Instruction::SpUmem) }
    else if eq_lit(s, "USER") { Some(Instruction::SpUser) }
    else if eq_lit(s, "DEBUG") { Some(Instruction::SpDebug) }
    else { None }
}

/// Parses one line of assembly (without comment or label) into an instruction.
pub fn parse_instruction_chars(s0: &Vec<char>) -> (r: Result<Instruction, ParseError>)
    ensures
        res_view(r) == sp_parse_instruction(s0@),
{
    let s = trim_chars(s0);
    if starts_with_lit(&s, "DAT ") {
        proof { reveal_strlit("DAT "); }
        return parse_data(&s);
    }
    if let Some(i) = keyword(&s) {
        return Ok(i);
    }
    if starts_with_lit(&s, "jmp ") {
        proof { reveal_strlit("jmp "); }
        return parse_branch_unconditional(&s);
    }
    if starts_with_lit(&s, "if ") {
        proof { reveal_strlit("if "); }
        return parse_branch(&s);
    }
    let swap = chars_of("<->");
    if let Some(_) = find_chars(&s, &swap) {
        proof { lemma_find(s@, swap@); }
        return parse_swap(&s);
    }
    proof { lemma_find(s@, swap@); }
    let arrow_pat = chars_of("->");
    match rfind_chars(&s, &arrow_pat) {
        Some(arrow) => {
            proof {
                lemma_find(s@, arrow_pat@);
                reveal_strlit("->");
                assert(occurs_at(s@, arrow_pat@, arrow as int));
            }
            let n = s.len();
            let l0 = slice_chars(&s, 0, arrow);
            let d0 = slice_chars(&s, arrow + 2, n);
            assert(d0@ =~= s@.skip(arrow + 2));
            let lhs = trim_chars(&l0);
            let dst = trim_chars(&d0);
            if split_lhs(&lhs, false).is_some() {
                parse_binop_instr(&lhs, &dst)
            } else {
                parse_move(&lhs, &dst)
            }
        },
        None => {
            let m = concat3("unrecognized instruction: '", &s, "'");
            Err(syntax_error(&m))
        },
    }
}

/// Parses a line of assembly into a `machine::Instruction`.
pub fn parse_instruction(s: &str) -> (r: Result<Instruction, ParseError>)
    ensures
        res_view(r) == sp_parse_instruction(s@),
{
    let v = chars_of(s);
    parse_instruction_chars(&v)
}

} // verus!
