//! The assembler's built-in macros.
use vstd::prelude::*;
use crate::text::{
    find, rfind, chars_of, string_of, append_str, append_chars, find_chars, rfind_chars,
    lemma_find,
};
use crate::numtext::{hex_upper, pad_left, fmt_digits, pad_chars};

verus! {

/// `after` is `before` with strings holding `added` pushed at its end.
pub open spec fn appended(before: Seq<String>, after: Seq<String>, added: Seq<Seq<char>>) -> bool {
    &&& after.len() == before.len() + added.len()
    &&& forall|k: int| 0 <= k < before.len() ==> #[trigger] after[k] == before[k]
    &&& forall|k: int| 0 <= k < added.len() ==> after[before.len() + k]@ == #[trigger] added[k]
}

/// The data line that stores one character: `DAT 0x` and its code in (at least two)
/// upper-case hexadecimal digits.
pub open spec fn dat_line(c: char) -> Seq<char> {
    "DAT 0x"@ + pad_left(hex_upper(c as nat), 2, '0')
}

/// The `STRING` macro on a line: one data line for each character between the
/// line's first and last `"`, or an error when there are not two of them.
pub open spec fn string_macro(line: Seq<char>) -> Result<Seq<Seq<char>>, Seq<char>> {
    let q = seq!['"'];
    if find(line, q) is Some && rfind(line, q) is Some
        && find(line, q).unwrap() < rfind(line, q).unwrap() {
        let start = find(line, q).unwrap();
        let end = rfind(line, q).unwrap();
        Ok(Seq::new((end - start - 1) as nat, |k: int| dat_line(line[start + 1 + k])))
    } else {
        Err("Malformed STRING macro: "@ + line)
    }
}

/// The data line of one character.
fn dat_line_of(c: char) -> (r: String)
    ensures
        r@ == dat_line(c),
{
    let mut v: Vec<char> = Vec::new();
    append_str(&mut v, "DAT 0x");
    let digits = fmt_digits(c as u32 as u64, 16, true);
    append_chars(&mut v, &pad_chars(&digits, 2, '0'));
    string_of(&v)
}

/// The `STRING` macro: pushes a `DAT` line for each character between the first and
/// the last `"` of `line`.
pub fn asm_string_macro(line: &str, instr: &mut Vec<String>) -> (r: Result<(), String>)
    ensures
        match string_macro(line@) {
            Ok(added) => r is Ok && appended(old(instr)@, final(instr)@, added),
            Err(msg) => r matches Err(e) && e@ == msg && final(instr)@ == old(instr)@,
        },
{
    let lv = chars_of(line);
    let mut q: Vec<char> = Vec::new();
    q.push('"');
    assert(q@ =~= seq!['"']);
    proof { lemma_find(lv@, q@); }
    match (find_chars(&lv, &q), rfind_chars(&lv, &q)) {
        (Some(start), Some(end)) => {
            if start < end {
                let ghost before = instr@;
                let ghost added = Seq::new((end - start - 1) as nat, |k: int| dat_line(lv@[start + 1 + k]));
                let mut i: usize = start + 1;
                while i < end
                    invariant
                        start < i <= end < lv@.len(),
                        added == Seq::new((end - start - 1) as nat, |k: int| dat_line(lv@[start + 1 + k])),
                        appended(before, instr@, added.take(i - start - 1)),
                    decreases end - i,
                {
                    let ghost mid = instr@;
                    instr.push(dat_line_of(lv[i]));
                    i = i + 1;
                    assert(added.take(i - start - 1) =~= added.take(i - start - 2).push(added[i - start - 2]));
                    assert forall|k: int| 0 <= k < before.len() implies #[trigger] instr@[k] == before[k] by {
                        assert(instr@[k] == mid[k]);
                    }
                    assert forall|k: int| 0 <= k < added.take(i - start - 1).len() implies
                        instr@[before.len() + k]@ == #[trigger] added.take(i - start - 1)[k] by {
                        if k < i - start - 2 {
                            assert(instr@[before.len() + k] == mid[before.len() + k]);
                            assert(added.take(i - start - 2)[k] == added.take(i - start - 1)[k]);
                        }
                    }
                }
                assert(added.take(end - start - 1) =~= added);
                return Ok(());
            }
        },
        _ => {},
    }
    let mut msg: Vec<char> = Vec::new();
    append_str(&mut msg, "Malformed STRING macro: ");
    append_str(&mut msg, line);
    Err(string_of(&msg))
}

} // verus!
