//! The passes of assembling a program: source lines, label order, label
//! substitution and the encoding of each instruction.
use vstd::prelude::*;
use crate::text::{chars_of, string_of, append_str, append_chars, lemma_find, find_chars};
use crate::numtext::{dec, fmt_digits};
use crate::machine::instructions::encode::{encodable, spec_encode};
use super::parse::parse_instruction;
use super::parse_spec::{sp_parse_instruction, contains};
use super::edit::{
    lines, split_lines, strip_comment, strip_comment_chars, split_label, split_label_chars,
    replace_from, replace_words, replace_all, replace_whole_word_chars,
};

verus! {

/// What one line of source holds, if it holds code: its label, if it has a valid
/// one, and its instruction text (which may be empty after a label).
pub open spec fn item_of(line: Seq<char>) -> Option<(Option<Seq<char>>, Seq<char>)> {
    let code = strip_comment(line);
    if code.len() == 0 { None } else { Some(split_label(code)) }
}

/// The code items of a sequence of lines, in order; lines without code are left out.
pub open spec fn code_items(ls: Seq<Seq<char>>) -> Seq<(Option<Seq<char>>, Seq<char>)>
    decreases ls.len(),
{
    if ls.len() == 0 {
        Seq::empty()
    } else {
        let rest = code_items(ls.drop_last());
        match item_of(ls.last()) {
            None => rest,
            Some(it) => rest.push(it),
        }
    }
}

/// The code items of the first `i + 1` lines: those of the first `i`, and the item
/// of line `i` if it has one.
proof fn lemma_code_items_step(ls: Seq<Seq<char>>, i: int)
    requires
        0 <= i < ls.len(),
    ensures
        code_items(ls.take(i + 1)) == (match item_of(ls[i]) {
            None => code_items(ls.take(i)),
            Some(it) => code_items(ls.take(i)).push(it),
        }),
{
    assert(ls.take(i + 1).drop_last() =~= ls.take(i));
}

/// The code items of a program text.
pub open spec fn source_items_spec(src: Seq<char>) -> Seq<(Option<Seq<char>>, Seq<char>)> {
    code_items(lines(src))
}

/// An item, its strings taken as character sequences.
pub open spec fn item_view(it: (Option<String>, String)) -> (Option<Seq<char>>, Seq<char>) {
    (match it.0 { Some(l) => Some(l@), None => None }, it.1@)
}

#[verifier::rlimit(30)]
/// The code items of a program: for each line that holds code once its comment is
/// stripped, its label (if any) and its instruction text.
pub fn source_items(src: &str) -> (r: Vec<(Option<String>, String)>)
    ensures
        r@.len() == source_items_spec(src@).len(),
        forall|k: int| 0 <= k < r@.len() ==> #[trigger] item_view(r@[k]) == source_items_spec(src@)[k],
{
    let text = chars_of(src);
    let ls = split_lines(&text);
    let ghost lsv = lines(src@);
    let mut out: Vec<(Option<String>, String)> = Vec::new();
    let mut i: usize = 0;
    while i < ls.len()
        invariant
            i <= ls@.len(),
            ls@.len() == lsv.len(),
            forall|k: int| 0 <= k < ls@.len() ==> #[trigger] ls@[k]@ == lsv[k],
            out@.len() == code_items(lsv.take(i as int)).len(),
            forall|k: int| 0 <= k < out@.len() ==> #[trigger] item_view(out@[k]) == code_items(lsv.take(i as int))[k],
        decreases ls@.len() - i,
    {
        proof { lemma_code_items_step(lsv, i as int); }
        let code = strip_comment_chars(&ls[i]);
        if code.len() > 0 {
            let (label, instr) = split_label_chars(&code);
            let label_s = match label {
                Some(l) => Some(string_of(&l)),
                None => None,
            };
            let ghost before = out@;
            out.push((label_s, string_of(&instr)));
            assert forall|k: int| 0 <= k < out@.len() implies
                #[trigger] item_view(out@[k]) == code_items(lsv.take(i + 1))[k] by {
                if k < before.len() {
                    assert(out@[k] == before[k]);
                }
            }
        }
        i = i + 1;
    }
    assert(lsv.take(ls@.len() as int) =~= lsv);
    out
}

/// The number of bytes of a character in UTF-8.
pub open spec fn utf8_width(c: char) -> nat {
    if (c as u32) < 0x80 { 1 } else if (c as u32) < 0x800 { 2 } else if (c as u32) < 0x10000 { 3 } else { 4 }
}

/// The number of bytes of a text in UTF-8 (what `str::len` returns).
pub open spec fn utf8_len(s: Seq<char>) -> nat
    decreases s.len(),
{
    if s.len() == 0 { 0 } else { utf8_len(s.drop_last()) + utf8_width(s.last()) }
}

/// The length in bytes of a string.
pub fn byte_len(s: &str) -> (n: u128)
    ensures
        n == utf8_len(s@),
{
    let v = chars_of(s);
    let mut n: u128 = 0;
    let mut i: usize = 0;
    while i < v.len()
        invariant
            i <= v@.len(),
            n == utf8_len(v@.take(i as int)),
            n <= 4 * i,
        decreases v@.len() - i,
    {
        assert(v@.take(i + 1).drop_last() =~= v@.take(i as int));
        let c = v[i];
        let w: u128 = if (c as u32) < 0x80 { 1 } else if (c as u32) < 0x800 { 2 } else if (c as u32) < 0x10000 { 3 } else { 4 };
        n = n + w;
        i = i + 1;
    }
    assert(v@.take(v@.len() as int) =~= v@);
    n
}

/// Labels in order of non-increasing length in bytes.
pub open spec fn longest_first(s: Seq<&str>) -> bool {
    forall|i: int, j: int| 0 <= i < j < s.len() ==> utf8_len(#[trigger] s[i]@) >= utf8_len(#[trigger] s[j]@)
}

/// `r` is `s` reordered by `perm` (`r[k]` is `s[perm[k]]`, no index taken twice),
/// longest first, with labels of equal length in their order in `s`.
pub open spec fn stable_longest_first(s: Seq<&str>, r: Seq<&str>, perm: Seq<int>) -> bool {
    &&& perm.len() == r.len()
    &&& forall|k: int| 0 <= k < r.len() ==> 0 <= #[trigger] perm[k] < s.len() && r[k] == s[perm[k]]
    &&& forall|a: int, b: int| 0 <= a < b < r.len() ==> #[trigger] perm[a] != #[trigger] perm[b]
    &&& forall|a: int, b: int| 0 <= a < b < r.len() ==>
        utf8_len(#[trigger] r[a]@) > utf8_len(#[trigger] r[b]@)
        || (utf8_len(r[a]@) == utf8_len(r[b]@) && perm[a] < perm[b])
}

/// Orders labels by their length in bytes, longest first (so that no label is
/// replaced inside a longer one); labels of equal length keep their order.
pub fn sort_labels<'a>(labels: Vec<&'a str>) -> (r: Vec<&'a str>)
    ensures
        r@.to_multiset() == labels@.to_multiset(),
        longest_first(r@),
        exists|perm: Seq<int>| stable_longest_first(labels@, r@, perm),
{
    let mut out: Vec<&'a str> = Vec::new();
    let mut keys: Vec<u128> = Vec::new();
    let mut i: usize = 0;
    let ghost mut perm: Seq<int> = Seq::empty();
    assert(out@ =~= labels@.take(0));
    while i < labels.len()
        invariant
            i <= labels@.len(),
            keys@.len() == out@.len(),
            forall|k: int| 0 <= k < out@.len() ==> #[trigger] keys@[k] == utf8_len(out@[k]@),
            forall|a: int, b: int| 0 <= a < b < keys@.len() ==> #[trigger] keys@[a] >= #[trigger] keys@[b],
            out@.to_multiset() == labels@.take(i as int).to_multiset(),
            out@.len() == i,
            perm.len() == i,
            forall|k: int| 0 <= k < i ==> 0 <= #[trigger] perm[k] < i && out@[k] == labels@[perm[k]],
            forall|a: int, b: int| 0 <= a < b < i ==> #[trigger] perm[a] != #[trigger] perm[b],
            forall|a: int, b: int| 0 <= a < b < i ==>
                #[trigger] keys@[a] > #[trigger] keys@[b] || (keys@[a] == keys@[b] && perm[a] < perm[b]),
        decreases labels@.len() - i,
    {
        let x = labels[i];
        let kx = byte_len(x);
        let mut j: usize = 0;
        while j < keys.len() && keys[j] >= kx
            invariant
                j <= keys@.len(),
                forall|k: int| 0 <= k < j ==> #[trigger] keys@[k] >= kx,
            decreases keys@.len() - j,
        {
            j = j + 1;
        }
        let ghost ko = keys@;
        let ghost oo = out@;
        let ghost po = perm;
        out.insert(j, x);
        keys.insert(j, kx);
        proof { perm = perm.insert(j as int, i as int); }
        assert forall|k: int| 0 <= k < i + 1 implies 0 <= #[trigger] perm[k] < i + 1 && out@[k] == labels@[perm[k]] by {
            if k < j {
                assert(perm[k] == po[k] && out@[k] == oo[k]);
            } else if k > j {
                assert(perm[k] == po[k - 1] && out@[k] == oo[k - 1]);
            }
        }
        assert forall|a: int, b: int| 0 <= a < b < i + 1 implies #[trigger] perm[a] != #[trigger] perm[b] by {
            if a < j && b < j {
                assert(perm[a] == po[a] && perm[b] == po[b]);
            } else if a < j && b > j {
                assert(perm[a] == po[a] && perm[b] == po[b - 1]);
            } else if a > j {
                assert(perm[a] == po[a - 1] && perm[b] == po[b - 1]);
            } else if a < j {
                assert(perm[a] == po[a]);
            } else {
                assert(perm[b] == po[b - 1]);
            }
        }
        assert forall|a: int, b: int| 0 <= a < b < i + 1 implies
            #[trigger] keys@[a] > #[trigger] keys@[b] || (keys@[a] == keys@[b] && perm[a] < perm[b]) by {
            if a < j && b < j {
                assert(keys@[a] == ko[a] && keys@[b] == ko[b] && perm[a] == po[a] && perm[b] == po[b]);
            } else if a < j && b == j {
                assert(keys@[a] == ko[a] && perm[a] == po[a]);
            } else if a < j {
                assert(keys@[a] == ko[a] && keys@[b] == ko[b - 1] && perm[a] == po[a] && perm[b] == po[b - 1]);
            } else if a == j {
                assert(keys@[b] == ko[b - 1]);
                assert(j < ko.len() ==> ko[j as int] < kx);
                if b - 1 > j {
                    assert(ko[j as int] >= ko[b - 1]);
                }
            } else {
                assert(keys@[a] == ko[a - 1] && keys@[b] == ko[b - 1] && perm[a] == po[a - 1] && perm[b] == po[b - 1]);
            }
        }
        assert(labels@.take(i + 1) =~= labels@.take(i as int).push(x));
        proof {
            vstd::seq_lib::to_multiset_build(labels@.take(i as int), x);
            vstd::seq_lib::to_multiset_insert(oo, j as int, x);
        }
        assert(out@.to_multiset() == labels@.take(i + 1).to_multiset());
        assert forall|k: int| 0 <= k < out@.len() implies #[trigger] keys@[k] == utf8_len(out@[k]@) by {
            if k < j {
                assert(keys@[k] == ko[k] && out@[k] == oo[k]);
            } else if k > j {
                assert(keys@[k] == ko[k - 1] && out@[k] == oo[k - 1]);
            }
        }
        assert forall|a: int, b: int| 0 <= a < b < keys@.len() implies #[trigger] keys@[a] >= #[trigger] keys@[b] by {
            if a < j && b < j {
                assert(keys@[a] == ko[a] && keys@[b] == ko[b]);
            } else if a < j && b == j {
                assert(keys@[a] == ko[a]);
            } else if a < j {
                assert(keys@[a] == ko[a] && keys@[b] == ko[b - 1]);
            } else if a == j {
                assert(keys@[b] == ko[b - 1]);
                assert(j < ko.len() ==> ko[j as int] < kx);
                if b - 1 > j {
                    assert(ko[j as int] >= ko[b - 1]);
                }
            } else {
                assert(keys@[a] == ko[a - 1] && keys@[b] == ko[b - 1]);
            }
        }
        i = i + 1;
    }
    assert(labels@.take(labels@.len() as int) =~= labels@);
    assert forall|a: int, b: int| 0 <= a < b < out@.len() implies
        utf8_len(#[trigger] out@[a]@) >= utf8_len(#[trigger] out@[b]@) by {
        assert(keys@[a] >= keys@[b]);
    }
    assert forall|a: int, b: int| 0 <= a < b < out@.len() implies
        utf8_len(#[trigger] out@[a]@) > utf8_len(#[trigger] out@[b]@)
        || (utf8_len(out@[a]@) == utf8_len(out@[b]@) && perm[a] < perm[b]) by {
        assert(keys@[a] > keys@[b] || (keys@[a] == keys@[b] && perm[a] < perm[b]));
    }
    assert(stable_longest_first(labels@, out@, perm));
    out
}

/// A line once `label` has been replaced by the decimal `value`: first `@label` by
/// `@value` everywhere, then, if the label still occurs, its whole-word occurrences.
pub open spec fn substituted(line: Seq<char>, label: Seq<char>, value: Seq<char>) -> Seq<char> {
    let l1 = replace_from(line, seq!['@'] + label, seq!['@'] + value, 0);
    if contains(l1, label) { replace_words(l1, label, value) } else { l1 }
}

/// Replaces a label by its position in each line of the program.
pub fn substitute_label(lines: &mut Vec<String>, label: &str, pos: u32)
    ensures
        final(lines)@.len() == old(lines)@.len(),
        forall|k: int| 0 <= k < old(lines)@.len() ==>
            #[trigger] final(lines)@[k]@ == substituted(old(lines)@[k]@, label@, dec(pos as nat)),
{
    let lv = chars_of(label);
    let value = fmt_digits(pos as u64, 10, false);
    let mut at_label: Vec<char> = Vec::new();
    at_label.push('@');
    append_chars(&mut at_label, &lv);
    let mut at_value: Vec<char> = Vec::new();
    at_value.push('@');
    append_chars(&mut at_value, &value);
    assert(at_label@ =~= seq!['@'] + label@);
    assert(at_value@ =~= seq!['@'] + dec(pos as nat));
    let ghost before = lines@;
    let mut k: usize = 0;
    while k < lines.len()
        invariant
            k <= lines@.len(),
            lines@.len() == before.len(),
            lv@ == label@,
            value@ == dec(pos as nat),
            at_label@ == seq!['@'] + label@,
            at_value@ == seq!['@'] + dec(pos as nat),
            at_label@.len() > 0,
            forall|m: int| k <= m < lines@.len() ==> #[trigger] lines@[m] == before[m],
            forall|m: int| 0 <= m < k ==>
                #[trigger] lines@[m]@ == substituted(before[m]@, label@, dec(pos as nat)),
        decreases lines@.len() - k,
    {
        let cur = chars_of(lines[k].as_str());
        let l1 = replace_all(&cur, &at_label, &at_value);
        let new_line = match find_chars(&l1, &lv) {
            Some(_) => {
                proof { lemma_find(l1@, lv@); }
                replace_whole_word_chars(&l1, &lv, &value)
            },
            None => {
                proof { lemma_find(l1@, lv@); }
                l1
            },
        };
        lines.set(k, string_of(&new_line));
        k = k + 1;
    }
}

/// What one line of the program assembles to: its machine word, or the message of
/// the error that stops the assembly.
pub open spec fn assembled(text: Seq<char>) -> Result<u32, Seq<char>> {
    match sp_parse_instruction(text) {
        Err(e) => Err("Assembly error at instruction: "@ + e.message()),
        Ok(i) => if encodable(i) {
            Ok(spec_encode(i))
        } else {
            Err("Assembly error at instruction: no machine word for '"@ + text + "'"@)
        },
    }
}

/// Parses and encodes one line of the program.
pub fn assemble_instruction(text: &str) -> (r: Result<u32, String>)
    ensures
        match assembled(text@) {
            Ok(w) => r == Ok::<u32, String>(w),
            Err(msg) => r matches Err(e) && e@ == msg,
        },
{
    match parse_instruction(text) {
        Ok(i) => {
            if i.is_encodable() {
                Ok(i.encode())
            } else {
                let mut v: Vec<char> = Vec::new();
                append_str(&mut v, "Assembly error at instruction: no machine word for '");
                append_str(&mut v, text);
                append_str(&mut v, "'");
                Err(string_of(&v))
            }
        },
        Err(e) => {
            let mut v: Vec<char> = Vec::new();
            append_str(&mut v, "Assembly error at instruction: ");
            append_str(&mut v, e.to_string().as_str());
            Err(string_of(&v))
        },
    }
}

} // verus!
