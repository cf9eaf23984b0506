//! A text dump of memory, with runs of zero words folded into one line.
use vstd::prelude::*;
use crate::numtext::{lemma_digits_of_len, lemma_digits_of_value, lemma_leading_zeros, lemma_digits_upper, all_digits, digits_value, hex_upper, pad_left, fmt_digits, pad_chars};
use crate::text::{string_of, append_str, append_chars};

verus! {

/// The width of the address column: the number of hexadecimal digits of the
/// largest address of `n` words.
pub open spec fn index_width(n: nat) -> nat {
    hex_upper(if n == 0 { 0 } else { (n - 1) as nat }).len()
}

/// The last index of the run of zero words that starts at `i`.
pub open spec fn zero_run_end(d: Seq<u32>, i: int) -> int
    decreases d.len() - i,
{
    if 0 <= i && i + 1 < d.len() && d[i + 1] == 0 { zero_run_end(d, i + 1) } else { i }
}

/// An address, right-aligned in the address column.
pub open spec fn addr_text(i: nat, w: nat) -> Seq<char> {
    pad_left(hex_upper(i), w, ' ')
}

/// The line of a run of zero words from `start` to `end`.
pub open spec fn zero_line(start: nat, end: nat, w: nat) -> Seq<char> {
    if start == end {
        "["@ + addr_text(start, w) + "]: 0\n"@
    } else {
        "["@ + addr_text(start, w) + "-"@ + addr_text(end, w) + "]: 0\n"@
    }
}

/// The line of a word that is not zero: its address and its eight hexadecimal digits.
pub open spec fn value_line(i: nat, v: u32, w: nat) -> Seq<char> {
    "["@ + addr_text(i, w) + "]: "@ + pad_left(hex_upper(v as nat), 8, '0') + "\n"@
}

/// A run of zero words ends inside the memory, at or after its start.
pub proof fn lemma_zero_run(d: Seq<u32>, i: int)
    requires
        0 <= i < d.len(),
    ensures
        i <= zero_run_end(d, i) < d.len(),
    decreases d.len() - i,
{
    if i + 1 < d.len() && d[i + 1] == 0 {
        lemma_zero_run(d, i + 1);
    }
}

/// The run of zero words from `i` ends at `e` when the words from `i` to `e` are
/// zero and the next is not (or there is none).
proof fn lemma_zero_run_at(d: Seq<u32>, i: int, e: int)
    requires
        0 <= i <= e < d.len(),
        forall|k: int| i < k <= e ==> d[k] == 0,
        e + 1 == d.len() || d[e + 1] != 0,
    ensures
        zero_run_end(d, i) == e,
    decreases e - i,
{
    if i < e {
        lemma_zero_run_at(d, i + 1, e);
    }
}

#[verifier::opaque]
/// The lines of the words from index `i` on.
pub open spec fn dump_from(d: Seq<u32>, i: int, w: nat) -> Seq<char>
    decreases d.len() - i,
{
    if i < 0 || i >= d.len() {
        Seq::empty()
    } else if d[i] == 0 {
        proof { lemma_zero_run(d, i); }
        let e = zero_run_end(d, i);
        zero_line(i as nat, e as nat, w) + dump_from(d, e + 1, w)
    } else {
        value_line(i as nat, d[i], w) + dump_from(d, i + 1, w)
    }
}

/// The text dump of a memory: one line per word that is not zero, one per run of
/// zero words.
pub open spec fn memory_dump_spec(d: Seq<u32>) -> Seq<char> {
    dump_from(d, 0, index_width(d.len()))
}

proof fn lemma_dump_step(d: Seq<u32>, i: int, w: nat)
    ensures
        i >= d.len() ==> dump_from(d, i, w) == Seq::<char>::empty(),
        0 <= i < d.len() && d[i] == 0 ==> dump_from(d, i, w)
            == zero_line(i as nat, zero_run_end(d, i) as nat, w) + dump_from(d, zero_run_end(d, i) + 1, w),
        0 <= i < d.len() && d[i] != 0 ==> dump_from(d, i, w)
            == value_line(i as nat, d[i], w) + dump_from(d, i + 1, w),
{
    reveal(dump_from);
}

/// An address in the address column.
fn addr_chars(i: usize, width: usize) -> (r: Vec<char>)
    ensures
        r@ == addr_text(i as nat, width as nat),
{
    pad_chars(&fmt_digits(i as u64, 16, true), width, ' ')
}

/// The text dump of a memory. A run of zero words is one line
/// `[start-end]: 0` (or `[i]: 0` for a single zero word); any other word is a
/// line `[i]: XXXXXXXX`. Addresses are in hexadecimal, right-aligned to the width
/// of the largest one.
pub fn memory_dump(data: &[u32]) -> (r: String)
    ensures
        r@ == memory_dump_spec(data@),
{
    let n = data.len();
    let max_idx: usize = if n == 0 { 0 } else { n - 1 };
    let width = fmt_digits(max_idx as u64, 16, true).len();
    let ghost w = width as nat;
    assert(w == index_width(data@.len()));
    let mut out: Vec<char> = Vec::new();
    let mut i: usize = 0;
    while i < n
        invariant
            n == data@.len(),
            i <= n,
            w == width,
            out@ + dump_from(data@, i as int, w) == memory_dump_spec(data@),
        decreases n - i,
    {
        let ghost o = out@;
        proof { lemma_dump_step(data@, i as int, w); }
        if data[i] == 0 {
            let start = i;
            proof { lemma_zero_run(data@, start as int); }
            while i < n && data[i] == 0
                invariant
                    n == data@.len(),
                    start <= i <= n,
                    start < n,
                    data@[start as int] == 0,
                    forall|k: int| start <= k < i ==> data@[k] == 0,
                decreases n - i,
            {
                i = i + 1;
            }
            let end = i - 1;
            proof { lemma_zero_run_at(data@, start as int, end as int); }
            append_str(&mut out, "[");
            append_chars(&mut out, &addr_chars(start, width));
            if start != end {
                append_str(&mut out, "-");
                append_chars(&mut out, &addr_chars(end, width));
            }
            append_str(&mut out, "]: 0\n");
            assert(out@ =~= o + zero_line(start as nat, end as nat, w));
        } else {
            append_str(&mut out, "[");
            append_chars(&mut out, &addr_chars(i, width));
            append_str(&mut out, "]: ");
            append_chars(&mut out, &pad_chars(&fmt_digits(data[i] as u64, 16, true), 8, '0'));
            append_str(&mut out, "\n");
            assert(out@ =~= o + value_line(i as nat, data@[i as int], w));
            i = i + 1;
        }
    }
    proof { lemma_dump_step(data@, i as int, w); }
    assert(out@ =~= memory_dump_spec(data@));
    string_of(&out)
}

/// The address column of a dump of `n` words is as wide as the hexadecimal text of
/// its largest address `n - 1`: that many hex digits hold it, and (beyond one
/// digit) one fewer would not.
pub proof fn lemma_index_width(n: nat)
    requires
        n > 0,
    ensures
        index_width(n) >= 1,
        n - 1 < vstd::arithmetic::power::pow(16, index_width(n)),
        index_width(n) == 1 || vstd::arithmetic::power::pow(16, (index_width(n) - 1) as nat) <= n - 1,
{
    lemma_digits_of_len((n - 1) as nat, 16, true);
}

/// A run of zero words is as long as it can be: every word from its start to its
/// end is zero, and the word after it (if any) is not.
pub proof fn lemma_zero_run_maximal(d: Seq<u32>, i: int)
    requires
        0 <= i < d.len(),
        d[i] == 0,
    ensures
        forall|k: int| i <= k <= zero_run_end(d, i) ==> d[k] == 0,
        zero_run_end(d, i) + 1 == d.len() || d[zero_run_end(d, i) + 1] != 0,
    decreases d.len() - i,
{
    if i + 1 < d.len() && d[i + 1] == 0 {
        lemma_zero_run_maximal(d, i + 1);
    }
}

/// The value column of a word that is not zero holds eight upper-case hexadecimal
/// digits that read back as the word.
pub proof fn lemma_value_digits(v: u32)
    ensures
        ({
            let t = pad_left(hex_upper(v as nat), 8, '0');
            &&& t.len() == 8
            &&& all_digits(t, 16)
            &&& digits_value(t, 16) == v
            &&& forall|k: int| 0 <= k < 8 ==> ('0' <= #[trigger] t[k] <= '9' || 'A' <= t[k] <= 'F')
        }),
{
    let h = hex_upper(v as nat);
    lemma_digits_of_value(v as nat, 16, true);
    lemma_digits_of_len(v as nat, 16, true);
    lemma_digits_upper(v as nat);
    if h.len() > 8 {
        vstd::arithmetic::power::lemma_pow_increases(16, 8, (h.len() - 1) as nat);
        reveal_with_fuel(vstd::arithmetic::power::pow, 9);
        assert(vstd::arithmetic::power::pow(16, 8) == 0x1_0000_0000);
    }
    let t = pad_left(h, 8, '0');
    if h.len() < 8 {
        lemma_leading_zeros((8 - h.len()) as nat, h, 16);
        assert(t == Seq::new((8 - h.len()) as nat, |i: int| '0') + h);
        assert forall|k: int| 0 <= k < 8 implies ('0' <= #[trigger] t[k] <= '9' || 'A' <= t[k] <= 'F') by {
            if k >= 8 - h.len() {
                assert(t[k] == h[k - (8 - h.len())]);
            }
        }
    }
}

} // verus!
