//! What assembling a program puts into a writer, stated over the writer's own
//! description of itself (its words, labels and macros).
use vstd::prelude::*;
use crate::text::starts_with;
use crate::numtext::dec;
use super::program::{source_items_spec, substituted, assembled, utf8_len, stable_longest_first};
use super::writer::{ExecutableWriter, str_views};

verus! {

#[verifier::opaque]
/// Whether a line assembles to a word.
pub open spec fn line_ok(l: Seq<char>) -> bool {
    assembled(l) is Ok
}

#[verifier::opaque]
/// The word a line assembles to.
pub open spec fn line_word(l: Seq<char>) -> u32 {
    assembled(l)->Ok_0
}

/// The instruction texts of a program's code items, in order; items with only a
/// label hold none.
pub open spec fn code_lines(items: Seq<(Option<Seq<char>>, Seq<char>)>) -> Seq<Seq<char>>
    decreases items.len(),
{
    if items.len() == 0 {
        Seq::empty()
    } else {
        let rest = code_lines(items.drop_last());
        if items.last().1.len() > 0 { rest.push(items.last().1) } else { rest }
    }
}

/// The labels of the items, each with the number of code lines before it.
pub open spec fn source_labels(items: Seq<(Option<Seq<char>>, Seq<char>)>) -> Seq<(Seq<char>, u32)>
    decreases items.len(),
{
    if items.len() == 0 {
        Seq::empty()
    } else {
        let prev = source_labels(items.drop_last());
        match items.last().0 {
            Some(l) => prev.push((l, code_lines(items.drop_last()).len() as u32)),
            None => prev,
        }
    }
}

/// The labels of the first items come first.
pub proof fn lemma_source_labels_prefix(items: Seq<(Option<Seq<char>>, Seq<char>)>, i: int)
    requires
        0 <= i <= items.len(),
    ensures
        source_labels(items.take(i)).len() <= source_labels(items).len(),
        source_labels(items).take(source_labels(items.take(i)).len() as int) == source_labels(items.take(i)),
    decreases items.len() - i,
{
    if i < items.len() {
        lemma_source_labels_prefix(items, i + 1);
        let t = items.take(i + 1);
        assert(t.drop_last() =~= items.take(i));
        let a = source_labels(items.take(i));
        let b = source_labels(t);
        let c = source_labels(items);
        assert(b.take(a.len() as int) =~= a);
        assert(c.take(a.len() as int) =~= b.take(a.len() as int));
    } else {
        assert(items.take(i) =~= items);
        assert(source_labels(items).take(source_labels(items).len() as int) =~= source_labels(items));
    }
}

/// Whether no instruction text starts with `STRING`, the built-in macro.
pub open spec fn no_string_line(items: Seq<(Option<Seq<char>>, Seq<char>)>) -> bool {
    forall|k: int| 0 <= k < items.len() ==> !starts_with(#[trigger] items[k].1, "STRING"@)
}

/// Whether no instruction text starts with one of the macro names.
pub open spec fn no_macro_applies(items: Seq<(Option<Seq<char>>, Seq<char>)>, names: Seq<Seq<char>>) -> bool {
    forall|k: int, j: int| 0 <= k < items.len() && 0 <= j < names.len()
        ==> !starts_with(#[trigger] items[k].1, #[trigger] names[j])
}

/// The addresses a writer reports for some labels.
pub open spec fn label_values<T: ExecutableWriter>(w: T, labels: Seq<Seq<char>>) -> Seq<u32> {
    labels.map_values(|l: Seq<char>| w.label_value(l))
}

/// A line with the labels replaced by their addresses in turn, the first label
/// first.
pub open spec fn subst_line(line: Seq<char>, labels: Seq<Seq<char>>, vals: Seq<u32>) -> Seq<char>
    decreases labels.len(),
{
    if labels.len() == 0 || vals.len() == 0 {
        line
    } else {
        substituted(subst_line(line, labels.drop_last(), vals.drop_last()), labels.last(), dec(vals.last() as nat))
    }
}

/// The program's lines once the labels, in the order given, are replaced.
pub open spec fn program_of(src: Seq<char>, sorted: Seq<Seq<char>>, vals: Seq<u32>) -> Seq<Seq<char>> {
    code_lines(source_items_spec(src)).map_values(|l: Seq<char>| subst_line(l, sorted, vals))
}

/// The words before, with the words of the first `m` lines written at their
/// positions.
pub open spec fn words_after(before: Map<int, u32>, prog: Seq<Seq<char>>, m: int) -> Map<int, u32>
    decreases m,
{
    if m <= 0 {
        before
    } else {
        words_after(before, prog, m - 1).insert(m - 1, line_word(prog[m - 1]))
    }
}

/// `r` is `s` reordered longest first, labels of equal length in their order in `s`.
pub open spec fn stable_order(s: Seq<Seq<char>>, r: Seq<Seq<char>>, perm: Seq<int>) -> bool {
    &&& r.len() == s.len()
    &&& perm.len() == r.len()
    &&& forall|k: int| 0 <= k < r.len() ==> 0 <= #[trigger] perm[k] < s.len() && r[k] == s[perm[k]]
    &&& forall|a: int, b: int| 0 <= a < b < r.len() ==> #[trigger] perm[a] != #[trigger] perm[b]
    &&& forall|a: int, b: int| 0 <= a < b < r.len() ==>
        utf8_len(#[trigger] r[a]) > utf8_len(#[trigger] r[b])
        || (utf8_len(r[a]) == utf8_len(r[b]) && perm[a] < perm[b])
}

/// `r` orders the labels `s` longest first, stably.
pub open spec fn longest_first_order(s: Seq<Seq<char>>, r: Seq<Seq<char>>) -> bool {
    exists|perm: Seq<int>| #[trigger] stable_order(s, r, perm)
}

/// What assembling `src` left in writer `w`, whose words were `before`: the words
/// of the first `m` lines of the program (labels replaced in the order `sorted`,
/// by the addresses `w` reports) are written at their positions, each the word its
/// line assembles to, and nothing else; once a word was written, `sorted` is the
/// writer's labels, longest first.
pub open spec fn assembly_outcome<T: ExecutableWriter>(
    src: Seq<char>, w: T, sorted: Seq<Seq<char>>, m: int, before: Map<int, u32>,
) -> bool {
    let prog = program_of(src, sorted, label_values(w, sorted));
    &&& 0 <= m <= prog.len()
    &&& forall|k: int| 0 <= k < m ==> #[trigger] line_ok(prog[k])
    &&& w.words() == words_after(before, prog, m)
    &&& m > 0 ==> longest_first_order(w.label_names(), sorted)
}

/// Every line of the program was written, with the writer's labels longest first.
pub open spec fn assembly_complete<T: ExecutableWriter>(src: Seq<char>, w: T, sorted: Seq<Seq<char>>, m: int) -> bool {
    &&& m == program_of(src, sorted, label_values(w, sorted)).len()
    &&& longest_first_order(w.label_names(), sorted)
}

/// Nothing written yet: the outcome of a run that stopped before its first word.
pub proof fn lemma_nothing_written<T: ExecutableWriter>(src: Seq<char>, w: T, before: Map<int, u32>)
    requires
        w.words() == before,
    ensures
        assembly_outcome(src, w, Seq::<Seq<char>>::empty(), 0, before),
{
}

/// The longest-first order of labels, taken as texts.
pub proof fn lemma_stable_views(s: Seq<&str>, r: Seq<&str>, perm: Seq<int>)
    requires
        stable_longest_first(s, r, perm),
        r.len() == s.len(),
    ensures
        stable_order(str_views(s), str_views(r), perm),
        longest_first_order(str_views(s), str_views(r)),
{
    let sv = str_views(s);
    let rv = str_views(r);
    assert forall|k: int| 0 <= k < rv.len() implies 0 <= #[trigger] perm[k] < sv.len() && rv[k] == sv[perm[k]] by {
        assert(0 <= perm[k] < s.len() && r[k] == s[perm[k]]);
    }
    assert forall|a: int, b: int| 0 <= a < b < rv.len() implies
        utf8_len(#[trigger] rv[a]) > utf8_len(#[trigger] rv[b])
        || (utf8_len(rv[a]) == utf8_len(rv[b]) && perm[a] < perm[b]) by {
        assert(utf8_len(r[a]@) > utf8_len(r[b]@) || (utf8_len(r[a]@) == utf8_len(r[b]@) && perm[a] < perm[b]));
    }
    assert(stable_order(sv, rv, perm));
}

/// The code lines of the first `i + 1` items: those of the first `i`, and item
/// `i`'s text if it has one.
pub proof fn lemma_code_lines_step(items: Seq<(Option<Seq<char>>, Seq<char>)>, i: int)
    requires
        0 <= i < items.len(),
    ensures
        code_lines(items.take(i + 1)) == (if items[i].1.len() > 0 {
            code_lines(items.take(i)).push(items[i].1)
        } else {
            code_lines(items.take(i))
        }),
{
    assert(items.take(i + 1).drop_last() =~= items.take(i));
}

/// Replacing one more label extends the substitution by that label.
pub proof fn lemma_subst_step(line: Seq<char>, labels: Seq<Seq<char>>, vals: Seq<u32>, k: int)
    requires
        0 <= k < labels.len(),
        vals.len() == labels.len(),
    ensures
        subst_line(line, labels.take(k + 1), vals.take(k + 1))
            == substituted(subst_line(line, labels.take(k), vals.take(k)), labels[k], dec(vals[k] as nat)),
{
    assert(labels.take(k + 1).drop_last() =~= labels.take(k));
    assert(vals.take(k + 1).drop_last() =~= vals.take(k));
}

/// The words of `words_after`: those of the first `m` lines at their positions,
/// the words before everywhere else.
pub proof fn lemma_words_after(before: Map<int, u32>, prog: Seq<Seq<char>>, m: int)
    ensures
        forall|p: int| #[trigger] words_after(before, prog, m).contains_key(p)
            <==> (before.contains_key(p) || 0 <= p < m),
        forall|p: int| 0 <= p < m ==> #[trigger] words_after(before, prog, m)[p] == line_word(prog[p]),
        forall|p: int| !(0 <= p < m) && before.contains_key(p)
            ==> #[trigger] words_after(before, prog, m)[p] == before[p],
    decreases m,
{
    if m > 0 {
        lemma_words_after(before, prog, m - 1);
        let w = words_after(before, prog, m - 1);
        assert(words_after(before, prog, m) == w.insert(m - 1, line_word(prog[m - 1])));
        assert forall|p: int| 0 <= p < m implies #[trigger] words_after(before, prog, m)[p] == line_word(prog[p]) by {
            if p < m - 1 {
                assert(w[p] == line_word(prog[p]));
            }
        }
        assert forall|p: int| !(0 <= p < m) && before.contains_key(p)
            implies #[trigger] words_after(before, prog, m)[p] == before[p] by {
            assert(w[p] == before[p]);
        }
    }
}

/// `n` words of memory, zero but for the words of the first `m` lines of `prog`,
/// each at its line's position.
pub open spec fn memory_with_program(n: nat, prog: Seq<Seq<char>>, m: int) -> Seq<u32> {
    Seq::new(n, |p: int| if p < m { line_word(prog[p]) } else { 0u32 })
}

/// What assembling `src` into zeroed memory left there: the first `m` lines of the
/// program, with its labels `sorted` replaced by the addresses `vals`, assemble
/// and stand at their positions; every other word is zero.
pub open spec fn program_in_memory(src: Seq<char>, mem: Seq<u32>, sorted: Seq<Seq<char>>, vals: Seq<u32>, m: int) -> bool {
    let prog = program_of(src, sorted, vals);
    &&& vals.len() == sorted.len()
    &&& 0 <= m <= prog.len()
    &&& m <= mem.len()
    &&& forall|k: int| 0 <= k < m ==> #[trigger] line_ok(prog[k])
    &&& mem == memory_with_program(mem.len(), prog, m)
}

} // verus!
