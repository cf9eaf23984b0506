//! Editing assembly source text: lines, comments, labels and substitutions.
use vstd::prelude::*;
use crate::text::{
    occurs_at, find, trim, chars_of, slice_chars, append_chars, find_chars, lemma_find,
};

verus! {

/// The name for the result of `char::is_alphanumeric`: whether the Unicode
/// `Alphabetic` or `Numeric` property holds of the character.
pub uninterp spec fn unicode_alphanumeric(c: char) -> bool;

/// `char::is_alphanumeric`. Its result is named by `unicode_alphanumeric`; of ASCII
/// characters, exactly the letters and digits are alphanumeric.
#[verifier::external_body]
fn char_is_alphanumeric(c: char) -> (r: bool)
    ensures
        r == unicode_alphanumeric(c),
        c < '\u{80}' ==> (r <==> (('a' <= c <= 'z') || ('A' <= c <= 'Z') || ('0' <= c <= '9'))),
{
    c.is_alphanumeric()
}

/// A character that can be part of a word (of a label): alphanumeric or `_`.
pub open spec fn word_char(c: char) -> bool {
    unicode_alphanumeric(c) || c == '_'
}

/// The first index at or after `i` at which `p` occurs.
pub open spec fn next_match(s: Seq<char>, p: Seq<char>, i: int) -> Option<int> {
    match find(s.skip(i), p) {
        Some(k) => Some(k + i),
        None => None,
    }
}

#[verifier::opaque]
/// `str::replace`: every non-overlapping occurrence of `from` (searched left to
/// right, from index `i` on) replaced by `to`. `from` must not be empty.
pub open spec fn replace_from(s: Seq<char>, from: Seq<char>, to: Seq<char>, i: int) -> Seq<char>
    decreases s.len() - i,
{
    if from.len() == 0 || i < 0 || i > s.len() {
        s.skip(i)
    } else {
        match next_match(s, from, i) {
            None => s.skip(i),
            Some(start) => {
                proof { lemma_next_match(s, from, i); }
                s.subrange(i, start) + to + replace_from(s, from, to, start + from.len())
            },
        }
    }
}

#[verifier::opaque]
/// Every occurrence of `from` that is a whole word (no word character right before
/// or after it) replaced by `to`, occurrences searched left to right from index `i`
/// without overlap.
pub open spec fn replace_words_from(s: Seq<char>, from: Seq<char>, to: Seq<char>, i: int) -> Seq<char>
    decreases s.len() - i,
{
    if from.len() == 0 || i < 0 || i > s.len() {
        s.skip(i)
    } else {
        match next_match(s, from, i) {
            None => s.skip(i),
            Some(start) => {
                proof { lemma_next_match(s, from, i); }
                let end = start + from.len();
                let left_ok = start == 0 || !word_char(s[start - 1]);
                let right_ok = end == s.len() || !word_char(s[end]);
                s.subrange(i, start) + (if left_ok && right_ok { to } else { from })
                    + replace_words_from(s, from, to, end)
            },
        }
    }
}

/// `replace_whole_word`: `s` unchanged for an empty `from`.
pub open spec fn replace_words(s: Seq<char>, from: Seq<char>, to: Seq<char>) -> Seq<char> {
    if from.len() == 0 { s } else { replace_words_from(s, from, to, 0) }
}

/// Where the next match lies.
pub proof fn lemma_next_match(s: Seq<char>, p: Seq<char>, i: int)
    requires
        0 <= i <= s.len(),
    ensures
        next_match(s, p, i) matches Some(k) ==> i <= k && occurs_at(s, p, k)
            && forall|j: int| i <= j < k ==> !occurs_at(s, p, j),
        next_match(s, p, i) is None ==> forall|j: int| i <= j ==> !occurs_at(s, p, j),
{
    lemma_find(s.skip(i), p);
    if let Some(k) = find(s.skip(i), p) {
        assert(s.skip(i).subrange(k, k + p.len()) =~= s.subrange(k + i, k + i + p.len()));
        assert forall|j: int| i <= j < k + i implies !occurs_at(s, p, j) by {
            if occurs_at(s, p, j) {
                assert(s.skip(i).subrange(j - i, j - i + p.len()) =~= s.subrange(j, j + p.len()));
                assert(occurs_at(s.skip(i), p, j - i));
            }
        }
    } else {
        assert forall|j: int| i <= j implies !occurs_at(s, p, j) by {
            if occurs_at(s, p, j) {
                assert(s.skip(i).subrange(j - i, j - i + p.len()) =~= s.subrange(j, j + p.len()));
                assert(occurs_at(s.skip(i), p, j - i));
            }
        }
    }
}

/// One step of `replace_from`: up to the next match, then the rest.
proof fn lemma_replace_step(s: Seq<char>, from: Seq<char>, to: Seq<char>, i: int)
    requires
        0 <= i <= s.len(),
        from.len() > 0,
    ensures
        next_match(s, from, i) matches Some(start) ==> i <= start && start + from.len() <= s.len()
            && replace_from(s, from, to, i)
            == s.subrange(i, start) + to + replace_from(s, from, to, start + from.len()),
        next_match(s, from, i) is None ==> replace_from(s, from, to, i) == s.skip(i),
{
    reveal(replace_from);
    lemma_next_match(s, from, i);
}

/// One step of `replace_words_from`: up to the next match, then the rest.
proof fn lemma_replace_words_step(s: Seq<char>, from: Seq<char>, to: Seq<char>, i: int)
    requires
        0 <= i <= s.len(),
        from.len() > 0,
    ensures
        next_match(s, from, i) matches Some(start) ==> {
            let end = start + from.len();
            let left_ok = start == 0 || !word_char(s[start - 1]);
            let right_ok = end == s.len() || !word_char(s[end]);
            &&& i <= start
            &&& end <= s.len()
            &&& replace_words_from(s, from, to, i) == s.subrange(i, start)
                + (if left_ok && right_ok { to } else { from }) + replace_words_from(s, from, to, end)
        },
        next_match(s, from, i) is None ==> replace_words_from(s, from, to, i) == s.skip(i),
{
    reveal(replace_words_from);
    lemma_next_match(s, from, i);
}

/// One step of `lines`: the first line, then the lines after its line break.
proof fn lemma_lines_step(s: Seq<char>)
    ensures
        s.len() == 0 ==> lines(s) == Seq::<Seq<char>>::empty(),
        s.len() > 0 && find(s, seq!['\n']) is None ==> lines(s) == seq![s],
        s.len() > 0 ==> (find(s, seq!['\n']) matches Some(k) ==> 0 <= k < s.len()
            && lines(s) == seq![strip_cr(s.take(k))] + lines(s.skip(k + 1))),
{
    reveal(lines);
    lemma_find(s, seq!['\n']);
}

/// The first index at or after `i` at which `p` occurs.
fn next_match_at(s: &Vec<char>, p: &Vec<char>, i: usize) -> (r: Option<usize>)
    requires
        i <= s@.len(),
    ensures
        r matches Some(k) ==> next_match(s@, p@, i as int) == Some(k as int),
        r is None ==> next_match(s@, p@, i as int) is None,
{
    let rest = slice_chars(s, i, s.len());
    assert(rest@ =~= s@.skip(i as int));
    match find_chars(&rest, p) {
        Some(k) => {
            proof {
                lemma_find(rest@, p@);
            }
            Some(k + i)
        },
        None => None,
    }
}

/// Replaces every occurrence of `from` (non-empty) by `to`, as `str::replace` does.
pub fn replace_all(s: &Vec<char>, from: &Vec<char>, to: &Vec<char>) -> (r: Vec<char>)
    requires
        from@.len() > 0,
    ensures
        r@ == replace_from(s@, from@, to@, 0),
{
    let mut out: Vec<char> = Vec::new();
    let mut i: usize = 0;
    loop
        invariant
            i <= s@.len(),
            from@.len() > 0,
            out@ + replace_from(s@, from@, to@, i as int) == replace_from(s@, from@, to@, 0),
        decreases s@.len() - i,
    {
        proof { lemma_replace_step(s@, from@, to@, i as int); }
        match next_match_at(s, from, i) {
            None => {
                let tail = slice_chars(s, i, s.len());
                append_chars(&mut out, &tail);
                assert(out@ =~= replace_from(s@, from@, to@, 0));
                return out;
            },
            Some(start) => {
                assert(next_match(s@, from@, i as int) == Some(start as int));
                let n = s.len();
                assert(start + from@.len() <= n);
                let ghost o = out@;
                let mid = slice_chars(s, i, start);
                append_chars(&mut out, &mid);
                append_chars(&mut out, to);
                assert(o + replace_from(s@, from@, to@, i as int)
                    =~= out@ + replace_from(s@, from@, to@, start + from@.len()));
                i = start + from.len();
            },
        }
    }
}

/// Whether a character can be part of a word.
fn is_word_char(c: char) -> (r: bool)
    ensures
        r == word_char(c),
{
    char_is_alphanumeric(c) || c == '_'
}

/// Replaces the whole-word occurrences of `from` by `to`.
#[verifier::rlimit(40)]
pub fn replace_whole_word_chars(s: &Vec<char>, from: &Vec<char>, to: &Vec<char>) -> (r: Vec<char>)
    ensures
        r@ == replace_words(s@, from@, to@),
{
    if from.len() == 0 {
        return slice_chars(s, 0, s.len());
    }
    let mut out: Vec<char> = Vec::new();
    let mut i: usize = 0;
    loop
        invariant
            i <= s@.len(),
            from@.len() > 0,
            out@ + replace_words_from(s@, from@, to@, i as int) == replace_words_from(s@, from@, to@, 0),
        decreases s@.len() - i,
    {
        proof { lemma_replace_words_step(s@, from@, to@, i as int); }
        match next_match_at(s, from, i) {
            None => {
                let tail = slice_chars(s, i, s.len());
                append_chars(&mut out, &tail);
                assert(out@ =~= replace_words_from(s@, from@, to@, 0));
                return out;
            },
            Some(start) => {
                assert(next_match(s@, from@, i as int) == Some(start as int));
                let n = s.len();
                assert(start + from@.len() <= n);
                let end = start + from.len();
                let left_ok = start == 0 || !is_word_char(s[start - 1]);
                let right_ok = end == s.len() || !is_word_char(s[end]);
                let ghost o = out@;
                let mid = slice_chars(s, i, start);
                append_chars(&mut out, &mid);
                if left_ok && right_ok {
                    append_chars(&mut out, to);
                } else {
                    append_chars(&mut out, from);
                }
                assert(o + replace_words_from(s@, from@, to@, i as int)
                    =~= out@ + replace_words_from(s@, from@, to@, end as int));
                i = end;
            },
        }
    }
}

/// Replaces the whole-word occurrences of `from` in `s` by `to`: occurrences with
/// neither an alphanumeric character nor `_` right before or after them.
pub fn replace_whole_word(s: &str, from: &str, to: &str) -> (r: String)
    ensures
        r@ == replace_words(s@, from@, to@),
{
    let sv = chars_of(s);
    let fv = chars_of(from);
    let tv = chars_of(to);
    let r = replace_whole_word_chars(&sv, &fv, &tv);
    crate::text::string_of(&r)
}

/// A line without the `\r` of a `\r\n` ending.
pub open spec fn strip_cr(l: Seq<char>) -> Seq<char> {
    if l.len() > 0 && l.last() == '\r' { l.drop_last() } else { l }
}

#[verifier::opaque]
/// `str::lines`: the text split at `\n`, each line without its `\r\n` or `\n`
/// ending, and no empty line after a final line break.
pub open spec fn lines(s: Seq<char>) -> Seq<Seq<char>>
    decreases s.len(),
{
    if s.len() == 0 {
        Seq::empty()
    } else {
        match find(s, seq!['\n']) {
            None => seq![s],
            Some(i) => {
                proof { lemma_find(s, seq!['\n']); }
                seq![strip_cr(s.take(i))] + lines(s.skip(i + 1))
            },
        }
    }
}

/// The lines of a text.
#[verifier::rlimit(40)]
pub fn split_lines(s: &Vec<char>) -> (r: Vec<Vec<char>>)
    ensures
        r@.len() == lines(s@).len(),
        forall|k: int| 0 <= k < r@.len() ==> #[trigger] r@[k]@ == lines(s@)[k],
{
    let mut nl: Vec<char> = Vec::new();
    nl.push('\n');
    assert(nl@ =~= seq!['\n']);
    let mut out: Vec<Vec<char>> = Vec::new();
    let ghost mut done: Seq<Seq<char>> = Seq::empty();
    let mut i: usize = 0;
    assert(s@.skip(0) =~= s@);
    assert(done + lines(s@) =~= lines(s@));
    loop
        invariant
            i <= s@.len(),
            nl@ == seq!['\n'],
            out@.len() == done.len(),
            forall|k: int| 0 <= k < out@.len() ==> #[trigger] out@[k]@ == done[k],
            done + lines(s@.skip(i as int)) == lines(s@),
        decreases s@.len() - i,
    {
        let rest = slice_chars(s, i, s.len());
        assert(rest@ =~= s@.skip(i as int));
        proof { lemma_lines_step(rest@); }
        if rest.len() == 0 {
            assert(done =~= lines(s@));
            return out;
        }
        match find_chars(&rest, &nl) {
            None => {
                proof { done = done.push(rest@); }
                out.push(rest);
                assert(done =~= lines(s@));
                return out;
            },
            Some(k) => {
                let mut line = slice_chars(&rest, 0, k);
                if line.len() > 0 && line[line.len() - 1] == '\r' {
                    line.pop();
                }
                assert(line@ =~= strip_cr(rest@.take(k as int)));
                let ghost d0 = done;
                proof { done = done.push(line@); }
                out.push(line);
                assert(rest@.skip(k + 1) =~= s@.skip(i + k + 1));
                assert(d0 + lines(s@.skip(i as int)) =~= done + lines(s@.skip(i + k + 1)));
                i = i + k + 1;
            },
        }
    }
}

/// The code of a line: the text before the first `;`, trimmed.
pub open spec fn strip_comment(line: Seq<char>) -> Seq<char> {
    match find(line, seq![';']) {
        Some(i) => trim(line.take(i)),
        None => trim(line),
    }
}

/// The code of a line without its comment.
pub fn strip_comment_chars(line: &Vec<char>) -> (r: Vec<char>)
    ensures
        r@ == strip_comment(line@),
{
    let mut semi: Vec<char> = Vec::new();
    semi.push(';');
    assert(semi@ =~= seq![';']);
    match find_chars(line, &semi) {
        Some(i) => {
            proof { lemma_find(line@, semi@); }
            let head = slice_chars(line, 0, i);
            crate::text::trim_chars(&head)
        },
        None => crate::text::trim_chars(line),
    }
}

/// Whether a label is usable: not empty, and made of word characters only.
pub open spec fn valid_label(l: Seq<char>) -> bool {
    l.len() > 0 && forall|k: int| 0 <= k < l.len() ==> #[trigger] word_char(l[k])
}

/// A code line's label (if it has a valid one before its first `:`) and the
/// instruction text that follows it.
pub open spec fn split_label(code: Seq<char>) -> (Option<Seq<char>>, Seq<char>) {
    match find(code, seq![':']) {
        Some(pos) => {
            let label = trim(code.take(pos));
            if valid_label(label) {
                (Some(label), trim(code.skip(pos + 1)))
            } else {
                (None, code)
            }
        },
        None => (None, code),
    }
}

/// Whether every character of a label can be part of a word, and it is not empty.
fn is_valid_label(l: &Vec<char>) -> (r: bool)
    ensures
        r == valid_label(l@),
{
    if l.len() == 0 {
        return false;
    }
    let mut i: usize = 0;
    while i < l.len()
        invariant
            i <= l@.len(),
            forall|k: int| 0 <= k < i ==> #[trigger] word_char(l@[k]),
        decreases l@.len() - i,
    {
        if !is_word_char(l[i]) {
            return false;
        }
        i = i + 1;
    }
    true
}

/// Splits a code line into its label, if any, and its instruction text.
pub fn split_label_chars(code: &Vec<char>) -> (r: (Option<Vec<char>>, Vec<char>))
    ensures
        (match r.0 { Some(l) => Some(l@), None => None::<Seq<char>> }, r.1@) == split_label(code@),
{
    let mut colon: Vec<char> = Vec::new();
    colon.push(':');
    assert(colon@ =~= seq![':']);
    match find_chars(code, &colon) {
        Some(pos) => {
            proof {
                lemma_find(code@, colon@);
                assert(occurs_at(code@, colon@, pos as int));
            }
            let n = code.len();
            let head = slice_chars(code, 0, pos);
            let label = crate::text::trim_chars(&head);
            if is_valid_label(&label) {
                let tail = slice_chars(code, pos + 1, n);
                assert(tail@ =~= code@.skip(pos + 1));
                (Some(label), crate::text::trim_chars(&tail))
            } else {
                (None, slice_chars(code, 0, code.len()))
            }
        },
        None => (None, slice_chars(code, 0, code.len())),
    }
}

} // verus!
