//! The assembler: from a program's text to machine words in an `ExecutableWriter`.
use vstd::prelude::*;

pub mod parse_spec;
pub mod parse;
pub mod edit;
pub mod default_macros;
pub mod program;
pub mod writer;
pub mod simple_writer;
pub mod laws;
pub mod outcome;

pub use parse::{parse_instruction, parse_reg_name, ParseError};
pub use writer::ExecutableWriter;
pub use simple_writer::SimpleExecutableWriter;
pub use edit::replace_whole_word;

use crate::text::{chars_of, chars_start_with, starts_with};
use default_macros::asm_string_macro;
use program::{
    source_items, source_items_spec, item_view, sort_labels, substitute_label, assemble_instruction,
    stable_longest_first,
};
use outcome::{
    no_macro_applies, no_string_line, source_labels, lemma_source_labels_prefix, assembly_outcome, assembly_complete, code_lines, lemma_nothing_written,
    lemma_code_lines_step, lemma_stable_views, label_values, subst_line, lemma_subst_step,
    program_of, words_after, longest_first_order, line_ok, line_word,
};
use writer::str_views;
use crate::numtext::dec;
use program::substituted;

verus! {

/// Parses and encodes one line, stated over `line_ok` and `line_word`.
fn assemble_line(text: &str) -> (r: Result<u32, String>)
    ensures
        r matches Ok(w) ==> line_ok(text@) && line_word(text@) == w,
        r is Err ==> !line_ok(text@),
{
    proof {
        reveal(line_ok);
        reveal(line_word);
    }
    assemble_instruction(text)
}

/// Assembles a program of several lines into an `ExecutableWriter`.
///
/// First each line loses its comment (from `;` on) and surrounding blanks; a
/// label before a `:` is recorded at the position of the next instruction; a
/// line that starts with a macro's name (the built-in `STRING`, then the
/// writer's own) is replaced by the lines the macro makes of it. Then each label
/// is replaced by its position, the longest labels first. Last, each line is
/// parsed and its word written at its position.
#[verifier::rlimit(60)]
pub fn assemble<T: ExecutableWriter>(src: &str, ew: &mut T) -> (r: Result<(), String>)
    ensures
        no_macro_applies(source_items_spec(src@), T::macro_specs()) && no_string_line(source_items_spec(src@))
            ==> exists|sorted: Seq<Seq<char>>, m: int|
            #[trigger] assembly_outcome(src@, *final(ew), sorted, m, old(ew).words())
            && (r is Ok ==> assembly_complete(src@, *final(ew), sorted, m)),
        final(ew).frame() == old(ew).frame(),
        old(ew).wf() ==> final(ew).wf(),
        no_macro_applies(source_items_spec(src@), T::macro_specs()) && no_string_line(source_items_spec(src@))
            ==> exists|j: int| 0 <= j <= source_labels(source_items_spec(src@)).len()
                && #[trigger] final(ew).handed_labels()
                    == old(ew).handed_labels() + source_labels(source_items_spec(src@)).take(j)
                && (r is Ok ==> j == source_labels(source_items_spec(src@)).len()),
{
    let ghost items_s = source_items_spec(src@);
    let ghost nm = no_macro_applies(items_s, T::macro_specs()) && no_string_line(items_s);
    let ghost labels_s = source_labels(items_s);
    let ghost h0 = ew.handed_labels();
    let ghost w0 = ew.words();
    let items = source_items(src);
    let mut instructions: Vec<String> = Vec::new();
    let names = T::macro_names();
    let string_name: Vec<char> = chars_of("STRING");

    // pass 1: labels, macros, instruction lines
    let mut i: usize = 0;
    assert(items_s.take(0) =~= Seq::<(Option<Seq<char>>, Seq<char>)>::empty());
    while i < items.len()
        invariant
            i <= items@.len(),
            items_s == source_items_spec(src@),
            nm == (no_macro_applies(items_s, T::macro_specs()) && no_string_line(items_s)),
            items@.len() == items_s.len(),
            forall|k: int| 0 <= k < items@.len() ==> #[trigger] item_view(items@[k]) == items_s[k],
            string_name@ == "STRING"@,
            str_views(names@) == T::macro_specs(),
            ew.words() == w0,
            w0 == old(ew).words(),
            ew.frame() == old(ew).frame(),
            old(ew).wf() ==> ew.wf(),
            labels_s == source_labels(items_s),
            h0 == old(ew).handed_labels(),
            nm ==> ew.handed_labels() == h0 + source_labels(items_s.take(i as int)),
            nm ==> instructions@.len() == code_lines(items_s.take(i as int)).len(),
            nm ==> forall|m: int| 0 <= m < instructions@.len()
                ==> #[trigger] instructions@[m]@ == code_lines(items_s.take(i as int))[m],
        decreases items@.len() - i,
    {
        assert(item_view(items@[i as int]) == items_s[i as int]);
        let ghost ti = items_s.take(i as int);
        let ghost ti1 = items_s.take(i + 1);
        assert(ti1.drop_last() =~= ti);
        assert(ti1.last() == items_s[i as int]);
        proof {
            lemma_source_labels_prefix(items_s, i + 1);
        }
        let item = &items[i];
        if let Some(label) = &item.0 {
            let at: u32 = instructions.len() as u32;
            let added = ew.add_label(label.as_str(), at);
            proof {
                if nm {
                    assert(source_labels(ti1) == source_labels(ti).push((label@, at)));
                    assert(ew.handed_labels() =~= h0 + source_labels(ti1));
                }
            }
            match added {
                Ok(_) => {},
                Err(e) => {
                    proof {
                        lemma_nothing_written(src@, *ew, w0);
                        if nm {
                            assert(ew.handed_labels() == h0 + labels_s.take(source_labels(ti1).len() as int));
                        }
                    }
                    return Err(e);
                },
            }
        } else {
            proof {
                if nm {
                    assert(source_labels(ti1) == source_labels(ti));
                }
            }
        }
        let ghost hh = ew.handed_labels();
        let text = chars_of(item.1.as_str());
        assert(text@ == items_s[i as int].1);
        proof {
            lemma_code_lines_step(items_s, i as int);
        }
        if text.len() > 0 {
            if chars_start_with(&text, &string_name) {
                proof {
                    if nm {
                        assert(!starts_with(items_s[i as int].1, "STRING"@));
                    }
                }
                match asm_string_macro(item.1.as_str(), &mut instructions) {
                    Ok(_) => {},
                    Err(e) => {
                        proof { lemma_nothing_written(src@, *ew, w0); }
                        return Err(e);
                    },
                }
            } else {
                let ghost before_macros = instructions@;
                let mut k: usize = 0;
                let mut applied = false;
                while k < names.len() && !applied
                    invariant
                        i < items@.len(),
                        items_s == source_items_spec(src@),
                        nm == (no_macro_applies(items_s, T::macro_specs()) && no_string_line(items_s)),
                        items@.len() == items_s.len(),
                        str_views(names@) == T::macro_specs(),
                        text@ == items_s[i as int].1,
                        ew.words() == w0,
                        w0 == old(ew).words(),
                        ew.frame() == old(ew).frame(),
                        old(ew).wf() ==> ew.wf(),
                        nm ==> !applied && instructions@ == before_macros && ew.handed_labels() == hh,
                    decreases names@.len() - k,
                {
                    let name: &str = names[k];
                    if chars_start_with(&text, &chars_of(name)) {
                        proof {
                            if nm {
                                assert(str_views(names@)[k as int] == name@);
                                assert(!starts_with(items_s[i as int].1, T::macro_specs()[k as int]));
                            }
                        }
                        match ew.apply_macro(k, item.1.as_str(), &mut instructions) {
                            Ok(_) => {},
                            Err(e) => {
                                proof { lemma_nothing_written(src@, *ew, w0); }
                                return Err(e);
                            },
                        }
                        applied = true;
                    }
                    k = k + 1;
                }
                if !applied {
                    instructions.push(item.1.clone());
                }
            }
        }
        i = i + 1;
    }
    assert(items_s.take(items_s.len() as int) =~= items_s);
    assert(labels_s.take(labels_s.len() as int) =~= labels_s);

    // pass 2: replace labels by their positions, longest labels first
    let got = match ew.get_labels() {
        Ok(v) => v,
        Err(e) => {
            proof { lemma_nothing_written(src@, *ew, w0); }
            return Err(e);
        },
    };
    let ghost e2 = *ew;
    let labels = sort_labels(got);
    proof {
        got@.to_multiset_ensures();
        labels@.to_multiset_ensures();
        let perm = choose|perm: Seq<int>| stable_longest_first(got@, labels@, perm);
        lemma_stable_views(got@, labels@, perm);
    }
    let ghost sorted = str_views(labels@);
    let ghost vals = label_values(e2, sorted);
    let ghost cl = code_lines(items_s);
    let mut k: usize = 0;
    assert(sorted.take(0) =~= Seq::<Seq<char>>::empty());
    assert(vals.take(0) =~= Seq::<u32>::empty());
    while k < labels.len()
        invariant
            k <= labels@.len(),
            *ew == e2,
            e2.words() == w0,
            old(ew).wf() ==> e2.wf(),
            nm ==> e2.handed_labels() == h0 + labels_s.take(labels_s.len() as int),
            h0 == old(ew).handed_labels(),
            labels_s == source_labels(items_s),
            items_s == source_items_spec(src@),
            nm == (no_macro_applies(items_s, T::macro_specs()) && no_string_line(items_s)),
            e2.frame() == old(ew).frame(),
            w0 == old(ew).words(),
            sorted == str_views(labels@),
            vals == label_values(e2, sorted),
            nm ==> instructions@.len() == cl.len(),
            nm ==> forall|m: int| 0 <= m < instructions@.len()
                ==> #[trigger] instructions@[m]@ == subst_line(cl[m], sorted.take(k as int), vals.take(k as int)),
        decreases labels@.len() - k,
    {
        let pos = match ew.get_label_pos(labels[k]) {
            Ok(p) => p,
            Err(e) => {
                proof { lemma_nothing_written(src@, *ew, w0); }
                assert(nm ==> ew.handed_labels() == h0 + labels_s.take(labels_s.len() as int));
                return Err(e);
            },
        };
        let ghost before_subst = instructions@;
        substitute_label(&mut instructions, labels[k], pos);
        proof {
            assert(sorted[k as int] == labels@[k as int]@);
            assert(vals[k as int] == pos);
            if nm {
                assert forall|m: int| 0 <= m < instructions@.len() implies
                    #[trigger] instructions@[m]@ == subst_line(cl[m], sorted.take(k + 1), vals.take(k + 1)) by {
                    assert(before_subst[m]@ == subst_line(cl[m], sorted.take(k as int), vals.take(k as int)));
                    lemma_subst_step(cl[m], sorted, vals, k as int);
                    assert(instructions@[m]@ == substituted(before_subst[m]@, labels@[k as int]@, dec(pos as nat)));
                }
            }
        }
        k = k + 1;
    }
    assert(sorted.take(sorted.len() as int) =~= sorted);
    assert(vals.take(vals.len() as int) =~= vals);
    let ghost prog = program_of(src@, sorted, vals);
    assert(prog.len() == cl.len());

    // pass 3: encode into the writer
    let mut pos: usize = 0;
    while pos < instructions.len()
        invariant
            pos <= instructions@.len(),
            prog == program_of(src@, sorted, vals),
            prog.len() == cl.len(),
            w0 == old(ew).words(),
            ew.frame() == old(ew).frame(),
            old(ew).wf() ==> ew.wf(),
            ew.handed_labels() == e2.handed_labels(),
            nm ==> e2.handed_labels() == h0 + labels_s.take(labels_s.len() as int),
            h0 == old(ew).handed_labels(),
            labels_s == source_labels(items_s),
            items_s == source_items_spec(src@),
            nm == (no_macro_applies(items_s, T::macro_specs()) && no_string_line(items_s)),
            vals == label_values(e2, sorted),
            longest_first_order(e2.label_names(), sorted),
            ew.label_names() == e2.label_names(),
            forall|l: Seq<char>| #[trigger] ew.label_value(l) == e2.label_value(l),
            nm ==> instructions@.len() == prog.len(),
            nm ==> forall|m: int| 0 <= m < instructions@.len() ==> #[trigger] instructions@[m]@ == prog[m],
            nm ==> ew.words() == words_after(w0, prog, pos as int),
            nm ==> forall|m: int| 0 <= m < pos ==> #[trigger] line_ok(prog[m]),
        decreases instructions@.len() - pos,
    {
        proof {
            assert(label_values(*ew, sorted) =~= vals);
        }
        let word = match assemble_line(instructions[pos].as_str()) {
            Ok(w) => w,
            Err(e) => {
                proof {
                    if nm {
                        assert(assembly_outcome(src@, *ew, sorted, pos as int, w0));
                        assert(ew.handed_labels() == h0 + labels_s.take(labels_s.len() as int));
                    }
                }
                return Err(e);
            },
        };
        match ew.write_instruction(word, pos) {
            Ok(_) => {},
            Err(e) => {
                proof {
                    assert(label_values(*ew, sorted) =~= vals);
                    if nm {
                        assert(assembly_outcome(src@, *ew, sorted, pos as int, w0));
                        assert(ew.handed_labels() == h0 + labels_s.take(labels_s.len() as int));
                    }
                }
                return Err(e);
            },
        }
        pos = pos + 1;
    }
    proof {
        assert(label_values(*ew, sorted) =~= vals);
        if nm {
            assert(assembly_outcome(src@, *ew, sorted, pos as int, w0));
            assert(assembly_complete(src@, *ew, sorted, pos as int));
        }
    }
    Ok(())
}

} // verus!
