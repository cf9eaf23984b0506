//! A writer that puts the program straight into a machine's memory.
use vstd::prelude::*;
use crate::machine::{Machine, MachineModel};
use crate::text::{chars_of, string_of, append_str};
use super::writer::{ExecutableWriter, str_views};

verus! {

/// Writes a program directly into a `Machine`'s memory, from `offset` on; a
/// label stands for its position plus `offset`.
pub struct SimpleExecutableWriter<'a> {
    pub machine: &'a mut Machine,
    pub labels: Vec<(String, u32)>,
    pub offset: usize,
    pub handed: Ghost<Seq<(Seq<char>, u32)>>,
}

/// The labels recorded so far, each with the address it stands for.
pub open spec fn labels_view(l: Seq<(String, u32)>) -> Seq<(Seq<char>, u32)> {
    l.map_values(|e: (String, u32)| (e.0@, e.1))
}

/// Whether `k` is the first index at which a label occurs in a list of labels.
pub open spec fn first_at(l: Seq<(Seq<char>, u32)>, label: Seq<char>, k: int) -> bool {
    0 <= k < l.len() && l[k].0 == label && forall|m: int| 0 <= m < k ==> #[trigger] l[m].0 != label
}

/// The first index at which a label occurs in a list of labels.
pub open spec fn label_index(l: Seq<(Seq<char>, u32)>, label: Seq<char>) -> Option<int> {
    if exists|k: int| #[trigger] first_at(l, label, k) {
        Some(choose|k: int| #[trigger] first_at(l, label, k))
    } else {
        None
    }
}

/// The labels a writer with this offset records when handed `log` in turn: a label
/// whose address does not fit is dropped, one recorded before gets its new address
/// in place, a new one goes at the end.
pub open spec fn labels_from(log: Seq<(Seq<char>, u32)>, offset: nat) -> Seq<(Seq<char>, u32)>
    decreases log.len(),
{
    if log.len() == 0 {
        Seq::empty()
    } else {
        let prev = labels_from(log.drop_last(), offset);
        let (l, p) = log.last();
        if p + offset > u32::MAX {
            prev
        } else {
            match label_index(prev, l) {
                Some(k) => prev.update(k, (l, (p + offset) as u32)),
                None => prev.push((l, (p + offset) as u32)),
            }
        }
    }
}

/// Whether two character vectors are equal.
fn chars_eq(a: &Vec<char>, b: &Vec<char>) -> (r: bool)
    ensures
        r == (a@ == b@),
{
    if a.len() != b.len() {
        return false;
    }
    let mut i: usize = 0;
    while i < a.len()
        invariant
            i <= a@.len(),
            a@.len() == b@.len(),
            forall|k: int| 0 <= k < i ==> a@[k] == b@[k],
        decreases a@.len() - i,
    {
        if a[i] != b[i] {
            return false;
        }
        i = i + 1;
    }
    assert(a@ =~= b@);
    true
}

impl<'a> SimpleExecutableWriter<'a> {
    /// A writer into `machine`'s memory, from `offset` on, with no labels yet.
    pub fn new(machine: &'a mut Machine, offset: usize) -> (w: SimpleExecutableWriter<'a>)
        ensures
            w.memory() == old(machine).memory@,
            w.labels() == Seq::<(Seq<char>, u32)>::empty(),
            w.offset() == offset,
            w.handed_labels() == Seq::<(Seq<char>, u32)>::empty(),
            w.wf(),
            *w.machine == *old(machine),
            *final(machine) == *final(w.machine),
    {
        SimpleExecutableWriter { machine, labels: Vec::new(), offset, handed: Ghost(Seq::empty()) }
    }

    /// The memory of the machine written into.
    pub open spec fn memory(&self) -> Seq<u32> {
        self.machine.memory@
    }

    /// The labels recorded, in the order they were added.
    pub open spec fn labels(&self) -> Seq<(Seq<char>, u32)> {
        labels_view(self.labels@)
    }

    /// Where the program starts in memory.
    pub open spec fn offset(&self) -> nat {
        self.offset as nat
    }

    /// The index of a recorded label.
    fn find_label(&self, label: &str) -> (r: Option<usize>)
        ensures
            r matches Some(k) ==> label_index(self.labels(), label@) == Some(k as int),
            r is None ==> label_index(self.labels(), label@) is None,
    {
        let lv = chars_of(label);
        let mut k: usize = 0;
        while k < self.labels.len()
            invariant
                k <= self.labels@.len(),
                lv@ == label@,
                forall|m: int| 0 <= m < k ==> #[trigger] labels_view(self.labels@)[m].0 != label@,
            decreases self.labels@.len() - k,
        {
            let key = chars_of(self.labels[k].0.as_str());
            if chars_eq(&key, &lv) {
                proof {
                    let l = labels_view(self.labels@);
                    assert(first_at(l, label@, k as int));
                    let c = choose|c: int| #[trigger] first_at(l, label@, c);
                    assert(c == k) by {
                        if c < k {
                            assert(l[c].0 != label@);
                        } else if c > k {
                            assert(l[k as int].0 != label@);
                        }
                    }
                }
                return Some(k);
            }
            k = k + 1;
        }
        None
    }
}

/// The message for a label that is defined twice.
fn defined_twice(label: &str) -> (r: String)
    ensures
        r@ == "Label "@ + label@ + " defined twice?"@,
{
    let mut v: Vec<char> = Vec::new();
    append_str(&mut v, "Label ");
    append_str(&mut v, label);
    append_str(&mut v, " defined twice?");
    string_of(&v)
}

impl<'a> ExecutableWriter for SimpleExecutableWriter<'a> {
    /// The words in memory from the offset on, by position in the program.
    open spec fn words(&self) -> Map<int, u32> {
        Map::new(|p: int| 0 <= p && p + self.offset() < self.memory().len(),
            |p: int| self.memory()[p + self.offset()])
    }

    /// The machine, with its memory's words cleared.
    open spec fn frame(&self) -> MachineModel {
        MachineModel { memory: Seq::new(self.memory().len(), |i: int| 0u32), ..self.machine@ }
    }

    /// Every label handed to `add_label`.
    open spec fn handed_labels(&self) -> Seq<(Seq<char>, u32)> {
        self.handed@
    }

    /// The labels recorded are those the handed labels make.
    open spec fn wf(&self) -> bool {
        self.labels() == labels_from(self.handed@, self.offset())
    }

    /// The labels recorded, in the order they were first added.
    open spec fn label_names(&self) -> Seq<Seq<char>> {
        self.labels().map_values(|e: (Seq<char>, u32)| e.0)
    }

    /// The address recorded for a label (0 for one never recorded).
    open spec fn label_value(&self, label: Seq<char>) -> u32 {
        match label_index(self.labels(), label) {
            Some(k) => self.labels()[k].1,
            None => 0,
        }
    }

    /// This writer has no macros.
    fn macro_names() -> (r: Vec<&'static str>) {
        let v: Vec<&'static str> = Vec::new();
        assert(str_views(v@) =~= Seq::<Seq<char>>::empty());
        v
    }

    /// Stores the word at `pos + offset` in memory; a position outside memory is an error.
    fn write_instruction(&mut self, instr: u32, pos: usize) -> (r: Result<(), String>)
        ensures
            old(self).offset() + pos < old(self).memory().len() ==> r is Ok
                && final(self).memory() == old(self).memory().update(pos + old(self).offset(), instr),
            old(self).offset() + pos >= old(self).memory().len() ==> r is Err
                && final(self).memory() == old(self).memory(),
            final(self).labels() == old(self).labels(),
            final(self).offset() == old(self).offset(),
            *final(final(self).machine) == *final(old(self).machine),
    {
        if pos < self.machine.memory.len() && self.offset < self.machine.memory.len() - pos {
            let at = pos + self.offset;
            self.machine.memory.set(at, instr);
            assert(self.frame() == old(self).frame()) by {
                assert(self.frame().memory =~= old(self).frame().memory);
            }
            Ok(())
        } else {
            Err(string_of(&chars_of("Executable writer: position out of memory")))
        }
    }

    /// Records the label at `pos + offset`. A label recorded before gets the new
    /// address, and the call reports it as defined twice.
    fn add_label(&mut self, label: &str, pos: u32) -> (r: Result<(), String>)
        ensures
            final(self).memory() == old(self).memory(),
            final(self).offset() == old(self).offset(),
            pos + old(self).offset() > u32::MAX ==> r is Err && final(self).labels() == old(self).labels(),
            pos + old(self).offset() <= u32::MAX ==> match label_index(old(self).labels(), label@) {
                Some(k) => final(self).labels() == old(self).labels().update(k, (label@, (pos + old(self).offset()) as u32))
                    && (r matches Err(e) && e@ == "Label "@ + label@ + " defined twice?"@),
                None => final(self).labels() == old(self).labels().push((label@, (pos + old(self).offset()) as u32))
                    && r is Ok,
            },
            distinct_labels(old(self).labels()) ==> distinct_labels(final(self).labels()),
    {
        self.handed = Ghost(self.handed@.push((label@, pos)));
        assert(self.handed@.drop_last() =~= old(self).handed@);
        if self.offset > (u32::MAX - pos) as usize {
            return Err(string_of(&chars_of("Executable writer: label position out of range")));
        }
        let addr: u32 = pos + self.offset as u32;
        let ghost l0 = self.labels();
        proof {
            if distinct_labels(l0) {
                lemma_add_keeps_distinct(l0, label@, addr);
            }
        }
        match self.find_label(label) {
            Some(k) => {
                let key = string_of(&chars_of(label));
                self.labels.set(k, (key, addr));
                assert(self.labels() =~= l0.update(k as int, (label@, addr)));
                Err(defined_twice(label))
            },
            None => {
                self.labels.push((string_of(&chars_of(label)), addr));
                assert(self.labels() =~= l0.push((label@, addr)));
                Ok(())
            },
        }
    }

    /// The labels recorded, in the order they were first added.
    fn get_labels(&self) -> (r: Result<Vec<&str>, String>)
        ensures
            r matches Ok(v) && v@.len() == self.labels().len()
                && forall|k: int| 0 <= k < v@.len() ==> #[trigger] v@[k]@ == self.labels()[k].0,
    {
        let mut v: Vec<&str> = Vec::new();
        let mut k: usize = 0;
        while k < self.labels.len()
            invariant
                k <= self.labels@.len(),
                v@.len() == k,
                forall|m: int| 0 <= m < k ==> #[trigger] v@[m]@ == labels_view(self.labels@)[m].0,
            decreases self.labels@.len() - k,
        {
            v.push(self.labels[k].0.as_str());
            k = k + 1;
        }
        Ok(v)
    }

    /// The address recorded for the label; a label never recorded is an error.
    fn get_label_pos(&self, label: &str) -> (r: Result<u32, String>)
        ensures
            label_index(self.labels(), label@) is None ==> r is Err,
            label_index(self.labels(), label@) matches Some(k) ==> r == Ok::<u32, String>(self.labels()[k].1),
    {
        match self.find_label(label) {
            Some(k) => Ok(self.labels[k].1),
            None => Err(string_of(&chars_of("Executable writer: label not found!"))),
        }
    }
}

/// A label added to a writer is found again with the address it was added at: a new
/// label at the end of the list, a label recorded before at its old place, with the
/// new address.
pub proof fn lemma_label_found_after_add(l: Seq<(Seq<char>, u32)>, label: Seq<char>, addr: u32)
    ensures
        label_index(l, label) is None ==> {
            let l2 = l.push((label, addr));
            label_index(l2, label) == Some(l.len() as int) && l2[l.len() as int].1 == addr
        },
        label_index(l, label) matches Some(k) ==> {
            let l2 = l.update(k, (label, addr));
            label_index(l2, label) == Some(k) && l2[k].1 == addr
        },
{
    match label_index(l, label) {
        None => {
            let l2 = l.push((label, addr));
            let n = l.len() as int;
            assert forall|m: int| 0 <= m < n implies #[trigger] l2[m].0 != label by {
                if l2[m].0 == label {
                    lemma_first_exists(l, label, m);
                }
            }
            assert(first_at(l2, label, n));
            lemma_first_unique(l2, label, n);
        },
        Some(k) => {
            let c = choose|c: int| #[trigger] first_at(l, label, c);
            assert(first_at(l, label, c));
            let l2 = l.update(k, (label, addr));
            assert(first_at(l2, label, k));
            lemma_first_unique(l2, label, k);
        },
    }
}

/// A label that occurs has a first occurrence.
proof fn lemma_first_exists(l: Seq<(Seq<char>, u32)>, label: Seq<char>, m: int)
    requires
        0 <= m < l.len(),
        l[m].0 == label,
    ensures
        label_index(l, label) is Some,
    decreases m,
{
    if forall|j: int| 0 <= j < m ==> #[trigger] l[j].0 != label {
        assert(first_at(l, label, m));
    } else {
        let j = choose|j: int| 0 <= j < m && #[trigger] l[j].0 == label;
        lemma_first_exists(l, label, j);
    }
}

/// The first occurrence of a label is the one `label_index` gives.
proof fn lemma_first_unique(l: Seq<(Seq<char>, u32)>, label: Seq<char>, k: int)
    requires
        first_at(l, label, k),
    ensures
        label_index(l, label) == Some(k),
{
    let c = choose|c: int| #[trigger] first_at(l, label, c);
    assert(first_at(l, label, c));
    if c < k {
        assert(l[c].0 != label);
    } else if c > k {
        assert(l[k].0 != label);
    }
}

/// No label is recorded twice.
pub open spec fn distinct_labels(l: Seq<(Seq<char>, u32)>) -> bool {
    forall|i: int, j: int| 0 <= i < j < l.len() ==> #[trigger] l[i].0 != #[trigger] l[j].0
}

/// Adding a label, as `add_label` does, keeps every label recorded once: a new one
/// is pushed, one recorded before gets its new address in place.
pub proof fn lemma_add_keeps_distinct(l: Seq<(Seq<char>, u32)>, label: Seq<char>, addr: u32)
    requires
        distinct_labels(l),
    ensures
        label_index(l, label) is None ==> distinct_labels(l.push((label, addr))),
        label_index(l, label) matches Some(k) ==> distinct_labels(l.update(k, (label, addr))),
{
    match label_index(l, label) {
        None => {
            let l2 = l.push((label, addr));
            assert forall|i: int, j: int| 0 <= i < j < l2.len() implies #[trigger] l2[i].0 != #[trigger] l2[j].0 by {
                if j == l.len() {
                    if l[i].0 == label {
                        lemma_first_exists(l, label, i);
                    }
                }
            }
        },
        Some(k) => {
            let c = choose|c: int| #[trigger] first_at(l, label, c);
            assert(first_at(l, label, c));
            let l2 = l.update(k, (label, addr));
            assert forall|i: int, j: int| 0 <= i < j < l2.len() implies #[trigger] l2[i].0 != #[trigger] l2[j].0 by {
                assert(l2[i].0 == l[i].0 && l2[j].0 == l[j].0);
            }
        },
    }
}

/// Labels handed once each, with addresses that fit, are recorded as handed.
pub proof fn lemma_labels_from_distinct(log: Seq<(Seq<char>, u32)>)
    requires
        distinct_labels(log),
    ensures
        labels_from(log, 0) == log,
    decreases log.len(),
{
    if log.len() > 0 {
        let prev = log.drop_last();
        assert(distinct_labels(prev)) by {
            assert forall|i: int, j: int| 0 <= i < j < prev.len() implies #[trigger] prev[i].0 != #[trigger] prev[j].0 by {
                assert(prev[i] == log[i] && prev[j] == log[j]);
            }
        }
        lemma_labels_from_distinct(prev);
        let l = log.last().0;
        if label_index(prev, l) is Some {
            let k = choose|k: int| #[trigger] first_at(prev, l, k);
            assert(prev[k] == log[k]);
            assert(log[k].0 != log[log.len() - 1].0);
        }
        assert(prev.push(log.last()) =~= log);
        assert((log.last().1 + 0) as u32 == log.last().1);
        assert(prev.push((l, (log.last().1 + 0) as u32)) =~= log);
    }
}

/// In labels recorded once each, a label is found at its place.
pub proof fn lemma_distinct_index(l: Seq<(Seq<char>, u32)>, k: int)
    requires
        distinct_labels(l),
        0 <= k < l.len(),
    ensures
        label_index(l, l[k].0) == Some(k),
{
    assert(first_at(l, l[k].0, k));
    lemma_first_unique(l, l[k].0, k);
}

} // verus!
