//! Where assembled programs go.
use vstd::prelude::*;
use crate::machine::MachineModel;

verus! {

/// The text of each string in a list.
pub open spec fn str_views(v: Seq<&str>) -> Seq<Seq<char>> {
    v.map_values(|s: &str| s@)
}

/// Receives an assembled program: its words, and the labels that its instructions
/// refer to. Implement it for custom file writing and linking; a writer may also
/// bring macros of its own.
///
/// The spec functions describe a writer to verified callers: the words it holds
/// by position, the labels it reports and the address of each, and the names of
/// its macros. A writer that does not describe itself has no words, labels or
/// macros.
pub trait ExecutableWriter {
    /// The words written so far, by position in the program.
    open spec fn words(&self) -> Map<int, u32> {
        Map::empty()
    }

    /// The labels `get_labels` reports.
    open spec fn label_names(&self) -> Seq<Seq<char>> {
        Seq::empty()
    }

    /// The address `get_label_pos` reports for a label.
    open spec fn label_value(&self, label: Seq<char>) -> u32 {
        0
    }

    /// Every label handed to `add_label`, with its position, in order.
    open spec fn handed_labels(&self) -> Seq<(Seq<char>, u32)> {
        Seq::empty()
    }

    /// The writer's own consistency (between the labels it was handed and those it
    /// reports, say); every call keeps it.
    open spec fn wf(&self) -> bool {
        true
    }

    /// What the writer writes into, apart from the words it writes there: for a
    /// writer into a machine, that machine with its memory's words cleared. No
    /// call of the writer changes it.
    open spec fn frame(&self) -> MachineModel {
        arbitrary()
    }

    /// The names `macro_names` returns.
    open spec fn macro_specs() -> Seq<Seq<char>> {
        Seq::empty()
    }

    /// Stores the word of the instruction at position `pos` of the program. A
    /// failed write stores nothing; no write changes the labels.
    fn write_instruction(&mut self, instr: u32, pos: usize) -> (r: Result<(), String>)
        ensures
            r is Ok ==> final(self).words() == old(self).words().insert(pos as int, instr),
            r is Err ==> final(self).words() == old(self).words(),
            final(self).frame() == old(self).frame(),
            final(self).label_names() == old(self).label_names(),
            forall|l: Seq<char>| #[trigger] final(self).label_value(l) == old(self).label_value(l),
            final(self).handed_labels() == old(self).handed_labels(),
            old(self).wf() ==> final(self).wf();

    /// Records a label defined at position `pos` of the program; it writes no word.
    fn add_label(&mut self, label: &str, pos: u32) -> (r: Result<(), String>)
        ensures
            final(self).words() == old(self).words(),
            final(self).frame() == old(self).frame(),
            final(self).handed_labels() == old(self).handed_labels().push((label@, pos)),
            old(self).wf() ==> final(self).wf();

    /// The labels recorded.
    fn get_labels(&self) -> (r: Result<Vec<&str>, String>)
        ensures
            r matches Ok(v) ==> str_views(v@) == self.label_names();

    /// The address that a recorded label stands for.
    fn get_label_pos(&self, label: &str) -> (r: Result<u32, String>)
        ensures
            r matches Ok(p) ==> p == self.label_value(label@);

    /// The names of the writer's macros: a line that starts with one is handed to
    /// `apply_macro` in place of being assembled (a writer without macros returns
    /// none).
    fn macro_names() -> (r: Vec<&'static str>)
        ensures
            str_views(r@) == Self::macro_specs();

    /// Applies the macro at `index` of `macro_names` to `line`, pushing the lines
    /// it stands for; it writes no word.
    fn apply_macro(&mut self, index: usize, line: &str, instructions: &mut Vec<String>) -> (r: Result<(), String>)
        ensures
            final(self).words() == old(self).words(),
            final(self).frame() == old(self).frame(),
            old(self).wf() ==> final(self).wf(),
        default_ensures
            r is Ok,
            final(instructions)@ == old(instructions)@,
    {
        Ok(())
    }
}

} // verus!
