//! A whole emulator session for a web page: one machine, its text output, a
//! budget of cycles, and the program's state for display.
use vstd::prelude::*;
use crate::machine::{Machine, MachineModel, FloatUnit, State, machine_wf};
use crate::machine::model::{cur, reg};
use crate::machine::execute::step_spec;
use crate::machine::check::step_ok_with;
use crate::machine::state::zero_state;
use crate::machine::laws::{lemma_step_keeps_ring_and_flags, lemma_step_keeps_zero_register};
use crate::devices::buffer_output::{BufferOutputDevice, text_of, MMIO_ID, BUFFER_LEN};
use crate::assembler::{assemble as assemble_program, SimpleExecutableWriter};
use crate::text::{chars_of, string_of, append_chars, starts_with};
use crate::assembler::program::source_items_spec;
use crate::assembler::ExecutableWriter;
use crate::assembler::simple_writer::{label_index, distinct_labels, lemma_labels_from_distinct};
use crate::assembler::outcome::{
    no_macro_applies, no_string_line, source_labels, longest_first_order, assembly_outcome, assembly_complete, label_values, program_of, program_in_memory,
    lemma_words_after, memory_with_program,
};

verus! {

/// An emulator session: a machine with the text output device mapped, the text it
/// has printed so far, and the cycles it has run out of its budget.
pub struct TinyArchWasm {
    machine: Machine,
    output: BufferOutputDevice,
    output_buf: Vec<char>,
    cycle_count: u64,
    max_cycles: u64,
}

/// A machine just made with `ram_words` words of RAM and the text output device mapped.
pub open spec fn fresh_machine(m: MachineModel, ram_words: nat) -> bool {
    &&& machine_wf(m)
    &&& m.memory == Seq::new(ram_words, |i: int| 0u32)
    &&& m.current_ring == 0
    &&& m.states == Seq::new(3, |i: int| zero_state())
    &&& !m.halted
    &&& m.devices == Seq::new(16, |i: int| None::<nat>).update(MMIO_ID as int, Some(BUFFER_LEN as nat))
}

/// The names of labels with their positions.
pub open spec fn label_names_of(ls: Seq<(Seq<char>, u32)>) -> Seq<Seq<char>> {
    ls.map_values(|e: (Seq<char>, u32)| e.0)
}

/// The position of each label in `sorted`, as `ls` gives it.
pub open spec fn label_positions(ls: Seq<(Seq<char>, u32)>, sorted: Seq<Seq<char>>) -> Seq<u32> {
    sorted.map_values(|l: Seq<char>| match label_index(ls, l) {
        Some(k) => ls[k].1,
        None => 0u32,
    })
}

/// `b` is the machine after one step of `a`, with some words from the devices,
/// on which the instruction runs, and from the float unit.
pub open spec fn steps_to(a: MachineModel, b: MachineModel) -> bool {
    exists|d0: u32, d1: u32, d2: u32, f: u32| step_ok_with(a, d0, d1) && b == #[trigger] step_spec(a, d0, d1, d2, f)
}

/// `m1` is reached from `m0` by `k` steps.
pub open spec fn runs(m0: MachineModel, m1: MachineModel, k: nat) -> bool {
    exists|trace: Seq<MachineModel>| #[trigger] run_trace(trace, m0, m1, k)
}

/// A trace of `k` steps from `m0` to `m1`.
pub open spec fn run_trace(trace: Seq<MachineModel>, m0: MachineModel, m1: MachineModel, k: nat) -> bool {
    &&& trace.len() == k + 1
    &&& trace[0] == m0
    &&& trace[k as int] == m1
    &&& forall|i: int| 0 <= i < k ==> steps_to(#[trigger] trace[i], trace[i + 1])
}

/// No steps: the machine as it was.
pub proof fn lemma_runs_none(m0: MachineModel)
    ensures
        runs(m0, m0, 0),
{
    assert(run_trace(seq![m0], m0, m0, 0));
}

/// One more step extends a run.
pub proof fn lemma_runs_step(m0: MachineModel, mid: MachineModel, k: nat, d0: u32, d1: u32, d2: u32, f: u32)
    requires
        runs(m0, mid, k),
        step_ok_with(mid, d0, d1),
    ensures
        runs(m0, step_spec(mid, d0, d1, d2, f), k + 1),
{
    let m1 = step_spec(mid, d0, d1, d2, f);
    let t = choose|t: Seq<MachineModel>| #[trigger] run_trace(t, m0, mid, k);
    let t2 = t.push(m1);
    assert forall|i: int| 0 <= i < k + 1 implies steps_to(#[trigger] t2[i], t2[i + 1]) by {
        if i < k {
            assert(t2[i] == t[i] && t2[i + 1] == t[i + 1]);
            assert(steps_to(t[i], t[i + 1]));
        } else {
            assert(t2[i] == mid && t2[i + 1] == m1);
            assert(step_ok_with(mid, d0, d1) && m1 == step_spec(mid, d0, d1, d2, f));
        }
    }
    assert(run_trace(t2, m0, m1, k + 1));
}

/// Each state of a trace up to `i` has the first state's ring and flags.
proof fn lemma_trace_keeps_flags(trace: Seq<MachineModel>, m0: MachineModel, m1: MachineModel, k: nat, i: int)
    requires
        run_trace(trace, m0, m1, k),
        0 <= i <= k,
    ensures
        trace[i].current_ring == m0.current_ring,
        cur(trace[i]).flags == cur(m0).flags,
        reg(m0, 0) == 0 ==> reg(trace[i], 0) == 0,
    decreases i,
{
    if i > 0 {
        lemma_trace_keeps_flags(trace, m0, m1, k, i - 1);
        let a = trace[i - 1];
        assert(steps_to(a, trace[i]));
        let (d0, d1, d2, f) = choose|d0: u32, d1: u32, d2: u32, f: u32|
            step_ok_with(a, d0, d1) && trace[i] == #[trigger] step_spec(a, d0, d1, d2, f);
        lemma_step_keeps_ring_and_flags(a, d0, d1, d2, f);
        if reg(m0, 0) == 0 {
            lemma_step_keeps_zero_register(a, d0, d1, d2, f);
        }
    }
}

/// Running keeps the ring, the flags register and a zero register 0: no
/// instruction changes them, so a session's flags and register 0 stay zero and its
/// ring the first.
pub proof fn lemma_runs_keep_flags(m0: MachineModel, m1: MachineModel, k: nat)
    requires
        runs(m0, m1, k),
    ensures
        m1.current_ring == m0.current_ring,
        cur(m1).flags == cur(m0).flags,
        reg(m0, 0) == 0 ==> reg(m1, 0) == 0,
{
    let t = choose|t: Seq<MachineModel>| #[trigger] run_trace(t, m0, m1, k);
    lemma_trace_keeps_flags(t, m0, m1, k, k as int);
}

impl TinyArchWasm {
    /// The machine.
    pub closed spec fn machine_model(&self) -> MachineModel {
        self.machine@
    }

    /// The text printed and not yet taken.
    pub closed spec fn output(&self) -> Seq<char> {
        self.output_buf@
    }

    /// The cycles run.
    pub closed spec fn cycles(&self) -> u64 {
        self.cycle_count
    }

    /// The budget of cycles.
    pub closed spec fn budget(&self) -> u64 {
        self.max_cycles
    }

    /// A session with `ram_words` words of RAM and a budget of `max_cycles` cycles.
    pub fn new(ram_words: usize, max_cycles: u64) -> (r: TinyArchWasm)
        ensures
            fresh_machine(r.machine_model(), ram_words as nat),
            r.output() == Seq::<char>::empty(),
            r.cycles() == 0,
            r.budget() == max_cycles,
    {
        let mut machine = Machine::new(ram_words);
        let output = BufferOutputDevice::connect(&mut machine);
        let r = TinyArchWasm { machine, output, output_buf: Vec::new(), cycle_count: 0, max_cycles };
        assert(r.machine@.devices =~= Seq::new(16, |i: int| None::<nat>).update(MMIO_ID as int, Some(BUFFER_LEN as nat)));
        r
    }

    /// Resets the machine (same RAM size, all state cleared, output cleared, no
    /// cycles run) and assembles `source` into its RAM from address 0. The
    /// result is the assembler's.
    pub fn assemble(&mut self, source: &str) -> (r: Result<(), String>)
        ensures
            final(self).output() == Seq::<char>::empty(),
            final(self).cycles() == 0,
            final(self).budget() == old(self).budget(),
            final(self).machine_model().memory.len() == old(self).machine_model().memory.len(),
            fresh_machine(MachineModel {
                memory: Seq::new(old(self).machine_model().memory.len(), |i: int| 0u32),
                ..final(self).machine_model()
            }, old(self).machine_model().memory.len()),
            old(self).machine_model().memory.len() > 0 && no_string_line(source_items_spec(source@))
                && distinct_labels(source_labels(source_items_spec(source@))) && r is Ok ==> exists|sorted: Seq<Seq<char>>|
                #[trigger] longest_first_order(label_names_of(source_labels(source_items_spec(source@))), sorted)
                && program_in_memory(source@, final(self).machine_model().memory, sorted,
                    label_positions(source_labels(source_items_spec(source@)), sorted),
                    program_of(source@, sorted, label_positions(source_labels(source_items_spec(source@)), sorted)).len() as int),
            no_string_line(source_items_spec(source@)) ==> exists|sorted: Seq<Seq<char>>, vals: Seq<u32>, m: int|
                #[trigger] program_in_memory(source@, final(self).machine_model().memory, sorted, vals, m)
                && (r is Ok ==> m == program_of(source@, sorted, vals).len()),
    {
        let ram_size = self.machine.memory.len();
        let ghost n = ram_size as nat;
        let mut fresh = Machine::new(ram_size);
        let output = BufferOutputDevice::connect(&mut fresh);
        let ghost f0 = fresh@;
        assert(f0.devices =~= Seq::new(16, |i: int| None::<nat>).update(MMIO_ID as int, Some(BUFFER_LEN as nat)));
        self.output_buf = Vec::new();
        self.cycle_count = 0;
        let mut writer = SimpleExecutableWriter::new(&mut fresh, 0);
        let ghost w0 = writer;
        assert(w0.frame() == f0) by {
            assert(w0.frame().memory =~= f0.memory);
        }
        let r = assemble_program(source, &mut writer);
        proof {
            assert(no_macro_applies(source_items_spec(source@), SimpleExecutableWriter::macro_specs()));
        }
        let ghost (sorted, m) = choose|sorted: Seq<Seq<char>>, m: int|
            #[trigger] assembly_outcome(source@, writer, sorted, m, w0.words())
            && (r is Ok ==> assembly_complete(source@, writer, sorted, m));
        let ghost vals = label_values(writer, sorted);
        let ghost mem = writer.memory();
        let ghost ns = no_string_line(source_items_spec(source@));
        proof {
            assert(writer.frame() == f0);
            assert(mem.len() == n);
        }
        proof {
            if ns {
                let prog = program_of(source@, sorted, vals);
                lemma_words_after(w0.words(), prog, m);
                assert(writer.frame() == f0);
                assert(mem.len() == n);
                if n > 0 {
                    assert(w0.words().contains_key(n - 1));
                    assert(writer.words().contains_key(n - 1));
                    assert(writer.offset() == 0);
                }
                if m > 0 {
                    assert(writer.words().contains_key(m - 1));
                }
                assert forall|p: int| 0 <= p < n implies #[trigger] mem[p] == memory_with_program(n, prog, m)[p] by {
                    assert(w0.words().contains_key(p));
                    assert(writer.words()[p] == mem[p + writer.offset()]);
                }
                assert(mem =~= memory_with_program(n, prog, m));
                assert(program_in_memory(source@, mem, sorted, vals, m));
            }
        }
        std::mem::swap(&mut *writer.machine, &mut self.machine);
        self.output = output;
        assert(self.machine@.memory == mem);
        proof {
            let ls = source_labels(source_items_spec(source@));
            if n > 0 && ns && distinct_labels(ls) && r is Ok {
                assert(w0.wf());
                assert(w0.words().contains_key(n - 1));
                assert(writer.words().contains_key(n - 1));
                assert(writer.offset() == 0);
                let j = choose|j: int| 0 <= j <= ls.len()
                    && #[trigger] writer.handed_labels() == w0.handed_labels() + ls.take(j)
                    && (r is Ok ==> j == ls.len());
                assert(ls.take(j) =~= ls);
                assert(writer.handed_labels() =~= ls);
                lemma_labels_from_distinct(ls);
                assert(writer.labels() == ls);
                assert(writer.label_names() =~= label_names_of(ls));
                assert(vals =~= label_positions(ls, sorted));
                assert(longest_first_order(label_names_of(ls), sorted));
            }
            if ns {
                assert(program_in_memory(source@, self.machine_model().memory, sorted, vals, m)
                    && (r is Ok ==> m == program_of(source@, sorted, vals).len()));
            }
        }
        r
    }

    /// Runs up to `n` steps, taking the device's text after each one. Returns
    /// whether the machine can go on: `false` once it halts, once the budget of
    /// cycles is spent, or when the next instruction cannot run on the words the
    /// devices hold.
    pub fn step_n<F: FloatUnit>(&mut self, n: u32, fpu: &F) -> (r: bool)
        ensures
            final(self).cycles() >= old(self).cycles(),
            final(self).cycles() <= old(self).cycles() + n,
            old(self).cycles() <= old(self).budget() ==> final(self).cycles() <= final(self).budget(),
            final(self).budget() == old(self).budget(),
            exists|printed: Seq<u32>| final(self).output() == old(self).output() + text_of(printed),
            runs(old(self).machine_model(), final(self).machine_model(), (final(self).cycles() - old(self).cycles()) as nat),
            r == (final(self).cycles() == old(self).cycles() + n && (n == 0 || !final(self).machine_model().halted)),
            machine_wf(old(self).machine_model()) ==> machine_wf(final(self).machine_model()),
            !r ==> final(self).machine_model().halted || final(self).cycles() >= final(self).budget()
                || exists|d0: u32, d1: u32| !#[trigger] step_ok_with(final(self).machine_model(), d0, d1),
    {
        let ghost c0 = self.cycle_count;
        let ghost o0 = self.output_buf@;
        let ghost m0 = self.machine@;
        proof { lemma_runs_none(m0); }
        if n > 0 && self.machine.current_ring >= 3 {
            assert(self.output_buf@ =~= o0 + text_of(Seq::<u32>::empty()));
            assert(!step_ok_with(self.machine@, 0, 0));
            return false;
        }
        let mut k: u32 = 0;
        assert(self.output_buf@ =~= o0 + text_of(Seq::<u32>::empty()));
        while k < n
            invariant
                k <= n,
                self.cycle_count == c0 + k,
                self.max_cycles == old(self).max_cycles,
                c0 == old(self).cycle_count,
                o0 == old(self).output_buf@,
                c0 <= old(self).max_cycles ==> self.cycle_count <= self.max_cycles,
                exists|printed: Seq<u32>| self.output_buf@ == o0 + text_of(printed),
                k > 0 ==> !self.machine@.halted,
                m0 == old(self).machine@,
                runs(m0, self.machine@, k as nat),
                n > 0 ==> machine_wf(self.machine@),
                machine_wf(m0) ==> machine_wf(self.machine@),
            decreases n - k,
        {
            if self.cycle_count >= self.max_cycles {
                return false;
            }
            let ghost mbefore = self.machine@;
            let running = match self.machine.step_checked(fpu) {
                Some(running) => running,
                None => return false,
            };
            proof {
                let (d0, d1, d2, f) = choose|d0: u32, d1: u32, d2: u32, f: u32|
                    step_ok_with(mbefore, d0, d1) && #[trigger] step_spec(mbefore, d0, d1, d2, f) == self.machine@;
                lemma_runs_step(m0, mbefore, k as nat, d0, d1, d2, f);
            }
            self.cycle_count = self.cycle_count + 1;
            let chunk = chars_of(self.output.drain().as_str());
            let ghost before = self.output_buf@;
            append_chars(&mut self.output_buf, &chunk);
            proof {
                let p1 = choose|p: Seq<u32>| before == o0 + text_of(p);
                let p2 = choose|p: Seq<u32>| chunk@ == text_of(p);
                assert(text_of(p1 + p2) =~= text_of(p1) + text_of(p2));
                assert(self.output_buf@ =~= o0 + text_of(p1 + p2));
            }
            k = k + 1;
            if !running {
                return false;
            }
        }
        true
    }

    /// Takes all the text printed since the last call.
    pub fn drain_output(&mut self) -> (r: String)
        ensures
            r@ == old(self).output(),
            final(self).output() == Seq::<char>::empty(),
            final(self).machine_model() == old(self).machine_model(),
            final(self).cycles() == old(self).cycles(),
            final(self).budget() == old(self).budget(),
    {
        let r = string_of(&self.output_buf);
        self.output_buf = Vec::new();
        r
    }

    /// Whether the machine has executed a `HALT`.
    pub fn is_halted(&self) -> (r: bool)
        ensures
            r == self.machine_model().halted,
    {
        self.machine.halted
    }

    /// The cycles run so far.
    pub fn cycle_count(&self) -> (r: u64)
        ensures
            r == self.cycles(),
    {
        self.cycle_count
    }

    /// The register state of the current ring (the first ring's, should the ring
    /// number ever be out of range).
    fn current_state(&self) -> (s: State)
        ensures
            self.machine_model().current_ring < 3 ==> s@ == cur(self.machine_model()),
    {
        if self.machine.current_ring < 3 {
            self.machine.states[self.machine.current_ring]
        } else {
            self.machine.states[0]
        }
    }

    /// The program counter of the current ring.
    pub fn pc(&self) -> (r: u32)
        ensures
            self.machine_model().current_ring < 3 ==> r == cur(self.machine_model()).pc,
    {
        self.current_state().pc
    }

    /// The flags register of the current ring.
    pub fn flags(&self) -> (r: u32)
        ensures
            self.machine_model().current_ring < 3 ==> r == cur(self.machine_model()).flags,
    {
        self.current_state().flags
    }

    /// The stack pointer of the current ring.
    pub fn stack_ptr(&self) -> (r: u32)
        ensures
            self.machine_model().current_ring < 3 ==> r == cur(self.machine_model()).stack,
    {
        self.current_state().stack
    }

    /// The sixteen registers of the current ring.
    pub fn registers(&self) -> (r: Vec<u32>)
        ensures
            r@.len() == 16,
            self.machine_model().current_ring < 3 ==> r@ == cur(self.machine_model()).reg,
    {
        let regs = self.current_state().reg;
        let mut v: Vec<u32> = Vec::new();
        let mut i: usize = 0;
        while i < 16
            invariant
                i <= 16,
                v@ == regs@.take(i as int),
                self.machine_model().current_ring < 3 ==> regs@ == cur(self.machine_model()).reg,
            decreases 16 - i,
        {
            v.push(regs[i]);
            i = i + 1;
            assert(v@ =~= regs@.take(i as int));
        }
        assert(regs@.take(16) =~= regs@);
        v
    }

    /// `len` words of RAM from word address `start` on, cut at the end of RAM;
    /// nothing when `start` lies outside RAM.
    pub fn memory_range(&self, start: usize, len: usize) -> (r: Vec<u32>)
        ensures
            start >= self.machine_model().memory.len() ==> r@ == Seq::<u32>::empty(),
            start < self.machine_model().memory.len() ==> r@ == self.machine_model().memory.subrange(
                start as int,
                if start + len <= self.machine_model().memory.len() { start + len } else {
                    self.machine_model().memory.len() as int
                },
            ),
    {
        let mem_len = self.machine.memory.len();
        if start >= mem_len {
            return Vec::new();
        }
        let end = if len <= mem_len - start { start + len } else { mem_len };
        let mut v: Vec<u32> = Vec::new();
        let mut i: usize = start;
        while i < end
            invariant
                start <= i <= end <= mem_len,
                mem_len == self.machine@.memory.len(),
                v@ == self.machine@.memory.subrange(start as int, i as int),
            decreases end - i,
        {
            v.push(self.machine.memory[i]);
            i = i + 1;
            assert(v@ =~= self.machine@.memory.subrange(start as int, i as int));
        }
        v
    }
}

} // verus!
