//! The register file of one privilege ring.
use vstd::prelude::*;
use crate::numtext::{hex_lower, fmt_digits};
use crate::text::{string_of, append_str, append_chars};

verus! {

/// Registers, program counter, flags and stack pointer of one ring.
#[derive(Clone, Copy, Debug)]
pub struct State {
    pub reg: [u32; 16],
    pub pc: u32,
    pub flags: u32,
    pub stack: u32,
    pub sparam: u8,
}

/// The values a register state holds.
pub struct StateModel {
    pub reg: Seq<u32>,
    pub pc: u32,
    pub flags: u32,
    pub stack: u32,
    pub sparam: u8,
}

impl View for State {
    type V = StateModel;

    open spec fn view(&self) -> StateModel {
        StateModel { reg: self.reg@, pc: self.pc, flags: self.flags, stack: self.stack, sparam: self.sparam }
    }
}

/// The all-zero register state.
pub open spec fn zero_state() -> StateModel {
    StateModel { reg: Seq::new(16, |i: int| 0u32), pc: 0, flags: 0, stack: 0, sparam: 0 }
}

impl State {
    /// A state with every register, the counter, the flags and the stack at zero.
    pub fn new() -> (s: State)
        ensures
            s@ == zero_state(),
    {
        let s = State { reg: [0u32; 16], pc: 0, flags: 0, stack: 0, sparam: 0 };
        assert(s.reg@ =~= Seq::new(16, |i: int| 0u32));
        s
    }
}

/// Words in lower-case hexadecimal, separated by `, `.
pub open spec fn hex_list(v: Seq<u32>) -> Seq<char>
    decreases v.len(),
{
    if v.len() == 0 {
        Seq::empty()
    } else if v.len() == 1 {
        hex_lower(v[0] as nat)
    } else {
        hex_list(v.drop_last()) + ", "@ + hex_lower(v.last() as nat)
    }
}

/// The one-line text of a register state: counter, stack pointer, stack parameter
/// and registers, all in lower-case hexadecimal.
pub open spec fn state_text(s: StateModel) -> Seq<char> {
    "PC:"@ + hex_lower(s.pc as nat) + ", ST: "@ + hex_lower(s.stack as nat) + " ("@
        + hex_lower(s.sparam as nat) + "), REG: ["@ + hex_list(s.reg) + "]"@
}

impl State {
    /// The state as one line of text, as it is printed for debugging.
    pub fn debug_text(&self) -> (r: String)
        ensures
            r@ == state_text(self@),
    {
        let mut v: Vec<char> = Vec::new();
        append_str(&mut v, "PC:");
        append_chars(&mut v, &fmt_digits(self.pc as u64, 16, false));
        append_str(&mut v, ", ST: ");
        append_chars(&mut v, &fmt_digits(self.stack as u64, 16, false));
        append_str(&mut v, " (");
        append_chars(&mut v, &fmt_digits(self.sparam as u64, 16, false));
        append_str(&mut v, "), REG: [");
        let ghost head = v@;
        let mut i: usize = 0;
        while i < 16
            invariant
                i <= 16,
                self.reg@.len() == 16,
                v@ == head + hex_list(self.reg@.take(i as int)),
            decreases 16 - i,
        {
            assert(self.reg@.take(i + 1).drop_last() =~= self.reg@.take(i as int));
            if i > 0 {
                append_str(&mut v, ", ");
            }
            append_chars(&mut v, &fmt_digits(self.reg[i] as u64, 16, false));
            i = i + 1;
        }
        assert(self.reg@.take(16) =~= self.reg@);
        append_str(&mut v, "]");
        string_of(&v)
    }
}

} // verus!
