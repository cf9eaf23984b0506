//! Text output through a buffer of shared memory, read back synchronously.
use vstd::prelude::*;
use crate::machine::{Machine, MachineModel, SharedMMIO, machine_wf};
use crate::text::string_of;

verus! {

/// The device number of the text output buffer.
pub const MMIO_ID: usize = 0x1;

/// The number of cells of the text output buffer.
pub const BUFFER_LEN: usize = 512;

/// The character a program wrote as a word: its low byte, as a Latin-1 character.
pub open spec fn byte_char(w: u32) -> char {
    ((w as u8) as u32) as char
}

/// The text of the words a program wrote.
pub open spec fn text_of(words: Seq<u32>) -> Seq<char> {
    Seq::new(words.len(), |i: int| byte_char(words[i]))
}

/// The text of the words a program wrote, one character per word.
pub fn text_of_words(words: &Vec<u32>) -> (r: String)
    ensures
        r@ == text_of(words@),
{
    let mut v: Vec<char> = Vec::new();
    let mut i: usize = 0;
    while i < words.len()
        invariant
            i <= words@.len(),
            v@ == text_of(words@.take(i as int)),
        decreases words@.len() - i,
    {
        let c = (words[i] as u8) as char;
        v.push(c);
        i = i + 1;
        assert(v@ =~= text_of(words@.take(i as int)));
    }
    assert(words@.take(words@.len() as int) =~= words@);
    string_of(&v)
}

/// A synchronous text output device, for hosts without threads.
///
/// Cell 0 of the buffer holds the number of characters written, the cells from 1
/// on hold the characters. Writing 0 back to cell 0 acknowledges the text and lets
/// programs that wait on it go on.
pub struct BufferOutputDevice {
    mmio: SharedMMIO,
}

impl BufferOutputDevice {
    /// The buffer always has `BUFFER_LEN` cells.
    #[verifier::type_invariant]
    spec fn wf(self) -> bool {
        self.mmio.data@.len() == BUFFER_LEN
    }

    /// The cells of the buffer, shared with the machine.
    pub closed spec fn cells(&self) -> Seq<std::sync::atomic::AtomicU32> {
        self.mmio.data@
    }

    /// Maps the buffer into the machine as device 1. The device number must be free.
    pub fn connect(machine: &mut Machine) -> (r: BufferOutputDevice)
        requires
            machine_wf(old(machine)@),
            old(machine)@.devices[MMIO_ID as int] is None,
        ensures
            r.cells().len() == BUFFER_LEN,
            final(machine)@ == (MachineModel {
                devices: old(machine)@.devices.update(MMIO_ID as int, Some(BUFFER_LEN as nat)),
                ..old(machine)@
            }),
            final(machine).mmio_devices@[MMIO_ID as int] matches Some(d) && d.data@ == r.cells(),
    {
        let mmio = machine.map_new_mmio(MMIO_ID, BUFFER_LEN);
        BufferOutputDevice { mmio }
    }

    /// Takes the text a program has written into the buffer, and acknowledges it
    /// (sets the count back to zero). Nothing is taken, and nothing acknowledged,
    /// while the count is zero. Call it after every step, so that programs waiting
    /// on the acknowledgement go on.
    ///
    /// The buffer's cells are shared atomics whose contents the machine model does
    /// not hold, so only the form of the text is stated: one character for each
    /// word read, its low byte.
    pub fn drain(&self) -> (r: String)
        ensures
            exists|words: Seq<u32>| r@ == text_of(words),
    {
        proof { use_type_invariant(self); }
        let count = self.mmio.read(0) as usize;
        if count == 0 {
            let e = String::new();
            assert(e@ == text_of(Seq::<u32>::empty()));
            return e;
        }
        let mut words: Vec<u32> = Vec::new();
        let mut i: usize = 0;
        while i < count
            invariant
                i <= count,
                self.mmio.data@.len() == BUFFER_LEN,
            decreases count - i,
        {
            words.push(self.mmio.read((i + 1) % BUFFER_LEN));
            i = i + 1;
        }
        self.mmio.write(0, 0);
        text_of_words(&words)
    }
}

} // verus!
