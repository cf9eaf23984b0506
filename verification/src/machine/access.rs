//! Reading and writing registers, operands and addresses.
use vstd::prelude::*;
use super::{Machine, State, machine_wf};
use super::state::zero_state;
use super::model::{reg, with_reg, addr_ok, read_val, write_val, rrix_ok, rrix_read, rrix_write};

verus! {

impl Machine {
    /// A machine with `memory` words of zeroed RAM, all registers zero, ring 0,
    /// and no devices.
    pub fn new(memory: usize) -> (m: Machine)
        ensures
            machine_wf(m@),
            m@.memory == Seq::new(memory as nat, |i: int| 0u32),
            m@.current_ring == 0,
            m@.states == Seq::new(3, |i: int| zero_state()),
            !m@.halted,
            m@.devices == Seq::new(16, |i: int| None::<nat>),
    {
        let (s, r) = super::channel::new_channel();
        let mem = vec![0u32; memory];
        let m = Machine {
            memory: mem,
            current_ring: 0,
            states: [State::new(), State::new(), State::new()],
            halted: false,
            mmio_devices: [None, None, None, None, None, None, None, None,
                None, None, None, None, None, None, None, None],
            interrupt: r,
            internal_interrupt: s,
        };
        assert(m@.memory =~= Seq::new(memory as nat, |i: int| 0u32));
        assert(m@.states =~= Seq::new(3, |i: int| zero_state()));
        assert(m@.devices =~= Seq::new(16, |i: int| None::<nat>));
        m
    }

    /// The register state of the current ring.
    pub fn state(&mut self) -> (s: &mut State)
        requires
            machine_wf(old(self)@),
        ensures
            *s == old(self).states@[old(self).current_ring as int],
            final(self).states@ == old(self).states@.update(old(self).current_ring as int, *final(s)),
            final(self).memory@ == old(self).memory@,
            final(self).current_ring == old(self).current_ring,
            final(self).halted == old(self).halted,
            final(self).mmio_devices@ == old(self).mmio_devices@,
    {
        &mut self.states[self.current_ring]
    }

    /// The word at `address`: RAM for device 0, the device's cell for a mapped
    /// device, zero for an unmapped one.
    pub fn read_address(&mut self, address: usize) -> (r: u32)
        requires
            machine_wf(old(self)@),
            addr_ok(old(self)@, address as int),
        ensures
            final(self)@ == old(self)@,
            r == read_val(old(self)@, address as int, r),
    {
        let id = address >> 28;
        proof {
            assert(address >> 28 == address / 0x1000_0000) by (bit_vector);
            assert(address & 0xfff_ffff == address % 0x1000_0000) by (bit_vector);
        }
        if id == 0 {
            self.memory[address]
        } else {
            match &self.mmio_devices[id] {
                Some(mmio) => mmio.read(address & 0xfff_ffff),
                None => 0,
            }
        }
    }

    /// Writes `val` at `address`: into RAM for device 0, into the device's cell
    /// for a mapped device; writes to an unmapped device are dropped.
    pub fn write_address(&mut self, address: usize, val: u32)
        requires
            machine_wf(old(self)@),
            addr_ok(old(self)@, address as int),
        ensures
            final(self)@ == write_val(old(self)@, address as int, val),
    {
        let id = address >> 28;
        proof {
            assert(address >> 28 == address / 0x1000_0000) by (bit_vector);
            assert(address & 0xfff_ffff == address % 0x1000_0000) by (bit_vector);
        }
        if id == 0 {
            self.memory.set(address, val);
            proof {
                assert(self@.devices =~= old(self)@.devices);
            }
        } else {
            match &self.mmio_devices[id] {
                Some(mmio) => mmio.write(address & 0xfff_ffff, val),
                None => {},
            }
        }
    }

    /// Register `r` of the current ring.
    pub fn r_read(&mut self, r: u8) -> (v: u32)
        requires
            machine_wf(old(self)@),
            r < 16,
        ensures
            final(self)@ == old(self)@,
            v == reg(old(self)@, r as int),
    {
        self.states[self.current_ring].reg[r as usize]
    }

    /// Sets register `r` of the current ring.
    pub fn r_write(&mut self, r: u8, val: u32)
        requires
            machine_wf(old(self)@),
            r < 16,
        ensures
            final(self)@ == with_reg(old(self)@, r as int, val),
    {
        let ring = self.current_ring;
        self.states[ring].reg[r as usize] = val;
        proof {
            assert(self@.states =~= with_reg(old(self)@, r as int, val).states);
            assert(self@.devices =~= old(self)@.devices);
        }
    }

    /// Reads an operand byte with multiplier 1.
    pub fn r_rix_read(&mut self, r_rix: u8) -> (v: u32)
        requires
            machine_wf(old(self)@),
            rrix_ok(old(self)@, r_rix, 1),
        ensures
            final(self)@ == old(self)@,
            v == rrix_read(old(self)@, r_rix, 1, v),
    {
        self.r_rix_m_read(r_rix, 1)
    }

    /// Reads an operand byte: high nibble base register `r`, low nibble index
    /// register `rix`. Without an index it is register `r`; with one it is the word
    /// at `r + rix * m`.
    pub fn r_rix_m_read(&mut self, r_rix: u8, m: u8) -> (v: u32)
        requires
            machine_wf(old(self)@),
            rrix_ok(old(self)@, r_rix, m),
        ensures
            final(self)@ == old(self)@,
            v == rrix_read(old(self)@, r_rix, m, v),
    {
        let r = r_rix >> 4;
        let rix = r_rix & 0xF;
        proof {
            assert(r_rix >> 4 == r_rix / 16 && r_rix & 0xF == r_rix % 16) by (bit_vector);
        }
        if rix == 0 {
            self.r_read(r)
        } else {
            let base = self.r_read(r);
            let idx = self.r_read(rix);
            let scaled = idx * (m as u32);
            self.read_address((base + scaled) as usize)
        }
    }

    /// Writes an operand byte with multiplier 1.
    pub fn r_rix_write(&mut self, r_rix: u8, val: u32)
        requires
            machine_wf(old(self)@),
            rrix_ok(old(self)@, r_rix, 1),
        ensures
            final(self)@ == rrix_write(old(self)@, r_rix, 1, val),
    {
        self.r_rix_m_write(r_rix, 1, val)
    }

    /// Writes an operand byte: register `r` without an index, otherwise the word at
    /// `r + rix * m`.
    pub fn r_rix_m_write(&mut self, r_rix: u8, m: u8, val: u32)
        requires
            machine_wf(old(self)@),
            rrix_ok(old(self)@, r_rix, m),
        ensures
            final(self)@ == rrix_write(old(self)@, r_rix, m, val),
    {
        let r = r_rix >> 4;
        let rix = r_rix & 0xF;
        proof {
            assert(r_rix >> 4 == r_rix / 16 && r_rix & 0xF == r_rix % 16) by (bit_vector);
        }
        if rix == 0 {
            self.r_write(r, val)
        } else {
            let base = self.r_read(r);
            let idx = self.r_read(rix);
            let scaled = idx * (m as u32);
            self.write_address((base + scaled) as usize, val)
        }
    }
}

} // verus!
