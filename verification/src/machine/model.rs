//! The machine's behaviour stated over `MachineModel`.
use vstd::prelude::*;
use super::MachineModel;
use super::state::StateModel;

verus! {

/// The register state of the current ring.
pub open spec fn cur(m: MachineModel) -> StateModel {
    m.states[m.current_ring as int]
}

/// Register `r` of the current ring.
pub open spec fn reg(m: MachineModel, r: int) -> u32 {
    cur(m).reg[r]
}

/// The model with the current ring's state replaced.
pub open spec fn with_state(m: MachineModel, s: StateModel) -> MachineModel {
    MachineModel { states: m.states.update(m.current_ring as int, s), ..m }
}

/// The model with register `r` of the current ring set to `v`.
pub open spec fn with_reg(m: MachineModel, r: int, v: u32) -> MachineModel {
    let s = cur(m);
    with_state(m, StateModel { reg: s.reg.update(r, v), ..s })
}

/// The model with the current ring's program counter set to `v`.
pub open spec fn with_pc(m: MachineModel, v: u32) -> MachineModel {
    with_state(m, StateModel { pc: v, ..cur(m) })
}

/// The model with the current ring's stack pointer set to `v`.
pub open spec fn with_stack(m: MachineModel, v: u32) -> MachineModel {
    with_state(m, StateModel { stack: v, ..cur(m) })
}

/// The device number an address selects: its top four bits of 32.
pub open spec fn device_of(a: int) -> int {
    a / 0x1000_0000
}

/// The offset of an address within its device.
pub open spec fn device_offset(a: int) -> int {
    a % 0x1000_0000
}

/// Whether reading or writing address `a` stays in bounds: RAM addresses (device 0)
/// must lie inside RAM, and addresses of a mapped device inside that device.
/// Addresses of unmapped devices read as zero and ignore writes.
pub open spec fn addr_ok(m: MachineModel, a: int) -> bool {
    &&& 0 <= a < 0x1_0000_0000
    &&& device_of(a) == 0 ==> a < m.memory.len()
    &&& device_of(a) != 0 ==> (m.devices[device_of(a)] matches Some(size) ==> device_offset(a) < size)
}

/// The word a read of address `a` returns, where `dev` is what a mapped device
/// happened to hold.
pub open spec fn read_val(m: MachineModel, a: int, dev: u32) -> u32 {
    if device_of(a) == 0 {
        m.memory[a]
    } else if m.devices[device_of(a)] is Some {
        dev
    } else {
        0
    }
}

/// The model after writing `v` to address `a` (device contents are not modelled).
pub open spec fn write_val(m: MachineModel, a: int, v: u32) -> MachineModel {
    if device_of(a) == 0 {
        MachineModel { memory: m.memory.update(a, v), ..m }
    } else {
        m
    }
}

/// The base register of an operand byte: its high nibble.
pub open spec fn rrix_base(r_rix: u8) -> int {
    (r_rix / 16) as int
}

/// The index register of an operand byte: its low nibble (0 means none).
pub open spec fn rrix_index(r_rix: u8) -> int {
    (r_rix % 16) as int
}

/// The address an indexed operand refers to: base plus index times the multiplier.
pub open spec fn rrix_addr(m: MachineModel, r_rix: u8, mult: u8) -> int {
    reg(m, rrix_base(r_rix)) + reg(m, rrix_index(r_rix)) * mult
}

/// Whether an operand can be accessed: a plain register always; an indexed operand
/// when the address arithmetic does not overflow 32 bits and the address is in bounds.
pub open spec fn rrix_ok(m: MachineModel, r_rix: u8, mult: u8) -> bool {
    rrix_index(r_rix) == 0 || {
        &&& reg(m, rrix_index(r_rix)) * mult <= u32::MAX
        &&& rrix_addr(m, r_rix, mult) <= u32::MAX
        &&& addr_ok(m, rrix_addr(m, r_rix, mult))
    }
}

/// The word an operand reads: the base register, or the word at its address.
pub open spec fn rrix_read(m: MachineModel, r_rix: u8, mult: u8, dev: u32) -> u32 {
    if rrix_index(r_rix) == 0 {
        reg(m, rrix_base(r_rix))
    } else {
        read_val(m, rrix_addr(m, r_rix, mult), dev)
    }
}

/// The model after writing `v` to an operand.
pub open spec fn rrix_write(m: MachineModel, r_rix: u8, mult: u8, v: u32) -> MachineModel {
    if rrix_index(r_rix) == 0 {
        with_reg(m, rrix_base(r_rix), v)
    } else {
        write_val(m, rrix_addr(m, r_rix, mult), v)
    }
}

} // verus!
