//! The emulator: machine state, memory, execution.
use vstd::prelude::*;
use std::sync::mpsc;

pub mod instructions;
pub mod state;
pub mod channel;
pub mod mmio;
pub mod model;
pub mod access;
pub mod execute;
pub mod laws;
pub mod check;
pub mod mem_dump;

pub use instructions::{BinaryOperator, Condition, Instruction};
pub use state::State;
pub use mmio::SharedMMIO;
pub use execute::FloatUnit;

verus! {

/// A TinyArch machine: word-addressed RAM, three rings of registers, and up to
/// fifteen memory mapped devices.
pub struct Machine {
    pub memory: Vec<u32>,
    pub current_ring: usize,
    pub states: [State; 3],
    pub halted: bool,

    pub mmio_devices: [Option<SharedMMIO>; 16],
    pub interrupt: mpsc::Receiver<u32>,
    pub internal_interrupt: mpsc::Sender<u32>,
}

/// What the logic of a machine reads: RAM, the ring, the register states, the halt
/// flag, and the size of each mapped device (device contents are shared with other
/// threads and are not part of the model).
pub struct MachineModel {
    pub memory: Seq<u32>,
    pub current_ring: nat,
    pub states: Seq<state::StateModel>,
    pub halted: bool,
    pub devices: Seq<Option<nat>>,
}

/// The size of a device slot, if one is mapped.
pub open spec fn device_size(d: Option<SharedMMIO>) -> Option<nat> {
    match d {
        Some(m) => Some(m.data@.len()),
        None => None,
    }
}

impl View for Machine {
    type V = MachineModel;

    open spec fn view(&self) -> MachineModel {
        MachineModel {
            memory: self.memory@,
            current_ring: self.current_ring as nat,
            states: self.states@.map_values(|s: State| s@),
            halted: self.halted,
            devices: self.mmio_devices@.map_values(|d: Option<SharedMMIO>| device_size(d)),
        }
    }
}

/// A machine whose ring selects one of its three states, each of sixteen registers.
pub open spec fn machine_wf(m: MachineModel) -> bool {
    &&& m.current_ring < 3
    &&& m.states.len() == 3
    &&& m.devices.len() == 16
    &&& forall|i: int| 0 <= i < 3 ==> (#[trigger] m.states[i]).reg.len() == 16
}

} // verus!
