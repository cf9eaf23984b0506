//! Memory shared between the processor and devices (memory mapped IO).
use vstd::prelude::*;
use std::sync::Arc;
use std::sync::atomic::AtomicU32;
use std::sync::atomic::Ordering;
use std::sync::mpsc::Sender;
use super::{Machine, MachineModel, machine_wf, device_size};
use super::channel::sender_clone;

verus! {

/// Reads one cell of shared memory. Devices may write the cell at any time, so
/// nothing is known of the value.
fn load_cell(cell: &AtomicU32) -> u32 {
    cell.load(Ordering::Relaxed)
}

/// Writes one cell of shared memory.
fn store_cell(cell: &AtomicU32, val: u32) {
    cell.store(val, Ordering::Relaxed)
}

/// `Arc::from` on a vector: a shared slice with the vector's cells.
#[verifier::external_body]
fn arc_from_vec(v: Vec<AtomicU32>) -> (r: Arc<[AtomicU32]>)
    ensures
        r@ == v@,
{
    Arc::from(v)
}

/// `Arc::clone`: a second handle on the same cells.
#[verifier::external_body]
fn arc_share(a: &Arc<[AtomicU32]>) -> (r: Arc<[AtomicU32]>)
    ensures
        r@ == a@,
{
    Arc::clone(a)
}

/// A slice of memory shared between the processor and devices.
pub struct SharedMMIO {
    pub data: Arc<[AtomicU32]>,
}

impl SharedMMIO {
    /// Shared memory of `size` cells, each holding zero.
    pub fn new(size: usize) -> (r: SharedMMIO)
        ensures
            r.data@.len() == size,
    {
        let mut v: Vec<AtomicU32> = Vec::new();
        let mut i: usize = 0;
        while i < size
            invariant
                i <= size,
                v@.len() == i,
            decreases size - i,
        {
            v.push(AtomicU32::new(0));
            i = i + 1;
        }
        SharedMMIO { data: arc_from_vec(v) }
    }

    /// The number of cells.
    pub open spec fn size(&self) -> nat {
        self.data@.len()
    }

    /// Reads cell `addr`; what it holds is whatever was last written by anyone.
    pub fn read(&self, addr: usize) -> u32
        requires
            addr < self.size(),
    {
        load_cell(&self.data[addr])
    }

    /// Writes `val` into cell `addr`.
    pub fn write(&self, addr: usize, val: u32)
        requires
            addr < self.size(),
    {
        store_cell(&self.data[addr], val)
    }

    /// A second handle on the same cells.
    pub fn clone(&self) -> (r: SharedMMIO)
        ensures
            r.data@ == self.data@,
    {
        SharedMMIO { data: arc_share(&self.data) }
    }
}

impl Machine {
    /// Maps new shared memory of `size` cells at device number `id` (1 to 15)
    /// and returns a handle on it. The number must be free.
    pub fn map_new_mmio(&mut self, id: usize, size: usize) -> (r: SharedMMIO)
        requires
            machine_wf(old(self)@),
            0 < id < 16,
            old(self)@.devices[id as int] is None,
        ensures
            r.data@.len() == size,
            final(self)@ == (MachineModel {
                devices: old(self)@.devices.update(id as int, Some(size as nat)),
                ..old(self)@
            }),
            final(self).mmio_devices@[id as int] matches Some(d) && d.data@ == r.data@,
    {
        assert(device_size(self.mmio_devices@[id as int]) is None);
        let mmio = SharedMMIO::new(size);
        self.mmio_devices[id] = Some(mmio.clone());
        proof {
            assert(self@.devices =~= old(self)@.devices.update(id as int, Some(size as nat)));
        }
        mmio
    }

    /// A sender on the machine's interrupt channel.
    pub fn get_interrupt_channel(&mut self) -> (r: Sender<u32>)
        ensures
            final(self)@ == old(self)@,
    {
        sender_clone(&self.internal_interrupt)
    }
}

} // verus!
