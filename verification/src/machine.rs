//! The memory bus: a flat byte store of `MEM_SIZE` cells. Every 16-bit
//! address is reduced modulo `MEM_SIZE` before indexing, so the 64 KiB
//! address space is the physical array mirrored four times; wraparound is
//! defined behavior, never an error.

use vstd::prelude::*;
use vstd::pervasive::VecAdditionalExecFns;

verus! {

/// Physical capacity of the memory array in bytes (16 KiB).
pub const MEM_SIZE: usize = 0x4000;

/// The byte a read of `address` returns, given the memory contents.
pub open spec fn mem_rd(mem: Seq<u8>, address: u16) -> u8 {
    mem[address as int % (MEM_SIZE as int)]
}

/// The memory contents after `value` is written at `address`.
pub open spec fn mem_wr(mem: Seq<u8>, address: u16, value: u8) -> Seq<u8> {
    mem.update(address as int % (MEM_SIZE as int), value)
}

pub struct Machine {
    memory: Vec<u8>,
}

impl View for Machine {
    type V = Seq<u8>;

    closed spec fn view(&self) -> Seq<u8> {
        self.memory@
    }
}

impl Machine {
    /// The memory holds exactly `MEM_SIZE` cells.
    pub open spec fn wf(&self) -> bool {
        self@.len() == MEM_SIZE
    }

    /// A fresh machine: every cell zeroed, to be filled by a program loader.
    pub fn new() -> (r: Machine)
        ensures
            r.wf(),
            forall|i: int| 0 <= i < MEM_SIZE ==> r@[i] == 0u8,
    {
        let mut memory: Vec<u8> = Vec::new();
        while memory.len() < MEM_SIZE
            invariant
                memory@.len() <= MEM_SIZE,
                forall|i: int| 0 <= i < memory@.len() ==> memory@[i] == 0u8,
            decreases MEM_SIZE - memory.len(),
        {
            memory.push(0u8);
        }
        Machine { memory }
    }

    /// Reads the byte stored at `address`, reduced modulo the capacity.
    pub fn read_byte(&mut self, address: u16) -> (r: u8)
        requires
            old(self).wf(),
        ensures
            *final(self) == *old(self),
            r == mem_rd(old(self)@, address),
    {
        let location: usize = (address as usize) % MEM_SIZE;
        self.memory[location]
    }

    /// Writes `value` at `address`, reduced modulo the capacity.
    pub fn write_byte(&mut self, address: u16, value: u8)
        requires
            old(self).wf(),
        ensures
            final(self).wf(),
            final(self)@ == mem_wr(old(self)@, address, value),
    {
        let location: usize = (address as usize) % MEM_SIZE;
        self.memory.set(location, value);
    }

    /// Hook for the embedding run loop, which repeatedly steps a `CPU` built
    /// over this bus; the memory itself takes no part in stepping.
    pub fn execute(&mut self)
        ensures
            *final(self) == *old(self),
    {
    }
}

/// Address mirroring: a write lands in the one physical cell that every
/// address congruent modulo the capacity shares, so a read through any
/// mirror image of the written address returns the written byte.
pub proof fn lemma_mirrored_read_back(mem: Seq<u8>, a: u16, b: u16, v: u8)
    requires
        mem.len() == MEM_SIZE,
        a as int % (MEM_SIZE as int) == b as int % (MEM_SIZE as int),
    ensures
        mem_rd(mem_wr(mem, a, v), b) == v,
{
}

impl Default for Machine {
    fn default() -> (r: Self)
        ensures
            r.wf(),
            forall|i: int| 0 <= i < MEM_SIZE ==> r@[i] == 0u8,
    {
        Self::new()
    }
}

} // verus!
