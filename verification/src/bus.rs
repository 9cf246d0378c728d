//! The byte-addressable memory bus: a flat store exposing byte read/write
//! by address.
//!
//! The bus is an external collaborator of the core: halfword and word
//! accesses are composed from byte accesses by the caller, and no alignment
//! is enforced here. A driver owns one `Memory` per system and serialises
//! accesses itself.

use vstd::prelude::*;

verus! {

/// A flat byte store.
pub struct Memory {
    ram: Vec<u8>,
}

impl View for Memory {
    type V = Seq<u8>;

    /// The bytes of the store, by address.
    closed spec fn view(&self) -> Seq<u8> {
        self.ram@
    }
}

/// How a core reaches the bus: load a byte from and store a byte to memory.
/// Implemented by the driving program, which decides how transfers move
/// between the bus and the register file.
pub trait BusAccess {
    /// Loads the byte at `addr` from `memory` into the implementor.
    fn lbyte(&mut self, memory: &Memory, addr: usize);

    /// Stores a byte of the implementor to `addr` in `memory`.
    fn sbyte(&self, memory: &mut Memory, addr: usize);
}

impl Memory {
    /// A zero-filled store covering the full 32-bit address space.
    pub fn new() -> (r: Memory)
        ensures
            r@.len() == 0xFFFF_FFFF,
            forall|i: int| 0 <= i < r@.len() ==> r@[i] == 0,
    {
        Memory::with_size(0xFFFF_FFFF)
    }

    /// A zero-filled store of `bytes` bytes, for drivers that map a smaller
    /// space.
    pub fn with_size(bytes: usize) -> (r: Memory)
        ensures
            r@.len() == bytes,
            forall|i: int| 0 <= i < r@.len() ==> r@[i] == 0,
    {
        let mut ram: Vec<u8> = Vec::new();
        ram.resize(bytes, 0u8);
        proof {
            assert forall|i: int| 0 <= i < ram@.len() implies ram@[i] == 0 by {
                assert(vstd::pervasive::cloned::<u8>(0u8, ram@[i]));
            }
        }
        Memory { ram }
    }

    /// The number of addressable bytes.
    pub fn len(&self) -> (n: usize)
        ensures
            n == self@.len(),
    {
        self.ram.len()
    }

    /// Reads the byte at `addr`.
    pub fn rbyte(&self, addr: usize) -> (b: u8)
        requires
            addr < self@.len(),
        ensures
            b == self@[addr as int],
    {
        self.ram[addr]
    }

    /// Writes `data` to `addr`; no other byte changes.
    pub fn wbyte(&mut self, addr: usize, data: u8)
        requires
            addr < old(self)@.len(),
        ensures
            final (self)@ == old(self)@.update(addr as int, data),
    {
        self.ram[addr] = data;
    }
}

} // verus!
