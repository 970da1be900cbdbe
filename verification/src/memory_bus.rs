//! The byte-addressable memory that the CPU reads and writes.

use vstd::prelude::*;

verus! {

/// Number of bytes in the address space: every 16-bit address names one.
pub const MEMORY_SIZE: usize = 0x10000;

/// A flat 64 KiB memory without banks or mapped devices.
pub struct MemoryBus {
    pub memory: [u8; MEMORY_SIZE],
}

impl View for MemoryBus {
    type V = Seq<u8>;

    /// The memory as a sequence of `MEMORY_SIZE` bytes, indexed by address.
    open spec fn view(&self) -> Seq<u8> {
        self.memory@
    }
}

impl MemoryBus {
    /// A memory in which every byte is zero.
    pub fn new() -> (bus: Self)
        ensures
            bus@ == zeroed_memory(),
    {
        let bus = Self { memory: [0x0; MEMORY_SIZE] };
        assert(bus@ =~= zeroed_memory());
        bus
    }

    /// The byte stored at `address`.
    pub fn read_byte(&self, address: u16) -> (value: u8)
        ensures
            value == self@[address as int],
    {
        self.memory[address as usize]
    }

    /// Stores `value` at `address` and leaves every other byte as it was.
    pub fn write_byte(&mut self, address: u16, value: u8)
        ensures
            final(self)@ == old(self)@.update(address as int, value),
    {
        let address = address as usize;
        self.memory[address] = value;
    }
}

/// The contents of a freshly made memory.
pub open spec fn zeroed_memory() -> Seq<u8> {
    Seq::new(MEMORY_SIZE as nat, |address: int| 0u8)
}

} // verus!
