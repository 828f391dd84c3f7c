//! The 64 KiB flat memory bus, addressable as bytes or as little-endian
//! 16-bit words.

use vstd::prelude::*;

verus! {

/// The size of the address space: every 16-bit address is valid.
pub const MEMORY_SIZE: usize = 0x10000;

/// A flat 64 KiB memory. Its view is the sequence of all 65536 bytes.
pub struct MemoryBus {
    ram: Vec<u8>,
}

impl View for MemoryBus {
    type V = Seq<u8>;

    closed spec fn view(&self) -> Seq<u8> {
        self.ram@
    }
}

/// A 16-bit word read from two consecutive bytes, little-endian; the
/// second byte wraps around the top of memory.
pub open spec fn spec_read_u16(m: Seq<u8>, addr: u16) -> u16 {
    (m[addr as int] + m[(addr + 1) % 0x10000] * 0x100) as u16
}

impl MemoryBus {
    /// The bus holds exactly one byte for every 16-bit address.
    pub open spec fn wf(&self) -> bool {
        self@.len() == MEMORY_SIZE
    }

    /// A bus with all of memory zeroed.
    pub fn new() -> (r: MemoryBus)
        ensures
            r.wf(),
            forall|i: int| 0 <= i < 0x10000 ==> r@[i] == 0u8,
    {
        MemoryBus { ram: vec![0u8; MEMORY_SIZE] }
    }

    /// Stores one byte. Writes never fault: every address is valid.
    pub fn write_byte(&mut self, addr: u16, byte: u8)
        requires
            old(self).wf(),
        ensures
            final(self).wf(),
            final(self)@ == old(self)@.update(addr as int, byte),
    {
        let a = addr as usize;
        self.ram[a] = byte;
    }

    /// Loads one byte.
    pub fn read_byte(&self, addr: u16) -> (r: u8)
        requires
            self.wf(),
        ensures
            r == self@[addr as int],
    {
        let a = addr as usize;
        self.ram[a]
    }

    /// Loads a little-endian 16-bit word; the high byte comes from the
    /// next address, wrapping around the top of memory.
    pub fn read_u16(&self, addr: u16) -> (r: u16)
        requires
            self.wf(),
        ensures
            r == spec_read_u16(self@, addr),
    {
        let lo = self.read_byte(addr);
        let hi = self.read_byte(((addr as u32 + 1) % 0x10000) as u16);
        lo as u16 + (hi as u16) * 0x100
    }
}

} // verus!
