//! The flat 64 KiB byte-addressable memory collaborator, with
//! little-endian 16-bit accessors composed from the byte accessors.
//!
//! The address space is exactly 0..=0xFFFF; wrap-on-overflow address
//! arithmetic (a stack pointer stepping past the end) is the callers'
//! business, except that the word accessors wrap their own second byte.

use vstd::prelude::*;

verus! {

/// Number of addressable bytes.
pub const MEMORY_SIZE: usize = 0x10000;

/// A flat byte store covering the whole 16-bit address space.
pub struct Memory {
    data: Vec<u8>,
}

impl View for Memory {
    type V = Seq<u8>;

    closed spec fn view(&self) -> Seq<u8> {
        self.data@
    }
}

/// The little-endian word read at an address: low byte first, the high
/// byte at the next address, wrapping at the end of the space.
pub open spec fn spec_read16(m: Seq<u8>, addr: u16) -> u16 {
    crate::cpu::spec_join_u8(
        m[addr as int],
        m[vstd::wrapping::u16_specs::wrapping_add(addr, 1) as int],
    )
}

/// Memory after the little-endian word write at an address: low byte
/// first, the high byte at the next address, wrapping at the end.
pub open spec fn spec_write16(m: Seq<u8>, addr: u16, data: u16) -> Seq<u8> {
    m.update(addr as int, crate::cpu::spec_low_byte(data)).update(
        vstd::wrapping::u16_specs::wrapping_add(addr, 1) as int,
        crate::cpu::spec_high_byte(data),
    )
}

impl Memory {
    /// Every address is backed by a byte.
    pub open spec fn wf(self) -> bool {
        self@.len() == MEMORY_SIZE
    }

    /// A memory holding zero at every address.
    pub fn new() -> (m: Memory)
        ensures
            m.wf(),
            forall|i: int| 0 <= i < MEMORY_SIZE ==> m@[i] == 0u8,
    {
        let mut data: Vec<u8> = Vec::new();
        let mut i: usize = 0;
        while i < MEMORY_SIZE
            invariant
                i <= MEMORY_SIZE,
                data@.len() == i,
                forall|j: int| 0 <= j < i ==> data@[j] == 0u8,
            decreases MEMORY_SIZE - i,
        {
            data.push(0);
            i = i + 1;
        }
        Memory { data }
    }

    pub fn read(&self, addr: u16) -> (r: u8)
        requires
            self.wf(),
        ensures
            r == self@[addr as int],
    {
        self.data[addr as usize]
    }

    /// Borrow one byte mutably; memory afterwards holds whatever the
    /// caller leaves behind the borrow.
    pub fn read_mut<'a>(&'a mut self, addr: u16) -> (cell: &'a mut u8)
        requires
            old(self).wf(),
        ensures
            *cell == old(self)@[addr as int],
            final(self)@ == old(self)@.update(addr as int, *final(cell)),
            final(self).wf(),
    {
        &mut self.data[addr as usize]
    }

    pub fn write(&mut self, addr: u16, data: u8)
        requires
            old(self).wf(),
        ensures
            final(self)@ == old(self)@.update(addr as int, data),
            final(self).wf(),
    {
        self.data[addr as usize] = data;
    }

    /// Little-endian word write: the low byte at the address, the high
    /// byte at the next one, wrapping at the end of the space.
    pub fn write_u16(&mut self, addr: u16, data: u16)
        requires
            old(self).wf(),
        ensures
            final(self)@ == spec_write16(old(self)@, addr, data),
            final(self).wf(),
    {
        self.write(addr, crate::cpu::low_byte(data));
        self.write(addr.wrapping_add(1), crate::cpu::high_byte(data));
    }

    /// Little-endian word read: the low byte at the address, the high
    /// byte at the next one, wrapping at the end of the space.
    pub fn read_u16(&self, addr: u16) -> (r: u16)
        requires
            self.wf(),
        ensures
            r == spec_read16(self@, addr),
    {
        crate::cpu::join_u8(self.read(addr), self.read(addr.wrapping_add(1)))
    }
}

impl Default for Memory {
    /// Same as [`Memory::new`]: zero at every address.
    fn default() -> (m: Memory)
        ensures
            m.wf(),
            forall|i: int| 0 <= i < MEMORY_SIZE ==> m@[i] == 0u8,
    {
        Memory::new()
    }
}

} // verus!
