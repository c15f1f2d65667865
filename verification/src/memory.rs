//! Flat byte memory with a latched address register.
//!
//! A `Memory` holds `N` bytes addressed by a 16-bit index. The latched
//! register `MAR` selects the cell for the next `read` or `write`; the
//! `public_*` accessors take the address directly. Every access must land
//! inside the array.

use vstd::prelude::*;

verus! {

/// Default memory size in bytes.
pub const MEM_SIZE: u16 = 8192;

/// Mathematical state of a memory: its bytes and the latched address.
#[verifier::ext_equal]
pub ghost struct MemView {
    pub bytes: Seq<u8>,
    pub mar: u16,
}

pub struct Memory {
    mem: Vec<u8>,
    mar: u16,
}

impl View for Memory {
    type V = MemView;

    closed spec fn view(&self) -> MemView {
        MemView { bytes: self.mem@, mar: self.mar }
    }
}

/// A fresh memory of `size` zero bytes, with the address register at zero.
pub fn new(size: u16) -> (r: Memory)
    ensures
        r@.bytes.len() == size,
        forall|i: int| 0 <= i < size ==> r@.bytes[i] == 0u8,
        r@.mar == 0,
{
    Memory { mem: vec![0u8; size as usize], mar: 0 }
}

impl Memory {
    /// Latch `addr` as the cell for the next `read` or `write`.
    pub fn set_addr(&mut self, addr: u16)
        ensures
            final(self)@ == (MemView { mar: addr, ..old(self)@ }),
    {
        self.mar = addr;
    }

    /// The byte at the latched address.
    pub fn read(&self) -> (r: u8)
        requires
            self@.mar < self@.bytes.len(),
        ensures
            r == self@.bytes[self@.mar as int],
    {
        self.mem[self.mar as usize]
    }

    /// Store `value` at the latched address.
    pub fn write(&mut self, value: u8)
        requires
            old(self)@.mar < old(self)@.bytes.len(),
        ensures
            final(self)@ == (MemView {
                bytes: old(self)@.bytes.update(old(self)@.mar as int, value),
                ..old(self)@
            }),
    {
        let i = self.mar as usize;
        self.mem[i] = value;
    }

    /// The byte at `addr`, without touching the latched address.
    pub fn public_read(&self, addr: u16) -> (r: u8)
        requires
            addr < self@.bytes.len(),
        ensures
            r == self@.bytes[addr as int],
    {
        self.mem[addr as usize]
    }

    /// Store `value` at `addr`, without touching the latched address.
    pub fn public_write(&mut self, value: u8, addr: u16)
        requires
            addr < old(self)@.bytes.len(),
        ensures
            final(self)@ == (MemView {
                bytes: old(self)@.bytes.update(addr as int, value),
                ..old(self)@
            }),
    {
        let i = addr as usize;
        self.mem[i] = value;
    }

    /// Replace the whole contents with `image`; the new size is the image
    /// length. Only legal before execution begins.
    pub fn load_image(&mut self, image: Vec<u8>)
        ensures
            final(self)@ == (MemView { bytes: image@, ..old(self)@ }),
    {
        self.mem = image;
    }

    /// Number of bytes held.
    pub fn size(&self) -> (r: usize)
        ensures
            r == self@.bytes.len(),
    {
        self.mem.len()
    }
}

} // verus!
