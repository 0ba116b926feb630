//! RAM and ROM regions: byte arrays that answer the bus at a base address.
use vstd::prelude::*;

use crate::address_bus::AddressingError;

verus! {

/// A linear block of bytes seen by the bus at `offset .. offset + mem.len()`.
/// A read-only region (a ROM) refuses writes.
pub struct Memory {
    pub offset: u16,
    pub mem: Vec<u8>,
    pub read_only: bool,
}

impl Memory {
    /// Whether `addr` falls inside this region.
    pub open spec fn contains(&self, addr: u16) -> bool {
        self.offset <= addr && (addr - self.offset) < self.mem@.len()
    }

    /// The byte stored for `addr` (meaningful when `contains(addr)`).
    pub open spec fn byte_at(&self, addr: u16) -> u8 {
        self.mem@[addr - self.offset]
    }

    /// A zero-filled region of `size` bytes.
    pub fn new(offset: u16, size: usize) -> (r: Memory)
        ensures
            r.offset == offset,
            r.mem@ == Seq::new(size as nat, |i: int| 0u8),
            !r.read_only,
    {
        let mut mem: Vec<u8> = Vec::new();
        let mut i: usize = 0;
        while i < size
            invariant
                i <= size,
                mem@ == Seq::new(i as nat, |j: int| 0u8),
            decreases size - i,
        {
            mem.push(0u8);
            i = i + 1;
            assert(mem@ =~= Seq::new(i as nat, |j: int| 0u8));
        }
        Memory { offset, mem, read_only: false }
    }

    /// A writable region holding exactly the bytes `v`.
    pub fn from_vec(offset: u16, v: Vec<u8>) -> (r: Memory)
        ensures
            r.offset == offset,
            r.mem@ == v@,
            !r.read_only,
    {
        Memory { offset, mem: v, read_only: false }
    }

    /// A read-only region holding exactly the bytes `v`.
    pub fn rom(offset: u16, v: Vec<u8>) -> (r: Memory)
        ensures
            r.offset == offset,
            r.mem@ == v@,
            r.read_only,
    {
        Memory { offset, mem: v, read_only: true }
    }

    /// Pads the region with `value` until it holds at least `size` bytes.
    pub fn fill(&mut self, size: usize, value: u8)
        ensures
            final(self).offset == old(self).offset,
            final(self).read_only == old(self).read_only,
            old(self).mem@.len() >= size ==> final(self).mem@ == old(self).mem@,
            old(self).mem@.len() < size ==> final(self).mem@ == old(self).mem@ + Seq::new(
                (size - old(self).mem@.len()) as nat,
                |i: int| value,
            ),
    {
        let ghost start = self.mem@;
        while self.mem.len() < size
            invariant
                self.offset == old(self).offset,
                self.read_only == old(self).read_only,
                start == old(self).mem@,
                start.len() <= self.mem@.len(),
                self.mem@.len() <= size || self.mem@ == start,
                self.mem@ == start + Seq::new((self.mem@.len() - start.len()) as nat, |i: int| value),
            decreases size - self.mem@.len(),
        {
            self.mem.push(value);
            assert(self.mem@ =~= start + Seq::new((self.mem@.len() - start.len()) as nat, |i: int| value));
        }
        assert(start + Seq::new(0, |i: int| value) =~= start);
    }

    pub fn len(&self) -> (r: usize)
        ensures
            r == self.mem@.len(),
    {
        self.mem.len()
    }

    /// Reads the byte for `addr`, which must lie inside the region.
    pub fn int_read(&self, addr: u16) -> (r: u8)
        requires
            self.contains(addr),
        ensures
            r == self.byte_at(addr),
    {
        self.mem[(addr - self.offset) as usize]
    }

    /// Stores `data` for `addr`, which must lie inside the region; a
    /// read-only region ignores it.
    pub fn int_write(&mut self, addr: u16, data: u8)
        requires
            old(self).contains(addr),
        ensures
            final(self).offset == old(self).offset,
            final(self).read_only == old(self).read_only,
            old(self).read_only ==> final(self).mem@ == old(self).mem@,
            !old(self).read_only ==> final(self).mem@ == old(self).mem@.update(
                addr - old(self).offset,
                data,
            ),
    {
        if !self.read_only {
            let i = (addr - self.offset) as usize;
            self.mem.set(i, data);
        }
    }

    /// Reads the byte for `addr`; an address outside the region is an error.
    pub fn read(&self, addr: u16) -> (r: Result<u8, AddressingError>)
        ensures
            self.contains(addr) <==> r is Ok,
            self.contains(addr) ==> r == Ok::<u8, AddressingError>(self.byte_at(addr)),
            !self.contains(addr) ==> r->Err_0.addr == addr,
    {
        if addr < self.offset || (addr - self.offset) as usize >= self.mem.len() {
            Err(AddressingError::new("read", addr))
        } else {
            Ok(self.mem[(addr - self.offset) as usize])
        }
    }

    /// Stores `data` for `addr`; an address outside the region, or any write
    /// to a read-only region, is an error and leaves the region unchanged.
    pub fn write(&mut self, addr: u16, data: u8) -> (r: Result<(), AddressingError>)
        ensures
            (old(self).contains(addr) && !old(self).read_only) <==> r is Ok,
            final(self).offset == old(self).offset,
            final(self).read_only == old(self).read_only,
            r is Ok ==> final(self).mem@ == old(self).mem@.update(addr - old(self).offset, data),
            r is Err ==> final(self).mem@ == old(self).mem@ && r->Err_0.addr == addr,
    {
        if self.read_only || addr < self.offset || (addr - self.offset) as usize >= self.mem.len() {
            Err(AddressingError::new("write", addr))
        } else {
            let i = (addr - self.offset) as usize;
            self.mem.set(i, data);
            Ok(())
        }
    }
}

} // verus!
