use vstd::prelude::*;

use crate::addressable::{next_addr, unpack_u16, Addressable, Readable, Writable};

verus! {

/// The byte at `addr` of `m`, or 0 past its end.
pub open spec fn mem_read(m: Seq<u8>, addr: u16) -> u8 {
    if (addr as int) < m.len() {
        m[addr as int]
    } else {
        0
    }
}

/// `m` with `data` at `addr`; a write past the end is dropped.
pub open spec fn mem_write(m: Seq<u8>, addr: u16, data: u8) -> Seq<u8> {
    if (addr as int) < m.len() {
        m.update(addr as int, data)
    } else {
        m
    }
}

/// A flat byte store.
pub struct Memory {
    data: Vec<u8>,
}

impl View for Memory {
    type V = Seq<u8>;

    closed spec fn view(&self) -> Seq<u8> {
        self.data@
    }
}

impl Memory {
    /// A store of `max_address` bytes, all zero.
    pub fn new(max_address: u16) -> (r: Memory)
        ensures
            r@ == Seq::new(max_address as nat, |i: int| 0u8),
    {
        let m = Memory { data: vec![0; max_address as usize] };
        assert(m@ =~= Seq::new(max_address as nat, |i: int| 0u8));
        m
    }

    /// Number of bytes held.
    pub fn len(&self) -> (r: usize)
        ensures
            r == self@.len(),
    {
        self.data.len()
    }
}

impl Readable for Memory {
    open spec fn peek(&self, addr: u16) -> u8 {
        mem_read(self@, addr)
    }

    fn read(&self, addr: u16) -> (r: u8) {
        if (addr as usize) < self.data.len() {
            self.data[addr as usize]
        } else {
            0
        }
    }
}

impl Writable for Memory {
    fn write(&mut self, addr: u16, data: u8)
        ensures
            final(self)@ == mem_write(old(self)@, addr, data),
    {
        if (addr as usize) < self.data.len() {
            self.data.set(addr as usize, data);
        }
    }

    fn write_u16(&mut self, addr: u16, data: u16)
        ensures
            final(self)@ == mem_write(
                mem_write(old(self)@, addr, (data % 256) as u8),
                next_addr(addr),
                (data / 256) as u8,
            ),
    {
        let (high, low) = unpack_u16(data);
        self.write(addr, low);
        self.write(addr.wrapping_add(1), high);
    }
}

impl Addressable for Memory {

}

} // verus!
