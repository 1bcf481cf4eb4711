use vstd::prelude::*;

verus! {

/// The address after `addr`, wrapping at the top of the 16-bit space.
pub open spec fn next_addr(addr: u16) -> u16 {
    ((addr + 1) % 0x10000) as u16
}

/// The little-endian word made of `low` and `high`.
pub open spec fn word(low: u8, high: u8) -> u16 {
    (high * 256 + low) as u16
}

/// Joins two bytes into a little-endian word.
pub fn pack_u16(high: u8, low: u8) -> (r: u16)
    ensures
        r == word(low, high),
{
    let r = ((high as u16) << 8) | (low as u16);
    assert(r == high * 256 + low) by (bit_vector)
        requires
            r == ((high as u16) << 8) | (low as u16),
    ;
    r
}

/// Splits a word into its high and low bytes.
pub fn unpack_u16(val: u16) -> (r: (u8, u8))
    ensures
        word(r.1, r.0) == val,
        r.0 == val / 256,
        r.1 == val % 256,
{
    let low = (val & 0xFF) as u8;
    let high = (val >> 8) as u8;
    assert(low == val % 256 && high == val / 256) by (bit_vector)
        requires
            low == (val & 0xFF) as u8,
            high == (val >> 8) as u8,
    ;
    (high, low)
}

/// A device whose bytes can be read without changing it.
pub trait Readable {
    /// The byte at `addr`.
    spec fn peek(&self, addr: u16) -> u8;

    fn read(&self, addr: u16) -> (r: u8)
        ensures
            r == self.peek(addr),
    ;

    /// The little-endian word at `addr` and the address after it.
    fn read_u16(&self, addr: u16) -> (r: u16)
        ensures
            r == word(self.peek(addr), self.peek(next_addr(addr))),
    {
        let low = self.read(addr);
        let high = self.read(addr.wrapping_add(1));
        pack_u16(high, low)
    }
}

/// A device that takes byte writes.
pub trait Writable {
    fn write(&mut self, addr: u16, data: u8);

    /// Writes `data` little-endian: the low byte at `addr`, then the high byte at the
    /// address after it.
    fn write_u16(&mut self, addr: u16, data: u16);
}

/// A device that can be read and written.
pub trait Addressable: Readable + Writable {

}

/// A device whose reads may change its state.
pub trait ReadableMut {
    fn read(&mut self, addr: u16) -> u8;

    /// Reads the low byte at `addr`, then the high byte at the address after it.
    fn read_u16(&mut self, addr: u16) -> u16;
}

/// A device whose reads may change its state, and that takes writes.
pub trait AddressableMut: ReadableMut + Writable {

}

} // verus!
