use vstd::prelude::*;

verus! {

/// The video memory pointer at $2006: a 14-bit address written high byte first.
#[derive(Debug, Clone, Copy, PartialEq, Eq, Structural)]
pub struct AddressRegister {
    value: u16,
    hi_ptr: bool,
}

/// Mask of the picture unit's 14-bit address space.
pub const PPU_ADDRESS_MASK: u16 = 0x3FFF;

/// Pointer and latch after a write of `data` to $2006, from pointer `value` with the latch
/// at the high byte when `hi_next` is set.
pub open spec fn address_after_write(value: u16, hi_next: bool, data: u8) -> (u16, bool) {
    if hi_next {
        ((((data as int) * 256 + value % 256) % 0x4000) as u16, false)
    } else {
        ((((value / 256) * 256 + data as int) % 0x4000) as u16, true)
    }
}

impl AddressRegister {
    #[verifier::type_invariant]
    spec fn fits(self) -> bool {
        self.value <= 0x3FFF
    }

    /// The pointer.
    pub closed spec fn spec_value(self) -> u16 {
        self.value
    }

    /// Whether the next write sets the high byte.
    pub closed spec fn spec_hi_next(self) -> bool {
        self.hi_ptr
    }

    /// Pointer and latch after a write of `data` to $2006.
    pub open spec fn spec_update(self, data: u8) -> (u16, bool) {
        address_after_write(self.spec_value(), self.spec_hi_next(), data)
    }

    /// Pointer zero, waiting for the high byte.
    pub fn new() -> (r: AddressRegister)
        ensures
            r.spec_value() == 0,
            r.spec_hi_next(),
    {
        AddressRegister { value: 0, hi_ptr: true }
    }

    /// Writes the high byte on the first write of a pair and the low byte on the second,
    /// keeping 14 bits.
    pub fn update(&mut self, data: u8)
        ensures
            (final(self).spec_value(), final(self).spec_hi_next()) == old(self).spec_update(data),
    {
        proof {
            use_type_invariant(&*self);
        }
        let cur: u16 = self.value;
        let v: u16;
        if self.hi_ptr {
            v = ((data as u16) << 8) | (cur & 0xFF);
            assert(v & 0x3FFF == ((data as int) * 256 + cur % 256) % 0x4000) by (bit_vector)
                requires
                    v == ((data as u16) << 8) | (cur & 0xFF),
            ;
        } else {
            v = (cur & 0xFF00) | (data as u16);
            assert(v & 0x3FFF == ((cur / 256) * 256 + data as int) % 0x4000) by (bit_vector)
                requires
                    v == (cur & 0xFF00) | (data as u16),
            ;
        }
        assert(v & 0x3FFF <= 0x3FFF) by (bit_vector);
        self.set(v & PPU_ADDRESS_MASK);
        self.hi_ptr = !self.hi_ptr;
    }

    /// Moves the pointer forward by `inc`, wrapping within 14 bits.
    pub fn increment(&mut self, inc: u8)
        ensures
            final(self).spec_value() == (old(self).spec_value() + inc) % 0x4000,
            final(self).spec_hi_next() == old(self).spec_hi_next(),
    {
        proof {
            use_type_invariant(&*self);
        }
        let v: u16 = self.value + inc as u16;
        assert(v & 0x3FFF == v % 0x4000 && v & 0x3FFF <= 0x3FFF) by (bit_vector);
        self.set(v & PPU_ADDRESS_MASK);
    }

    /// Makes the next write the high byte.
    pub fn reset_latch(&mut self)
        ensures
            final(self).spec_value() == old(self).spec_value(),
            final(self).spec_hi_next(),
    {
        proof {
            use_type_invariant(&*self);
        }
        self.hi_ptr = true;
    }

    fn set(&mut self, data: u16)
        requires
            data <= 0x3FFF,
        ensures
            final(self).spec_value() == data,
            final(self).spec_hi_next() == old(self).spec_hi_next(),
    {
        self.value = data;
    }

    /// The pointer.
    pub fn get(&self) -> (r: u16)
        ensures
            r == self.spec_value(),
            r <= 0x3FFF,
    {
        proof {
            use_type_invariant(self);
        }
        self.value
    }
}

} // verus!
