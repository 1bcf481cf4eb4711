use vstd::prelude::*;

use crate::flag::{has_bit, pack_flags, FlagRegister};

verus! {

/// The picture unit's status register, read at $2002.
#[derive(Debug, Clone, Copy, PartialEq, Eq, Structural)]
pub struct StatusRegister {
    pub unused_1: bool,
    pub unused_2: bool,
    pub unused_3: bool,
    pub unused_4: bool,
    pub unused_5: bool,
    pub sprite_overflow: bool,
    pub sprite_zero_hit: bool,
    pub vblank_started: bool,
}

impl StatusRegister {
    /// The register that a byte describes.
    pub open spec fn spec_from_byte(b: u8) -> StatusRegister {
        StatusRegister {
            unused_1: has_bit(b, 0x01),
            unused_2: has_bit(b, 0x02),
            unused_3: has_bit(b, 0x04),
            unused_4: has_bit(b, 0x08),
            unused_5: has_bit(b, 0x10),
            sprite_overflow: has_bit(b, 0x20),
            sprite_zero_hit: has_bit(b, 0x40),
            vblank_started: has_bit(b, 0x80),
        }
    }

    /// The register as a byte.
    pub open spec fn spec_to_byte(self) -> u8 {
        pack_flags(
            self.unused_1,
            self.unused_2,
            self.unused_3,
            self.unused_4,
            self.unused_5,
            self.sprite_overflow,
            self.sprite_zero_hit,
            self.vblank_started,
        )
    }

    pub fn from_byte(b: u8) -> (r: StatusRegister)
        ensures
            r == Self::spec_from_byte(b),
    {
        StatusRegister {
            unused_1: b & 0x01 != 0,
            unused_2: b & 0x02 != 0,
            unused_3: b & 0x04 != 0,
            unused_4: b & 0x08 != 0,
            unused_5: b & 0x10 != 0,
            sprite_overflow: b & 0x20 != 0,
            sprite_zero_hit: b & 0x40 != 0,
            vblank_started: b & 0x80 != 0,
        }
    }

    pub fn to_byte(&self) -> (r: u8)
        ensures
            r == self.spec_to_byte(),
    {
        (if self.unused_1 { 0x01u8 } else { 0 }) | (if self.unused_2 { 0x02u8 } else { 0 }) | (if self.unused_3 { 0x04u8 } else { 0 }) | (if self.unused_4 { 0x08u8 } else { 0 }) | (if self.unused_5 { 0x10u8 } else { 0 }) | (if self.sprite_overflow { 0x20u8 } else { 0 }) | (if self.sprite_zero_hit { 0x40u8 } else { 0 }) | (if self.vblank_started { 0x80u8 } else { 0 })
    }
}

impl StatusRegister {
    /// All flags clear.
    pub fn new() -> (r: StatusRegister)
        ensures
            r == Self::spec_from_byte(0),
    {
        Self::from_byte(0)
    }

    /// The register as the byte that a read of $2002 returns.
    pub fn snapshot(&self) -> (r: u8)
        ensures
            r == self.spec_to_byte(),
    {
        self.to_byte()
    }

    /// Leaves vertical blank.
    pub fn reset_vblank_status(&mut self)
        ensures
            *final(self) == (StatusRegister { vblank_started: false, ..*old(self) }),
    {
        self.vblank_started = false;
    }
}

impl FlagRegister for StatusRegister {
    open spec fn packed(&self) -> u8 {
        self.spec_to_byte()
    }

    open spec fn unpacked(bits: u8) -> StatusRegister {
        Self::spec_from_byte(bits)
    }

    fn update(&mut self, data: u8)
        ensures
            *final(self) == Self::spec_from_byte(data),
    {
        *self = Self::from_byte(data);
        assert(<Self as FlagRegister>::unpacked(data) == Self::spec_from_byte(data));
    }

    fn bits(&self) -> (r: u8) {
        self.to_byte()
    }
}


impl From<u8> for StatusRegister {
    fn from(bits: u8) -> (r: StatusRegister) {
        Self::from_byte(bits)
    }
}

impl vstd::std_specs::convert::FromSpecImpl<u8> for StatusRegister {
    open spec fn obeys_from_spec() -> bool {
        true
    }

    open spec fn from_spec(bits: u8) -> StatusRegister {
        StatusRegister::spec_from_byte(bits)
    }
}

impl From<StatusRegister> for u8 {
    fn from(r: StatusRegister) -> (b: u8) {
        r.to_byte()
    }
}

impl vstd::std_specs::convert::FromSpecImpl<StatusRegister> for u8 {
    open spec fn obeys_from_spec() -> bool {
        true
    }

    open spec fn from_spec(r: StatusRegister) -> u8 {
        r.spec_to_byte()
    }
}

} // verus!
