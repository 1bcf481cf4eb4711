use vstd::prelude::*;

use crate::flag::{has_bit, pack_flags, FlagRegister};

verus! {

/// The picture unit's control register, written at $2000.
#[derive(Debug, Clone, Copy, PartialEq, Eq, Structural)]
pub struct ControlRegister {
    pub nametable_1: bool,
    pub nametable_2: bool,
    pub vram_address_increment: bool,
    pub sprite_pattern_address: bool,
    pub background_pattern_address: bool,
    pub sprite_size: bool,
    pub master_slave_select: bool,
    pub generate_vblank_nmi: bool,
}

impl ControlRegister {
    /// The register that a byte describes.
    pub open spec fn spec_from_byte(b: u8) -> ControlRegister {
        ControlRegister {
            nametable_1: has_bit(b, 0x01),
            nametable_2: has_bit(b, 0x02),
            vram_address_increment: has_bit(b, 0x04),
            sprite_pattern_address: has_bit(b, 0x08),
            background_pattern_address: has_bit(b, 0x10),
            sprite_size: has_bit(b, 0x20),
            master_slave_select: has_bit(b, 0x40),
            generate_vblank_nmi: has_bit(b, 0x80),
        }
    }

    /// The register as a byte.
    pub open spec fn spec_to_byte(self) -> u8 {
        pack_flags(
            self.nametable_1,
            self.nametable_2,
            self.vram_address_increment,
            self.sprite_pattern_address,
            self.background_pattern_address,
            self.sprite_size,
            self.master_slave_select,
            self.generate_vblank_nmi,
        )
    }

    pub fn from_byte(b: u8) -> (r: ControlRegister)
        ensures
            r == Self::spec_from_byte(b),
    {
        ControlRegister {
            nametable_1: b & 0x01 != 0,
            nametable_2: b & 0x02 != 0,
            vram_address_increment: b & 0x04 != 0,
            sprite_pattern_address: b & 0x08 != 0,
            background_pattern_address: b & 0x10 != 0,
            sprite_size: b & 0x20 != 0,
            master_slave_select: b & 0x40 != 0,
            generate_vblank_nmi: b & 0x80 != 0,
        }
    }

    pub fn to_byte(&self) -> (r: u8)
        ensures
            r == self.spec_to_byte(),
    {
        (if self.nametable_1 { 0x01u8 } else { 0 }) | (if self.nametable_2 { 0x02u8 } else { 0 }) | (if self.vram_address_increment { 0x04u8 } else { 0 }) | (if self.sprite_pattern_address { 0x08u8 } else { 0 }) | (if self.background_pattern_address { 0x10u8 } else { 0 }) | (if self.sprite_size { 0x20u8 } else { 0 }) | (if self.master_slave_select { 0x40u8 } else { 0 }) | (if self.generate_vblank_nmi { 0x80u8 } else { 0 })
    }
}

impl ControlRegister {
    /// All flags clear.
    pub fn new() -> (r: ControlRegister)
        ensures
            r == Self::spec_from_byte(0),
    {
        Self::from_byte(0)
    }

    /// Base address of the selected nametable.
    pub fn nametable_address(&self) -> (r: u16)
        ensures
            r == 0x2000 + 0x400 * ((if self.nametable_1 { 1int } else { 0 }) + (if self.nametable_2 {
                2int
            } else {
                0
            })),
    {
        match (self.nametable_1, self.nametable_2) {
            (false, false) => 0x2000,
            (true, false) => 0x2400,
            (false, true) => 0x2800,
            (true, true) => 0x2c00,
        }
    }

    /// How far the video memory pointer moves after each access to $2007.
    pub fn vram_address_increment(&self) -> (r: u8)
        ensures
            r == (if self.vram_address_increment { 32u8 } else { 1u8 }),
    {
        if self.vram_address_increment {
            32
        } else {
            1
        }
    }

    /// Pattern table of 8x8 sprites.
    pub fn sprite_pattern_address(&self) -> (r: u16)
        ensures
            r == (if self.sprite_pattern_address { 0x1000u16 } else { 0u16 }),
    {
        if self.sprite_pattern_address {
            0x1000
        } else {
            0
        }
    }

    /// Pattern table of the background.
    pub fn background_pattern_address(&self) -> (r: u16)
        ensures
            r == (if self.background_pattern_address { 0x1000u16 } else { 0u16 }),
    {
        if self.background_pattern_address {
            0x1000
        } else {
            0
        }
    }

    /// Sprite height in pixels.
    pub fn sprite_size(&self) -> (r: u8)
        ensures
            r == (if self.sprite_size { 16u8 } else { 8u8 }),
    {
        if self.sprite_size {
            16
        } else {
            8
        }
    }

    /// Master/slave select as a bit.
    pub fn master_slave_select(&self) -> (r: u8)
        ensures
            r == (if self.master_slave_select { 1u8 } else { 0u8 }),
    {
        if self.master_slave_select {
            1
        } else {
            0
        }
    }

    /// Whether entering vertical blank raises an NMI.
    pub fn generate_vblank_nmi(&self) -> (r: bool)
        ensures
            r == self.generate_vblank_nmi,
    {
        self.generate_vblank_nmi
    }
}

impl FlagRegister for ControlRegister {
    open spec fn packed(&self) -> u8 {
        self.spec_to_byte()
    }

    open spec fn unpacked(bits: u8) -> ControlRegister {
        Self::spec_from_byte(bits)
    }

    fn update(&mut self, data: u8)
        ensures
            *final(self) == Self::spec_from_byte(data),
    {
        *self = Self::from_byte(data);
        assert(<Self as FlagRegister>::unpacked(data) == Self::spec_from_byte(data));
    }

    fn bits(&self) -> (r: u8) {
        self.to_byte()
    }
}


impl From<u8> for ControlRegister {
    fn from(bits: u8) -> (r: ControlRegister) {
        Self::from_byte(bits)
    }
}

impl vstd::std_specs::convert::FromSpecImpl<u8> for ControlRegister {
    open spec fn obeys_from_spec() -> bool {
        true
    }

    open spec fn from_spec(bits: u8) -> ControlRegister {
        ControlRegister::spec_from_byte(bits)
    }
}

impl From<ControlRegister> for u8 {
    fn from(r: ControlRegister) -> (b: u8) {
        r.to_byte()
    }
}

impl vstd::std_specs::convert::FromSpecImpl<ControlRegister> for u8 {
    open spec fn obeys_from_spec() -> bool {
        true
    }

    open spec fn from_spec(r: ControlRegister) -> u8 {
        r.spec_to_byte()
    }
}

} // verus!
