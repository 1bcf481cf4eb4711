use vstd::prelude::*;

use crate::flag::{has_bit, pack_flags, FlagRegister};

verus! {

/// The picture unit's mask register, written at $2001.
#[derive(Debug, Clone, Copy, PartialEq, Eq, Structural)]
pub struct MaskRegister {
    pub is_grey_scale: bool,
    pub leftmost_8pxl_background: bool,
    pub leftmost_8pxl_sprite: bool,
    pub show_background: bool,
    pub show_sprite: bool,
    pub emphasise_red: bool,
    pub emphasise_green: bool,
    pub emphasise_blue: bool,
}

impl MaskRegister {
    /// The register that a byte describes.
    pub open spec fn spec_from_byte(b: u8) -> MaskRegister {
        MaskRegister {
            is_grey_scale: has_bit(b, 0x01),
            leftmost_8pxl_background: has_bit(b, 0x02),
            leftmost_8pxl_sprite: has_bit(b, 0x04),
            show_background: has_bit(b, 0x08),
            show_sprite: has_bit(b, 0x10),
            emphasise_red: has_bit(b, 0x20),
            emphasise_green: has_bit(b, 0x40),
            emphasise_blue: has_bit(b, 0x80),
        }
    }

    /// The register as a byte.
    pub open spec fn spec_to_byte(self) -> u8 {
        pack_flags(
            self.is_grey_scale,
            self.leftmost_8pxl_background,
            self.leftmost_8pxl_sprite,
            self.show_background,
            self.show_sprite,
            self.emphasise_red,
            self.emphasise_green,
            self.emphasise_blue,
        )
    }

    pub fn from_byte(b: u8) -> (r: MaskRegister)
        ensures
            r == Self::spec_from_byte(b),
    {
        MaskRegister {
            is_grey_scale: b & 0x01 != 0,
            leftmost_8pxl_background: b & 0x02 != 0,
            leftmost_8pxl_sprite: b & 0x04 != 0,
            show_background: b & 0x08 != 0,
            show_sprite: b & 0x10 != 0,
            emphasise_red: b & 0x20 != 0,
            emphasise_green: b & 0x40 != 0,
            emphasise_blue: b & 0x80 != 0,
        }
    }

    pub fn to_byte(&self) -> (r: u8)
        ensures
            r == self.spec_to_byte(),
    {
        (if self.is_grey_scale { 0x01u8 } else { 0 }) | (if self.leftmost_8pxl_background { 0x02u8 } else { 0 }) | (if self.leftmost_8pxl_sprite { 0x04u8 } else { 0 }) | (if self.show_background { 0x08u8 } else { 0 }) | (if self.show_sprite { 0x10u8 } else { 0 }) | (if self.emphasise_red { 0x20u8 } else { 0 }) | (if self.emphasise_green { 0x40u8 } else { 0 }) | (if self.emphasise_blue { 0x80u8 } else { 0 })
    }
}

/// A colour that the mask register can emphasise.
#[derive(Debug, Clone, Copy, PartialEq, Eq, Structural)]
pub enum Color {
    Red,
    Green,
    Blue,
}

/// The emphasised colours, red before green before blue.
pub open spec fn emphasised(red: bool, green: bool, blue: bool) -> Seq<Color> {
    (if red { seq![Color::Red] } else { Seq::empty() }) + (if green {
        seq![Color::Green]
    } else {
        Seq::empty()
    }) + (if blue { seq![Color::Blue] } else { Seq::empty() })
}

impl MaskRegister {
    /// All flags clear.
    pub fn new() -> (r: MaskRegister)
        ensures
            r == Self::spec_from_byte(0),
    {
        Self::from_byte(0)
    }

    /// The colours whose emphasis bit is set.
    pub fn emphasise(&self) -> (r: Vec<Color>)
        ensures
            r@ == emphasised(self.emphasise_red, self.emphasise_green, self.emphasise_blue),
    {
        let mut result: Vec<Color> = Vec::new();
        if self.emphasise_red {
            result.push(Color::Red);
        }
        if self.emphasise_green {
            result.push(Color::Green);
        }
        if self.emphasise_blue {
            result.push(Color::Blue);
        }
        assert(result@ =~= emphasised(self.emphasise_red, self.emphasise_green, self.emphasise_blue));
        result
    }
}

impl FlagRegister for MaskRegister {
    open spec fn packed(&self) -> u8 {
        self.spec_to_byte()
    }

    open spec fn unpacked(bits: u8) -> MaskRegister {
        Self::spec_from_byte(bits)
    }

    fn update(&mut self, data: u8)
        ensures
            *final(self) == Self::spec_from_byte(data),
    {
        *self = Self::from_byte(data);
        assert(<Self as FlagRegister>::unpacked(data) == Self::spec_from_byte(data));
    }

    fn bits(&self) -> (r: u8) {
        self.to_byte()
    }
}


impl From<u8> for MaskRegister {
    fn from(bits: u8) -> (r: MaskRegister) {
        Self::from_byte(bits)
    }
}

impl vstd::std_specs::convert::FromSpecImpl<u8> for MaskRegister {
    open spec fn obeys_from_spec() -> bool {
        true
    }

    open spec fn from_spec(bits: u8) -> MaskRegister {
        MaskRegister::spec_from_byte(bits)
    }
}

impl From<MaskRegister> for u8 {
    fn from(r: MaskRegister) -> (b: u8) {
        r.to_byte()
    }
}

impl vstd::std_specs::convert::FromSpecImpl<MaskRegister> for u8 {
    open spec fn obeys_from_spec() -> bool {
        true
    }

    open spec fn from_spec(r: MaskRegister) -> u8 {
        r.spec_to_byte()
    }
}

} // verus!
