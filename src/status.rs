use vstd::prelude::*;

use crate::flag::{flag_bit, has_bit, pack_flags, FlagRegister};

verus! {

/// The 6502 processor status `P`, bit 0 (carry) up to bit 7 (negative).
#[derive(Debug, Clone, Copy, PartialEq, Eq, Structural)]
pub struct StatusFlagRegister {
    pub carry: bool,
    pub zero: bool,
    pub interrupt_disable: bool,
    pub decimal_mode: bool,
    pub break_command: bool,
    pub unused: bool,
    pub overflow: bool,
    pub negative: bool,
}

impl StatusFlagRegister {
    /// The status that a byte describes.
    pub open spec fn spec_from_byte(b: u8) -> StatusFlagRegister {
        StatusFlagRegister {
            carry: has_bit(b, 0x01),
            zero: has_bit(b, 0x02),
            interrupt_disable: has_bit(b, 0x04),
            decimal_mode: has_bit(b, 0x08),
            break_command: has_bit(b, 0x10),
            unused: has_bit(b, 0x20),
            overflow: has_bit(b, 0x40),
            negative: has_bit(b, 0x80),
        }
    }

    /// The status as a byte.
    pub open spec fn spec_to_byte(self) -> u8 {
        pack_flags(
            self.carry,
            self.zero,
            self.interrupt_disable,
            self.decimal_mode,
            self.break_command,
            self.unused,
            self.overflow,
            self.negative,
        )
    }

    pub fn from_byte(b: u8) -> (r: StatusFlagRegister)
        ensures
            r == Self::spec_from_byte(b),
    {
        StatusFlagRegister {
            carry: b & 0x01 != 0,
            zero: b & 0x02 != 0,
            interrupt_disable: b & 0x04 != 0,
            decimal_mode: b & 0x08 != 0,
            break_command: b & 0x10 != 0,
            unused: b & 0x20 != 0,
            overflow: b & 0x40 != 0,
            negative: b & 0x80 != 0,
        }
    }

    pub fn to_byte(&self) -> (r: u8)
        ensures
            r == self.spec_to_byte(),
    {
        (if self.carry { 0x01u8 } else { 0 }) | (if self.zero { 0x02u8 } else { 0 }) | (
        if self.interrupt_disable { 0x04u8 } else { 0 }) | (if self.decimal_mode { 0x08u8 } else { 0 }) | (
        if self.break_command { 0x10u8 } else { 0 }) | (if self.unused { 0x20u8 } else { 0 }) | (
        if self.overflow { 0x40u8 } else { 0 }) | (if self.negative { 0x80u8 } else { 0 })
    }
}

impl FlagRegister for StatusFlagRegister {
    open spec fn packed(&self) -> u8 {
        self.spec_to_byte()
    }

    open spec fn unpacked(bits: u8) -> StatusFlagRegister {
        Self::spec_from_byte(bits)
    }

    fn update(&mut self, data: u8)
        ensures
            *final(self) == Self::spec_from_byte(data),
    {
        *self = Self::from_byte(data);
        assert(<Self as FlagRegister>::unpacked(data) == Self::spec_from_byte(data));
    }

    fn bits(&self) -> (r: u8) {
        self.to_byte()
    }
}

/// Unpacking a status byte and packing it again gives the same byte.
pub proof fn status_byte_round_trip(b: u8)
    ensures
        StatusFlagRegister::spec_from_byte(b).spec_to_byte() == b,
{
    crate::flag::lemma_pack_unpack(b);
}

/// Packing a status and unpacking the byte gives the same status.
pub proof fn status_flags_round_trip(s: StatusFlagRegister)
    ensures
        StatusFlagRegister::spec_from_byte(s.spec_to_byte()) == s,
{
    crate::flag::lemma_unpack_pack(
        s.carry,
        s.zero,
        s.interrupt_disable,
        s.decimal_mode,
        s.break_command,
        s.unused,
        s.overflow,
        s.negative,
    );
}


/// The status at power-on: interrupts disabled and bit 5 set, that is $24.
impl Default for StatusFlagRegister {
    fn default() -> (r: StatusFlagRegister)
        ensures
            r == StatusFlagRegister::spec_from_byte(0x24),
    {
        Self::from_byte(0x24)
    }
}

impl From<u8> for StatusFlagRegister {
    fn from(bits: u8) -> (r: StatusFlagRegister) {
        Self::from_byte(bits)
    }
}

impl vstd::std_specs::convert::FromSpecImpl<u8> for StatusFlagRegister {
    open spec fn obeys_from_spec() -> bool {
        true
    }

    open spec fn from_spec(bits: u8) -> StatusFlagRegister {
        StatusFlagRegister::spec_from_byte(bits)
    }
}

impl From<StatusFlagRegister> for u8 {
    fn from(r: StatusFlagRegister) -> (b: u8) {
        r.to_byte()
    }
}

impl vstd::std_specs::convert::FromSpecImpl<StatusFlagRegister> for u8 {
    open spec fn obeys_from_spec() -> bool {
        true
    }

    open spec fn from_spec(r: StatusFlagRegister) -> u8 {
        r.spec_to_byte()
    }
}

} // verus!
