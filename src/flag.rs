use vstd::prelude::*;

verus! {

/// The value `mask` contributes to a packed byte when `on` is set.
pub open spec fn flag_bit(on: bool, mask: u8) -> u8 {
    if on {
        mask
    } else {
        0
    }
}

/// Eight flags packed into a byte, `b0` in bit 0 up to `b7` in bit 7.
pub open spec fn pack_flags(
    b0: bool,
    b1: bool,
    b2: bool,
    b3: bool,
    b4: bool,
    b5: bool,
    b6: bool,
    b7: bool,
) -> u8 {
    flag_bit(b0, 0x01) | flag_bit(b1, 0x02) | flag_bit(b2, 0x04) | flag_bit(b3, 0x08) | flag_bit(
        b4,
        0x10,
    ) | flag_bit(b5, 0x20) | flag_bit(b6, 0x40) | flag_bit(b7, 0x80)
}

/// Whether the bit selected by `mask` is set in `bits`.
pub open spec fn has_bit(bits: u8, mask: u8) -> bool {
    bits & mask != 0
}

/// Packing the eight bits of a byte gives the byte back.
pub proof fn lemma_pack_unpack(b: u8)
    ensures
        pack_flags(
            has_bit(b, 0x01),
            has_bit(b, 0x02),
            has_bit(b, 0x04),
            has_bit(b, 0x08),
            has_bit(b, 0x10),
            has_bit(b, 0x20),
            has_bit(b, 0x40),
            has_bit(b, 0x80),
        ) == b,
{
    assert(pack_flags(
        b & 0x01 != 0,
        b & 0x02 != 0,
        b & 0x04 != 0,
        b & 0x08 != 0,
        b & 0x10 != 0,
        b & 0x20 != 0,
        b & 0x40 != 0,
        b & 0x80 != 0,
    ) == b) by (bit_vector);
}

/// Each flag can be read back from the packed byte.
pub proof fn lemma_unpack_pack(
    b0: bool,
    b1: bool,
    b2: bool,
    b3: bool,
    b4: bool,
    b5: bool,
    b6: bool,
    b7: bool,
)
    ensures
        ({
            let p = pack_flags(b0, b1, b2, b3, b4, b5, b6, b7);
            &&& has_bit(p, 0x01) == b0
            &&& has_bit(p, 0x02) == b1
            &&& has_bit(p, 0x04) == b2
            &&& has_bit(p, 0x08) == b3
            &&& has_bit(p, 0x10) == b4
            &&& has_bit(p, 0x20) == b5
            &&& has_bit(p, 0x40) == b6
            &&& has_bit(p, 0x80) == b7
        }),
{
    let p = pack_flags(b0, b1, b2, b3, b4, b5, b6, b7);
    assert((p & 0x01 != 0) == b0 && (p & 0x02 != 0) == b1 && (p & 0x04 != 0) == b2 && (p & 0x08
        != 0) == b3 && (p & 0x10 != 0) == b4 && (p & 0x20 != 0) == b5 && (p & 0x40 != 0) == b6 && (p
        & 0x80 != 0) == b7) by (bit_vector)
        requires
            p == pack_flags(b0, b1, b2, b3, b4, b5, b6, b7),
    ;
}

/// A register of eight one-bit flags that the guest reads and writes as a byte.
pub trait FlagRegister: Sized {
    /// The register as a byte.
    spec fn packed(&self) -> u8;

    /// The register that a byte describes.
    spec fn unpacked(bits: u8) -> Self;

    /// Replaces every flag with the matching bit of `data`.
    fn update(&mut self, data: u8)
        ensures
            *final(self) == Self::unpacked(data),
    ;

    /// The register as a byte.
    fn bits(&self) -> (r: u8)
        ensures
            r == self.packed(),
    ;
}

} // verus!
