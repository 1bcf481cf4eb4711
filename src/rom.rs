use vstd::prelude::*;

use crate::addressable::{Addressable, Readable, Writable};

verus! {

/// How the two physical nametables are laid over the four logical ones.
#[derive(Debug, Clone, Copy, PartialEq, Eq, Structural)]
pub enum Mirror {
    Vertical,
    Horizontal,
    FourScreen,
}

/// A cartridge loaded from an iNES file.
pub struct Rom {
    pub prg_rom: Vec<u8>,
    pub chr_rom: Vec<u8>,
    pub mapper: u8,
    pub mirror: Mirror,
    pub has_battery_backed: bool,
}

/// Size of one program bank.
pub const PRG_ROM_PAGE_SIZE: usize = 0x4000;

/// Size of one character bank.
pub const CHR_ROM_PAGE_SIZE: usize = 0x2000;

/// Length of the iNES header.
pub const HEADER_SIZE: usize = 16;

/// Length of the optional trainer that follows the header.
pub const TRAINER_SIZE: usize = 512;

/// Message for a file that does not start with the iNES magic.
pub open spec fn invalid_message() -> Seq<char> {
    "Invalid NES file"@
}

/// Message for a header with the NES 2.0 marker.
pub open spec fn nes2_message() -> Seq<char> {
    "NES2.0 format is not supported"@
}

/// Message for a file shorter than its header says.
pub open spec fn truncated_message() -> Seq<char> {
    "Truncated nes file"@
}

/// The file starts with `N E S 0x1A`.
pub open spec fn has_magic(d: Seq<u8>) -> bool {
    d.len() >= 4 && d[0] == 0x4E && d[1] == 0x45 && d[2] == 0x53 && d[3] == 0x1A
}

/// Bits 2-3 of flags 7 mark a NES 2.0 header.
pub open spec fn is_nes2(d: Seq<u8>) -> bool {
    d[7] & 0x0C == 0x08
}

/// Where the program banks start: after the header and the trainer, if any.
pub open spec fn prg_start(d: Seq<u8>) -> int {
    16 + if d[6] & 0x04 != 0 {
        512int
    } else {
        0
    }
}

/// Where the character banks start.
pub open spec fn chr_start(d: Seq<u8>) -> int {
    prg_start(d) + d[4] * 0x4000
}

/// Where the character banks end.
pub open spec fn chr_end(d: Seq<u8>) -> int {
    chr_start(d) + d[5] * 0x2000
}

/// The mapper number: high nibble from flags 7, low nibble from flags 6.
pub open spec fn mapper_of(d: Seq<u8>) -> u8 {
    (d[7] & 0xF0) | (d[6] >> 4)
}

/// The mirroring that flags 6 selects; four-screen overrides vertical.
pub open spec fn mirror_of(d: Seq<u8>) -> Mirror {
    if d[6] & 0x08 != 0 {
        Mirror::FourScreen
    } else if d[6] & 0x01 != 0 {
        Mirror::Vertical
    } else {
        Mirror::Horizontal
    }
}

/// Whether `d` is a complete iNES file that this loader takes.
pub open spec fn loadable(d: Seq<u8>) -> bool {
    has_magic(d) && d.len() >= 16 && !is_nes2(d) && d.len() >= chr_end(d)
}

/// The message of the error that loading `d` fails with, for a `d` that is not loadable.
pub open spec fn load_error(d: Seq<u8>) -> Seq<char> {
    if !has_magic(d) {
        invalid_message()
    } else if d.len() < 16 {
        truncated_message()
    } else if is_nes2(d) {
        nes2_message()
    } else {
        truncated_message()
    }
}

/// The program byte that a read at `addr` of the window $8000-$FFFF sees: one bank shows
/// twice, and past the end of the program there is nothing (0).
pub open spec fn prg_read(prg: Seq<u8>, addr: u16) -> u8 {
    let i: int = if prg.len() == 0x4000 {
        (addr % 0x4000) as int
    } else {
        addr as int
    };
    if i < prg.len() {
        prg[i]
    } else {
        0
    }
}

impl Rom {
    /// Parses an iNES file.
    pub fn new(data: &[u8]) -> (r: Result<Rom, String>)
        ensures
            loadable(data@) ==> r is Ok,
            r matches Ok(rom) ==> {
                &&& loadable(data@)
                &&& rom.prg_rom@ == data@.subrange(prg_start(data@), chr_start(data@))
                &&& rom.chr_rom@ == data@.subrange(chr_start(data@), chr_end(data@))
                &&& rom.mapper == mapper_of(data@)
                &&& rom.mirror == mirror_of(data@)
                &&& rom.has_battery_backed == (data@[6] & 0x02 != 0)
            },
            r matches Err(e) ==> !loadable(data@) && e@ == load_error(data@),
    {
        if let Some(error) = check_rom(data) {
            return Err(error);
        }
        let prg_rom_size = data[4] as usize * PRG_ROM_PAGE_SIZE;
        let chr_rom_size = data[5] as usize * CHR_ROM_PAGE_SIZE;

        let mapper_l = data[6] >> 4;
        let mapper_h = data[7] & 0xF0;
        let mapper = mapper_h | mapper_l;

        let is_vertical_mirror = data[6] & 0b0001 != 0;
        let has_battery_backed = data[6] & 0b0010 != 0;
        let has_trainer = data[6] & 0b0100 != 0;
        let four_screen = data[6] & 0b1000 != 0;
        let mirror = if four_screen {
            Mirror::FourScreen
        } else if is_vertical_mirror {
            Mirror::Vertical
        } else {
            Mirror::Horizontal
        };
        let prg_rom_start = HEADER_SIZE + if has_trainer {
            TRAINER_SIZE
        } else {
            0
        };
        let chr_rom_start = prg_rom_start + prg_rom_size;
        let chr_rom_end = chr_rom_start + chr_rom_size;
        Ok(
            Rom {
                prg_rom: vstd::slice::slice_to_vec(
                    vstd::slice::slice_subrange(data, prg_rom_start, chr_rom_start),
                ),
                chr_rom: vstd::slice::slice_to_vec(
                    vstd::slice::slice_subrange(data, chr_rom_start, chr_rom_end),
                ),
                mapper,
                mirror,
                has_battery_backed,
            },
        )
    }
}

/// The error that stops `data` from loading, if any.
pub fn check_rom(data: &[u8]) -> (r: Option<String>)
    ensures
        r is None <==> loadable(data@),
        r matches Some(e) ==> e@ == load_error(data@),
{
    if data.len() < 4 || data[0] != 0x4E || data[1] != 0x45 || data[2] != 0x53 || data[3] != 0x1A {
        return Some("Invalid NES file".to_owned());
    }
    if data.len() < HEADER_SIZE {
        return Some("Truncated nes file".to_owned());
    }
    if data[7] & 0b1100 == 0b1000 {
        return Some("NES2.0 format is not supported".to_owned());
    }
    let prg_rom_start = HEADER_SIZE + if data[6] & 0b0100 != 0 {
        TRAINER_SIZE
    } else {
        0
    };
    let end = prg_rom_start + data[4] as usize * PRG_ROM_PAGE_SIZE + data[5] as usize
        * CHR_ROM_PAGE_SIZE;
    if data.len() < end {
        return Some("Truncated nes file".to_owned());
    }
    None
}

impl Readable for Rom {
    open spec fn peek(&self, addr: u16) -> u8 {
        prg_read(self.prg_rom@, addr)
    }

    fn read(&self, addr: u16) -> (r: u8) {
        let i: usize = if self.prg_rom.len() == PRG_ROM_PAGE_SIZE {
            (addr % 0x4000) as usize
        } else {
            addr as usize
        };
        if i < self.prg_rom.len() {
            self.prg_rom[i]
        } else {
            0
        }
    }
}

impl Writable for Rom {
    /// Program memory is read-only: the write is dropped.
    fn write(&mut self, addr: u16, data: u8)
        ensures
            final(self).prg_rom@ == old(self).prg_rom@,
            final(self).chr_rom@ == old(self).chr_rom@,
            final(self).mapper == old(self).mapper,
            final(self).mirror == old(self).mirror,
            final(self).has_battery_backed == old(self).has_battery_backed,
    {
    }

    fn write_u16(&mut self, addr: u16, data: u16)
        ensures
            final(self).prg_rom@ == old(self).prg_rom@,
            final(self).chr_rom@ == old(self).chr_rom@,
            final(self).mapper == old(self).mapper,
            final(self).mirror == old(self).mirror,
            final(self).has_battery_backed == old(self).has_battery_backed,
    {
    }
}

impl Addressable for Rom {

}

/// Cartridge circuitry that decides what the processor sees at an address. The core
/// builds in mapper 0, whose program window is [`prg_read`]; boards with banking implement
/// this.
pub trait IMapper {
    fn read(address: u16) -> u8;

    fn write(address: u16, data: u8);
}

/// The parts of an iNES file, for building one.
pub struct TestRom {
    pub header: Vec<u8>,
    pub trainer: Option<Vec<u8>>,
    pub pgp_rom: Vec<u8>,
    pub chr_rom: Vec<u8>,
}

/// The bytes of `s` appended to `out`.
fn append_bytes(out: &mut Vec<u8>, s: &Vec<u8>)
    requires
        old(out)@.len() + s@.len() <= usize::MAX,
    ensures
        final(out)@ == old(out)@ + s@,
{
    let ghost start = out@;
    let mut i: usize = 0;
    while i < s.len()
        invariant
            i <= s@.len(),
            out@ == start + s@.subrange(0, i as int),
            start.len() + s@.len() <= usize::MAX,
        decreases s@.len() - i,
    {
        out.push(s[i]);
        i += 1;
        assert(out@ =~= start + s@.subrange(0, i as int));
    }
    assert(s@.subrange(0, i as int) =~= s@);
}

/// The file laid out from its parts: header, trainer if any, program, characters.
pub fn create_rom(rom: TestRom) -> (r: Vec<u8>)
    requires
        rom.header@.len() + (if let Some(t) = rom.trainer {
            t@.len()
        } else {
            0
        }) + rom.pgp_rom@.len() + rom.chr_rom@.len() <= usize::MAX,
    ensures
        r@ == rom.header@ + (if let Some(t) = rom.trainer {
            t@
        } else {
            Seq::empty()
        }) + rom.pgp_rom@ + rom.chr_rom@,
{
    let mut result: Vec<u8> = Vec::new();
    append_bytes(&mut result, &rom.header);
    if let Some(t) = &rom.trainer {
        append_bytes(&mut result, t);
    } else {
        assert(result@ =~= rom.header@ + Seq::<u8>::empty());
    }
    append_bytes(&mut result, &rom.pgp_rom);
    append_bytes(&mut result, &rom.chr_rom);
    result
}

/// A cartridge of two program banks of 1s and one character bank of 2s, mapper 3,
/// vertical mirroring.
pub fn test_rom() -> (r: Rom)
    ensures
        r.prg_rom@ == Seq::new(0x8000, |i: int| 1u8),
        r.chr_rom@ == Seq::new(0x2000, |i: int| 2u8),
        r.mapper == 3,
        r.mirror == Mirror::Vertical,
        !r.has_battery_backed,
{
    let header: Vec<u8> = vec![0x4E, 0x45, 0x53, 0x1A, 0x02, 0x01, 0x31, 00, 00, 00, 00, 00, 00, 00, 00, 00];
    let file = create_rom(
        TestRom {
            header,
            trainer: None,
            pgp_rom: vec![1; 2 * PRG_ROM_PAGE_SIZE],
            chr_rom: vec![2; 1 * CHR_ROM_PAGE_SIZE],
        },
    );
    let ghost d = file@;
    assert(d[0] == 0x4E && d[1] == 0x45 && d[2] == 0x53 && d[3] == 0x1A);
    assert(d[6] == 0x31 && d[7] == 0 && d[4] == 2 && d[5] == 1);
    assert((0u8 & 0x0C) == 0 && (0x31u8 & 0x04) == 0 && (0x31u8 & 0x08) == 0 && (0x31u8 & 0x01)
        != 0 && (0x31u8 & 0x02) == 0 && ((0u8 & 0xF0) | (0x31u8 >> 4)) == 3) by (bit_vector);
    assert(loadable(d));
    match Rom::new(&file) {
        Ok(rom) => {
            assert(rom.prg_rom@ =~= Seq::new(0x8000, |i: int| 1u8));
            assert(rom.chr_rom@ =~= Seq::new(0x2000, |i: int| 2u8));
            rom
        },
        Err(_) => {
            assert(false);
            Rom {
                prg_rom: Vec::new(),
                chr_rom: Vec::new(),
                mapper: 0,
                mirror: Mirror::Horizontal,
                has_battery_backed: false,
            }
        },
    }
}

} // verus!
