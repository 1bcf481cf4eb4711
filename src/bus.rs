use vstd::prelude::*;

use crate::addressable::{next_addr, pack_u16, unpack_u16, word, AddressableMut, Readable, ReadableMut, Writable};
use crate::joypad::Joypad;
use crate::memory::{mem_read, mem_write, Memory};
use crate::ppu::{increment_of, spec_oam_dma, spec_read, spec_write, IPpu, Ppu, PpuState};
use crate::rom::{prg_read, Rom};

verus! {

//  _______________ $10000
// | PRG-ROM       |
// |_______________| $8000
// | SRAM          |
// |_______________| $6000
// | Expansion ROM |
// |_______________| $4020
// | I/O Registers |
// |_______________| $4000
// | Mirrors       |
// | $2000-$2007   |
// |_ _ _ _ _ _ _ _| $2008
// | I/O Registers |
// |_______________| $2000
// | Mirrors       |
// | $0000-$07FF   |
// |_ _ _ _ _ _ _ _| $0800
// | RAM           |
// |_______________| $0000

/// The processor's view of memory: everything it reaches by address.
pub struct Bus {
    pub ram: Memory,
    pub rom: Rom,
    pub ppu: Ppu,
    pub sram: Memory,
    /// Registers of the audio unit, which lies outside this core; absent, it reads as 0
    /// and drops writes.
    pub apu: Option<Memory>,
    pub joypad_p1: Option<Joypad>,
    pub joypad_p2: Option<Joypad>,
}

/// The bus as plain values.
pub struct BusState {
    pub ram: Seq<u8>,
    pub prg: Seq<u8>,
    pub ppu: PpuState,
    pub sram: Seq<u8>,
    pub apu: Option<Seq<u8>>,
    pub joypad_p1: Option<Joypad>,
    pub joypad_p2: Option<Joypad>,
}

impl View for Bus {
    type V = BusState;

    open spec fn view(&self) -> BusState {
        BusState {
            ram: self.ram@,
            prg: self.rom.prg_rom@,
            ppu: self.ppu@,
            sram: self.sram@,
            apu: match self.apu {
                Some(m) => Some(m@),
                None => None,
            },
            joypad_p1: self.joypad_p1,
            joypad_p2: self.joypad_p2,
        }
    }
}

/// Size of the console's RAM.
pub const RAM_SIZE: u16 = 0x0800;

/// Size of the cartridge's save RAM.
pub const SRAM_SIZE: u16 = 0x2000;

/// The write address that starts a sprite memory copy.
pub const OAM_DMA: u16 = 0x4014;

/// The device that an address reaches, with the address inside that device.
#[derive(Debug, Clone, Copy, PartialEq, Eq, Structural)]
pub enum Device {
    Ram(u16),
    Rom(u16),
    Ppu(u16),
    Sram(u16),
    Apu(u16),
    JoypadP1(u16),
    JoypadP2(u16),
    Unknown,
}

/// The address decoder of the console.
pub open spec fn spec_translate(addr: u16) -> Device {
    if addr <= 0x1FFF {
        Device::Ram((addr % 0x800) as u16)
    } else if addr <= 0x3FFF {
        Device::Ppu(((addr - 0x2000) % 8) as u16)
    } else if addr <= 0x4015 {
        Device::Apu((addr - 0x4000) as u16)
    } else if addr == 0x4016 {
        Device::JoypadP1(addr)
    } else if addr == 0x4017 {
        Device::JoypadP2(addr)
    } else if addr <= 0x5FFF {
        Device::Unknown
    } else if addr <= 0x7FFF {
        Device::Sram((addr - 0x6000) as u16)
    } else {
        Device::Rom((addr - 0x8000) as u16)
    }
}

/// What a read at `addr` returns and the bus after it: the picture unit's registers and
/// the controllers change when read; absent or unmapped devices read as 0.
#[verifier::opaque]
pub open spec fn spec_bus_read(b: BusState, addr: u16) -> (u8, BusState) {
    match spec_translate(addr) {
        Device::Ram(a) => (mem_read(b.ram, a), b),
        Device::Rom(a) => (prg_read(b.prg, a), b),
        Device::Ppu(a) => {
            let (v, p) = spec_read(b.ppu, a);
            (v, BusState { ppu: p, ..b })
        },
        Device::Sram(a) => (mem_read(b.sram, a), b),
        Device::Apu(a) => match b.apu {
            Some(m) => (mem_read(m, a), b),
            None => (0, b),
        },
        Device::JoypadP1(_) => match b.joypad_p1 {
            Some(j) => (j.spec_read().0, BusState { joypad_p1: Some(j.spec_read().1), ..b }),
            None => (0, b),
        },
        Device::JoypadP2(_) => match b.joypad_p2 {
            Some(j) => (j.spec_read().0, BusState { joypad_p2: Some(j.spec_read().1), ..b }),
            None => (0, b),
        },
        Device::Unknown => (0, b),
    }
}

/// The bytes that a sprite memory copy from `page` reads, up to offset `n`, and the bus
/// after those reads.
pub open spec fn spec_dma_read(b: BusState, page: u8, n: nat) -> (Seq<u8>, BusState)
    decreases n,
{
    if n == 0 {
        (Seq::empty(), b)
    } else {
        let (s, b1) = spec_dma_read(b, page, (n - 1) as nat);
        let (v, b2) = spec_bus_read(b1, (page * 256 + n - 1) as u16);
        (s.push(v), b2)
    }
}

/// The bus after a write of `data` at `addr`. A write at $4014 copies page `data` into
/// sprite memory; program memory, absent and unmapped devices drop writes.
#[verifier::opaque]
pub open spec fn spec_bus_write(b: BusState, addr: u16, data: u8) -> BusState {
    if addr == 0x4014 {
        let (bytes, b1) = spec_dma_read(b, data, 256);
        BusState { ppu: spec_oam_dma(b1.ppu, bytes), ..b1 }
    } else {
        match spec_translate(addr) {
            Device::Ram(a) => BusState { ram: mem_write(b.ram, a, data), ..b },
            Device::Rom(_) => b,
            Device::Ppu(a) => BusState { ppu: spec_write(b.ppu, a, data), ..b },
            Device::Sram(a) => BusState { sram: mem_write(b.sram, a, data), ..b },
            Device::Apu(a) => match b.apu {
                Some(m) => BusState { apu: Some(mem_write(m, a, data)), ..b },
                None => b,
            },
            Device::JoypadP1(_) => match b.joypad_p1 {
                Some(j) => BusState { joypad_p1: Some(j.spec_write(data)), ..b },
                None => b,
            },
            Device::JoypadP2(_) => match b.joypad_p2 {
                Some(j) => BusState { joypad_p2: Some(j.spec_write(data)), ..b },
                None => b,
            },
            Device::Unknown => b,
        }
    }
}

/// A little-endian word read: low byte at `addr`, then high byte at the next address.
pub open spec fn spec_bus_read_u16(b: BusState, addr: u16) -> (u16, BusState) {
    let (low, b1) = spec_bus_read(b, addr);
    let (high, b2) = spec_bus_read(b1, next_addr(addr));
    (word(low, high), b2)
}

/// A little-endian word write: low byte at `addr`, then high byte at the next address.
pub open spec fn spec_bus_write_u16(b: BusState, addr: u16, data: u16) -> BusState {
    spec_bus_write(spec_bus_write(b, addr, (data % 256) as u8), next_addr(addr), (data / 256) as u8)
}

/// Decodes an address into a device and an address inside it.
pub fn address_translation(addr: u16) -> (r: Device)
    ensures
        r == spec_translate(addr),
{
    assert(addr & 0x07FF == addr % 0x800) by (bit_vector);
    assert(addr >= 0x2000 ==> (addr - 0x2000) as u16 & 0x0007 == (addr - 0x2000) as u16 % 8) by (bit_vector);
    match addr {
        0x0000..=0x1FFF => Device::Ram(addr & (RAM_SIZE - 1)),
        0x2000..=0x3FFF => Device::Ppu((addr - 0x2000) & 0x0007),
        0x4000..=0x4015 => Device::Apu(addr - 0x4000),
        0x4016 => Device::JoypadP1(addr),
        0x4017 => Device::JoypadP2(addr),
        0x4018..=0x5FFF => Device::Unknown,
        0x6000..=0x7FFF => Device::Sram(addr - 0x6000),
        0x8000..=0xFFFF => Device::Rom(addr - 0x8000),
    }
}

/// Puts together a bus from its devices.
pub struct BusBuilder {
    pub ram: Option<Memory>,
    pub rom: Option<Rom>,
    pub ppu: Option<Ppu>,
    pub sram: Option<Memory>,
    pub apu: Option<Memory>,
    pub joypad_p1: Option<Joypad>,
    pub joypad_p2: Option<Joypad>,
}

impl BusBuilder {
    /// The message naming the first required device that is missing, if any.
    pub open spec fn spec_missing(self) -> Option<Seq<char>> {
        if self.ram is None {
            Some("No ram"@)
        } else if self.rom is None {
            Some("No rom"@)
        } else if self.ppu is None {
            Some("No ppu"@)
        } else {
            None
        }
    }

    /// A builder with no device.
    pub fn new() -> (r: BusBuilder)
        ensures
            r.ram is None,
            r.rom is None,
            r.ppu is None,
            r.sram is None,
            r.apu is None,
            r.joypad_p1 is None,
            r.joypad_p2 is None,
    {
        BusBuilder {
            ram: None,
            rom: None,
            ppu: None,
            sram: None,
            apu: None,
            joypad_p1: None,
            joypad_p2: None,
        }
    }

    pub fn ram(self, ram: Memory) -> (r: BusBuilder)
        ensures
            r == (BusBuilder { ram: Some(ram), ..self }),
    {
        BusBuilder { ram: Some(ram), ..self }
    }

    pub fn rom(self, rom: Rom) -> (r: BusBuilder)
        ensures
            r == (BusBuilder { rom: Some(rom), ..self }),
    {
        BusBuilder { rom: Some(rom), ..self }
    }

    pub fn ppu(self, ppu: Ppu) -> (r: BusBuilder)
        ensures
            r == (BusBuilder { ppu: Some(ppu), ..self }),
    {
        BusBuilder { ppu: Some(ppu), ..self }
    }

    pub fn sram(self, sram: Memory) -> (r: BusBuilder)
        ensures
            r == (BusBuilder { sram: Some(sram), ..self }),
    {
        BusBuilder { sram: Some(sram), ..self }
    }

    pub fn apu(self, apu: Memory) -> (r: BusBuilder)
        ensures
            r == (BusBuilder { apu: Some(apu), ..self }),
    {
        BusBuilder { apu: Some(apu), ..self }
    }

    pub fn joypad_p1(self, joypad: Joypad) -> (r: BusBuilder)
        ensures
            r == (BusBuilder { joypad_p1: Some(joypad), ..self }),
    {
        BusBuilder { joypad_p1: Some(joypad), ..self }
    }

    pub fn joypad_p2(self, joypad: Joypad) -> (r: BusBuilder)
        ensures
            r == (BusBuilder { joypad_p2: Some(joypad), ..self }),
    {
        BusBuilder { joypad_p2: Some(joypad), ..self }
    }

    /// The bus, once RAM, program memory and picture unit are given. The audio unit and
    /// the controllers may be absent; save RAM defaults to 8 KiB of zeros.
    pub fn build(self) -> (r: Result<Bus, String>)
        ensures
            r is Ok <==> self.spec_missing() is None,
            r matches Err(e) ==> self.spec_missing() == Some(e@),
            r matches Ok(bus) ==> {
                &&& Some(bus.ram) == self.ram
                &&& Some(bus.rom) == self.rom
                &&& Some(bus.ppu) == self.ppu
                &&& bus.apu == self.apu
                &&& (self.sram matches Some(s) ==> bus.sram == s)
                &&& (self.sram is None ==> bus.sram@ == Seq::new(0x2000, |i: int| 0u8))
                &&& bus.joypad_p1 == self.joypad_p1
                &&& bus.joypad_p2 == self.joypad_p2
            },
    {
        let BusBuilder { ram, rom, ppu, sram, apu, joypad_p1, joypad_p2 } = self;
        let ram = match ram {
            Some(m) => m,
            None => return Err("No ram".to_owned()),
        };
        let rom = match rom {
            Some(m) => m,
            None => return Err("No rom".to_owned()),
        };
        let ppu = match ppu {
            Some(m) => m,
            None => return Err("No ppu".to_owned()),
        };
        let sram = match sram {
            Some(m) => m,
            None => Memory::new(SRAM_SIZE),
        };
        Ok(Bus { ram, rom, ppu, sram, apu, joypad_p1, joypad_p2 })
    }
}

impl Bus {
    /// A bus with 2 KiB of RAM, 8 KiB of save RAM, no audio unit, no controller,
    /// and the cartridge's program and pattern data.
    pub fn new(rom: Rom) -> (r: Bus)
        ensures
            r@.ram == Seq::new(0x800, |i: int| 0u8),
            r@.sram == Seq::new(0x2000, |i: int| 0u8),
            r@.apu is None,
            r@.prg == rom.prg_rom@,
            r@.ppu.chr_rom == rom.chr_rom@,
            r@.ppu.mirror == rom.mirror,
            r.ppu.wf(),
            r@.ppu.nmi_interrupt is None,
            r@.ppu.scanline == 0,
            r@.ppu.cycles == 0,
            r@.joypad_p1 is None,
            r@.joypad_p2 is None,
    {
        let ppu = Ppu::new(vstd::slice::slice_to_vec(rom.chr_rom.as_slice()), rom.mirror);
        Bus {
            ram: Memory::new(RAM_SIZE),
            rom,
            ppu,
            sram: Memory::new(SRAM_SIZE),
            apu: None,
            joypad_p1: None,
            joypad_p2: None,
        }
    }

    /// Copies page `page` of the processor's memory into sprite memory.
    fn oam_dma(&mut self, page: u8)
        ensures
            final(self)@ == ({
                let (bytes, b1) = spec_dma_read(old(self)@, page, 256);
                BusState { ppu: spec_oam_dma(b1.ppu, bytes), ..b1 }
            }),
    {
        let mut buf: Vec<u8> = Vec::new();
        let base: u16 = (page as u16) * 256;
        let mut i: u16 = 0;
        while i < 256
            invariant
                i <= 256,
                base == page * 256,
                (buf@, self@) == spec_dma_read(old(self)@, page, i as nat),
            decreases 256 - i,
        {
            let v = self.read(base + i);
            buf.push(v);
            i += 1;
        }
        self.ppu.write_oam_dma(buf.as_slice());
    }
}

impl ReadableMut for Bus {
    fn read(&mut self, addr: u16) -> (r: u8)
        ensures
            (r, final(self)@) == spec_bus_read(old(self)@, addr),
    {
        reveal(spec_bus_read);
        match address_translation(addr) {
            Device::Ram(a) => self.ram.read(a),
            Device::Rom(a) => self.rom.read(a),
            Device::Ppu(a) => self.ppu.read(a),
            Device::Sram(a) => self.sram.read(a),
            Device::Apu(a) => match &self.apu {
                Some(m) => m.read(a),
                None => 0,
            },
            Device::JoypadP1(a) => match &mut self.joypad_p1 {
                Some(j) => j.read(a),
                None => 0,
            },
            Device::JoypadP2(a) => match &mut self.joypad_p2 {
                Some(j) => j.read(a),
                None => 0,
            },
            Device::Unknown => 0,
        }
    }

    fn read_u16(&mut self, addr: u16) -> (r: u16)
        ensures
            (r, final(self)@) == spec_bus_read_u16(old(self)@, addr),
    {
        let low = self.read(addr);
        let high = self.read(addr.wrapping_add(1));
        pack_u16(high, low)
    }
}

impl Writable for Bus {
    fn write(&mut self, addr: u16, data: u8)
        ensures
            final(self)@ == spec_bus_write(old(self)@, addr, data),
    {
        reveal(spec_bus_write);
        if addr == OAM_DMA {
            self.oam_dma(data);
            return;
        }
        match address_translation(addr) {
            Device::Ram(a) => self.ram.write(a, data),
            Device::Rom(a) => self.rom.write(a, data),
            Device::Ppu(a) => self.ppu.write(a, data),
            Device::Sram(a) => self.sram.write(a, data),
            Device::Apu(a) => {
                if let Some(m) = &mut self.apu {
                    m.write(a, data);
                }
            },
            Device::JoypadP1(a) => {
                if let Some(j) = &mut self.joypad_p1 {
                    j.write(a, data);
                }
            },
            Device::JoypadP2(a) => {
                if let Some(j) = &mut self.joypad_p2 {
                    j.write(a, data);
                }
            },
            Device::Unknown => {},
        }
    }

    fn write_u16(&mut self, addr: u16, data: u16)
        ensures
            final(self)@ == spec_bus_write_u16(old(self)@, addr, data),
    {
        let (high, low) = unpack_u16(data);
        self.write(addr, low);
        self.write(addr.wrapping_add(1), high);
    }
}

impl AddressableMut for Bus {

}

/// A write below $2000 lands in RAM, at the address modulo 2 KiB.
pub proof fn lemma_ram_write(b: BusState, addr: u16, v: u8)
    requires
        addr <= 0x1FFF,
        b.ram.len() == 0x800,
    ensures
        spec_bus_write(b, addr, v) == (BusState { ram: b.ram.update(addr as int % 0x800, v), ..b }),
{
    reveal(spec_bus_write);
}

/// A read below $2000 comes from RAM, at the address modulo 2 KiB, and changes nothing.
pub proof fn lemma_ram_read(b: BusState, addr: u16)
    requires
        addr <= 0x1FFF,
        b.ram.len() == 0x800,
    ensures
        spec_bus_read(b, addr) == (b.ram[addr as int % 0x800], b),
{
    reveal(spec_bus_read);
}

/// RAM shows four times below $2000: a byte written at one of its addresses reads back at
/// the same offset of every 2 KiB mirror, and the read changes nothing.
pub proof fn ram_mirrors(b: BusState, addr: u16, k: u8, m: u16)
    requires
        b.ram.len() == 0x800,
        addr < 0x0800,
        m < 4,
    ensures
        spec_bus_read(spec_bus_write(b, addr, k), (addr + 0x800 * m) as u16) == (
            k,
            spec_bus_write(b, addr, k),
        ),
{
    lemma_ram_write(b, addr, k);
    let b1 = spec_bus_write(b, addr, k);
    lemma_ram_read(b1, (addr + 0x800 * m) as u16);
    assert((addr + 0x800 * m) % 0x800 == addr as int);
}

/// A word written to RAM reads back unchanged. Both bytes must land in RAM, so the
/// address is below $1FFF.
pub proof fn ram_word_round_trip(b: BusState, addr: u16, v: u16)
    requires
        b.ram.len() == 0x800,
        addr < 0x1FFF,
    ensures
        spec_bus_read_u16(spec_bus_write_u16(b, addr, v), addr).0 == v,
{
    let lo = (v % 256) as u8;
    let hi = (v / 256) as u8;
    lemma_ram_write(b, addr, lo);
    let b1 = spec_bus_write(b, addr, lo);
    lemma_ram_write(b1, next_addr(addr), hi);
    let b2 = spec_bus_write(b1, next_addr(addr), hi);
    assert(addr as int % 0x800 != next_addr(addr) as int % 0x800);
    lemma_ram_read(b2, addr);
    lemma_ram_read(b2, next_addr(addr));
    assert(b2.ram[addr as int % 0x800] == lo);
    assert(b2.ram[next_addr(addr) as int % 0x800] == hi);
}

/// The picture unit's frame position: scanline and dot.
pub open spec fn frame_clock(b: BusState) -> (u16, u16) {
    (b.ppu.scanline, b.ppu.cycles)
}

/// Reads leave the frame position alone.
pub broadcast proof fn lemma_read_keeps_clock(b: BusState, addr: u16)
    ensures
        frame_clock(#[trigger] spec_bus_read(b, addr).1) == frame_clock(b),
{
    reveal(spec_bus_read);
}

proof fn lemma_dma_read_keeps_clock(b: BusState, page: u8, n: nat)
    ensures
        frame_clock(spec_dma_read(b, page, n).1) == frame_clock(b),
    decreases n,
{
    if n > 0 {
        lemma_dma_read_keeps_clock(b, page, (n - 1) as nat);
        let (s, b1) = spec_dma_read(b, page, (n - 1) as nat);
        lemma_read_keeps_clock(b1, (page * 256 + n - 1) as u16);
    }
}

proof fn lemma_oam_dma_keeps_clock(p: PpuState, data: Seq<u8>)
    ensures
        spec_oam_dma(p, data).scanline == p.scanline,
        spec_oam_dma(p, data).cycles == p.cycles,
    decreases data.len(),
{
    if data.len() > 0 {
        lemma_oam_dma_keeps_clock(p, data.drop_last());
    }
}

/// Writes leave the frame position alone.
pub broadcast proof fn lemma_write_keeps_clock(b: BusState, addr: u16, data: u8)
    ensures
        frame_clock(#[trigger] spec_bus_write(b, addr, data)) == frame_clock(b),
{
    reveal(spec_bus_write);
    if addr == 0x4014 {
        lemma_dma_read_keeps_clock(b, data, 256);
        let (bytes, b1) = spec_dma_read(b, data, 256);
        lemma_oam_dma_keeps_clock(b1.ppu, bytes);
    }
}

/// Reading $2002 during vertical blank returns bit 7 set and a read right after returns it
/// clear; after any read of $2002 the next write to $2005 or $2006 is the first of a pair.
pub proof fn bus_status_read_clears_vblank(b: BusState)
    ensures
        ({
            let (v1, b1) = spec_bus_read(b, 0x2002);
            let (v2, b2) = spec_bus_read(b1, 0x2002);
            &&& b.ppu.status.vblank_started ==> v1 & 0x80 != 0
            &&& v2 & 0x80 == 0
            &&& b1.ppu.addr_hi_next && b1.ppu.scroll.first_write
            &&& b2.ppu.addr_hi_next && b2.ppu.scroll.first_write
        }),
{
    reveal(spec_bus_read);
    crate::ppu::status_read_clears_vblank(b.ppu);
}

/// Writing $2006 twice, high byte first, then reading $2007 leaves the video memory
/// pointer at the written address moved on by the control register's increment.
pub proof fn bus_data_read_moves_pointer(b: BusState, hi: u8, lo: u8)
    requires
        b.ppu.addr_hi_next,
    ensures
        ({
            let b2 = spec_bus_write(spec_bus_write(b, 0x2006, hi), 0x2006, lo);
            let (_, b3) = spec_bus_read(b2, 0x2007);
            &&& b2.ppu.vram_addr == ((hi as int) * 256 + lo) % 0x4000
            &&& b3.ppu.vram_addr == (b2.ppu.vram_addr + increment_of(b.ppu.control)) % 0x4000
        }),
{
    reveal(spec_bus_read);
    reveal(spec_bus_write);
    crate::ppu::data_read_moves_pointer(b.ppu, hi, lo);
}

} // verus!
