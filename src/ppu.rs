use vstd::prelude::*;

use crate::address::address_after_write;
use crate::addressable::{next_addr, pack_u16, unpack_u16, word, AddressableMut, ReadableMut, Writable};
use crate::control::ControlRegister;
use crate::flag::FlagRegister;
use crate::mask::MaskRegister;
use crate::memory::{mem_read, mem_write};
use crate::ppu_register::PpuRegister;
use crate::ppu_status::StatusRegister;
use crate::rom::Mirror;
use crate::scroll::ScrollRegister;

verus! {

/// Dots in one scanline.
pub const DOTS_PER_SCANLINE: u16 = 341;

/// The scanline on which vertical blank starts.
pub const VBLANK_SCANLINE: u16 = 241;

/// Scanlines in one frame.
pub const SCANLINES_PER_FRAME: u16 = 262;

/// The picture unit: pattern data, nametables, palette, sprite memory, registers and
/// frame timing.
pub struct Ppu {
    /// Pattern data copied from the cartridge.
    pub chr_rom: Vec<u8>,
    /// 32 palette entries, $3F00-$3F1F.
    pub palette_table: Vec<u8>,
    /// Nametable memory, 2 KiB.
    pub vram: Vec<u8>,
    pub oam_address: u8,
    /// 256 bytes of sprite attributes.
    pub oam_data: Vec<u8>,
    pub mirror: Mirror,
    pub register: PpuRegister,
    /// Set when the picture unit asks for a non-maskable interrupt.
    pub nmi_interrupt: Option<u8>,
    /// What the next read of $2007 outside the palette returns.
    pub internal_data_buffer: u8,
    pub scanline: u16,
    pub cycles: u16,
}

/// The picture unit as plain values.
pub struct PpuState {
    pub chr_rom: Seq<u8>,
    pub palette_table: Seq<u8>,
    pub vram: Seq<u8>,
    pub oam_address: u8,
    pub oam_data: Seq<u8>,
    pub mirror: Mirror,
    pub control: ControlRegister,
    pub mask: MaskRegister,
    pub status: StatusRegister,
    pub scroll: ScrollRegister,
    /// The video memory pointer.
    pub vram_addr: u16,
    /// Whether the next write to $2006 is the high byte.
    pub addr_hi_next: bool,
    pub nmi_interrupt: Option<u8>,
    pub data_buffer: u8,
    pub scanline: u16,
    pub cycles: u16,
}

impl View for Ppu {
    type V = PpuState;

    open spec fn view(&self) -> PpuState {
        PpuState {
            chr_rom: self.chr_rom@,
            palette_table: self.palette_table@,
            vram: self.vram@,
            oam_address: self.oam_address,
            oam_data: self.oam_data@,
            mirror: self.mirror,
            control: self.register.control,
            mask: self.register.mask,
            status: self.register.status,
            scroll: self.register.scroll,
            vram_addr: self.register.address.spec_value(),
            addr_hi_next: self.register.address.spec_hi_next(),
            nmi_interrupt: self.nmi_interrupt,
            data_buffer: self.internal_data_buffer,
            scanline: self.scanline,
            cycles: self.cycles,
        }
    }
}

/// Bytes of nametable memory: 2 KiB. The second 2 KiB that a four-screen cartridge
/// carries lies outside this core, so its two upper nametables read as 0 and drop writes.
pub const VRAM_SIZE: usize = 0x800;

/// The nametable byte that a picture-unit address in $2000-$3FFF stands for: $3000-$3FFF
/// fold onto $2000-$2FFF, then the four logical nametables fold onto the physical ones.
pub open spec fn vram_index(mirror: Mirror, addr: u16) -> u16 {
    let index = (addr as int) % 0x1000;
    let table = index / 0x400;
    (match mirror {
        Mirror::Horizontal => if table == 0 {
            index
        } else if table == 3 {
            index - 0x800
        } else {
            index - 0x400
        },
        Mirror::Vertical => if table < 2 {
            index
        } else {
            index - 0x800
        },
        Mirror::FourScreen => index,
    }) as u16
}

/// The palette entry of an address in $3F00-$3FFF: 32 entries repeat, and $3F10, $3F14,
/// $3F18, $3F1C are $3F00, $3F04, $3F08, $3F0C.
pub open spec fn palette_index(addr: u16) -> u16 {
    let i = (addr as int) % 32;
    (if i >= 16 && i % 4 == 0 {
        i - 16
    } else {
        i
    }) as u16
}

/// How far the pointer moves after an access to $2007.
pub open spec fn increment_of(c: ControlRegister) -> u8 {
    if c.vram_address_increment {
        32
    } else {
        1
    }
}

/// The state after the pointer moves on by the control register's increment.
pub open spec fn spec_increment(s: PpuState) -> PpuState {
    PpuState { vram_addr: ((s.vram_addr + increment_of(s.control)) % 0x4000) as u16, ..s }
}

/// A read of $2002: the status byte, then vertical blank and both latches are reset.
pub open spec fn spec_read_status(s: PpuState) -> (u8, PpuState) {
    (
        s.status.spec_to_byte(),
        PpuState {
            status: StatusRegister { vblank_started: false, ..s.status },
            scroll: ScrollRegister { first_write: true, ..s.scroll },
            addr_hi_next: true,
            ..s
        },
    )
}

/// A read of $2007: below the palette the buffered byte comes back and the buffer takes
/// the addressed byte; a palette entry comes back at once, and the buffer takes the
/// nametable byte underneath. The pointer then moves on.
pub open spec fn spec_read_data(s: PpuState) -> (u8, PpuState) {
    let a = s.vram_addr;
    let s1 = spec_increment(s);
    if a < 0x2000 {
        (s.data_buffer, PpuState { data_buffer: mem_read(s.chr_rom, a), ..s1 })
    } else if a < 0x3F00 {
        (s.data_buffer, PpuState { data_buffer: mem_read(s.vram, vram_index(s.mirror, a)), ..s1 })
    } else {
        (
            mem_read(s.palette_table, palette_index(a)),
            PpuState { data_buffer: mem_read(s.vram, vram_index(s.mirror, a)), ..s1 },
        )
    }
}

/// A write of $2007: pattern memory ignores it, nametables and palette take it; the
/// pointer then moves on.
pub open spec fn spec_write_data(s: PpuState, value: u8) -> PpuState {
    let a = s.vram_addr;
    let s1 = spec_increment(s);
    if a < 0x2000 {
        s1
    } else if a < 0x3F00 {
        PpuState { vram: mem_write(s.vram, vram_index(s.mirror, a), value), ..s1 }
    } else {
        PpuState { palette_table: mem_write(s.palette_table, palette_index(a), value), ..s1 }
    }
}

/// A write of $2000; turning the interrupt on during vertical blank raises it at once.
pub open spec fn spec_write_ctrl(s: PpuState, value: u8) -> PpuState {
    let c = ControlRegister::spec_from_byte(value);
    PpuState {
        control: c,
        nmi_interrupt: if !s.control.generate_vblank_nmi && c.generate_vblank_nmi
            && s.status.vblank_started {
            Some(1u8)
        } else {
            s.nmi_interrupt
        },
        ..s
    }
}

/// A write of $2004: the byte goes to sprite memory and the sprite pointer moves on.
pub open spec fn spec_write_oam_data(s: PpuState, value: u8) -> PpuState {
    PpuState {
        oam_data: mem_write(s.oam_data, s.oam_address as u16, value),
        oam_address: ((s.oam_address + 1) % 256) as u8,
        ..s
    }
}

/// A write of $2006.
pub open spec fn spec_write_ppu_addr(s: PpuState, value: u8) -> PpuState {
    let (v, hi) = address_after_write(s.vram_addr, s.addr_hi_next, value);
    PpuState { vram_addr: v, addr_hi_next: hi, ..s }
}

/// What a read of register `reg` returns, and the state after it. The registers that
/// can only be written read as 0 and are left as they are.
pub open spec fn spec_read(s: PpuState, reg: u16) -> (u8, PpuState) {
    if reg == 2 {
        spec_read_status(s)
    } else if reg == 4 {
        (mem_read(s.oam_data, s.oam_address as u16), s)
    } else if reg == 7 {
        spec_read_data(s)
    } else {
        (0, s)
    }
}

/// The state after a write of `data` to register `reg`; writes to the status register
/// are dropped.
pub open spec fn spec_write(s: PpuState, reg: u16, data: u8) -> PpuState {
    if reg == 0 {
        spec_write_ctrl(s, data)
    } else if reg == 1 {
        PpuState { mask: MaskRegister::spec_from_byte(data), ..s }
    } else if reg == 3 {
        PpuState { oam_address: data, ..s }
    } else if reg == 4 {
        spec_write_oam_data(s, data)
    } else if reg == 5 {
        PpuState { scroll: s.scroll.spec_write(data), ..s }
    } else if reg == 6 {
        spec_write_ppu_addr(s, data)
    } else if reg == 7 {
        spec_write_data(s, data)
    } else {
        s
    }
}

/// Whether `n` dots complete a frame, and the state after them. At most one scanline
/// ends per call.
pub open spec fn spec_tick(s: PpuState, n: u8) -> (bool, PpuState) {
    let total = s.cycles + n;
    if total < 341 {
        (false, PpuState { cycles: total as u16, ..s })
    } else if s.scanline >= 261 {
        (
            true,
            PpuState {
                cycles: (total - 341) as u16,
                scanline: 0,
                nmi_interrupt: None,
                status: StatusRegister { sprite_zero_hit: false, vblank_started: false, ..s.status },
                ..s
            },
        )
    } else if s.scanline + 1 == 241 {
        (
            false,
            PpuState {
                cycles: (total - 341) as u16,
                scanline: 241,
                status: StatusRegister { sprite_zero_hit: false, vblank_started: true, ..s.status },
                nmi_interrupt: if s.control.generate_vblank_nmi {
                    Some(1u8)
                } else {
                    s.nmi_interrupt
                },
                ..s
            },
        )
    } else {
        (false, PpuState { cycles: (total - 341) as u16, scanline: (s.scanline + 1) as u16, ..s })
    }
}

/// The state after `data` is copied into sprite memory byte by byte.
pub open spec fn spec_oam_dma(s: PpuState, data: Seq<u8>) -> PpuState
    decreases data.len(),
{
    if data.len() == 0 {
        s
    } else {
        spec_write_oam_data(spec_oam_dma(s, data.drop_last()), data.last())
    }
}

impl Ppu {
    /// A picture unit with 2 KiB of blank pattern data and horizontal mirroring.
    pub fn new_empty() -> (r: Ppu)
        ensures
            r.wf(),
            r@.chr_rom == Seq::new(2048, |i: int| 0u8),
            r@.mirror == Mirror::Horizontal,
            r@.palette_table == Seq::new(32, |i: int| 0u8),
            r@.vram == Seq::new(0x800, |i: int| 0u8),
            r@.oam_data == Seq::new(256, |i: int| 0u8),
            r@.oam_address == 0,
            r@.control == ControlRegister::spec_from_byte(0),
            r@.mask == MaskRegister::spec_from_byte(0),
            r@.status == StatusRegister::spec_from_byte(0),
            r@.scroll == (ScrollRegister { scroll_x: 0, scroll_y: 0, first_write: true }),
            r@.vram_addr == 0,
            r@.addr_hi_next,
            r@.nmi_interrupt is None,
            r@.data_buffer == 0,
            r@.scanline == 0,
            r@.cycles == 0,
    {
        Self::new(vec![0; 2048], Mirror::Horizontal)
    }

    /// Sizes of the memories.
    pub open spec fn wf(&self) -> bool {
        &&& self@.palette_table.len() == 32
        &&& self@.vram.len() == 0x800
        &&& self@.oam_data.len() == 256
    }

    /// A picture unit at power-on, with the cartridge's pattern data and mirroring.
    pub fn new(chr_rom: Vec<u8>, mirror: Mirror) -> (r: Ppu)
        ensures
            r.wf(),
            r@.chr_rom == chr_rom@,
            r@.mirror == mirror,
            r@.palette_table == Seq::new(32, |i: int| 0u8),
            r@.vram == Seq::new(0x800, |i: int| 0u8),
            r@.oam_data == Seq::new(256, |i: int| 0u8),
            r@.oam_address == 0,
            r@.control == ControlRegister::spec_from_byte(0),
            r@.mask == MaskRegister::spec_from_byte(0),
            r@.status == StatusRegister::spec_from_byte(0),
            r@.scroll == (ScrollRegister { scroll_x: 0, scroll_y: 0, first_write: true }),
            r@.vram_addr == 0,
            r@.addr_hi_next,
            r@.nmi_interrupt is None,
            r@.data_buffer == 0,
            r@.scanline == 0,
            r@.cycles == 0,
    {
        let r = Ppu {
            chr_rom,
            palette_table: vec![0; 32],
            vram: vec![0; VRAM_SIZE],
            oam_data: vec![0; 256],
            mirror,
            register: PpuRegister::new(),
            oam_address: 0,
            internal_data_buffer: 0,
            cycles: 0,
            scanline: 0,
            nmi_interrupt: None,
        };
        assert(r@.palette_table =~= Seq::new(32, |i: int| 0u8));
        assert(r@.vram =~= Seq::new(0x800, |i: int| 0u8));
        assert(r@.oam_data =~= Seq::new(256, |i: int| 0u8));
        r
    }

    // Horizontal:      Vertical:
    //   [ A ] [ a ]      [ A ] [ B ]
    //   [ B ] [ b ]      [ a ] [ b ]
    /// The nametable byte that an address in $2000-$3FFF stands for.
    pub fn mirror_vram_addr(&self, addr: u16) -> (r: u16)
        requires
            0x2000 <= addr <= 0x3FFF,
        ensures
            r == vram_index(self.mirror, addr),
    {
        let mirrored_vram = addr & 0b10111111111111;
        assert(mirrored_vram - 0x2000 == addr % 0x1000) by (bit_vector)
            requires
                mirrored_vram == addr & 0b10111111111111,
                0x2000 <= addr <= 0x3FFF,
        ;
        let vram_index = mirrored_vram - 0x2000;
        let name_table = vram_index / 0x400;
        match (self.mirror, name_table) {
            (Mirror::Vertical, 2) | (Mirror::Vertical, 3) => vram_index - 0x800,
            (Mirror::Horizontal, 2) => vram_index - 0x400,
            (Mirror::Horizontal, 1) => vram_index - 0x400,
            (Mirror::Horizontal, 3) => vram_index - 0x800,
            _ => vram_index,
        }
    }

    fn increment_vram_addr(&mut self)
        ensures
            final(self)@ == spec_increment(old(self)@),
    {
        let inc = self.register.control.vram_address_increment();
        self.register.address.increment(inc);
    }

    /// Advances the frame timing by `cycles` dots; true when the frame is complete.
    pub fn tick(&mut self, cycles: u8) -> (r: bool)
        ensures
            (r, final(self)@) == spec_tick(old(self)@, cycles),
    {
        let total: u32 = self.cycles as u32 + cycles as u32;
        if total < DOTS_PER_SCANLINE as u32 {
            self.cycles = total as u16;
            return false;
        }
        self.cycles = (total - DOTS_PER_SCANLINE as u32) as u16;
        if self.scanline >= SCANLINES_PER_FRAME - 1 {
            self.scanline = 0;
            self.nmi_interrupt = None;
            self.register.status.sprite_zero_hit = false;
            self.register.status.reset_vblank_status();
            return true;
        }
        self.scanline = self.scanline + 1;
        if self.scanline == VBLANK_SCANLINE {
            self.register.status.vblank_started = true;
            self.register.status.sprite_zero_hit = false;
            if self.register.control.generate_vblank_nmi() {
                self.nmi_interrupt = Some(1);
            }
        }
        false
    }

    /// Takes the pending interrupt request, if any.
    pub fn poll_nmi_interrupt(&mut self) -> (r: Option<u8>)
        ensures
            r == old(self)@.nmi_interrupt,
            final(self)@ == (PpuState { nmi_interrupt: None, ..old(self)@ }),
    {
        self.nmi_interrupt.take()
    }
}

/// The registers that the processor reaches through the bus.
pub trait IPpu {
    fn write_to_ctrl(&mut self, value: u8);

    fn write_to_mask(&mut self, value: u8);

    fn read_status(&mut self) -> u8;

    fn write_to_oam_addr(&mut self, value: u8);

    fn write_to_oam_data(&mut self, value: u8);

    fn read_oam_data(&self) -> u8;

    fn write_to_scroll(&mut self, value: u8);

    fn write_to_ppu_addr(&mut self, value: u8);

    fn write_to_data(&mut self, value: u8);

    fn read_data(&mut self) -> u8;

    fn write_oam_dma(&mut self, data: &[u8]);
}

impl IPpu for Ppu {
    fn write_to_ctrl(&mut self, value: u8)
        ensures
            final(self)@ == spec_write_ctrl(old(self)@, value),
    {
        let before_nmi_status = self.register.control.generate_vblank_nmi();
        self.register.control.update(value);
        if !before_nmi_status && self.register.control.generate_vblank_nmi()
            && self.register.status.vblank_started {
            self.nmi_interrupt = Some(1);
        }
    }

    fn write_to_mask(&mut self, value: u8)
        ensures
            final(self)@ == (PpuState { mask: MaskRegister::spec_from_byte(value), ..old(self)@ }),
    {
        self.register.mask.update(value);
    }

    fn read_status(&mut self) -> (r: u8)
        ensures
            (r, final(self)@) == spec_read_status(old(self)@),
    {
        let data = self.register.status.snapshot();
        self.register.status.reset_vblank_status();
        self.register.address.reset_latch();
        self.register.scroll.reset_latch();
        data
    }

    fn write_to_oam_addr(&mut self, value: u8)
        ensures
            final(self)@ == (PpuState { oam_address: value, ..old(self)@ }),
    {
        self.oam_address = value;
    }

    fn write_to_oam_data(&mut self, value: u8)
        ensures
            final(self)@ == spec_write_oam_data(old(self)@, value),
    {
        if (self.oam_address as usize) < self.oam_data.len() {
            self.oam_data.set(self.oam_address as usize, value);
        }
        self.oam_address = self.oam_address.wrapping_add(1);
    }

    fn read_oam_data(&self) -> (r: u8)
        ensures
            r == mem_read(self@.oam_data, self@.oam_address as u16),
    {
        if (self.oam_address as usize) < self.oam_data.len() {
            self.oam_data[self.oam_address as usize]
        } else {
            0
        }
    }

    fn write_to_scroll(&mut self, value: u8)
        ensures
            final(self)@ == (PpuState { scroll: old(self)@.scroll.spec_write(value), ..old(self)@ }),
    {
        self.register.scroll.write(value);
    }

    fn write_to_ppu_addr(&mut self, value: u8)
        ensures
            final(self)@ == spec_write_ppu_addr(old(self)@, value),
    {
        self.register.address.update(value);
    }

    fn write_to_data(&mut self, value: u8)
        ensures
            final(self)@ == spec_write_data(old(self)@, value),
    {
        let addr = self.register.address.get();
        if addr < 0x2000 {
            // pattern memory is read-only
        } else if addr < 0x3F00 {
            let i = self.mirror_vram_addr(addr) as usize;
            if i < self.vram.len() {
                self.vram.set(i, value);
            }
        } else {
            let i = palette_entry(addr) as usize;
            if i < self.palette_table.len() {
                self.palette_table.set(i, value);
            }
        }
        self.increment_vram_addr();
    }

    fn read_data(&mut self) -> (r: u8)
        ensures
            (r, final(self)@) == spec_read_data(old(self)@),
    {
        let addr = self.register.address.get();
        self.increment_vram_addr();
        if addr < 0x2000 {
            let result = self.internal_data_buffer;
            self.internal_data_buffer = read_or_zero(&self.chr_rom, addr);
            result
        } else if addr < 0x3F00 {
            let result = self.internal_data_buffer;
            let i = self.mirror_vram_addr(addr);
            self.internal_data_buffer = read_or_zero(&self.vram, i);
            result
        } else {
            let i = self.mirror_vram_addr(addr);
            self.internal_data_buffer = read_or_zero(&self.vram, i);
            read_or_zero(&self.palette_table, palette_entry(addr))
        }
    }

    fn write_oam_dma(&mut self, data: &[u8])
        ensures
            final(self)@ == spec_oam_dma(old(self)@, data@),
    {
        let mut i: usize = 0;
        while i < data.len()
            invariant
                i <= data@.len(),
                self@ == spec_oam_dma(old(self)@, data@.subrange(0, i as int)),
            decreases data@.len() - i,
        {
            self.write_to_oam_data(data[i]);
            i += 1;
            assert(data@.subrange(0, i as int).drop_last() =~= data@.subrange(0, i - 1));
        }
        assert(data@.subrange(0, i as int) =~= data@);
    }
}

/// The palette entry of an address in $3F00-$3FFF.
fn palette_entry(addr: u16) -> (r: u16)
    ensures
        r == palette_index(addr),
{
    let i = addr % 32;
    if i >= 16 && i % 4 == 0 {
        i - 16
    } else {
        i
    }
}

/// The byte at `i` of `v`, or 0 past its end.
fn read_or_zero(v: &Vec<u8>, i: u16) -> (r: u8)
    ensures
        r == mem_read(v@, i),
{
    if (i as usize) < v.len() {
        v[i as usize]
    } else {
        0
    }
}

/// Registers are reached at 0-7 ($2000-$2007 on the bus).
impl ReadableMut for Ppu {
    fn read(&mut self, addr: u16) -> (r: u8)
        ensures
            (r, final(self)@) == spec_read(old(self)@, addr),
    {
        match addr {
            2 => self.read_status(),
            4 => self.read_oam_data(),
            7 => self.read_data(),
            _ => 0,
        }
    }

    fn read_u16(&mut self, addr: u16) -> (r: u16)
        ensures
            ({
                let (low, s1) = spec_read(old(self)@, addr);
                let (high, s2) = spec_read(s1, next_addr(addr));
                r == word(low, high) && final(self)@ == s2
            }),
    {
        let low = self.read(addr);
        let high = self.read(addr.wrapping_add(1));
        pack_u16(high, low)
    }
}

impl Writable for Ppu {
    fn write(&mut self, addr: u16, data: u8)
        ensures
            final(self)@ == spec_write(old(self)@, addr, data),
    {
        match addr {
            0 => self.write_to_ctrl(data),
            1 => self.write_to_mask(data),
            3 => self.write_to_oam_addr(data),
            4 => self.write_to_oam_data(data),
            5 => self.write_to_scroll(data),
            6 => self.write_to_ppu_addr(data),
            7 => self.write_to_data(data),
            _ => {},
        }
    }

    fn write_u16(&mut self, addr: u16, data: u16)
        ensures
            final(self)@ == spec_write(
                spec_write(old(self)@, addr, (data % 256) as u8),
                next_addr(addr),
                (data / 256) as u8,
            ),
    {
        let (high, low) = unpack_u16(data);
        self.write(addr, low);
        self.write(addr.wrapping_add(1), high);
    }
}

impl AddressableMut for Ppu {

}

/// With horizontal or vertical mirroring every address in $2000-$3EFF resolves inside the
/// 2 KiB of nametable memory; with four-screen mirroring indices stay below 4 KiB.
pub proof fn vram_index_in_bounds(mirror: Mirror, addr: u16)
    requires
        0x2000 <= addr <= 0x3EFF,
    ensures
        mirror != Mirror::FourScreen ==> vram_index(mirror, addr) < 0x800,
        vram_index(mirror, addr) < 0x1000,
{
}

/// Reading $2002 during vertical blank returns bit 7 set and a read right after returns it
/// clear; after any read of $2002 the next write to $2005 or $2006 is the first of a pair.
pub proof fn status_read_clears_vblank(s: PpuState)
    ensures
        ({
            let (b1, s1) = spec_read(s, 2);
            let (b2, s2) = spec_read(s1, 2);
            &&& s.status.vblank_started ==> b1 & 0x80 != 0
            &&& b2 & 0x80 == 0
            &&& s1.addr_hi_next && s1.scroll.first_write
            &&& s2.addr_hi_next && s2.scroll.first_write
        }),
{
    let (b1, s1) = spec_read(s, 2);
    let st = s.status;
    crate::flag::lemma_unpack_pack(
        st.unused_1,
        st.unused_2,
        st.unused_3,
        st.unused_4,
        st.unused_5,
        st.sprite_overflow,
        st.sprite_zero_hit,
        st.vblank_started,
    );
    let st1 = s1.status;
    crate::flag::lemma_unpack_pack(
        st1.unused_1,
        st1.unused_2,
        st1.unused_3,
        st1.unused_4,
        st1.unused_5,
        st1.sprite_overflow,
        st1.sprite_zero_hit,
        st1.vblank_started,
    );
}

/// Writing $2006 twice, high byte first, then reading $2007 leaves the pointer at the
/// written address moved on by the control register's increment (1 or 32).
pub proof fn data_read_moves_pointer(s: PpuState, hi: u8, lo: u8)
    requires
        s.addr_hi_next,
    ensures
        ({
            let s2 = spec_write(spec_write(s, 6, hi), 6, lo);
            let (_, s3) = spec_read(s2, 7);
            &&& s2.vram_addr == ((hi as int) * 256 + lo) % 0x4000
            &&& s3.vram_addr == (s2.vram_addr + increment_of(s.control)) % 0x4000
            &&& increment_of(s.control) == 1 || increment_of(s.control) == 32
        }),
{
    let x = s.vram_addr;
    assert(((((((hi as int) * 256 + x % 256) % 0x4000) as u16 / 256) * 256 + lo) % 0x4000)
        == ((hi as int) * 256 + lo) % 0x4000) by (bit_vector);
}

} // verus!
