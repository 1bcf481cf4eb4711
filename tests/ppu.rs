use nes_emu::addressable::{ReadableMut, Writable};
use nes_emu::address::AddressRegister;
use nes_emu::control::ControlRegister;
use nes_emu::flag::FlagRegister;
use nes_emu::mask::{Color, MaskRegister};
use nes_emu::ppu::{IPpu, Ppu};
use nes_emu::ppu_status::StatusRegister;
use nes_emu::rom::Mirror;
use nes_emu::scroll::ScrollRegister;

#[test]
fn write_through_data_port() {
    let mut ppu = Ppu::new_empty();
    ppu.write_to_ppu_addr(0x23);
    ppu.write_to_ppu_addr(0x05);
    ppu.write_to_data(0x66);
    assert_eq!(ppu.vram[ppu.mirror_vram_addr(0x2305) as usize], 0x66);
}

#[test]
fn horizontal_mirroring_shares_tables() {
    let mut ppu = Ppu::new(vec![0; 0x2000], Mirror::Horizontal);
    ppu.write_to_ppu_addr(0x24);
    ppu.write_to_ppu_addr(0x00);
    ppu.write_to_data(0x77);
    assert_eq!(ppu.mirror_vram_addr(0x2400), ppu.mirror_vram_addr(0x2000));
    assert_eq!(ppu.vram[0], 0x77);
    // read back through $2000: the first read returns the buffer, the second the byte
    ppu.write_to_ppu_addr(0x20);
    ppu.write_to_ppu_addr(0x00);
    ppu.read_data();
    assert_eq!(ppu.read_data(), 0x77);
}

#[test]
fn mirror_table() {
    let h = Ppu::new(vec![], Mirror::Horizontal);
    assert_eq!(h.mirror_vram_addr(0x2000), 0x000);
    assert_eq!(h.mirror_vram_addr(0x2401), 0x001);
    assert_eq!(h.mirror_vram_addr(0x2802), 0x402);
    assert_eq!(h.mirror_vram_addr(0x2C03), 0x403);
    assert_eq!(h.mirror_vram_addr(0x3C03), 0x403);
    let v = Ppu::new(vec![], Mirror::Vertical);
    assert_eq!(v.mirror_vram_addr(0x2000), 0x000);
    assert_eq!(v.mirror_vram_addr(0x2401), 0x401);
    assert_eq!(v.mirror_vram_addr(0x2802), 0x002);
    assert_eq!(v.mirror_vram_addr(0x2C03), 0x403);
    let f = Ppu::new(vec![], Mirror::FourScreen);
    assert_eq!(f.mirror_vram_addr(0x2C03), 0xC03);
    assert_eq!(f.vram.len(), 0x800);
    for addr in 0x2000u16..0x3F00 {
        assert!(h.mirror_vram_addr(addr) < 0x800);
        assert!(v.mirror_vram_addr(addr) < 0x800);
    }
}

#[test]
fn data_read_is_buffered() {
    let mut ppu = Ppu::new(vec![0; 0x2000], Mirror::Vertical);
    ppu.vram[0x0305] = 0x42;
    ppu.write_to_ppu_addr(0x23);
    ppu.write_to_ppu_addr(0x05);
    assert_eq!(ppu.read_data(), 0);
    assert_eq!(ppu.read_data(), 0x42);
}

#[test]
fn data_port_increment_one_or_thirty_two() {
    let mut ppu = Ppu::new_empty();
    ppu.write_to_ppu_addr(0x21);
    ppu.write_to_ppu_addr(0xFF);
    ppu.read_data();
    assert_eq!(ppu.register.address.get(), 0x2200);
    ppu.write_to_ctrl(0b100);
    ppu.write_to_ppu_addr(0x21);
    ppu.write_to_ppu_addr(0xFF);
    ppu.read_data();
    assert_eq!(ppu.register.address.get(), 0x221F);
}

#[test]
fn address_register_masks_to_fourteen_bits() {
    let mut a = AddressRegister::new();
    a.update(0xFF);
    a.update(0x12);
    assert_eq!(a.get(), 0x3F12);
    a.increment(0xFF);
    assert_eq!(a.get(), 0x0011);
    a.update(0x06);
    a.reset_latch();
    a.update(0x07);
    assert_eq!(a.get(), 0x0711);
}

#[test]
fn status_read_clears_vblank_and_latches() {
    let mut ppu = Ppu::new_empty();
    ppu.register.status.vblank_started = true;
    ppu.write_to_ppu_addr(0x12);
    ppu.write_to_scroll(0x05);
    let first = ppu.read(2);
    let second = ppu.read(2);
    assert_eq!(first & 0x80, 0x80);
    assert_eq!(second & 0x80, 0);
    // both latches start a new pair
    ppu.write_to_ppu_addr(0x23);
    ppu.write_to_ppu_addr(0x40);
    assert_eq!(ppu.register.address.get(), 0x2340);
    ppu.write_to_scroll(0x09);
    assert_eq!(ppu.register.scroll.scroll_x, 0x09);
}

#[test]
fn palette_aliases() {
    let mut ppu = Ppu::new_empty();
    ppu.write_to_ppu_addr(0x3F);
    ppu.write_to_ppu_addr(0x10);
    ppu.write_to_data(0x2A);
    assert_eq!(ppu.palette_table[0], 0x2A);
    ppu.write_to_ppu_addr(0x3F);
    ppu.write_to_ppu_addr(0x00);
    assert_eq!(ppu.read_data(), 0x2A);
    ppu.write_to_ppu_addr(0x3F);
    ppu.write_to_ppu_addr(0x25);
    ppu.write_to_data(0x11);
    assert_eq!(ppu.palette_table[5], 0x11);
}

#[test]
fn chr_writes_are_ignored() {
    let mut ppu = Ppu::new(vec![9; 0x2000], Mirror::Horizontal);
    ppu.write_to_ppu_addr(0x00);
    ppu.write_to_ppu_addr(0x10);
    ppu.write_to_data(0x01);
    assert_eq!(ppu.chr_rom[0x10], 9);
    assert_eq!(ppu.register.address.get(), 0x0011);
}

#[test]
fn oam_access() {
    let mut ppu = Ppu::new_empty();
    ppu.write_to_oam_addr(0xFF);
    ppu.write_to_oam_data(0x12);
    ppu.write_to_oam_data(0x34);
    assert_eq!(ppu.oam_data[0xFF], 0x12);
    assert_eq!(ppu.oam_data[0x00], 0x34);
    ppu.write_to_oam_addr(0xFF);
    assert_eq!(ppu.read_oam_data(), 0x12);
    ppu.write_to_oam_addr(0x10);
    ppu.write_oam_dma(&[7; 256]);
    assert_eq!(ppu.oam_address, 0x10);
    assert!(ppu.oam_data.iter().all(|b| *b == 7));
}

#[test]
fn vblank_and_frame_timing() {
    let mut ppu = Ppu::new_empty();
    ppu.write(0, 0x80);
    let mut frame = false;
    for _ in 0..240 {
        frame |= ppu.tick(255);
        frame |= ppu.tick(86);
    }
    assert!(!frame);
    assert_eq!(ppu.scanline, 240);
    assert_eq!(ppu.nmi_interrupt, None);
    ppu.tick(255);
    ppu.tick(86);
    assert_eq!(ppu.scanline, 241);
    assert!(ppu.register.status.vblank_started);
    assert_eq!(ppu.poll_nmi_interrupt(), Some(1));
    assert_eq!(ppu.poll_nmi_interrupt(), None);
    for _ in 241..261 {
        assert!(!ppu.tick(255));
        assert!(!ppu.tick(86));
    }
    assert!(!ppu.tick(255));
    assert!(ppu.tick(86));
    assert_eq!(ppu.scanline, 0);
    assert!(!ppu.register.status.vblank_started);
}

#[test]
fn enabling_nmi_during_vblank_raises_it() {
    let mut ppu = Ppu::new_empty();
    ppu.register.status.vblank_started = true;
    ppu.write_to_ctrl(0x00);
    assert_eq!(ppu.nmi_interrupt, None);
    ppu.write_to_ctrl(0x80);
    assert_eq!(ppu.nmi_interrupt, Some(1));
}

#[test]
fn control_register_fields() {
    let c = ControlRegister::from_byte(0b1011_1110);
    assert_eq!(c.nametable_address(), 0x2800);
    assert_eq!(c.vram_address_increment(), 32);
    assert_eq!(c.sprite_pattern_address(), 0x1000);
    assert_eq!(c.background_pattern_address(), 0x1000);
    assert_eq!(c.sprite_size(), 16);
    assert_eq!(c.master_slave_select(), 0);
    assert!(c.generate_vblank_nmi());
    assert_eq!(c.to_byte(), 0b1011_1110);
    let z = ControlRegister::new();
    assert_eq!(z.nametable_address(), 0x2000);
    assert_eq!(z.vram_address_increment(), 1);
    assert_eq!(z.sprite_size(), 8);
    assert_eq!(ControlRegister::from_byte(0x03).nametable_address(), 0x2C00);
    assert_eq!(ControlRegister::from_byte(0x40).master_slave_select(), 1);
}

#[test]
fn mask_emphasis() {
    let m = MaskRegister::from_byte(0b1010_0000);
    assert_eq!(m.emphasise(), vec![Color::Red, Color::Blue]);
    assert!(MaskRegister::new().emphasise().is_empty());
    let mut m = MaskRegister::new();
    m.update(0xFF);
    assert_eq!(m.emphasise(), vec![Color::Red, Color::Green, Color::Blue]);
    assert_eq!(m.bits(), 0xFF);
}

#[test]
fn status_register_snapshot() {
    let mut s = StatusRegister::new();
    s.update(0xE0);
    assert_eq!(s.snapshot(), 0xE0);
    s.reset_vblank_status();
    assert_eq!(s.snapshot(), 0x60);
}

#[test]
fn scroll_register_pairs() {
    let mut s = ScrollRegister::new();
    s.write(3);
    s.write(4);
    s.write(5);
    assert_eq!(s.scroll_x, 5);
    assert_eq!(s.scroll_y, 4);
    s.reset_latch();
    s.write(6);
    assert_eq!(s.scroll_x, 6);
}

#[test]
fn four_screen_upper_tables_lie_outside() {
    let mut ppu = Ppu::new(vec![0; 0x2000], Mirror::FourScreen);
    ppu.write_to_ppu_addr(0x24);
    ppu.write_to_ppu_addr(0x01);
    ppu.write_to_data(0x5D);
    assert_eq!(ppu.vram[0x401], 0x5D);
    ppu.write_to_ppu_addr(0x28);
    ppu.write_to_ppu_addr(0x01);
    ppu.write_to_data(0x6E);
    assert!(ppu.vram.iter().all(|b| *b != 0x6E));
    ppu.write_to_ppu_addr(0x28);
    ppu.write_to_ppu_addr(0x01);
    ppu.read_data();
    assert_eq!(ppu.read_data(), 0);
}
