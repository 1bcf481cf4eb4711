use nes_emu::addressable::{pack_u16, unpack_u16, Readable, ReadableMut, Writable};
use nes_emu::bus::{address_translation, Bus, BusBuilder, Device};
use nes_emu::joypad::Joypad;
use nes_emu::memory::Memory;
use nes_emu::ppu::Ppu;
use nes_emu::rom::test_rom;
use nes_emu::status::StatusFlagRegister;

#[test]
fn ram_is_mirrored_four_times() {
    let mut bus = Bus::new(test_rom());
    for addr in 0x0000u16..0x0800 {
        let k = (addr % 251) as u8 ^ 0x5A;
        bus.write(addr, k);
        assert_eq!(bus.read(addr + 0x0800), k);
        assert_eq!(bus.read(addr + 0x1000), k);
        assert_eq!(bus.read(addr + 0x1800), k);
    }
}

#[test]
fn ram_word_round_trip() {
    let mut bus = Bus::new(test_rom());
    bus.write_u16(0x07FF, 0xBEEF);
    assert_eq!(bus.read_u16(0x07FF), 0xBEEF);
    // the high byte wrapped onto the start of RAM
    assert_eq!(bus.read(0x07FF), 0xEF);
    assert_eq!(bus.read(0x0000), 0xBE);
    for (addr, v) in [(0x0000u16, 0x1234u16), (0x1FFE, 0x00FF), (0x0123, 0xFF00)] {
        bus.write_u16(addr, v);
        assert_eq!(bus.read_u16(addr), v);
    }
}

#[test]
fn decode_table() {
    assert_eq!(address_translation(0x1ABC), Device::Ram(0x02BC));
    assert_eq!(address_translation(0x3FFF), Device::Ppu(7));
    assert_eq!(address_translation(0x200A), Device::Ppu(2));
    assert_eq!(address_translation(0x4015), Device::Apu(0x15));
    assert_eq!(address_translation(0x4016), Device::JoypadP1(0x4016));
    assert_eq!(address_translation(0x4017), Device::JoypadP2(0x4017));
    assert_eq!(address_translation(0x5000), Device::Unknown);
    assert_eq!(address_translation(0x6001), Device::Sram(1));
    assert_eq!(address_translation(0xC000), Device::Rom(0x4000));
}

#[test]
fn unmapped_and_rom_accesses() {
    let mut bus = Bus::new(test_rom());
    bus.write(0x5000, 9);
    assert_eq!(bus.read(0x5000), 0);
    assert_eq!(bus.read(0x8000), 1);
    bus.write(0x8000, 9);
    assert_eq!(bus.read(0x8000), 1);
    bus.write(0x6005, 0x44);
    assert_eq!(bus.read(0x6005), 0x44);
    assert_eq!(bus.read(0x4016), 0);
}

#[test]
fn ppu_registers_through_the_bus() {
    let mut bus = Bus::new(test_rom());
    bus.ppu.register.status.vblank_started = true;
    assert_eq!(bus.read(0x2002) & 0x80, 0x80);
    assert_eq!(bus.read(0x3FFA) & 0x80, 0);
    bus.write(0x2006, 0x20);
    bus.write(0x2006, 0x10);
    bus.write(0x2007, 0xAB);
    bus.write(0x2006, 0x20);
    bus.write(0x2006, 0x10);
    bus.read(0x2007);
    assert_eq!(bus.read(0x2007), 0xAB);
    assert_eq!(bus.ppu.register.address.get(), 0x2012);
    assert_eq!(bus.read(0x2000), 0);
}

#[test]
fn oam_dma_copies_a_page() {
    let mut bus = Bus::new(test_rom());
    for i in 0..256u16 {
        bus.write(0x0200 + i, i as u8);
    }
    bus.write(0x2003, 0x00);
    bus.write(0x4014, 0x02);
    for i in 0..256usize {
        assert_eq!(bus.ppu.oam_data[i], i as u8);
    }
}

#[test]
fn joypad_shift_register() {
    let mut bus = Bus::new(test_rom());
    let mut pad = Joypad::new();
    pad.button_a = true;
    pad.start = true;
    pad.right = true;
    bus.joypad_p1 = Some(pad);
    bus.write(0x4016, 1);
    assert_eq!(bus.read(0x4016), 1);
    assert_eq!(bus.read(0x4016), 1);
    bus.write(0x4016, 0);
    let bits: Vec<u8> = (0..10).map(|_| bus.read(0x4016)).collect();
    assert_eq!(bits, vec![1, 0, 0, 1, 0, 0, 0, 1, 1, 1]);
}

#[test]
fn builder_reports_missing_devices() {
    match BusBuilder::new().build() {
        Ok(_) => panic!("built without devices"),
        Err(e) => assert_eq!(e, "No ram"),
    }
    match BusBuilder::new().ram(Memory::new(0x800)).build() {
        Ok(_) => panic!("built without program memory"),
        Err(e) => assert_eq!(e, "No rom"),
    }
    match BusBuilder::new().ram(Memory::new(0x800)).rom(test_rom()).build() {
        Ok(_) => panic!("built without picture unit"),
        Err(e) => assert_eq!(e, "No ppu"),
    }
    let mut bare = BusBuilder::new()
        .ram(Memory::new(0x800))
        .rom(test_rom())
        .ppu(Ppu::new_empty())
        .build()
        .unwrap();
    assert!(bare.apu.is_none());
    bare.write(0x4000, 0x3F);
    assert_eq!(bare.read(0x4000), 0);
    let mut bus = BusBuilder::new()
        .ram(Memory::new(0x800))
        .rom(test_rom())
        .ppu(Ppu::new_empty())
        .apu(Memory::new(0x16))
        .joypad_p2(Joypad::new())
        .build()
        .unwrap();
    assert_eq!(bus.sram.len(), 0x2000);
    bus.write(0x7FFF, 3);
    assert_eq!(bus.read(0x7FFF), 3);
    bus.write(0x4003, 0x3F);
    assert_eq!(bus.read(0x4003), 0x3F);
    assert!(bus.joypad_p1.is_none());
    assert!(bus.joypad_p2.is_some());
}

#[test]
fn memory_out_of_range() {
    let mut m = Memory::new(4);
    m.write(3, 8);
    m.write(4, 9);
    assert_eq!(m.read(3), 8);
    assert_eq!(m.read(4), 0);
    m.write_u16(1, 0xA1B2);
    assert_eq!(m.read_u16(1), 0xA1B2);
    assert_eq!(m.read(1), 0xB2);
}

#[test]
fn word_packing() {
    assert_eq!(pack_u16(0x12, 0x34), 0x1234);
    assert_eq!(unpack_u16(0xABCD), (0xAB, 0xCD));
}

#[test]
fn status_byte_round_trip() {
    for b in 0..=255u8 {
        assert_eq!(StatusFlagRegister::from_byte(b).to_byte(), b);
    }
    let s = StatusFlagRegister::from_byte(0b1000_0011);
    assert!(s.carry && s.zero && s.negative);
    assert!(!s.overflow && !s.unused && !s.break_command);
}
