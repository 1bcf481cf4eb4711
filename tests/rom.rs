use nes_emu::addressable::Readable;
use nes_emu::rom::{create_rom, test_rom, Mirror, Rom, TestRom, CHR_ROM_PAGE_SIZE, PRG_ROM_PAGE_SIZE};

#[test]
fn test() {
    let test_rom = create_rom(TestRom {
        header: vec![
            0x4E, 0x45, 0x53, 0x1A, 0x02, 0x01, 0x31, 00, 00, 00, 00, 00, 00, 00, 00, 00,
        ],
        trainer: None,
        pgp_rom: vec![1; 2 * PRG_ROM_PAGE_SIZE],
        chr_rom: vec![2; 1 * CHR_ROM_PAGE_SIZE],
    });

    let rom: Rom = Rom::new(&test_rom).unwrap();

    assert_eq!(rom.chr_rom, vec!(2; 1 * CHR_ROM_PAGE_SIZE));
    assert_eq!(rom.prg_rom, vec!(1; 2 * PRG_ROM_PAGE_SIZE));
    assert_eq!(rom.mapper, 3);
    assert_eq!(rom.mirror, Mirror::Vertical);
}

#[test]
fn test_with_trainer() {
    let test_rom = create_rom(TestRom {
        header: vec![
            0x4E,
            0x45,
            0x53,
            0x1A,
            0x02,
            0x01,
            0x31 | 0b100,
            00,
            00,
            00,
            00,
            00,
            00,
            00,
            00,
            00,
        ],
        trainer: Some(vec![0; 512]),
        pgp_rom: vec![1; 2 * PRG_ROM_PAGE_SIZE],
        chr_rom: vec![2; 1 * CHR_ROM_PAGE_SIZE],
    });

    let rom: Rom = Rom::new(&test_rom).unwrap();

    assert_eq!(rom.chr_rom, vec!(2; 1 * CHR_ROM_PAGE_SIZE));
    assert_eq!(rom.prg_rom, vec!(1; 2 * PRG_ROM_PAGE_SIZE));
    assert_eq!(rom.mapper, 3);
    assert_eq!(rom.mirror, Mirror::Vertical);
}

#[test]
fn test_nes2_is_not_supported() {
    let test_rom = create_rom(TestRom {
        header: vec![
            0x4E, 0x45, 0x53, 0x1A, 0x01, 0x01, 0x31, 0x8, 00, 00, 00, 00, 00, 00, 00, 00,
        ],
        trainer: None,
        pgp_rom: vec![1; 1 * PRG_ROM_PAGE_SIZE],
        chr_rom: vec![2; 1 * CHR_ROM_PAGE_SIZE],
    });
    let rom = Rom::new(&test_rom);
    match rom {
        Result::Ok(_) => assert!(false, "should not load rom"),
        Result::Err(str) => assert_eq!(str, "NES2.0 format is not supported"),
    }
}

fn header(flags6: u8, flags7: u8, prg: u8, chr: u8) -> Vec<u8> {
    vec![0x4E, 0x45, 0x53, 0x1A, prg, chr, flags6, flags7, 0, 0, 0, 0, 0, 0, 0, 0]
}

#[test]
fn ines_header_fields() {
    let file = create_rom(TestRom {
        header: header(0x31, 0x00, 2, 1),
        trainer: None,
        pgp_rom: vec![1; 2 * PRG_ROM_PAGE_SIZE],
        chr_rom: vec![2; CHR_ROM_PAGE_SIZE],
    });
    let rom = Rom::new(&file).unwrap();
    assert_eq!(rom.mapper, 3);
    assert_eq!(rom.mirror, Mirror::Vertical);
    assert_eq!(rom.prg_rom.len(), 0x8000);
    assert_eq!(rom.chr_rom.len(), 0x2000);
    assert!(!rom.has_battery_backed);
}

#[test]
fn mapper_high_nibble_battery_and_four_screen() {
    let file = create_rom(TestRom {
        header: header(0x5A, 0xA0, 1, 0),
        trainer: None,
        pgp_rom: vec![7; PRG_ROM_PAGE_SIZE],
        chr_rom: vec![],
    });
    let rom = Rom::new(&file).unwrap();
    assert_eq!(rom.mapper, 0xA5);
    assert_eq!(rom.mirror, Mirror::FourScreen);
    assert!(rom.has_battery_backed);
    assert_eq!(rom.chr_rom.len(), 0);
}

#[test]
fn horizontal_mirroring() {
    let file = create_rom(TestRom {
        header: header(0x00, 0x00, 1, 1),
        trainer: None,
        pgp_rom: vec![7; PRG_ROM_PAGE_SIZE],
        chr_rom: vec![8; CHR_ROM_PAGE_SIZE],
    });
    let rom = Rom::new(&file).unwrap();
    assert_eq!(rom.mirror, Mirror::Horizontal);
    assert_eq!(rom.mapper, 0);
}

#[test]
fn trainer_is_skipped() {
    let mut prg = vec![0; PRG_ROM_PAGE_SIZE];
    prg[0] = 0xAB;
    let file = create_rom(TestRom {
        header: header(0x04, 0x00, 1, 1),
        trainer: Some(vec![0xEE; 512]),
        pgp_rom: prg,
        chr_rom: vec![0x11; CHR_ROM_PAGE_SIZE],
    });
    let rom = Rom::new(&file).unwrap();
    assert_eq!(rom.prg_rom[0], 0xAB);
    assert_eq!(rom.chr_rom[0], 0x11);
}

#[test]
fn bad_magic_is_rejected() {
    let mut file = header(0, 0, 1, 1);
    file[3] = 0x1B;
    file.extend(vec![0; PRG_ROM_PAGE_SIZE + CHR_ROM_PAGE_SIZE]);
    match Rom::new(&file) {
        Ok(_) => panic!("loaded a file without the iNES magic"),
        Err(e) => assert_eq!(e, "Invalid NES file"),
    }
    match Rom::new(&[0x4E, 0x45]) {
        Ok(_) => panic!("loaded two bytes"),
        Err(e) => assert_eq!(e, "Invalid NES file"),
    }
}

#[test]
fn truncated_file_is_rejected() {
    let mut file = header(0, 0, 2, 1);
    file.extend(vec![0; 2 * PRG_ROM_PAGE_SIZE]);
    match Rom::new(&file) {
        Ok(_) => panic!("loaded a file without its character bank"),
        Err(e) => assert_eq!(e, "Truncated nes file"),
    }
    match Rom::new(&[0x4E, 0x45, 0x53, 0x1A, 1, 1]) {
        Ok(_) => panic!("loaded a partial header"),
        Err(e) => assert_eq!(e, "Truncated nes file"),
    }
}

#[test]
fn single_bank_is_mirrored() {
    let mut prg = vec![0; PRG_ROM_PAGE_SIZE];
    prg[0x10] = 0x5C;
    let file = create_rom(TestRom {
        header: header(0, 0, 1, 0),
        trainer: None,
        pgp_rom: prg,
        chr_rom: vec![],
    });
    let rom = Rom::new(&file).unwrap();
    assert_eq!(rom.read(0x0010), 0x5C);
    assert_eq!(rom.read(0x4010), 0x5C);
}

#[test]
fn fixture_rom() {
    let rom = test_rom();
    assert_eq!(rom.prg_rom, vec![1; 0x8000]);
    assert_eq!(rom.chr_rom, vec![2; 0x2000]);
    assert_eq!(rom.mapper, 3);
    assert_eq!(rom.mirror, Mirror::Vertical);
    assert_eq!(rom.read(0x7FFF), 1);
}
