use nes_emu::addressable::{ReadableMut, Writable};
use nes_emu::bus::Bus;
use nes_emu::cpu::{CpuError, CPU};
use nes_emu::rom::{create_rom, test_rom, Rom, TestRom, CHR_ROM_PAGE_SIZE, PRG_ROM_PAGE_SIZE};
use nes_emu::status::StatusFlagRegister;

fn cpu_with(program: &[u8]) -> CPU {
    let mut cpu = CPU::new(Bus::new(test_rom()));
    for (i, b) in program.iter().enumerate() {
        cpu.bus.write(0x0600 + i as u16, *b);
    }
    cpu.register.pc = 0x0600;
    cpu
}

/// Runs instructions up to and including the first BRK.
fn run_to_brk(cpu: &mut CPU) {
    for _ in 0..1000 {
        let op = cpu.bus.read(cpu.register.pc);
        cpu.step_instruction().unwrap();
        if op == 0x00 {
            return;
        }
    }
    panic!("no BRK reached");
}

/// A cartridge of one program bank with the three vectors set.
fn rom_with_vectors(nmi: u16, reset: u16, irq: u16) -> Rom {
    let mut prg = vec![0xEA; PRG_ROM_PAGE_SIZE];
    for (at, v) in [(0x3FFA, nmi), (0x3FFC, reset), (0x3FFE, irq)] {
        prg[at] = (v & 0xFF) as u8;
        prg[at + 1] = (v >> 8) as u8;
    }
    let file = create_rom(TestRom {
        header: vec![0x4E, 0x45, 0x53, 0x1A, 1, 1, 0, 0, 0, 0, 0, 0, 0, 0, 0, 0],
        trainer: None,
        pgp_rom: prg,
        chr_rom: vec![0; CHR_ROM_PAGE_SIZE],
    });
    Rom::new(&file).unwrap()
}

#[test]
fn lda_immediate_then_brk() {
    let mut cpu = cpu_with(&[0xA9, 0x05, 0x00]);
    run_to_brk(&mut cpu);
    assert_eq!(cpu.register.a, 0x05);
    assert!(!cpu.register.status.zero);
    assert!(!cpu.register.status.negative);
    // BRK pushed the address two past its opcode, then the status, and jumped through $FFFE.
    assert_eq!(cpu.bus.read(0x01FD), 0x06);
    assert_eq!(cpu.bus.read(0x01FC), 0x04);
    assert_eq!(cpu.bus.read(0x01FB) & 0x30, 0x30);
    assert_eq!(cpu.register.sp, 0xFA);
    assert_eq!(cpu.register.pc, 0x0101);
    assert!(cpu.register.status.interrupt_disable);
}

#[test]
fn lda_zero_sets_zero_flag() {
    let mut cpu = cpu_with(&[0xA9, 0x00, 0x00]);
    run_to_brk(&mut cpu);
    assert_eq!(cpu.register.a, 0x00);
    assert!(cpu.register.status.zero);
    assert!(!cpu.register.status.negative);
}

#[test]
fn lda_tax_inx_wraps() {
    let mut cpu = cpu_with(&[0xA9, 0xFF, 0xAA, 0xE8, 0x00]);
    run_to_brk(&mut cpu);
    assert_eq!(cpu.register.a, 0xFF);
    assert_eq!(cpu.register.x, 0x00);
    assert!(cpu.register.status.zero);
    assert!(!cpu.register.status.negative);
}

#[test]
fn ldx_inx_overflow() {
    let mut cpu = cpu_with(&[0xA2, 0xFF, 0xE8, 0x00]);
    run_to_brk(&mut cpu);
    assert_eq!(cpu.register.x, 0x00);
    assert!(cpu.register.status.zero);
}

#[test]
fn adc_without_carry() {
    let mut cpu = cpu_with(&[0x18, 0xA9, 0x10, 0x69, 0x20, 0x00]);
    run_to_brk(&mut cpu);
    assert_eq!(cpu.register.a, 0x30);
    assert!(!cpu.register.status.carry);
    assert!(!cpu.register.status.overflow);
}

#[test]
fn sbc_with_borrow() {
    let mut cpu = cpu_with(&[0x38, 0xA9, 0x50, 0xE9, 0xF0, 0x00]);
    run_to_brk(&mut cpu);
    assert_eq!(cpu.register.a, 0x60);
    assert!(!cpu.register.status.carry);
}

#[test]
fn adc_signed_overflow_and_carry() {
    let mut cpu = cpu_with(&[0x18, 0xA9, 0x50, 0x69, 0x50, 0x00]);
    run_to_brk(&mut cpu);
    assert_eq!(cpu.register.a, 0xA0);
    assert!(cpu.register.status.overflow);
    assert!(!cpu.register.status.carry);
    assert!(cpu.register.status.negative);

    let mut cpu = cpu_with(&[0x38, 0xA9, 0xFF, 0x69, 0x01, 0x00]);
    run_to_brk(&mut cpu);
    assert_eq!(cpu.register.a, 0x01);
    assert!(cpu.register.status.carry);
    assert!(!cpu.register.status.overflow);
}

#[test]
fn store_to_ram() {
    let mut cpu = cpu_with(&[0xA9, 0x42, 0x8D, 0x00, 0x02, 0x00]);
    run_to_brk(&mut cpu);
    assert_eq!(cpu.bus.read(0x0200), 0x42);
}

#[test]
fn compare_sets_carry_without_borrow() {
    let mut cpu = cpu_with(&[0xA9, 0x10, 0xC9, 0x20, 0x00]);
    run_to_brk(&mut cpu);
    assert!(!cpu.register.status.carry);
    assert!(cpu.register.status.negative);
    assert!(!cpu.register.status.zero);

    let mut cpu = cpu_with(&[0xA2, 0x20, 0xE0, 0x20, 0x00]);
    run_to_brk(&mut cpu);
    assert!(cpu.register.status.carry);
    assert!(cpu.register.status.zero);
}

#[test]
fn stack_push_pull_round_trip() {
    // LDA #1 PHA LDA #2 PHA LDA #3 PHA; PLA TAX PLA TAY PLA; BRK
    let mut cpu = cpu_with(&[
        0xA9, 0x01, 0x48, 0xA9, 0x02, 0x48, 0xA9, 0x03, 0x48, 0x68, 0xAA, 0x68, 0xA8, 0x68, 0x00,
    ]);
    let sp = cpu.register.sp;
    for _ in 0..11 {
        cpu.step_instruction().unwrap();
    }
    assert_eq!(cpu.register.x, 3);
    assert_eq!(cpu.register.y, 2);
    assert_eq!(cpu.register.a, 1);
    assert_eq!(cpu.register.sp, sp);
}

#[test]
fn php_plp_status_bits() {
    // SEC PHP CLC PLP BRK
    let mut cpu = cpu_with(&[0x38, 0x08, 0x18, 0x28, 0x00]);
    cpu.register.status = StatusFlagRegister::from_byte(0x00);
    for _ in 0..4 {
        cpu.step_instruction().unwrap();
    }
    assert_eq!(cpu.bus.read(0x01FD), 0x31);
    assert!(cpu.register.status.carry);
    assert!(!cpu.register.status.break_command);
    assert!(cpu.register.status.unused);
}

#[test]
fn jsr_and_rts() {
    // JSR $0606; BRK; NOP; NOP; LDX #$07; RTS
    let mut cpu = cpu_with(&[0x20, 0x06, 0x06, 0x00, 0xEA, 0xEA, 0xA2, 0x07, 0x60]);
    cpu.step_instruction().unwrap();
    assert_eq!(cpu.register.pc, 0x0606);
    assert_eq!(cpu.bus.read(0x01FD), 0x06);
    assert_eq!(cpu.bus.read(0x01FC), 0x02);
    cpu.step_instruction().unwrap();
    cpu.step_instruction().unwrap();
    assert_eq!(cpu.register.pc, 0x0603);
    assert_eq!(cpu.register.x, 0x07);
}

#[test]
fn jmp_indirect_page_wrap() {
    let mut cpu = cpu_with(&[0x6C, 0xFF, 0x02]);
    cpu.bus.write(0x02FF, 0x34);
    cpu.bus.write(0x0200, 0x12);
    cpu.bus.write(0x0300, 0x99);
    cpu.step_instruction().unwrap();
    assert_eq!(cpu.register.pc, 0x1234);
}

#[test]
fn branches_forward_and_back() {
    // LDX #3; loop: DEX; BNE loop; BRK
    let mut cpu = cpu_with(&[0xA2, 0x03, 0xCA, 0xD0, 0xFD, 0x00]);
    run_to_brk(&mut cpu);
    assert_eq!(cpu.register.x, 0);
    assert!(cpu.register.status.zero);

    // BEQ skips when Zero is clear
    let mut cpu = cpu_with(&[0xA9, 0x01, 0xF0, 0x02, 0xA9, 0x09, 0x00]);
    run_to_brk(&mut cpu);
    assert_eq!(cpu.register.a, 0x09);
}

#[test]
fn shifts_and_rotates() {
    // LDA #$81 ASL A -> $02 C=1; ROL A -> $05 C=0; LSR A -> $02 C=1; ROR A -> $81 C=0
    let mut cpu = cpu_with(&[0xA9, 0x81, 0x0A]);
    cpu.step_instruction().unwrap();
    cpu.step_instruction().unwrap();
    assert_eq!(cpu.register.a, 0x02);
    assert!(cpu.register.status.carry);
    let mut cpu = cpu_with(&[0x38, 0xA9, 0x82, 0x2A, 0x4A, 0x6A, 0x00]);
    cpu.step_instruction().unwrap();
    cpu.step_instruction().unwrap();
    cpu.step_instruction().unwrap();
    assert_eq!(cpu.register.a, 0x05);
    assert!(cpu.register.status.carry);
    cpu.step_instruction().unwrap();
    assert_eq!(cpu.register.a, 0x02);
    assert!(cpu.register.status.carry);
    cpu.step_instruction().unwrap();
    assert_eq!(cpu.register.a, 0x81);
    assert!(!cpu.register.status.carry);
    assert!(cpu.register.status.negative);
}

#[test]
fn memory_increment_and_bit() {
    // INC $10; INC $10; DEC $11; LDA #$C0; BIT $12
    let mut cpu = cpu_with(&[0xE6, 0x10, 0xE6, 0x10, 0xC6, 0x11, 0xA9, 0x01, 0x24, 0x12]);
    cpu.bus.write(0x0012, 0xC0);
    for _ in 0..5 {
        cpu.step_instruction().unwrap();
    }
    assert_eq!(cpu.bus.read(0x0010), 2);
    assert_eq!(cpu.bus.read(0x0011), 0xFF);
    assert!(cpu.register.status.zero);
    assert!(cpu.register.status.negative);
    assert!(cpu.register.status.overflow);
}

#[test]
fn indexed_and_indirect_addressing() {
    // LDX #$01; LDA $00F0,X ; STA ($20,X) ; LDY #$02; LDA ($30),Y
    let mut cpu = cpu_with(&[0xA2, 0x01, 0xBD, 0xF0, 0x00, 0x81, 0x20, 0xA0, 0x02, 0xB1, 0x30]);
    cpu.bus.write(0x00F1, 0x77);
    cpu.bus.write(0x0021, 0x00);
    cpu.bus.write(0x0022, 0x03);
    cpu.bus.write(0x0030, 0x10);
    cpu.bus.write(0x0031, 0x03);
    cpu.bus.write(0x0312, 0x55);
    for _ in 0..3 {
        cpu.step_instruction().unwrap();
    }
    assert_eq!(cpu.bus.read(0x0300), 0x77);
    cpu.step_instruction().unwrap();
    cpu.step_instruction().unwrap();
    assert_eq!(cpu.register.a, 0x55);
}

#[test]
fn zero_page_x_wraps() {
    let mut cpu = cpu_with(&[0xA2, 0x10, 0xB5, 0xF8]);
    cpu.bus.write(0x0008, 0x3C);
    cpu.step_instruction().unwrap();
    cpu.step_instruction().unwrap();
    assert_eq!(cpu.register.a, 0x3C);
}

#[test]
fn illegal_opcode_is_reported() {
    let mut cpu = cpu_with(&[0x02]);
    assert_eq!(cpu.step_instruction(), Err(CpuError::IllegalOpcode(0x02)));
}

#[test]
fn reset_loads_vector() {
    let mut cpu = CPU::new(Bus::new(rom_with_vectors(0x9000, 0x8123, 0xA000)));
    cpu.register.sp = 0x00;
    cpu.reset();
    assert_eq!(cpu.register.pc, 0x8123);
    assert_eq!(cpu.register.sp, 0xFD);
    assert_eq!(cpu.register.status.to_byte(), 0x24);
}

#[test]
fn nmi_is_served_before_next_instruction() {
    let mut cpu = CPU::new(Bus::new(rom_with_vectors(0x9000, 0x8000, 0xA000)));
    cpu.bus.write(0x0600, 0xEA);
    cpu.register.pc = 0x0600;
    cpu.register.status = StatusFlagRegister::from_byte(0x00);
    // enable the interrupt, then enter vertical blank
    cpu.bus.write(0x2000, 0x80);
    for _ in 0..241 {
        cpu.bus.ppu.tick(255);
        cpu.bus.ppu.tick(86);
    }
    assert_eq!(cpu.bus.ppu.nmi_interrupt, Some(1));
    cpu.step_instruction().unwrap();
    // the handler at $9000 (a NOP of the bank) ran one instruction
    assert_eq!(cpu.register.pc, 0x9001);
    assert!(cpu.register.status.interrupt_disable);
    assert_eq!(cpu.bus.read(0x01FD), 0x06);
    assert_eq!(cpu.bus.read(0x01FC), 0x00);
    assert_eq!(cpu.bus.read(0x01FB), 0x20);
    assert_eq!(cpu.bus.ppu.nmi_interrupt, None);
}

#[test]
fn frame_completes() {
    // JMP $0600 forever
    let mut cpu = cpu_with(&[0x4C, 0x00, 0x06]);
    assert_eq!(cpu.step_frame(), Ok(()));
    assert_eq!(cpu.bus.ppu.scanline, 0);
    assert_eq!(cpu.step_frame(), Ok(()));
}

#[test]
fn frame_stops_on_illegal_opcode() {
    let mut cpu = cpu_with(&[0xEA, 0xEA, 0xFF]);
    assert_eq!(cpu.step_frame(), Err(CpuError::IllegalOpcode(0xFF)));
}

#[test]
fn irq_respects_interrupt_disable() {
    let mut cpu = CPU::new(Bus::new(rom_with_vectors(0x9000, 0x8000, 0xA000)));
    cpu.register.pc = 0x0600;
    cpu.register.status = StatusFlagRegister::from_byte(0x04);
    assert!(!cpu.irq());
    assert_eq!(cpu.register.pc, 0x0600);
    cpu.register.status = StatusFlagRegister::from_byte(0x01);
    assert!(cpu.irq());
    assert_eq!(cpu.register.pc, 0xA000);
    assert!(cpu.register.status.interrupt_disable);
    assert_eq!(cpu.bus.read(0x01FB), 0x21);
}

#[test]
fn status_conversions() {
    let s: StatusFlagRegister = 0xC3u8.into();
    assert!(s.carry && s.zero && s.overflow && s.negative);
    let b: u8 = s.into();
    assert_eq!(b, 0xC3);
    assert_eq!(StatusFlagRegister::default().to_byte(), 0x24);
}

#[test]
fn frame_with_hook_sees_every_instruction() {
    let mut traced = CPU::new(Bus::new(test_rom()));
    traced.bus.write(0x0600, 0x4C);
    traced.bus.write(0x0601, 0x00);
    traced.bus.write(0x0602, 0x06);
    traced.register.pc = 0x0600;
    let count = std::cell::Cell::new(0u32);
    let pcs = std::cell::RefCell::new(Vec::new());
    let hook = |c: &CPU| {
        count.set(count.get() + 1);
        pcs.borrow_mut().push(c.register.pc);
    };
    assert_eq!(traced.step_frame_with_hook(&hook), Ok(()));
    // JMP takes 3 cycles, 9 dots: a frame of 262 * 341 dots needs 9927 of them
    assert_eq!(count.get(), 9927);
    assert!(pcs.borrow().iter().all(|pc| *pc == 0x0600));
    let mut plain = cpu_with(&[0x4C, 0x00, 0x06]);
    assert_eq!(plain.step_frame(), Ok(()));
    assert_eq!(plain.bus.ppu.cycles, traced.bus.ppu.cycles);
}
