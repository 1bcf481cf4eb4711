use vstd::prelude::*;

use crate::addressable::{next_addr, pack_u16, unpack_u16, word, ReadableMut, Writable};
use crate::bus::{
    frame_clock, lemma_read_keeps_clock, lemma_write_keeps_clock, spec_bus_read, spec_bus_read_u16,
    spec_bus_write, Bus, BusState,
};
use crate::instructions::{spec_execute, Instruction};
use crate::opcodes::{decode, spec_decode};
use crate::ppu::{spec_tick, PpuState};
use crate::status::StatusFlagRegister;

verus! {

/// How an instruction finds its operand; the program counter points just past the opcode.
#[derive(Debug, Clone, Copy, PartialEq, Eq, Structural)]
pub enum AddressingMode {
    /// The operand is the byte after the opcode.
    Immediate,
    /// An address in page zero.
    ZeroPage,
    /// A page-zero address plus X, wrapping within page zero.
    ZeroPageX,
    /// A page-zero address plus Y, wrapping within page zero.
    ZeroPageY,
    /// A full address.
    Absolute,
    /// A full address plus X.
    AbsoluteX,
    /// A full address plus Y.
    AbsoluteY,
    /// The address stored at a full address, with the page-wrap quirk of `JMP (ind)`.
    Indirect,
    /// The address stored at a page-zero address plus X.
    IndirectX,
    /// The address stored at a page-zero address, plus Y.
    IndirectY,
    /// A signed offset from the address after the operand.
    Relative,
    /// The instruction works on the accumulator.
    Accumulator,
    /// No operand.
    NoneAddressing,
}

/// The processor's registers.
#[derive(Debug, Clone, Copy, PartialEq, Eq, Structural)]
pub struct Register {
    pub a: u8,
    pub x: u8,
    pub y: u8,
    /// Next free slot of the stack in page $01.
    pub sp: u8,
    pub pc: u16,
    pub status: StatusFlagRegister,
}

/// The processor, with the bus it drives.
pub struct CPU {
    pub register: Register,
    pub bus: Bus,
}

/// The processor and its bus as plain values.
pub struct CpuState {
    pub reg: Register,
    pub bus: BusState,
}

impl View for CPU {
    type V = CpuState;

    open spec fn view(&self) -> CpuState {
        CpuState { reg: self.register, bus: self.bus@ }
    }
}

/// First address of the stack page.
pub const STACK_START: u16 = 0x0100;

/// Stack pointer after reset.
pub const STACK_RESET: u8 = 0xFD;

/// Status after reset: interrupts disabled, bit 5 set.
pub const STATUS_RESET: u8 = 0x24;

/// Where the NMI handler's address is stored.
pub const NMI_VECTOR: u16 = 0xFFFA;

/// Where the reset handler's address is stored.
pub const RESET_VECTOR: u16 = 0xFFFC;

/// Where the BRK handler's address is stored.
pub const IRQ_VECTOR: u16 = 0xFFFE;

/// `a + b` on 16 bits, wrapping.
pub open spec fn add16(a: int, b: int) -> u16 {
    ((a + b) % 0x10000) as u16
}

/// `a + b` on 8 bits, wrapping.
pub open spec fn add8(a: int, b: int) -> u8 {
    ((a + b) % 0x100) as u8
}

/// `a - b` on 8 bits, wrapping.
pub open spec fn sub8(a: int, b: int) -> u8 {
    ((a - b + 0x100) % 0x100) as u8
}

/// A read through the bus, with its effect on the machine.
pub open spec fn rd(s: CpuState, addr: u16) -> (u8, CpuState) {
    let (v, b) = spec_bus_read(s.bus, addr);
    (v, CpuState { bus: b, ..s })
}

/// A little-endian word read through the bus.
pub open spec fn rd16(s: CpuState, addr: u16) -> (u16, CpuState) {
    let (v, b) = spec_bus_read_u16(s.bus, addr);
    (v, CpuState { bus: b, ..s })
}

/// A write through the bus.
pub open spec fn wr(s: CpuState, addr: u16, v: u8) -> CpuState {
    CpuState { bus: spec_bus_write(s.bus, addr, v), ..s }
}

/// The registers with Zero and Negative set from `v`.
pub open spec fn with_zn(r: Register, v: u8) -> Register {
    Register { status: StatusFlagRegister { zero: v == 0, negative: v >= 0x80, ..r.status }, ..r }
}

/// The machine with new registers.
pub open spec fn with_reg(s: CpuState, r: Register) -> CpuState {
    CpuState { reg: r, ..s }
}

/// The 16-bit value of a signed 8-bit offset.
pub open spec fn sign_extend(off: u8) -> int {
    if off >= 0x80 {
        off - 0x100
    } else {
        off as int
    }
}

/// The operand address of `mode` and the machine after the reads that find it.
#[verifier::opaque]
pub open spec fn operand_address(s: CpuState, mode: AddressingMode) -> (u16, CpuState) {
    let pc = s.reg.pc;
    let x = s.reg.x;
    let y = s.reg.y;
    match mode {
        AddressingMode::Immediate => (pc, s),
        AddressingMode::ZeroPage => {
            let (v, s1) = rd(s, pc);
            (v as u16, s1)
        },
        AddressingMode::ZeroPageX => {
            let (v, s1) = rd(s, pc);
            (add8(v as int, x as int) as u16, s1)
        },
        AddressingMode::ZeroPageY => {
            let (v, s1) = rd(s, pc);
            (add8(v as int, y as int) as u16, s1)
        },
        AddressingMode::Absolute => rd16(s, pc),
        AddressingMode::AbsoluteX => {
            let (base, s1) = rd16(s, pc);
            (add16(base as int, x as int), s1)
        },
        AddressingMode::AbsoluteY => {
            let (base, s1) = rd16(s, pc);
            (add16(base as int, y as int), s1)
        },
        AddressingMode::Indirect => {
            let (ptr, s1) = rd16(s, pc);
            let (low, s2) = rd(s1, ptr);
            let (high, s3) = rd(s2, ((ptr / 256) * 256 + (ptr % 256 + 1) % 256) as u16);
            (word(low, high), s3)
        },
        AddressingMode::IndirectX => {
            let (base, s1) = rd(s, pc);
            let ptr = add8(base as int, x as int);
            let (low, s2) = rd(s1, ptr as u16);
            let (high, s3) = rd(s2, add8(ptr as int, 1) as u16);
            (word(low, high), s3)
        },
        AddressingMode::IndirectY => {
            let (ptr, s1) = rd(s, pc);
            let (low, s2) = rd(s1, ptr as u16);
            let (high, s3) = rd(s2, add8(ptr as int, 1) as u16);
            (add16(word(low, high) as int, y as int), s3)
        },
        AddressingMode::Relative => {
            let (off, s1) = rd(s, pc);
            (add16(pc + 1 + sign_extend(off), 0x10000), s1)
        },
        AddressingMode::Accumulator => (0, s),
        AddressingMode::NoneAddressing => (0, s),
    }
}

/// Operand bytes that follow the opcode.
pub open spec fn operand_len(mode: AddressingMode) -> u16 {
    match mode {
        AddressingMode::Absolute | AddressingMode::AbsoluteX | AddressingMode::AbsoluteY
        | AddressingMode::Indirect => 2,
        AddressingMode::Accumulator | AddressingMode::NoneAddressing => 0,
        _ => 1,
    }
}

/// A push: the byte goes to the free slot, then the pointer moves down.
pub open spec fn push(s: CpuState, v: u8) -> CpuState {
    let s1 = wr(s, (0x100 + s.reg.sp) as u16, v);
    with_reg(s1, Register { sp: sub8(s.reg.sp as int, 1), ..s1.reg })
}

/// A pop: the pointer moves up, then the byte there comes back.
pub open spec fn pop(s: CpuState) -> (u8, CpuState) {
    let sp = add8(s.reg.sp as int, 1);
    let (v, s1) = rd(with_reg(s, Register { sp: sp, ..s.reg }), (0x100 + sp) as u16);
    (v, s1)
}

/// A 16-bit push: high byte first.
pub open spec fn push16(s: CpuState, v: u16) -> CpuState {
    push(push(s, (v / 256) as u8), (v % 256) as u8)
}

/// A 16-bit pop: low byte first.
pub open spec fn pop16(s: CpuState) -> (u16, CpuState) {
    let (low, s1) = pop(s);
    let (high, s2) = pop(s1);
    (word(low, high), s2)
}

/// Why the processor stopped.
#[derive(Debug, Clone, Copy, PartialEq, Eq, Structural)]
pub enum CpuError {
    /// The opcode is not one of the official instructions.
    IllegalOpcode(u8),
}

/// An interrupt through `vector`: pushes the program counter and the status with Break
/// clear, disables interrupts and jumps to the address stored at the vector.
pub open spec fn spec_interrupt(s: CpuState, vector: u16) -> CpuState {
    let s1 = push16(s, s.reg.pc);
    let s2 = push(
        s1,
        StatusFlagRegister { break_command: false, unused: true, ..s1.reg.status }.spec_to_byte(),
    );
    let s3 = with_reg(
        s2,
        Register { status: StatusFlagRegister { interrupt_disable: true, ..s2.reg.status }, ..s2.reg },
    );
    let (target, s4) = rd16(s3, vector);
    with_reg(s4, Register { pc: target, ..s4.reg })
}

/// The non-maskable interrupt, through $FFFA.
pub open spec fn spec_nmi(s: CpuState) -> CpuState {
    spec_interrupt(s, 0xFFFA)
}

/// A maskable interrupt request: served through $FFFE unless interrupts are disabled.
pub open spec fn spec_irq(s: CpuState) -> (bool, CpuState) {
    if s.reg.status.interrupt_disable {
        (false, s)
    } else {
        (true, spec_interrupt(s, 0xFFFE))
    }
}

/// The picture unit advanced by `n` dots: whether a frame ended, and the machine after.
pub open spec fn tick_ppu(s: CpuState, n: u8) -> (bool, CpuState) {
    let (done, p) = spec_tick(s.bus.ppu, n);
    (done, CpuState { bus: BusState { ppu: p, ..s.bus }, ..s })
}

/// A pending interrupt request taken and served, with its seven cycles.
pub open spec fn spec_serve_nmi(s: CpuState) -> (bool, CpuState) {
    match s.bus.ppu.nmi_interrupt {
        Some(_) => tick_ppu(
            spec_nmi(
                CpuState {
                    bus: BusState { ppu: PpuState { nmi_interrupt: None, ..s.bus.ppu }, ..s.bus },
                    ..s
                },
            ),
            21,
        ),
        None => (false, s),
    }
}

/// One step: a pending interrupt is served, then one instruction is fetched, decoded,
/// executed, and the picture unit advanced by three dots per cycle. The result tells
/// whether a frame ended, or names an opcode that is not an instruction.
pub open spec fn spec_step(s: CpuState) -> (Result<bool, CpuError>, CpuState) {
    let (nmi_frame, s0) = spec_serve_nmi(s);
    let (op, s1) = rd(s0, s0.reg.pc);
    let s2 = with_reg(s1, Register { pc: add16(s0.reg.pc as int, 1), ..s1.reg });
    match spec_decode(op) {
        None => (Err(CpuError::IllegalOpcode(op)), s2),
        Some(o) => {
            let (addr, s3) = operand_address(s2, o.mode);
            let s4 = with_reg(s3, Register { pc: add16(s3.reg.pc as int, operand_len(o.mode) as int), ..s3.reg });
            let s5 = spec_execute(s4, o.instruction, o.mode, addr);
            let (done, s6) = tick_ppu(s5, (o.cycles * 3) as u8);
            (Ok(done || nmi_frame), s6)
        },
    }
}

/// How far the picture unit is into its frame, in dots.
pub open spec fn frame_pos(s: CpuState) -> int {
    s.bus.ppu.scanline * 341 + s.bus.ppu.cycles
}

proof fn lemma_operand_keeps_clock(s: CpuState, mode: AddressingMode)
    ensures
        frame_clock(operand_address(s, mode).1.bus) == frame_clock(s.bus),
{
    reveal(operand_address);
    broadcast use lemma_read_keeps_clock;

}

#[verifier::rlimit(50)]
proof fn lemma_execute_keeps_clock(s: CpuState, ins: Instruction, mode: AddressingMode, addr: u16)
    ensures
        frame_clock(spec_execute(s, ins, mode, addr).bus) == frame_clock(s.bus),
{
    reveal(spec_execute);
    broadcast use lemma_read_keeps_clock, lemma_write_keeps_clock;

    let c = frame_clock(s.bus);
    match ins {
        Instruction::Lda | Instruction::Ldx | Instruction::Ldy => {},
        Instruction::Sta | Instruction::Stx | Instruction::Sty => {},
        Instruction::Adc | Instruction::Sbc | Instruction::And | Instruction::Ora
        | Instruction::Eor | Instruction::Cmp | Instruction::Cpx | Instruction::Cpy
        | Instruction::Bit => {},
        Instruction::Inc | Instruction::Dec => {},
        Instruction::Asl | Instruction::Lsr | Instruction::Rol | Instruction::Ror => {},
        Instruction::Jsr => {
            let s1 = push(s, (add16(s.reg.pc as int, 0xFFFF) / 256) as u8);
            assert(frame_clock(s1.bus) == c);
        },
        Instruction::Rts => {
            let (v, s1) = pop(s);
            assert(frame_clock(s1.bus) == c);
        },
        Instruction::Pla | Instruction::Plp => {},
        Instruction::Pha | Instruction::Php => {},
        Instruction::Brk => {
            let s1 = push16(s, add16(s.reg.pc as int, 1));
            let s0 = push(s, (add16(s.reg.pc as int, 1) / 256) as u8);
            assert(frame_clock(s0.bus) == c);
            assert(frame_clock(s1.bus) == c);
            let s2 = push(s1, crate::instructions::pushed_status(s1.reg.status));
            assert(frame_clock(s2.bus) == c);
        },
        Instruction::Rti => {
            let (v, s1) = pop(s);
            assert(frame_clock(s1.bus) == c);
        },
        _ => {},
    }
}

/// A step that neither fails nor ends the frame moves the picture unit on by at least
/// the six dots of the shortest instruction.
pub proof fn lemma_step_advances(s: CpuState)
    ensures
        spec_step(s).0 == Ok::<bool, CpuError>(false) ==> frame_pos(spec_step(s).1) >= frame_pos(s) + 6,
{
    broadcast use lemma_read_keeps_clock, lemma_write_keeps_clock;

    let (nmi_frame, s0) = spec_serve_nmi(s);
    let (op, s1) = rd(s0, s0.reg.pc);
    let s2 = with_reg(s1, Register { pc: add16(s0.reg.pc as int, 1), ..s1.reg });
    crate::opcodes::decode_cycles(op);
    match spec_decode(op) {
        None => {},
        Some(o) => {
            let (addr, s3) = operand_address(s2, o.mode);
            lemma_operand_keeps_clock(s2, o.mode);
            let s4 = with_reg(s3, Register { pc: add16(s3.reg.pc as int, operand_len(o.mode) as int), ..s3.reg });
            lemma_execute_keeps_clock(s4, o.instruction, o.mode, addr);
        },
    }
}

/// The steps up to the end of the frame: the first step that fails or ends the frame is
/// the last.
pub open spec fn spec_run_frame(s: CpuState) -> (Result<(), CpuError>, CpuState)
    decreases 0x10000 * 342 - frame_pos(s),
{
    let (r, s1) = spec_step(s);
    match r {
        Ok(true) => (Ok(()), s1),
        Err(e) => (Err(e), s1),
        Ok(false) => {
            proof {
                lemma_step_advances(s);
            }
            spec_run_frame(s1)
        },
    }
}

impl CPU {
    /// A processor at power-on over `bus`: registers clear, stack pointer $FD, status $24.
    pub fn new(bus: Bus) -> (r: CPU)
        ensures
            r@.bus == bus@,
            r@.reg == (Register {
                a: 0,
                x: 0,
                y: 0,
                sp: 0xFD,
                pc: 0,
                status: StatusFlagRegister::spec_from_byte(0x24),
            }),
    {
        CPU {
            register: Register {
                a: 0,
                x: 0,
                y: 0,
                sp: STACK_RESET,
                pc: 0,
                status: StatusFlagRegister::from_byte(STATUS_RESET),
            },
            bus,
        }
    }

    pub(crate) fn read(&mut self, addr: u16) -> (r: u8)
        ensures
            (r, final(self)@) == rd(old(self)@, addr),
    {
        self.bus.read(addr)
    }

    pub(crate) fn read_u16(&mut self, addr: u16) -> (r: u16)
        ensures
            (r, final(self)@) == rd16(old(self)@, addr),
    {
        self.bus.read_u16(addr)
    }

    pub(crate) fn write(&mut self, addr: u16, data: u8)
        ensures
            final(self)@ == wr(old(self)@, addr, data),
    {
        self.bus.write(addr, data);
    }

    /// The operand address of `mode`, read at the program counter.
    pub(crate) fn get_operand_address(&mut self, mode: AddressingMode) -> (r: u16)
        ensures
            (r, final(self)@) == operand_address(old(self)@, mode),
    {
        reveal(operand_address);
        let pc = self.register.pc;
        match mode {
            AddressingMode::Immediate => pc,
            AddressingMode::ZeroPage => self.read(pc) as u16,
            AddressingMode::ZeroPageX => self.zero_page_indexed(self.register.x),
            AddressingMode::ZeroPageY => self.zero_page_indexed(self.register.y),
            AddressingMode::Absolute => self.read_u16(pc),
            AddressingMode::AbsoluteX => self.absolute_indexed(self.register.x),
            AddressingMode::AbsoluteY => self.absolute_indexed(self.register.y),
            AddressingMode::Indirect => self.indirect(),
            AddressingMode::IndirectX => self.indirect_x(),
            AddressingMode::IndirectY => self.indirect_y(),
            AddressingMode::Relative => self.relative(),
            AddressingMode::Accumulator | AddressingMode::NoneAddressing => 0,
        }
    }

    fn zero_page_indexed(&mut self, index: u8) -> (r: u16)
        ensures
            ({
                let (v, s1) = rd(old(self)@, old(self)@.reg.pc);
                r == add8(v as int, index as int) as u16 && final(self)@ == s1
            }),
    {
        let base = self.read(self.register.pc);
        base.wrapping_add(index) as u16
    }

    fn absolute_indexed(&mut self, index: u8) -> (r: u16)
        ensures
            ({
                let (base, s1) = rd16(old(self)@, old(self)@.reg.pc);
                r == add16(base as int, index as int) && final(self)@ == s1
            }),
    {
        let base = self.read_u16(self.register.pc);
        base.wrapping_add(index as u16)
    }

    fn indirect(&mut self) -> (r: u16)
        ensures
            (r, final(self)@) == operand_address(old(self)@, AddressingMode::Indirect),
    {
        reveal(operand_address);
        let ptr = self.read_u16(self.register.pc);
        let low = self.read(ptr);
        // The high byte comes from the same page as the low byte.
        let high_addr = (ptr & 0xFF00) | ((ptr as u8).wrapping_add(1) as u16);
        assert(high_addr == (ptr / 256) * 256 + (ptr % 256 + 1) % 256) by (bit_vector)
            requires
                high_addr == (ptr & 0xFF00) | ((ptr as u8).wrapping_add(1) as u16),
        ;
        let high = self.read(high_addr);
        pack_u16(high, low)
    }

    fn indirect_x(&mut self) -> (r: u16)
        ensures
            ({
                let s = old(self)@;
                let (base, s1) = rd(s, s.reg.pc);
                let ptr = add8(base as int, s.reg.x as int);
                let (low, s2) = rd(s1, ptr as u16);
                let (high, s3) = rd(s2, add8(ptr as int, 1) as u16);
                r == word(low, high) && final(self)@ == s3
            }),
    {
        let base = self.read(self.register.pc);
        let ptr: u16 = (base as u16 + self.register.x as u16) % 0x100;
        let low = self.read(ptr);
        let high = self.read((ptr + 1) % 0x100);
        pack_u16(high, low)
    }

    fn indirect_y(&mut self) -> (r: u16)
        ensures
            ({
                let s = old(self)@;
                let (ptr, s1) = rd(s, s.reg.pc);
                let (low, s2) = rd(s1, ptr as u16);
                let (high, s3) = rd(s2, add8(ptr as int, 1) as u16);
                r == add16(word(low, high) as int, s.reg.y as int) && final(self)@ == s3
            }),
    {
        let ptr = self.read(self.register.pc);
        let low = self.read(ptr as u16);
        let high = self.read((ptr as u16 + 1) % 0x100);
        let base = pack_u16(high, low);
        let sum: u32 = base as u32 + self.register.y as u32;
        (sum % 0x10000) as u16
    }

    fn relative(&mut self) -> (r: u16)
        ensures
            ({
                let s = old(self)@;
                let (off, s1) = rd(s, s.reg.pc);
                r == add16(s.reg.pc + 1 + sign_extend(off), 0x10000) && final(self)@ == s1
            }),
    {
        let pc = self.register.pc;
        let off = self.read(pc);
        let back: u32 = if off >= 0x80 {
            0x100
        } else {
            0
        };
        let t: u32 = pc as u32 + 1 + 0x10000 + off as u32 - back;
        (t % 0x10000) as u16
    }

    pub(crate) fn set_zn(&mut self, v: u8)
        ensures
            final(self)@ == with_reg(old(self)@, with_zn(old(self)@.reg, v)),
    {
        self.register.status.zero = v == 0;
        self.register.status.negative = v >= 0x80;
    }

    pub(crate) fn stack_push(&mut self, data: u8)
        ensures
            final(self)@ == push(old(self)@, data),
    {
        self.write(STACK_START + self.register.sp as u16, data);
        self.register.sp = self.register.sp.wrapping_sub(1);
    }

    pub(crate) fn stack_pop(&mut self) -> (r: u8)
        ensures
            (r, final(self)@) == pop(old(self)@),
    {
        self.register.sp = self.register.sp.wrapping_add(1);
        self.read(STACK_START + self.register.sp as u16)
    }

    pub(crate) fn stack_push_u16(&mut self, data: u16)
        ensures
            final(self)@ == push16(old(self)@, data),
    {
        let (high, low) = unpack_u16(data);
        self.stack_push(high);
        self.stack_push(low);
    }

    pub(crate) fn stack_pop_u16(&mut self) -> (r: u16)
        ensures
            (r, final(self)@) == pop16(old(self)@),
    {
        let low = self.stack_pop();
        let high = self.stack_pop();
        pack_u16(high, low)
    }

    fn operand_bytes(mode: AddressingMode) -> (r: u16)
        ensures
            r == operand_len(mode),
    {
        match mode {
            AddressingMode::Absolute | AddressingMode::AbsoluteX | AddressingMode::AbsoluteY
            | AddressingMode::Indirect => 2,
            AddressingMode::Accumulator | AddressingMode::NoneAddressing => 0,
            _ => 1,
        }
    }

    fn interrupt(&mut self, vector: u16)
        ensures
            final(self)@ == spec_interrupt(old(self)@, vector),
    {
        let pc = self.register.pc;
        self.stack_push_u16(pc);
        let status = StatusFlagRegister { break_command: false, unused: true, ..self.register.status };
        self.stack_push(status.to_byte());
        self.register.status.interrupt_disable = true;
        self.register.pc = self.read_u16(vector);
    }

    /// Serves a non-maskable interrupt.
    fn interrupt_nmi(&mut self)
        ensures
            final(self)@ == spec_nmi(old(self)@),
    {
        self.interrupt(NMI_VECTOR);
    }

    /// Serves a maskable interrupt request unless interrupts are disabled; true when served.
    /// The seven cycles of the sequence are left to the caller.
    pub fn irq(&mut self) -> (served: bool)
        ensures
            (served, final(self)@) == spec_irq(old(self)@),
    {
        if self.register.status.interrupt_disable {
            return false;
        }
        self.interrupt(IRQ_VECTOR);
        true
    }

    fn serve_nmi(&mut self) -> (r: bool)
        ensures
            (r, final(self)@) == spec_serve_nmi(old(self)@),
    {
        match self.bus.ppu.poll_nmi_interrupt() {
            Some(_) => {
                self.interrupt_nmi();
                self.bus.ppu.tick(21)
            },
            None => false,
        }
    }

    /// Runs one instruction, serving a pending interrupt first; `Ok(true)` when the
    /// picture unit finished a frame meanwhile.
    pub fn step_instruction(&mut self) -> (r: Result<bool, CpuError>)
        ensures
            (r, final(self)@) == spec_step(old(self)@),
    {
        let nmi_frame = self.serve_nmi();
        let pc = self.register.pc;
        let op = self.read(pc);
        self.register.pc = ((pc as u32 + 1) % 0x10000) as u16;
        match decode(op) {
            None => Err(CpuError::IllegalOpcode(op)),
            Some(o) => {
                proof {
                    crate::opcodes::decode_cycles(op);
                }
                let addr = self.get_operand_address(o.mode);
                let len = Self::operand_bytes(o.mode);
                self.register.pc = ((self.register.pc as u32 + len as u32) % 0x10000) as u16;
                self.execute(o.instruction, o.mode, addr);
                let done = self.bus.ppu.tick(o.cycles * 3);
                Ok(done || nmi_frame)
            },
        }
    }

    /// Reset: the program counter from $FFFC, stack pointer $FD, status $24.
    pub fn reset(&mut self)
        ensures
            ({
                let (target, s1) = rd16(old(self)@, 0xFFFC);
                final(self)@ == with_reg(
                    s1,
                    Register {
                        pc: target,
                        sp: 0xFD,
                        status: StatusFlagRegister::spec_from_byte(0x24),
                        ..s1.reg
                    },
                )
            }),
    {
        self.register.sp = STACK_RESET;
        self.register.status = StatusFlagRegister::from_byte(STATUS_RESET);
        self.register.pc = self.read_u16(RESET_VECTOR);
    }

    /// Runs instructions until the picture unit finishes a frame, or an opcode is not an
    /// instruction.
    pub fn step_frame(&mut self) -> (r: Result<(), CpuError>)
        ensures
            (r, final(self)@) == spec_run_frame(old(self)@),
        decreases 0x10000 * 342 - frame_pos(self@),
    {
        let ghost s = self@;
        let r = self.step_instruction();
        match r {
            Ok(true) => Ok(()),
            Err(e) => Err(e),
            Ok(false) => {
                proof {
                    lemma_step_advances(s);
                }
                self.step_frame()
            },
        }
    }

    /// Runs the frame as `step_frame` does, handing the processor to `hook` after each
    /// instruction that ran, for tracing or debugging. The hook only reads the processor.
    pub fn step_frame_with_hook<F: Fn(&CPU)>(&mut self, hook: &F) -> (r: Result<(), CpuError>)
        requires
            forall|c: &CPU| hook.requires((c,)),
        ensures
            (r, final(self)@) == spec_run_frame(old(self)@),
        decreases 0x10000 * 342 - frame_pos(self@),
    {
        let ghost s = self@;
        let r = self.step_instruction();
        match r {
            Ok(true) => {
                hook(&*self);
                Ok(())
            },
            Err(e) => Err(e),
            Ok(false) => {
                hook(&*self);
                proof {
                    lemma_step_advances(s);
                }
                self.step_frame_with_hook(hook)
            },
        }
    }
}

} // verus!
