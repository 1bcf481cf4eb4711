use vstd::prelude::*;

use crate::cpu::{
    add16, add8, pop, pop16, push, push16, rd, rd16, sub8, with_reg, with_zn, AddressingMode,
    CpuState, Register, CPU, IRQ_VECTOR,
};
use crate::status::StatusFlagRegister;

verus! {

/// The official 6502 instructions.
#[derive(Debug, Clone, Copy, PartialEq, Eq, Structural)]
pub enum Instruction {
    Adc,
    And,
    Asl,
    Bcc,
    Bcs,
    Beq,
    Bit,
    Bmi,
    Bne,
    Bpl,
    Brk,
    Bvc,
    Bvs,
    Clc,
    Cld,
    Cli,
    Clv,
    Cmp,
    Cpx,
    Cpy,
    Dec,
    Dex,
    Dey,
    Eor,
    Inc,
    Inx,
    Iny,
    Jmp,
    Jsr,
    Lda,
    Ldx,
    Ldy,
    Lsr,
    Nop,
    Ora,
    Pha,
    Php,
    Pla,
    Plp,
    Rol,
    Ror,
    Rti,
    Rts,
    Sbc,
    Sec,
    Sed,
    Sei,
    Sta,
    Stx,
    Sty,
    Tax,
    Tay,
    Tsx,
    Txa,
    Txs,
    Tya,
}

/// The registers after `A + m + C` into the accumulator: Carry on a result above $FF,
/// Overflow when both inputs differ in sign from the result.
pub open spec fn add_with_carry(r: Register, m: u8) -> Register {
    let sum = r.a + m + (if r.status.carry {
        1int
    } else {
        0
    });
    let res = (sum % 256) as u8;
    with_zn(
        Register {
            a: res,
            status: StatusFlagRegister {
                carry: sum > 0xFF,
                overflow: (r.a ^ res) & (m ^ res) & 0x80 != 0,
                ..r.status
            },
            ..r
        },
        res,
    )
}

/// The registers after comparing `v` with `m`: Carry when no borrow, Zero and Negative
/// from `v - m`.
pub open spec fn compared(r: Register, v: u8, m: u8) -> Register {
    with_zn(Register { status: StatusFlagRegister { carry: v >= m, ..r.status }, ..r }, sub8(v as int, m as int))
}

/// A shift or rotate of `m`: the result and the new Carry. `left` picks the direction,
/// `rotate` feeds the old Carry `c` into the vacated bit.
pub open spec fn shifted(m: u8, left: bool, rotate: bool, c: bool) -> (u8, bool) {
    let cin: int = if rotate && c {
        1
    } else {
        0
    };
    if left {
        (((m * 2) % 256 + cin) as u8, m >= 0x80)
    } else {
        ((m / 2 + cin * 128) as u8, m % 2 == 1)
    }
}

/// The status byte that PHP and BRK push: Break and bit 5 set.
pub open spec fn pushed_status(st: StatusFlagRegister) -> u8 {
    StatusFlagRegister { break_command: true, unused: true, ..st }.spec_to_byte()
}

/// The status that PLP and RTI restore from a byte: Break clear, bit 5 set.
pub open spec fn pulled_status(b: u8) -> StatusFlagRegister {
    StatusFlagRegister { break_command: false, unused: true, ..StatusFlagRegister::spec_from_byte(b) }
}

/// Loads the byte at `addr` into A (`which` 0), X (1) or Y (2).
pub open spec fn spec_load(s: CpuState, addr: u16, which: u8) -> CpuState {
    let (v, s1) = rd(s, addr);
    let r = s1.reg;
    let r1 = if which == 0 {
        Register { a: v, ..r }
    } else if which == 1 {
        Register { x: v, ..r }
    } else {
        Register { y: v, ..r }
    };
    with_reg(s1, with_zn(r1, v))
}

/// ADC, SBC, AND, ORA, EOR, a compare or BIT with the byte at `addr`.
pub open spec fn spec_alu(s: CpuState, addr: u16, ins: Instruction) -> CpuState {
    let (m, s1) = rd(s, addr);
    let r = s1.reg;
    with_reg(
        s1,
        match ins {
            Instruction::Adc => add_with_carry(r, m),
            Instruction::Sbc => add_with_carry(r, (255 - m) as u8),
            Instruction::And => with_zn(Register { a: r.a & m, ..r }, r.a & m),
            Instruction::Ora => with_zn(Register { a: r.a | m, ..r }, r.a | m),
            Instruction::Eor => with_zn(Register { a: r.a ^ m, ..r }, r.a ^ m),
            Instruction::Cmp => compared(r, r.a, m),
            Instruction::Cpx => compared(r, r.x, m),
            Instruction::Cpy => compared(r, r.y, m),
            _ => Register {
                status: StatusFlagRegister {
                    zero: r.a & m == 0,
                    negative: m & 0x80 != 0,
                    overflow: m & 0x40 != 0,
                    ..r.status
                },
                ..r
            },
        },
    )
}

/// INC or DEC of the byte at `addr`.
pub open spec fn spec_step_memory(s: CpuState, addr: u16, up: bool) -> CpuState {
    let (m, s1) = rd(s, addr);
    let v = if up {
        add8(m as int, 1)
    } else {
        sub8(m as int, 1)
    };
    let s2 = crate::cpu::wr(s1, addr, v);
    with_reg(s2, with_zn(s2.reg, v))
}

/// A shift or rotate of the byte at `addr`.
pub open spec fn spec_shift_memory(s: CpuState, addr: u16, left: bool, rotate: bool) -> CpuState {
    let (m, s1) = rd(s, addr);
    let (v, c) = shifted(m, left, rotate, s1.reg.status.carry);
    let s2 = crate::cpu::wr(s1, addr, v);
    with_reg(s2, with_zn(Register { status: StatusFlagRegister { carry: c, ..s2.reg.status }, ..s2.reg }, v))
}

/// A shift or rotate of the accumulator.
pub open spec fn spec_shift_a(s: CpuState, left: bool, rotate: bool) -> CpuState {
    let r = s.reg;
    let (v, c) = shifted(r.a, left, rotate, r.status.carry);
    with_reg(s, with_zn(Register { a: v, status: StatusFlagRegister { carry: c, ..r.status }, ..r }, v))
}

/// The effect of an instruction that uses no memory operand.
pub open spec fn spec_implied(r: Register, ins: Instruction) -> Register {
    match ins {
        Instruction::Tax => with_zn(Register { x: r.a, ..r }, r.a),
        Instruction::Txa => with_zn(Register { a: r.x, ..r }, r.x),
        Instruction::Tay => with_zn(Register { y: r.a, ..r }, r.a),
        Instruction::Tya => with_zn(Register { a: r.y, ..r }, r.y),
        Instruction::Tsx => with_zn(Register { x: r.sp, ..r }, r.sp),
        Instruction::Txs => Register { sp: r.x, ..r },
        Instruction::Inx => with_zn(Register { x: add8(r.x as int, 1), ..r }, add8(r.x as int, 1)),
        Instruction::Dex => with_zn(Register { x: sub8(r.x as int, 1), ..r }, sub8(r.x as int, 1)),
        Instruction::Iny => with_zn(Register { y: add8(r.y as int, 1), ..r }, add8(r.y as int, 1)),
        Instruction::Dey => with_zn(Register { y: sub8(r.y as int, 1), ..r }, sub8(r.y as int, 1)),
        Instruction::Clc => Register { status: StatusFlagRegister { carry: false, ..r.status }, ..r },
        Instruction::Sec => Register { status: StatusFlagRegister { carry: true, ..r.status }, ..r },
        Instruction::Cli => Register {
            status: StatusFlagRegister { interrupt_disable: false, ..r.status },
            ..r
        },
        Instruction::Sei => Register {
            status: StatusFlagRegister { interrupt_disable: true, ..r.status },
            ..r
        },
        Instruction::Clv => Register { status: StatusFlagRegister { overflow: false, ..r.status }, ..r },
        Instruction::Cld => Register {
            status: StatusFlagRegister { decimal_mode: false, ..r.status },
            ..r
        },
        Instruction::Sed => Register {
            status: StatusFlagRegister { decimal_mode: true, ..r.status },
            ..r
        },
        _ => r,
    }
}

/// Whether a branch instruction is taken.
pub open spec fn branch_taken(st: StatusFlagRegister, ins: Instruction) -> bool {
    match ins {
        Instruction::Bcc => !st.carry,
        Instruction::Bcs => st.carry,
        Instruction::Beq => st.zero,
        Instruction::Bne => !st.zero,
        Instruction::Bmi => st.negative,
        Instruction::Bpl => !st.negative,
        Instruction::Bvs => st.overflow,
        _ => !st.overflow,
    }
}

/// BRK: pushes the address two past the opcode and the status with Break set, disables
/// interrupts and jumps through $FFFE.
pub open spec fn spec_brk(s: CpuState) -> CpuState {
    let s1 = push16(s, add16(s.reg.pc as int, 1));
    let s2 = push(s1, pushed_status(s1.reg.status));
    let s3 = with_reg(
        s2,
        Register { status: StatusFlagRegister { interrupt_disable: true, ..s2.reg.status }, ..s2.reg },
    );
    let (target, s4) = rd16(s3, 0xFFFE);
    with_reg(s4, Register { pc: target, ..s4.reg })
}

/// What `ins` does with operand address `addr` once the program counter is past the
/// operand.
#[verifier::opaque]
pub open spec fn spec_execute(s: CpuState, ins: Instruction, mode: AddressingMode, addr: u16) -> CpuState {
    match ins {
        Instruction::Lda => spec_load(s, addr, 0),
        Instruction::Ldx => spec_load(s, addr, 1),
        Instruction::Ldy => spec_load(s, addr, 2),
        Instruction::Sta => crate::cpu::wr(s, addr, s.reg.a),
        Instruction::Stx => crate::cpu::wr(s, addr, s.reg.x),
        Instruction::Sty => crate::cpu::wr(s, addr, s.reg.y),
        Instruction::Adc | Instruction::Sbc | Instruction::And | Instruction::Ora
        | Instruction::Eor | Instruction::Cmp | Instruction::Cpx | Instruction::Cpy
        | Instruction::Bit => spec_alu(s, addr, ins),
        Instruction::Inc => spec_step_memory(s, addr, true),
        Instruction::Dec => spec_step_memory(s, addr, false),
        Instruction::Asl | Instruction::Lsr | Instruction::Rol | Instruction::Ror => {
            let left = ins == Instruction::Asl || ins == Instruction::Rol;
            let rotate = ins == Instruction::Rol || ins == Instruction::Ror;
            if mode == AddressingMode::Accumulator {
                spec_shift_a(s, left, rotate)
            } else {
                spec_shift_memory(s, addr, left, rotate)
            }
        },
        Instruction::Bcc | Instruction::Bcs | Instruction::Beq | Instruction::Bne
        | Instruction::Bmi | Instruction::Bpl | Instruction::Bvs | Instruction::Bvc => {
            if branch_taken(s.reg.status, ins) {
                with_reg(s, Register { pc: addr, ..s.reg })
            } else {
                s
            }
        },
        Instruction::Jmp => with_reg(s, Register { pc: addr, ..s.reg }),
        Instruction::Jsr => {
            let s1 = push16(s, add16(s.reg.pc as int, 0xFFFF));
            with_reg(s1, Register { pc: addr, ..s1.reg })
        },
        Instruction::Rts => {
            let (v, s1) = pop16(s);
            with_reg(s1, Register { pc: add16(v as int, 1), ..s1.reg })
        },
        Instruction::Pha => push(s, s.reg.a),
        Instruction::Pla => {
            let (v, s1) = pop(s);
            with_reg(s1, with_zn(Register { a: v, ..s1.reg }, v))
        },
        Instruction::Php => push(s, pushed_status(s.reg.status)),
        Instruction::Plp => {
            let (v, s1) = pop(s);
            with_reg(s1, Register { status: pulled_status(v), ..s1.reg })
        },
        Instruction::Brk => spec_brk(s),
        Instruction::Rti => {
            let (v, s1) = pop(s);
            let s2 = with_reg(s1, Register { status: pulled_status(v), ..s1.reg });
            let (pc, s3) = pop16(s2);
            with_reg(s3, Register { pc: pc, ..s3.reg })
        },
        Instruction::Nop => s,
        _ => with_reg(s, spec_implied(s.reg, ins)),
    }
}


/// The result and the new Carry of a shift or rotate.
fn shift_byte(m: u8, left: bool, rotate: bool, c: bool) -> (r: (u8, bool))
    ensures
        r == shifted(m, left, rotate, c),
{
    let cin: u16 = if rotate && c {
        1
    } else {
        0
    };
    if left {
        ((((m as u16 * 2) % 256) + cin) as u8, m >= 0x80)
    } else {
        ((m as u16 / 2 + cin * 128) as u8, m % 2 == 1)
    }
}

impl CPU {
    fn load_register(&mut self, addr: u16, which: u8)
        ensures
            final(self)@ == spec_load(old(self)@, addr, which),
    {
        let data = self.read(addr);
        if which == 0 {
            self.register.a = data;
        } else if which == 1 {
            self.register.x = data;
        } else {
            self.register.y = data;
        }
        self.set_zn(data);
    }

    /// LDA: memory into A.
    fn lda(&mut self, addr: u16)
        ensures
            final(self)@ == spec_load(old(self)@, addr, 0),
    {
        self.load_register(addr, 0);
    }

    /// LDX: memory into X.
    fn ldx(&mut self, addr: u16)
        ensures
            final(self)@ == spec_load(old(self)@, addr, 1),
    {
        self.load_register(addr, 1);
    }

    /// LDY: memory into Y.
    fn ldy(&mut self, addr: u16)
        ensures
            final(self)@ == spec_load(old(self)@, addr, 2),
    {
        self.load_register(addr, 2);
    }

    /// STA: A into memory.
    fn sta(&mut self, addr: u16)
        ensures
            final(self)@ == crate::cpu::wr(old(self)@, addr, old(self)@.reg.a),
    {
        let v = self.register.a;
        self.write(addr, v);
    }

    /// STX: X into memory.
    fn stx(&mut self, addr: u16)
        ensures
            final(self)@ == crate::cpu::wr(old(self)@, addr, old(self)@.reg.x),
    {
        let v = self.register.x;
        self.write(addr, v);
    }

    /// STY: Y into memory.
    fn sty(&mut self, addr: u16)
        ensures
            final(self)@ == crate::cpu::wr(old(self)@, addr, old(self)@.reg.y),
    {
        let v = self.register.y;
        self.write(addr, v);
    }

    fn add_to_reg_a(&mut self, m: u8)
        ensures
            final(self)@ == with_reg(old(self)@, add_with_carry(old(self)@.reg, m)),
    {
        let a = self.register.a;
        let carry: u16 = if self.register.status.carry {
            1
        } else {
            0
        };
        let sum: u16 = a as u16 + m as u16 + carry;
        let res = (sum % 256) as u8;
        self.register.status.carry = sum > 0xFF;
        self.register.status.overflow = (a ^ res) & (m ^ res) & 0x80 != 0;
        self.register.a = res;
        self.set_zn(res);
    }

    /// ADC: A + M + C into A.
    fn adc(&mut self, addr: u16)
        ensures
            final(self)@ == spec_alu(old(self)@, addr, Instruction::Adc),
    {
        let m = self.read(addr);
        self.add_to_reg_a(m);
    }

    /// SBC: A - M - (1 - C) into A, that is A + !M + C.
    fn sbc(&mut self, addr: u16)
        ensures
            final(self)@ == spec_alu(old(self)@, addr, Instruction::Sbc),
    {
        let m = self.read(addr);
        self.add_to_reg_a(0xFF - m);
    }

    /// AND: A & M into A.
    fn and(&mut self, addr: u16)
        ensures
            final(self)@ == spec_alu(old(self)@, addr, Instruction::And),
    {
        let m = self.read(addr);
        let v = self.register.a & m;
        self.register.a = v;
        self.set_zn(v);
    }

    /// ORA: A | M into A.
    fn ora(&mut self, addr: u16)
        ensures
            final(self)@ == spec_alu(old(self)@, addr, Instruction::Ora),
    {
        let m = self.read(addr);
        let v = self.register.a | m;
        self.register.a = v;
        self.set_zn(v);
    }

    /// EOR: A ^ M into A.
    fn eor(&mut self, addr: u16)
        ensures
            final(self)@ == spec_alu(old(self)@, addr, Instruction::Eor),
    {
        let m = self.read(addr);
        let v = self.register.a ^ m;
        self.register.a = v;
        self.set_zn(v);
    }

    fn compare(&mut self, addr: u16, which: u8)
        ensures
            ({
                let (m, s1) = rd(old(self)@, addr);
                let r = s1.reg;
                let v = if which == 0 {
                    r.a
                } else if which == 1 {
                    r.x
                } else {
                    r.y
                };
                final(self)@ == with_reg(s1, compared(r, v, m))
            }),
    {
        let m = self.read(addr);
        let v = if which == 0 {
            self.register.a
        } else if which == 1 {
            self.register.x
        } else {
            self.register.y
        };
        self.register.status.carry = v >= m;
        self.set_zn(((v as u16 + 256 - m as u16) % 256) as u8);
    }

    /// CMP: compares A with memory.
    fn cmp(&mut self, addr: u16)
        ensures
            final(self)@ == spec_alu(old(self)@, addr, Instruction::Cmp),
    {
        self.compare(addr, 0);
    }

    /// CPX: compares X with memory.
    fn cpx(&mut self, addr: u16)
        ensures
            final(self)@ == spec_alu(old(self)@, addr, Instruction::Cpx),
    {
        self.compare(addr, 1);
    }

    /// CPY: compares Y with memory.
    fn cpy(&mut self, addr: u16)
        ensures
            final(self)@ == spec_alu(old(self)@, addr, Instruction::Cpy),
    {
        self.compare(addr, 2);
    }

    /// BIT: Zero from A & M, Negative from bit 7 of M, Overflow from bit 6 of M.
    fn bit(&mut self, addr: u16)
        ensures
            final(self)@ == spec_alu(old(self)@, addr, Instruction::Bit),
    {
        let m = self.read(addr);
        self.register.status.zero = self.register.a & m == 0;
        self.register.status.negative = m & 0x80 != 0;
        self.register.status.overflow = m & 0x40 != 0;
    }

    fn step_memory(&mut self, addr: u16, up: bool)
        ensures
            final(self)@ == spec_step_memory(old(self)@, addr, up),
    {
        let m = self.read(addr);
        let v: u8 = if up {
            ((m as u16 + 1) % 256) as u8
        } else {
            ((m as u16 + 255) % 256) as u8
        };
        self.write(addr, v);
        self.set_zn(v);
    }

    /// INC: memory plus one.
    fn inc(&mut self, addr: u16)
        ensures
            final(self)@ == spec_step_memory(old(self)@, addr, true),
    {
        self.step_memory(addr, true);
    }

    /// DEC: memory minus one.
    fn dec(&mut self, addr: u16)
        ensures
            final(self)@ == spec_step_memory(old(self)@, addr, false),
    {
        self.step_memory(addr, false);
    }

    fn shift_memory(&mut self, addr: u16, left: bool, rotate: bool)
        ensures
            final(self)@ == spec_shift_memory(old(self)@, addr, left, rotate),
    {
        let m = self.read(addr);
        let (v, c) = shift_byte(m, left, rotate, self.register.status.carry);
        self.write(addr, v);
        self.register.status.carry = c;
        self.set_zn(v);
    }

    fn shift_reg_a(&mut self, left: bool, rotate: bool)
        ensures
            final(self)@ == spec_shift_a(old(self)@, left, rotate),
    {
        let (v, c) = shift_byte(self.register.a, left, rotate, self.register.status.carry);
        self.register.a = v;
        self.register.status.carry = c;
        self.set_zn(v);
    }

    /// ASL on A: bit 7 into Carry, 0 into bit 0.
    fn asl_reg_a(&mut self)
        ensures
            final(self)@ == spec_shift_a(old(self)@, true, false),
    {
        self.shift_reg_a(true, false);
    }

    /// ASL on memory.
    fn asl_memory(&mut self, addr: u16)
        ensures
            final(self)@ == spec_shift_memory(old(self)@, addr, true, false),
    {
        self.shift_memory(addr, true, false);
    }

    /// LSR on A: bit 0 into Carry, 0 into bit 7.
    fn lsr_reg_a(&mut self)
        ensures
            final(self)@ == spec_shift_a(old(self)@, false, false),
    {
        self.shift_reg_a(false, false);
    }

    /// LSR on memory.
    fn lsr_memory(&mut self, addr: u16)
        ensures
            final(self)@ == spec_shift_memory(old(self)@, addr, false, false),
    {
        self.shift_memory(addr, false, false);
    }

    /// ROL on A: bit 7 into Carry, Carry into bit 0.
    fn rol_reg_a(&mut self)
        ensures
            final(self)@ == spec_shift_a(old(self)@, true, true),
    {
        self.shift_reg_a(true, true);
    }

    /// ROL on memory.
    fn rol_memory(&mut self, addr: u16)
        ensures
            final(self)@ == spec_shift_memory(old(self)@, addr, true, true),
    {
        self.shift_memory(addr, true, true);
    }

    /// ROR on A: bit 0 into Carry, Carry into bit 7.
    fn ror_reg_a(&mut self)
        ensures
            final(self)@ == spec_shift_a(old(self)@, false, true),
    {
        self.shift_reg_a(false, true);
    }

    /// ROR on memory.
    fn ror_memory(&mut self, addr: u16)
        ensures
            final(self)@ == spec_shift_memory(old(self)@, addr, false, true),
    {
        self.shift_memory(addr, false, true);
    }

    /// TAX: A into X.
    fn tax(&mut self)
        ensures
            final(self)@ == with_reg(old(self)@, spec_implied(old(self)@.reg, Instruction::Tax)),
    {
        self.register.x = self.register.a;
        self.set_zn(self.register.a);
    }

    /// TXA: X into A.
    fn txa(&mut self)
        ensures
            final(self)@ == with_reg(old(self)@, spec_implied(old(self)@.reg, Instruction::Txa)),
    {
        self.register.a = self.register.x;
        self.set_zn(self.register.x);
    }

    /// TAY: A into Y.
    fn tay(&mut self)
        ensures
            final(self)@ == with_reg(old(self)@, spec_implied(old(self)@.reg, Instruction::Tay)),
    {
        self.register.y = self.register.a;
        self.set_zn(self.register.a);
    }

    /// TYA: Y into A.
    fn tya(&mut self)
        ensures
            final(self)@ == with_reg(old(self)@, spec_implied(old(self)@.reg, Instruction::Tya)),
    {
        self.register.a = self.register.y;
        self.set_zn(self.register.y);
    }

    /// TSX: the stack pointer into X.
    fn tsx(&mut self)
        ensures
            final(self)@ == with_reg(old(self)@, spec_implied(old(self)@.reg, Instruction::Tsx)),
    {
        self.register.x = self.register.sp;
        self.set_zn(self.register.sp);
    }

    /// TXS: X into the stack pointer; no flag changes.
    fn txs(&mut self)
        ensures
            final(self)@ == with_reg(old(self)@, spec_implied(old(self)@.reg, Instruction::Txs)),
    {
        self.register.sp = self.register.x;
    }

    /// INX: X plus one.
    fn inx(&mut self)
        ensures
            final(self)@ == with_reg(old(self)@, spec_implied(old(self)@.reg, Instruction::Inx)),
    {
        let v = ((self.register.x as u16 + 1) % 256) as u8;
        self.register.x = v;
        self.set_zn(v);
    }

    /// DEX: X minus one.
    fn dex(&mut self)
        ensures
            final(self)@ == with_reg(old(self)@, spec_implied(old(self)@.reg, Instruction::Dex)),
    {
        let v = ((self.register.x as u16 + 255) % 256) as u8;
        self.register.x = v;
        self.set_zn(v);
    }

    /// INY: Y plus one.
    fn iny(&mut self)
        ensures
            final(self)@ == with_reg(old(self)@, spec_implied(old(self)@.reg, Instruction::Iny)),
    {
        let v = ((self.register.y as u16 + 1) % 256) as u8;
        self.register.y = v;
        self.set_zn(v);
    }

    /// DEY: Y minus one.
    fn dey(&mut self)
        ensures
            final(self)@ == with_reg(old(self)@, spec_implied(old(self)@.reg, Instruction::Dey)),
    {
        let v = ((self.register.y as u16 + 255) % 256) as u8;
        self.register.y = v;
        self.set_zn(v);
    }

    /// CLC: clears Carry.
    fn clc(&mut self)
        ensures
            final(self)@ == with_reg(old(self)@, spec_implied(old(self)@.reg, Instruction::Clc)),
    {
        self.register.status.carry = false;
    }

    /// SEC: sets Carry.
    fn sec(&mut self)
        ensures
            final(self)@ == with_reg(old(self)@, spec_implied(old(self)@.reg, Instruction::Sec)),
    {
        self.register.status.carry = true;
    }

    /// CLD: clears Decimal.
    fn cld(&mut self)
        ensures
            final(self)@ == with_reg(old(self)@, spec_implied(old(self)@.reg, Instruction::Cld)),
    {
        self.register.status.decimal_mode = false;
    }

    /// SED: sets Decimal.
    fn sed(&mut self)
        ensures
            final(self)@ == with_reg(old(self)@, spec_implied(old(self)@.reg, Instruction::Sed)),
    {
        self.register.status.decimal_mode = true;
    }

    /// CLV: clears Overflow.
    fn clv(&mut self)
        ensures
            final(self)@ == with_reg(old(self)@, spec_implied(old(self)@.reg, Instruction::Clv)),
    {
        self.register.status.overflow = false;
    }

    /// CLI: enables interrupts.
    fn cli(&mut self)
        ensures
            final(self)@ == with_reg(old(self)@, spec_implied(old(self)@.reg, Instruction::Cli)),
    {
        self.register.status.interrupt_disable = false;
    }

    /// SEI: disables interrupts.
    fn sei(&mut self)
        ensures
            final(self)@ == with_reg(old(self)@, spec_implied(old(self)@.reg, Instruction::Sei)),
    {
        self.register.status.interrupt_disable = true;
    }

    /// Jumps to `addr` when `condition` holds.
    fn branch(&mut self, condition: bool, addr: u16)
        ensures
            final(self)@ == if condition {
                with_reg(old(self)@, Register { pc: addr, ..old(self)@.reg })
            } else {
                old(self)@
            },
    {
        if condition {
            self.register.pc = addr;
        }
    }

    /// JMP: continues at `addr`.
    fn jmp(&mut self, addr: u16)
        ensures
            final(self)@ == with_reg(old(self)@, Register { pc: addr, ..old(self)@.reg }),
    {
        self.register.pc = addr;
    }

    /// JSR: pushes the address of the operand's last byte and continues at `addr`.
    fn jsr(&mut self, addr: u16)
        ensures
            final(self)@ == ({
                let s1 = push16(old(self)@, add16(old(self)@.reg.pc as int, 0xFFFF));
                with_reg(s1, Register { pc: addr, ..s1.reg })
            }),
    {
        let ret = ((self.register.pc as u32 + 0xFFFF) % 0x10000) as u16;
        self.stack_push_u16(ret);
        self.register.pc = addr;
    }

    /// RTS: pops the return address and continues after it.
    fn rts(&mut self)
        ensures
            final(self)@ == ({
                let (v, s1) = pop16(old(self)@);
                with_reg(s1, Register { pc: add16(v as int, 1), ..s1.reg })
            }),
    {
        let v = self.stack_pop_u16();
        self.register.pc = ((v as u32 + 1) % 0x10000) as u16;
    }

    /// PHA: pushes A.
    fn pha(&mut self)
        ensures
            final(self)@ == push(old(self)@, old(self)@.reg.a),
    {
        let v = self.register.a;
        self.stack_push(v);
    }

    /// PLA: pops into A.
    fn pla(&mut self)
        ensures
            final(self)@ == ({
                let (v, s1) = pop(old(self)@);
                with_reg(s1, with_zn(Register { a: v, ..s1.reg }, v))
            }),
    {
        let v = self.stack_pop();
        self.register.a = v;
        self.set_zn(v);
    }

    /// PHP: pushes the status with Break and bit 5 set.
    fn php(&mut self)
        ensures
            final(self)@ == push(old(self)@, pushed_status(old(self)@.reg.status)),
    {
        let status = StatusFlagRegister { break_command: true, unused: true, ..self.register.status };
        self.stack_push(status.to_byte());
    }

    /// PLP: pops the status, with Break clear and bit 5 set.
    fn plp(&mut self)
        ensures
            final(self)@ == ({
                let (v, s1) = pop(old(self)@);
                with_reg(s1, Register { status: pulled_status(v), ..s1.reg })
            }),
    {
        let v = self.stack_pop();
        self.register.status = pulled(v);
    }

    /// BRK: a software interrupt through $FFFE.
    fn brk(&mut self)
        ensures
            final(self)@ == spec_brk(old(self)@),
    {
        let ret = ((self.register.pc as u32 + 1) % 0x10000) as u16;
        self.stack_push_u16(ret);
        let status = StatusFlagRegister { break_command: true, unused: true, ..self.register.status };
        self.stack_push(status.to_byte());
        self.register.status.interrupt_disable = true;
        self.register.pc = self.read_u16(IRQ_VECTOR);
    }

    /// RTI: pops the status, then the program counter.
    fn rti(&mut self)
        ensures
            final(self)@ == ({
                let (v, s1) = pop(old(self)@);
                let s2 = with_reg(s1, Register { status: pulled_status(v), ..s1.reg });
                let (pc, s3) = pop16(s2);
                with_reg(s3, Register { pc: pc, ..s3.reg })
            }),
    {
        let v = self.stack_pop();
        self.register.status = pulled(v);
        self.register.pc = self.stack_pop_u16();
    }

    /// BCC: branches when Carry is clear.
    fn bcc(&mut self, addr: u16)
        ensures
            final(self)@ == if branch_taken(old(self)@.reg.status, Instruction::Bcc) {
                with_reg(old(self)@, Register { pc: addr, ..old(self)@.reg })
            } else {
                old(self)@
            },
    {
        let condition = !self.register.status.carry;
        self.branch(condition, addr);
    }

    /// BCS: branches when Carry is set.
    fn bcs(&mut self, addr: u16)
        ensures
            final(self)@ == if branch_taken(old(self)@.reg.status, Instruction::Bcs) {
                with_reg(old(self)@, Register { pc: addr, ..old(self)@.reg })
            } else {
                old(self)@
            },
    {
        let condition = self.register.status.carry;
        self.branch(condition, addr);
    }

    /// BEQ: branches when Zero is set.
    fn beq(&mut self, addr: u16)
        ensures
            final(self)@ == if branch_taken(old(self)@.reg.status, Instruction::Beq) {
                with_reg(old(self)@, Register { pc: addr, ..old(self)@.reg })
            } else {
                old(self)@
            },
    {
        let condition = self.register.status.zero;
        self.branch(condition, addr);
    }

    /// BNE: branches when Zero is clear.
    fn bne(&mut self, addr: u16)
        ensures
            final(self)@ == if branch_taken(old(self)@.reg.status, Instruction::Bne) {
                with_reg(old(self)@, Register { pc: addr, ..old(self)@.reg })
            } else {
                old(self)@
            },
    {
        let condition = !self.register.status.zero;
        self.branch(condition, addr);
    }

    /// BMI: branches when Negative is set.
    fn bmi(&mut self, addr: u16)
        ensures
            final(self)@ == if branch_taken(old(self)@.reg.status, Instruction::Bmi) {
                with_reg(old(self)@, Register { pc: addr, ..old(self)@.reg })
            } else {
                old(self)@
            },
    {
        let condition = self.register.status.negative;
        self.branch(condition, addr);
    }

    /// BPL: branches when Negative is clear.
    fn bpl(&mut self, addr: u16)
        ensures
            final(self)@ == if branch_taken(old(self)@.reg.status, Instruction::Bpl) {
                with_reg(old(self)@, Register { pc: addr, ..old(self)@.reg })
            } else {
                old(self)@
            },
    {
        let condition = !self.register.status.negative;
        self.branch(condition, addr);
    }

    /// BVS: branches when Overflow is set.
    fn bvs(&mut self, addr: u16)
        ensures
            final(self)@ == if branch_taken(old(self)@.reg.status, Instruction::Bvs) {
                with_reg(old(self)@, Register { pc: addr, ..old(self)@.reg })
            } else {
                old(self)@
            },
    {
        let condition = self.register.status.overflow;
        self.branch(condition, addr);
    }

    /// BVC: branches when Overflow is clear.
    fn bvc(&mut self, addr: u16)
        ensures
            final(self)@ == if branch_taken(old(self)@.reg.status, Instruction::Bvc) {
                with_reg(old(self)@, Register { pc: addr, ..old(self)@.reg })
            } else {
                old(self)@
            },
    {
        let condition = !self.register.status.overflow;
        self.branch(condition, addr);
    }

    /// Carries out `ins` on operand address `addr`, the program counter being past the
    /// operand.
    #[verifier::rlimit(50)]
    pub(crate) fn execute(&mut self, ins: Instruction, mode: AddressingMode, addr: u16)
        ensures
            final(self)@ == spec_execute(old(self)@, ins, mode, addr),
    {
        reveal(spec_execute);
        let acc = match mode {
            AddressingMode::Accumulator => true,
            _ => false,
        };
        match ins {
            Instruction::Lda => self.lda(addr),
            Instruction::Ldx => self.ldx(addr),
            Instruction::Ldy => self.ldy(addr),
            Instruction::Sta => self.sta(addr),
            Instruction::Stx => self.stx(addr),
            Instruction::Sty => self.sty(addr),
            Instruction::Adc => self.adc(addr),
            Instruction::Sbc => self.sbc(addr),
            Instruction::And => self.and(addr),
            Instruction::Ora => self.ora(addr),
            Instruction::Eor => self.eor(addr),
            Instruction::Cmp => self.cmp(addr),
            Instruction::Cpx => self.cpx(addr),
            Instruction::Cpy => self.cpy(addr),
            Instruction::Bit => self.bit(addr),
            Instruction::Inc => self.inc(addr),
            Instruction::Dec => self.dec(addr),
            Instruction::Asl => if acc {
                self.asl_reg_a()
            } else {
                self.asl_memory(addr)
            },
            Instruction::Lsr => if acc {
                self.lsr_reg_a()
            } else {
                self.lsr_memory(addr)
            },
            Instruction::Rol => if acc {
                self.rol_reg_a()
            } else {
                self.rol_memory(addr)
            },
            Instruction::Ror => if acc {
                self.ror_reg_a()
            } else {
                self.ror_memory(addr)
            },
            Instruction::Bcc => self.bcc(addr),
            Instruction::Bcs => self.bcs(addr),
            Instruction::Beq => self.beq(addr),
            Instruction::Bne => self.bne(addr),
            Instruction::Bmi => self.bmi(addr),
            Instruction::Bpl => self.bpl(addr),
            Instruction::Bvs => self.bvs(addr),
            Instruction::Bvc => self.bvc(addr),
            Instruction::Jmp => self.jmp(addr),
            Instruction::Jsr => self.jsr(addr),
            Instruction::Rts => self.rts(),
            Instruction::Pha => self.pha(),
            Instruction::Pla => self.pla(),
            Instruction::Php => self.php(),
            Instruction::Plp => self.plp(),
            Instruction::Brk => self.brk(),
            Instruction::Rti => self.rti(),
            Instruction::Nop => {},
            Instruction::Tax => self.tax(),
            Instruction::Txa => self.txa(),
            Instruction::Tay => self.tay(),
            Instruction::Tya => self.tya(),
            Instruction::Tsx => self.tsx(),
            Instruction::Txs => self.txs(),
            Instruction::Inx => self.inx(),
            Instruction::Dex => self.dex(),
            Instruction::Iny => self.iny(),
            Instruction::Dey => self.dey(),
            Instruction::Clc => self.clc(),
            Instruction::Sec => self.sec(),
            Instruction::Cld => self.cld(),
            Instruction::Sed => self.sed(),
            Instruction::Clv => self.clv(),
            Instruction::Cli => self.cli(),
            Instruction::Sei => self.sei(),
        }
    }
}

/// The status restored from a pulled byte.
fn pulled(b: u8) -> (r: StatusFlagRegister)
    ensures
        r == pulled_status(b),
{
    StatusFlagRegister { break_command: false, unused: true, ..StatusFlagRegister::from_byte(b) }
}

} // verus!
