//! The CPU: registers, the stack, addressing modes, the instruction handlers,
//! interrupts and the fetch-execute step. Every memory access goes through
//! the bus.
use vstd::prelude::*;

use crate::alu::{
    lemma_set_flag,
    signed,
    BREAK, CARRY, DECIMAL, IRQ_DISABLE, NEGATIVE, OVERFLOW, PUSH, ZERO, add_with_carry,
    adc_flags, adc_value, carry_in, compare, compare_flags, asl_value, flag, rol_value,
    ror_value, rotate_left, rotate_right, set_flag, shift_left, shift_right, update_flag,
    update_zero_and_negative, with_zn,
};
use crate::bus::{BusView, SystemBus};
use crate::cartridge::prg_read;
use crate::error::NesError;
use crate::opcodes::{
    Access, Instruction, Mode, Op, base_cycles, cycles_of, decode, instruction_cycles,
    instruction_of, pays_page_cross,
};
use crate::utils::{check_cross_page, crosses_page, offset};

verus! {

/// The interrupts and their entry sequences.
#[derive(Debug, Clone, Copy, PartialEq, Eq, Structural)]
pub enum InterruptType {
    NMI,
    IRQ,
    RESET,
    BRK,
}

impl InterruptType {
    /// Where the handler's address is read from.
    pub open spec fn vector(self) -> u16 {
        match self {
            InterruptType::NMI => 0xFFFA,
            InterruptType::RESET => 0xFFFC,
            InterruptType::IRQ => 0xFFFE,
            InterruptType::BRK => 0xFFFE,
        }
    }

    /// The cycles the entry sequence spends before any push or vector read:
    /// RESET 5, NMI and IRQ 2, BRK 1 (its opcode fetch is counted by the step).
    pub open spec fn budget(self) -> nat {
        match self {
            InterruptType::RESET => 5,
            InterruptType::BRK => 1,
            _ => 2,
        }
    }

    /// Whether entry pushes the return address and status (RESET does not).
    pub open spec fn pushes(self) -> bool {
        self != InterruptType::RESET
    }
}

/// What the CPU holds: its registers, its pending interrupt lines, and the bus.
pub struct CpuView {
    pub pc: u16,
    pub sp: u8,
    pub a: u8,
    pub x: u8,
    pub y: u8,
    pub p: u8,
    pub nmi_pending: bool,
    pub irq_pending: bool,
    pub bus: BusView,
}

/// `v + 1` on 16 bits.
pub open spec fn inc16(v: u16) -> u16 {
    ((v + 1) % 0x10000) as u16
}

/// A 16-bit value from its two bytes, low first.
pub open spec fn word(lo: u8, hi: u8) -> u16 {
    (lo + hi * 256) as u16
}

impl CpuView {
    pub open spec fn wf(self) -> bool {
        self.bus.wf()
    }

    /// The address of the stack slot `sp` points at.
    pub open spec fn stack_slot(sp: u8) -> u16 {
        (0x0100 + sp) as u16
    }

    /// The state after pushing `v`: it lands at 0x0100 + sp, and sp wraps down.
    pub open spec fn pushed(self, v: u8) -> CpuView {
        CpuView {
            sp: ((self.sp + 255) % 256) as u8,
            bus: BusView { ram: self.bus.ram.update(0x0100 + self.sp, v), ..self.bus },
            ..self
        }
    }

    /// The state after a pop: sp wraps up.
    pub open spec fn popped(self) -> CpuView {
        CpuView { sp: ((self.sp + 1) % 256) as u8, ..self }
    }

    /// The byte a pop returns.
    pub open spec fn top(self) -> u8 {
        self.bus.ram[0x0100 + (self.sp + 1) % 256]
    }

    /// A read through the bus.
    pub open spec fn load(self, address: u16) -> (Result<u8, NesError>, CpuView) {
        let (r, b) = self.bus.read(address);
        (r, CpuView { bus: b, ..self })
    }

    /// A write through the bus.
    pub open spec fn store(self, address: u16, value: u8) -> (Result<(), NesError>, CpuView) {
        let (r, b) = self.bus.write(address, value);
        (r, CpuView { bus: b, ..self })
    }

    /// Reads the byte at pc and moves pc past it.
    pub open spec fn fetch(self) -> (Result<u8, NesError>, CpuView) {
        let (r, s) = self.load(self.pc);
        (r, CpuView { pc: inc16(self.pc), ..s })
    }

    /// Reads the little-endian word at pc and moves pc past it.
    pub open spec fn fetch2(self) -> (Result<u16, NesError>, CpuView) {
        let (r1, s1) = self.fetch();
        match r1 {
            Err(e) => (Err(e), s1),
            Ok(lo) => {
                let (r2, s2) = s1.fetch();
                match r2 {
                    Err(e) => (Err(e), s2),
                    Ok(hi) => (Ok(word(lo, hi)), s2),
                }
            },
        }
    }

    /// Reads a little-endian word whose low byte is at `lo_at` and high byte at `hi_at`.
    pub open spec fn load2(self, lo_at: u16, hi_at: u16) -> (Result<u16, NesError>, CpuView) {
        let (r1, s1) = self.load(lo_at);
        match r1 {
            Err(e) => (Err(e), s1),
            Ok(lo) => {
                let (r2, s2) = s1.load(hi_at);
                match r2 {
                    Err(e) => (Err(e), s2),
                    Ok(hi) => (Ok(word(lo, hi)), s2),
                }
            },
        }
    }

    /// Zero page: a byte from the instruction stream plus `index`, kept in page zero.
    pub open spec fn zero_page(self, index: u8) -> (Result<(u16, bool), NesError>, CpuView) {
        let (r, s) = self.fetch();
        match r {
            Err(e) => (Err(e), s),
            Ok(b) => (Ok((((b + index) % 256) as u16, false)), s),
        }
    }

    /// Absolute: a word from the instruction stream plus `index`; indexing may cross a page.
    pub open spec fn absolute(self, index: u8) -> (Result<(u16, bool), NesError>, CpuView) {
        let (r, s) = self.fetch2();
        match r {
            Err(e) => (Err(e), s),
            Ok(w) => (Ok((((w + index) % 0x10000) as u16, crosses_page(w, index))), s),
        }
    }

    /// Indirect (jumps only): the word at a pointer from the instruction stream;
    /// its high byte comes from the same page as its low byte.
    pub open spec fn indirect(self) -> (Result<(u16, bool), NesError>, CpuView) {
        let (r, s) = self.fetch2();
        match r {
            Err(e) => (Err(e), s),
            Ok(w) => {
                let hi_at = (w / 256 * 256 + (w + 1) % 0x10000 % 256) as u16;
                let (r2, s2) = s.load2(w, hi_at);
                match r2 {
                    Err(e) => (Err(e), s2),
                    Ok(t) => (Ok((t, false)), s2),
                }
            },
        }
    }

    /// Indexed indirect: the word at a zero-page pointer plus X.
    pub open spec fn indirect_x(self) -> (Result<(u16, bool), NesError>, CpuView) {
        let (r, s) = self.fetch();
        match r {
            Err(e) => (Err(e), s),
            Ok(b) => {
                let z = ((b + self.x) % 256) as u16;
                let (r2, s2) = s.load2(z, ((z + 1) % 256) as u16);
                match r2 {
                    Err(e) => (Err(e), s2),
                    Ok(w) => (Ok((w, false)), s2),
                }
            },
        }
    }

    /// Indirect indexed: the word at a zero-page pointer, plus Y; indexing may cross a page.
    pub open spec fn indirect_y(self) -> (Result<(u16, bool), NesError>, CpuView) {
        let (r, s) = self.fetch();
        match r {
            Err(e) => (Err(e), s),
            Ok(b) => {
                let (r2, s2) = s.load2(b as u16, ((b + 1) % 256) as u16);
                match r2 {
                    Err(e) => (Err(e), s2),
                    Ok(w) => (Ok((((w + self.y) % 0x10000) as u16, crosses_page(w, self.y))), s2),
                }
            },
        }
    }

    /// The operand address of `mode`, and whether indexing crossed a page.
    pub open spec fn operand_address(self, mode: Mode) -> (Result<(u16, bool), NesError>, CpuView) {
        match mode {
            Mode::Immediate => (Ok((self.pc, false)), CpuView { pc: inc16(self.pc), ..self }),
            Mode::ZeroPage => self.zero_page(0),
            Mode::ZeroPageX => self.zero_page(self.x),
            Mode::ZeroPageY => self.zero_page(self.y),
            Mode::Absolute => self.absolute(0),
            Mode::AbsoluteX => self.absolute(self.x),
            Mode::AbsoluteY => self.absolute(self.y),
            Mode::Indirect => self.indirect(),
            Mode::IndirectX => self.indirect_x(),
            Mode::IndirectY => self.indirect_y(),
            Mode::Implied => (Ok((0, false)), self),
        }
    }

    /// The operand byte of `mode`, and whether indexing crossed a page.
    pub open spec fn operand(self, mode: Mode) -> (Result<(u8, bool), NesError>, CpuView) {
        let (r, s) = self.operand_address(mode);
        match r {
            Err(e) => (Err(e), s),
            Ok((address, crossed)) => {
                let (r2, s2) = s.load(address);
                match r2 {
                    Err(e) => (Err(e), s2),
                    Ok(v) => (Ok((v, crossed)), s2),
                }
            },
        }
    }

    /// The registers after an operation that reads operand `v`.
    pub open spec fn after_read(self, op: Op, v: u8) -> CpuView {
        let a = self.a;
        let x = self.x;
        let p = self.p;
        match op {
            Op::Lda => CpuView { a: v, p: with_zn(p, v), ..self },
            Op::Ldx => CpuView { x: v, p: with_zn(p, v), ..self },
            Op::Ldy => CpuView { y: v, p: with_zn(p, v), ..self },
            Op::Adc => CpuView { a: adc_value(a, v, carry_in(p)), p: adc_flags(p, a, v), ..self },
            Op::Sbc | Op::SbcNop => CpuView {
                a: adc_value(a, !v, carry_in(p)),
                p: adc_flags(p, a, !v),
                ..self
            },
            Op::Cmp => CpuView { p: compare_flags(p, a, v), ..self },
            Op::Cpx => CpuView { p: compare_flags(p, x, v), ..self },
            Op::Cpy => CpuView { p: compare_flags(p, self.y, v), ..self },
            Op::And => CpuView { a: a & v, p: with_zn(p, a & v), ..self },
            Op::Ora => CpuView { a: a | v, p: with_zn(p, a | v), ..self },
            Op::Eor => CpuView { a: a ^ v, p: with_zn(p, a ^ v), ..self },
            Op::Bit => CpuView {
                p: set_flag(
                    set_flag(set_flag(p, ZERO, a & v == 0), OVERFLOW, v & 0x40 != 0),
                    NEGATIVE,
                    v & 0x80 != 0,
                ),
                ..self
            },
            Op::Lax => CpuView { a: v, x: v, p: with_zn(p, v), ..self },
            Op::Anc => CpuView {
                a: a & v,
                p: set_flag(with_zn(p, a & v), CARRY, a & v >= 0x80),
                ..self
            },
            Op::Alr => CpuView {
                a: (a & v) / 2,
                p: with_zn(set_flag(p, CARRY, (a & v) % 2 == 1), (a & v) / 2),
                ..self
            },
            Op::Arr => {
                let r = ((a & v) / 2 + carry_in(p) * 128) as u8;
                let bit6 = (r / 64) % 2;
                let bit5 = (r / 32) % 2;
                CpuView {
                    a: r,
                    p: with_zn(set_flag(set_flag(p, CARRY, bit6 == 1), OVERFLOW, bit6 != bit5), r),
                    ..self
                }
            },
            Op::Xaa => CpuView { a: x & v, p: with_zn(with_zn(p, x), x & v), ..self },
            Op::Lxa => CpuView { a: v, x: v, p: with_zn(with_zn(p, v), v), ..self },
            Op::Axs => CpuView {
                x: (((a & x) - v) % 256) as u8,
                p: with_zn(set_flag(p, CARRY, a & x >= v), (((a & x) - v) % 256) as u8),
                ..self
            },
            Op::Las => CpuView {
                a: v & self.sp,
                x: v & self.sp,
                sp: v & self.sp,
                p: with_zn(p, v & self.sp),
                ..self
            },
            _ => self,
        }
    }

    /// The address a store writes to and the byte it writes; `crossed` says
    /// whether indexing crossed a page. The bytes that SHX, SHY, TAS and AHX
    /// store follow a common approximation of unstable hardware behaviour.
    pub open spec fn store_target(self, op: Op, address: u16, crossed: bool) -> (u16, u8) {
        let hi1 = ((address / 256 + 1) % 256) as u8;
        match op {
            Op::Sta => (address, self.a),
            Op::Stx => (address, self.x),
            Op::Sty => (address, self.y),
            Op::Sax => (address, self.a & self.x),
            Op::Ahx => (address, self.a & self.x & ((address / 256) as u8)),
            Op::Shx => {
                let t = if crossed {
                    address & ((self.x as u16) * 256) as u16
                } else {
                    address
                };
                (t, self.x & (((t / 256 + 1) % 256) as u8))
            },
            Op::Shy => {
                let t = if crossed {
                    address & ((self.y as u16) * 256) as u16
                } else {
                    address
                };
                (t, self.y & (((t / 256 + 1) % 256) as u8))
            },
            _ => (address, self.x & self.a & hi1),
        }
    }

    /// What a store does; TAS first sets sp to `a & x`.
    pub open spec fn store_op(self, op: Op, address: u16, crossed: bool) -> (Result<(), NesError>, CpuView) {
        let s = if op == Op::Tas {
            CpuView { sp: self.x & self.a, ..self }
        } else {
            self
        };
        let (t, v) = self.store_target(op, address, crossed);
        s.store(t, v)
    }

    /// The byte and status a read-modify-write operation produces from `v`.
    pub open spec fn modified(op: Op, p: u8, v: u8) -> (u8, u8) {
        match op {
            Op::Asl | Op::Slo => (asl_value(v), with_zn(set_flag(p, CARRY, v >= 0x80), asl_value(v))),
            Op::Lsr | Op::Sre => (v / 2, with_zn(set_flag(p, CARRY, v % 2 == 1), (v / 2) as u8)),
            Op::Rol | Op::Rla => (rol_value(p, v), with_zn(set_flag(p, CARRY, v >= 0x80), rol_value(p, v))),
            Op::Ror | Op::Rra => (ror_value(p, v), with_zn(set_flag(p, CARRY, v % 2 == 1), ror_value(p, v))),
            Op::Inc | Op::Isc => (((v + 1) % 256) as u8, with_zn(p, ((v + 1) % 256) as u8)),
            _ => (((v + 255) % 256) as u8, with_zn(p, ((v + 255) % 256) as u8)),
        }
    }

    /// The registers after a combined operation uses the rewritten byte `m`.
    pub open spec fn after_modify(self, op: Op, m: u8) -> CpuView {
        let a = self.a;
        let p = self.p;
        match op {
            Op::Slo => CpuView { a: a | m, p: with_zn(p, a | m), ..self },
            Op::Rla => CpuView { a: a & m, p: with_zn(p, a & m), ..self },
            Op::Sre => CpuView { a: a ^ m, p: with_zn(p, a ^ m), ..self },
            Op::Rra => CpuView { a: adc_value(a, m, carry_in(p)), p: adc_flags(p, a, m), ..self },
            Op::Dcp => CpuView { p: compare_flags(p, a, m), ..self },
            Op::Isc => CpuView { a: adc_value(a, !m, carry_in(p)), p: adc_flags(p, a, !m), ..self },
            _ => self,
        }
    }

    /// Reads the byte at `address`, rewrites it, writes it back, and applies
    /// the combined operation's register effect.
    pub open spec fn modify_op(self, op: Op, address: u16) -> (Result<(), NesError>, CpuView) {
        let (r1, s1) = self.load(address);
        match r1 {
            Err(e) => (Err(e), s1),
            Ok(v) => {
                let (m, p2) = CpuView::modified(op, self.p, v);
                let (r2, s2) = CpuView { p: p2, ..s1 }.store(address, m);
                match r2 {
                    Err(e) => (Err(e), s2),
                    Ok(_) => (Ok(()), s2.after_modify(op, m)),
                }
            },
        }
    }

    /// The registers after an operation with no operand that touches no memory.
    pub open spec fn implied(self, op: Op) -> CpuView {
        let p = self.p;
        match op {
            Op::AslA => CpuView {
                a: asl_value(self.a),
                p: with_zn(set_flag(p, CARRY, self.a >= 0x80), asl_value(self.a)),
                ..self
            },
            Op::LsrA => CpuView {
                a: self.a / 2,
                p: with_zn(set_flag(p, CARRY, self.a % 2 == 1), (self.a / 2) as u8),
                ..self
            },
            Op::RolA => CpuView {
                a: rol_value(p, self.a),
                p: with_zn(set_flag(p, CARRY, self.a >= 0x80), rol_value(p, self.a)),
                ..self
            },
            Op::RorA => CpuView {
                a: ror_value(p, self.a),
                p: with_zn(set_flag(p, CARRY, self.a % 2 == 1), ror_value(p, self.a)),
                ..self
            },
            Op::Inx => CpuView { x: ((self.x + 1) % 256) as u8, p: with_zn(p, ((self.x + 1) % 256) as u8), ..self },
            Op::Dex => CpuView { x: ((self.x + 255) % 256) as u8, p: with_zn(p, ((self.x + 255) % 256) as u8), ..self },
            Op::Iny => CpuView { y: ((self.y + 1) % 256) as u8, p: with_zn(p, ((self.y + 1) % 256) as u8), ..self },
            Op::Dey => CpuView { y: ((self.y + 255) % 256) as u8, p: with_zn(p, ((self.y + 255) % 256) as u8), ..self },
            Op::Tax => CpuView { x: self.a, p: with_zn(p, self.a), ..self },
            Op::Tay => CpuView { y: self.a, p: with_zn(p, self.a), ..self },
            Op::Txa => CpuView { a: self.x, p: with_zn(p, self.x), ..self },
            Op::Tya => CpuView { a: self.y, p: with_zn(p, self.y), ..self },
            Op::Txs => CpuView { sp: self.x, ..self },
            Op::Tsx => CpuView { x: self.sp, p: with_zn(p, self.sp), ..self },
            Op::Clc => CpuView { p: set_flag(p, CARRY, false), ..self },
            Op::Sec => CpuView { p: set_flag(p, CARRY, true), ..self },
            Op::Cli => CpuView { p: set_flag(p, IRQ_DISABLE, false), ..self },
            Op::Sei => CpuView { p: set_flag(p, IRQ_DISABLE, true), ..self },
            Op::Clv => CpuView { p: set_flag(p, OVERFLOW, false), ..self },
            Op::Cld => CpuView { p: set_flag(p, DECIMAL, false), ..self },
            Op::Sed => CpuView { p: set_flag(p, DECIMAL, true), ..self },
            _ => self,
        }
    }

    /// Whether a branch operation's condition holds.
    pub open spec fn branch_condition(self, op: Op) -> bool {
        match op {
            Op::Bpl => !flag(self.p, NEGATIVE),
            Op::Bmi => flag(self.p, NEGATIVE),
            Op::Bvc => !flag(self.p, OVERFLOW),
            Op::Bvs => flag(self.p, OVERFLOW),
            Op::Bcc => !flag(self.p, CARRY),
            Op::Bcs => flag(self.p, CARRY),
            Op::Bne => !flag(self.p, ZERO),
            _ => flag(self.p, ZERO),
        }
    }

    /// A relative branch: reads the signed offset and, when `condition`
    /// holds, moves pc by it. Reports whether it was taken and whether the
    /// target lies on another page.
    pub open spec fn branch(self, condition: bool) -> (Result<(bool, bool), NesError>, CpuView) {
        let (r, s) = self.fetch();
        match r {
            Err(e) => (Err(e), s),
            Ok(offset) => if condition {
                let target = ((s.pc + signed(offset)) % 0x10000) as u16;
                (Ok((true, target / 256 != s.pc / 256)), CpuView { pc: target, ..s })
            } else {
                (Ok((false, false)), s)
            },
        }
    }

    /// The interrupt entry sequence. An IRQ while IRQ-disable is set is
    /// ignored: nothing changes. Otherwise: spend the kind's fixed budget of
    /// cycles; unless it is RESET, push pc (high byte first) and the status
    /// with the Push bit set and the Break bit set for BRK only, clear for NMI
    /// and IRQ; set IRQ-disable (and Break for BRK) except on RESET; load pc
    /// from the kind's vector.
    pub open spec fn interrupt(self, kind: InterruptType) -> (Result<(), NesError>, CpuView) {
        if kind == InterruptType::IRQ && flag(self.p, IRQ_DISABLE) {
            (Ok(()), self)
        } else {
            self.advanced(kind.budget()).enter(kind)
        }
    }

    /// The pushes, flag changes and vector load of an interrupt entry.
    pub open spec fn enter(self, kind: InterruptType) -> (Result<(), NesError>, CpuView) {
        let status = if kind == InterruptType::BRK {
            self.p | PUSH | BREAK
        } else {
            (self.p | PUSH) & !BREAK
        };
        let s1 = if kind.pushes() {
            self.pushed((self.pc / 256) as u8).pushed((self.pc % 256) as u8).pushed(status)
        } else {
            self
        };
        let s2 = match kind {
            InterruptType::RESET => s1,
            InterruptType::BRK => CpuView {
                p: set_flag(set_flag(s1.p, IRQ_DISABLE, true), BREAK, true),
                ..s1
            },
            _ => CpuView { p: set_flag(s1.p, IRQ_DISABLE, true), ..s1 },
        };
        let (r, s3) = s2.load2(kind.vector(), (kind.vector() + 1) as u16);
        match r {
            Err(e) => (Err(e), s3),
            Ok(t) => (Ok(()), CpuView { pc: t, ..s3 }),
        }
    }

    /// A subroutine call: pushes the address of the call's last byte (high
    /// byte first) and jumps to the absolute operand.
    pub open spec fn jsr_op(self) -> (Result<(), NesError>, CpuView) {
        let (r, s) = self.absolute(0);
        match r {
            Err(e) => (Err(e), s),
            Ok((t, _)) => {
                let ret = ((s.pc + 0xFFFF) % 0x10000) as u16;
                (Ok(()), CpuView { pc: t, ..s.pushed((ret / 256) as u8).pushed((ret % 256) as u8) })
            },
        }
    }

    /// A software interrupt: pc first skips the padding byte after the opcode.
    pub open spec fn brk_op(self) -> (Result<(), NesError>, CpuView) {
        CpuView { pc: inc16(self.pc), ..self }.interrupt(InterruptType::BRK)
    }

    /// Stack operations, jumps, calls and returns, and NOP.
    pub open spec fn other_op(self, op: Op, mode: Mode) -> (Result<(), NesError>, CpuView) {
        match op {
            Op::Pha => (Ok(()), self.pushed(self.a)),
            Op::Pla => (Ok(()), CpuView { a: self.top(), p: with_zn(self.p, self.top()), ..self.popped() }),
            Op::Php => (Ok(()), self.pushed(self.p | PUSH | BREAK)),
            Op::Plp => (Ok(()), CpuView { p: self.top() & !(PUSH | BREAK), ..self.popped() }),
            Op::Jmp => {
                let (r, s) = self.operand_address(mode);
                match r {
                    Err(e) => (Err(e), s),
                    Ok((t, _)) => (Ok(()), CpuView { pc: t, ..s }),
                }
            },
            Op::Jsr => self.jsr_op(),
            Op::Rts => (
                Ok(()),
                CpuView {
                    pc: inc16(word(self.top(), self.popped().top())),
                    ..self.popped().popped()
                },
            ),
            Op::Rti => (
                Ok(()),
                CpuView {
                    p: self.top(),
                    pc: word(self.popped().top(), self.popped().popped().top()),
                    ..self.popped().popped().popped()
                },
            ),
            Op::Brk => self.brk_op(),
            _ => (Ok(()), self.implied(op)),
        }
    }

    /// One instruction, after its opcode was fetched: the cycles it takes and
    /// the state after it.
    pub open spec fn execute(self, i: Instruction) -> (Result<u8, NesError>, CpuView) {
        let plain = cycles_of(i, false, false, false) as u8;
        match i.op.spec_access() {
            Access::Read => {
                let (r, s) = self.operand(i.mode);
                match r {
                    Err(e) => (Err(e), s),
                    Ok((v, crossed)) => (Ok(cycles_of(i, crossed, false, false) as u8), s.after_read(i.op, v)),
                }
            },
            Access::Write => {
                let (r, s) = self.operand_address(i.mode);
                match r {
                    Err(e) => (Err(e), s),
                    Ok((address, crossed)) => {
                        let (r2, s2) = s.store_op(i.op, address, crossed);
                        match r2 {
                            Err(e) => (Err(e), s2),
                            Ok(_) => (Ok(plain), s2),
                        }
                    },
                }
            },
            Access::Modify => {
                let (r, s) = self.operand_address(i.mode);
                match r {
                    Err(e) => (Err(e), s),
                    Ok((address, _)) => {
                        let (r2, s2) = s.modify_op(i.op, address);
                        match r2 {
                            Err(e) => (Err(e), s2),
                            Ok(_) => (Ok(plain), s2),
                        }
                    },
                }
            },
            Access::Branch => {
                let (r, s) = self.branch(self.branch_condition(i.op));
                match r {
                    Err(e) => (Err(e), s),
                    Ok((taken, crossed)) => (Ok(cycles_of(i, false, taken, crossed) as u8), s),
                }
            },
            Access::Other => {
                let (r, s) = self.other_op(i.op, i.mode);
                match r {
                    Err(e) => (Err(e), s),
                    Ok(_) => (Ok(plain), s),
                }
            },
        }
    }

    /// The state after `n` more bus cycles.
    pub open spec fn advanced(self, n: nat) -> CpuView {
        CpuView {
            bus: BusView { cycles: ((self.bus.cycles + n) % 0x1_0000_0000_0000_0000) as u64, ..self.bus },
            ..self
        }
    }

    /// One step: wait out a stall cycle, or enter a pending NMI, or a pending
    /// IRQ unless IRQ-disable is set, or fetch, decode and run one instruction.
    /// Returns the cycles consumed, which the bus counter has advanced by.
    pub open spec fn step(self) -> (Result<u8, NesError>, CpuView) {
        if self.bus.stall_cycles > 0 {
            (
                Ok(1),
                CpuView {
                    bus: BusView { stall_cycles: (self.bus.stall_cycles - 1) as u8, ..self.bus },
                    ..self
                }.advanced(1),
            )
        } else if self.nmi_pending {
            let (r, s) = CpuView { nmi_pending: false, ..self }.interrupt(InterruptType::NMI);
            match r {
                Err(e) => (Err(e), s),
                Ok(_) => (Ok(7), s.advanced(5)),
            }
        } else if self.irq_pending && !flag(self.p, IRQ_DISABLE) {
            let (r, s) = CpuView { irq_pending: false, ..self }.interrupt(InterruptType::IRQ);
            match r {
                Err(e) => (Err(e), s),
                Ok(_) => (Ok(7), s.advanced(5)),
            }
        } else {
            let (r, s) = self.fetch();
            match r {
                Err(e) => (Err(e), s),
                Ok(opcode) => match instruction_of(opcode) {
                    None => (Err(NesError::IllegalOpcode { opcode, pc: self.pc }), s),
                    Some(i) => {
                        let (r2, s2) = s.execute(i);
                        match r2 {
                            Err(e) => (Err(e), s2),
                            // BRK has already spent its entry budget.
                            Ok(c) => (Ok(c), s2.advanced((c - if i.op == Op::Brk {
                                1int
                            } else {
                                0
                            }) as nat)),
                        }
                    },
                },
            }
        }
    }
}

/// The byte and status that a read-modify-write operation makes of `v`.
fn modify_value(op: Op, p: u8, v: u8) -> (r: (u8, u8))
    ensures
        r == CpuView::modified(op, p, v),
{
    match op {
        Op::Asl | Op::Slo => shift_left(p, v),
        Op::Lsr | Op::Sre => shift_right(p, v),
        Op::Rol | Op::Rla => rotate_left(p, v),
        Op::Ror | Op::Rra => rotate_right(p, v),
        Op::Inc | Op::Isc => {
            let m = v.wrapping_add(1);
            (m, update_zero_and_negative(p, m))
        },
        _ => {
            let m = v.wrapping_sub(1);
            (m, update_zero_and_negative(p, m))
        },
    }
}

pub struct CPU {
    pub pc: u16,
    pub sp: u8,
    pub a: u8,
    pub x: u8,
    pub y: u8,
    pub p: u8,
    pub nmi_pending: bool,
    pub irq_pending: bool,
    pub bus: SystemBus,
}

impl View for CPU {
    type V = CpuView;

    open spec fn view(&self) -> CpuView {
        CpuView {
            pc: self.pc,
            sp: self.sp,
            a: self.a,
            x: self.x,
            y: self.y,
            p: self.p,
            nmi_pending: self.nmi_pending,
            irq_pending: self.irq_pending,
            bus: self.bus@,
        }
    }
}

impl CPU {
    pub fn new() -> (r: CPU)
        ensures
            r@.wf(),
            r.pc == 0 && r.sp == 0 && r.a == 0 && r.x == 0 && r.y == 0 && r.p == 0,
            !r.nmi_pending && !r.irq_pending,
            r.bus@.cycles == 0 && r.bus@.stall_cycles == 0,
            r.bus@.vram.cartridge is None,
    {
        CPU {
            pc: 0,
            sp: 0,
            a: 0,
            x: 0,
            y: 0,
            p: 0,
            nmi_pending: false,
            irq_pending: false,
            bus: SystemBus::new(),
        }
    }

    pub fn reset_registers(&mut self)
        ensures
            final(self)@ == (CpuView { sp: 0xFF, p: 0x34, ..old(self)@ }),
    {
        self.sp = 0xFF;
        self.p = 0x34;
    }

    /// Reads through the bus.
    pub fn read(&mut self, address: u16) -> (r: Result<u8, NesError>)
        requires
            old(self)@.wf(),
        ensures
            (r, final(self)@) == old(self)@.load(address),
            final(self)@.wf(),
    {
        self.bus.read(address)
    }

    /// Writes through the bus.
    pub fn write(&mut self, address: u16, value: u8) -> (r: Result<(), NesError>)
        requires
            old(self)@.wf(),
        ensures
            (r, final(self)@) == old(self)@.store(address, value),
            final(self)@.wf(),
    {
        self.bus.write(address, value)
    }

    pub fn pop_byte(&mut self) -> (r: u8)
        requires
            old(self)@.wf(),
        ensures
            r == old(self)@.top(),
            final(self)@ == old(self)@.popped(),
    {
        reveal(BusView::read);
        self.sp = self.sp.wrapping_add(1);
        let address = 0x0100 + (self.sp as u16);
        match self.bus.read(address) {
            Ok(v) => v,
            Err(_) => 0,
        }
    }

    pub fn push_byte(&mut self, data: u8)
        requires
            old(self)@.wf(),
        ensures
            final(self)@ == old(self)@.pushed(data),
            final(self)@.wf(),
    {
        reveal(BusView::write);
        let address = 0x0100 + (self.sp as u16);
        let _ = self.bus.write(address, data);
        self.sp = self.sp.wrapping_sub(1);
    }

    /// Pushes a word, high byte first.
    pub fn push_2bytes(&mut self, data: u16)
        requires
            old(self)@.wf(),
        ensures
            final(self)@ == old(self)@.pushed((data / 256) as u8).pushed((data % 256) as u8),
            final(self)@.wf(),
    {
        assert((data >> 8) as u8 == data / 256 && data as u8 == data % 256) by (bit_vector);
        self.push_byte((data >> 8) as u8);
        self.push_byte(data as u8);
    }

    /// Pops a word, low byte first.
    pub fn pop_2bytes(&mut self) -> (r: u16)
        requires
            old(self)@.wf(),
        ensures
            r == word(old(self)@.top(), old(self)@.popped().top()),
            final(self)@ == old(self)@.popped().popped(),
    {
        let lo = self.pop_byte();
        let hi = self.pop_byte();
        assert((lo as u16) | ((hi as u16) << 8) == lo + hi * 256) by (bit_vector);
        (lo as u16) | ((hi as u16) << 8)
    }

    pub fn incrase_pc(&mut self)
        ensures
            final(self)@ == (CpuView { pc: inc16(old(self).pc), ..old(self)@ }),
    {
        self.pc = self.pc.wrapping_add(1);
    }

    pub fn next_byte(&mut self) -> (r: Result<u8, NesError>)
        requires
            old(self)@.wf(),
        ensures
            (r, final(self)@) == old(self)@.fetch(),
            final(self)@.wf(),
    {
        let address = self.pc;
        self.incrase_pc();
        self.bus.read(address)
    }

    pub fn next_2bytes(&mut self) -> (r: Result<u16, NesError>)
        requires
            old(self)@.wf(),
        ensures
            (r, final(self)@) == old(self)@.fetch2(),
            final(self)@.wf(),
    {
        let lo = match self.next_byte() {
            Ok(v) => v,
            Err(e) => return Err(e),
        };
        let hi = match self.next_byte() {
            Ok(v) => v,
            Err(e) => return Err(e),
        };
        Ok(lo as u16 + (hi as u16) * 256)
    }

    /// Reads a word whose bytes lie at `lo_at` and `hi_at`.
    fn read_2bytes(&mut self, lo_at: u16, hi_at: u16) -> (r: Result<u16, NesError>)
        requires
            old(self)@.wf(),
        ensures
            (r, final(self)@) == old(self)@.load2(lo_at, hi_at),
            final(self)@.wf(),
    {
        let lo = match self.read(lo_at) {
            Ok(v) => v,
            Err(e) => return Err(e),
        };
        let hi = match self.read(hi_at) {
            Ok(v) => v,
            Err(e) => return Err(e),
        };
        Ok(lo as u16 + (hi as u16) * 256)
    }

    fn zero_page_address(&mut self, index: u8) -> (r: Result<(u16, bool), NesError>)
        requires
            old(self)@.wf(),
        ensures
            (r, final(self)@) == old(self)@.zero_page(index),
            final(self)@.wf(),
    {
        match self.next_byte() {
            Ok(b) => Ok((b.wrapping_add(index) as u16, false)),
            Err(e) => Err(e),
        }
    }

    fn absolute_address(&mut self, index: u8) -> (r: Result<(u16, bool), NesError>)
        requires
            old(self)@.wf(),
        ensures
            (r, final(self)@) == old(self)@.absolute(index),
            final(self)@.wf(),
    {
        match self.next_2bytes() {
            Ok(w) => Ok((offset(w, index), check_cross_page(w, index))),
            Err(e) => Err(e),
        }
    }

    fn indirect_address(&mut self) -> (r: Result<(u16, bool), NesError>)
        requires
            old(self)@.wf(),
        ensures
            (r, final(self)@) == old(self)@.indirect(),
            final(self)@.wf(),
    {
        let w = match self.next_2bytes() {
            Ok(w) => w,
            Err(e) => return Err(e),
        };
        let w1 = w.wrapping_add(1);
        let hi_at = (w & 0xFF00) | (w1 & 0x00FF);
        assert(hi_at == w / 256 * 256 + w1 % 256) by (bit_vector)
            requires
                hi_at == (w & 0xFF00) | (w1 & 0x00FF),
        ;
        match self.read_2bytes(w, hi_at) {
            Ok(t) => Ok((t, false)),
            Err(e) => Err(e),
        }
    }

    fn indirect_x_address(&mut self) -> (r: Result<(u16, bool), NesError>)
        requires
            old(self)@.wf(),
        ensures
            (r, final(self)@) == old(self)@.indirect_x(),
            final(self)@.wf(),
    {
        let b = match self.next_byte() {
            Ok(b) => b,
            Err(e) => return Err(e),
        };
        let z = b.wrapping_add(self.x);
        match self.read_2bytes(z as u16, z.wrapping_add(1) as u16) {
            Ok(t) => Ok((t, false)),
            Err(e) => Err(e),
        }
    }

    fn indirect_y_address(&mut self) -> (r: Result<(u16, bool), NesError>)
        requires
            old(self)@.wf(),
        ensures
            (r, final(self)@) == old(self)@.indirect_y(),
            final(self)@.wf(),
    {
        let b = match self.next_byte() {
            Ok(b) => b,
            Err(e) => return Err(e),
        };
        match self.read_2bytes(b as u16, b.wrapping_add(1) as u16) {
            Ok(w) => Ok((offset(w, self.y), check_cross_page(w, self.y))),
            Err(e) => Err(e),
        }
    }

    /// Resolves the operand address of `mode`, reporting whether indexing
    /// crossed a page.
    pub fn get_operand_address(&mut self, mode: Mode) -> (r: Result<(u16, bool), NesError>)
        requires
            old(self)@.wf(),
        ensures
            (r, final(self)@) == old(self)@.operand_address(mode),
            final(self)@.wf(),
    {
        match mode {
            Mode::Immediate => {
                let temp = self.pc;
                self.incrase_pc();
                Ok((temp, false))
            },
            Mode::ZeroPage => self.zero_page_address(0),
            Mode::ZeroPageX => self.zero_page_address(self.x),
            Mode::ZeroPageY => self.zero_page_address(self.y),
            Mode::Absolute => self.absolute_address(0),
            Mode::AbsoluteX => self.absolute_address(self.x),
            Mode::AbsoluteY => self.absolute_address(self.y),
            Mode::Indirect => self.indirect_address(),
            Mode::IndirectX => self.indirect_x_address(),
            Mode::IndirectY => self.indirect_y_address(),
            Mode::Implied => Ok((0, false)),
        }
    }

    /// Reads the operand of `mode`, reporting whether indexing crossed a page.
    fn fetch_operand(&mut self, mode: Mode) -> (r: Result<(u8, bool), NesError>)
        requires
            old(self)@.wf(),
        ensures
            (r, final(self)@) == old(self)@.operand(mode),
            final(self)@.wf(),
    {
        let (address, crossed) = match self.get_operand_address(mode) {
            Ok(t) => t,
            Err(e) => return Err(e),
        };
        match self.read(address) {
            Ok(v) => Ok((v, crossed)),
            Err(e) => Err(e),
        }
    }

    fn lda(&mut self, operand: u8)
        ensures
            final(self)@ == old(self)@.after_read(Op::Lda, operand),
    {
        self.p = update_zero_and_negative(self.p, operand);
        self.a = operand;
    }

    fn ldx(&mut self, operand: u8)
        ensures
            final(self)@ == old(self)@.after_read(Op::Ldx, operand),
    {
        self.p = update_zero_and_negative(self.p, operand);
        self.x = operand;
    }

    fn ldy(&mut self, operand: u8)
        ensures
            final(self)@ == old(self)@.after_read(Op::Ldy, operand),
    {
        self.p = update_zero_and_negative(self.p, operand);
        self.y = operand;
    }

    pub fn adc(&mut self, operand: u8)
        ensures
            final(self)@ == old(self)@.after_read(Op::Adc, operand),
    {
        let (result, p) = add_with_carry(self.p, self.a, operand);
        self.a = result;
        self.p = p;
    }

    /// Subtracts with borrow: `a + !operand + carry`.
    pub fn sbc(&mut self, operand: u8)
        ensures
            final(self)@ == old(self)@.after_read(Op::Sbc, operand),
    {
        let (result, p) = add_with_carry(self.p, self.a, !operand);
        self.a = result;
        self.p = p;
    }

    fn cmp(&mut self, operand: u8)
        ensures
            final(self)@ == old(self)@.after_read(Op::Cmp, operand),
    {
        self.p = compare(self.p, self.a, operand);
    }

    fn cpx(&mut self, operand: u8)
        ensures
            final(self)@ == old(self)@.after_read(Op::Cpx, operand),
    {
        self.p = compare(self.p, self.x, operand);
    }

    fn cpy(&mut self, operand: u8)
        ensures
            final(self)@ == old(self)@.after_read(Op::Cpy, operand),
    {
        self.p = compare(self.p, self.y, operand);
    }

    fn and(&mut self, operand: u8)
        ensures
            final(self)@ == old(self)@.after_read(Op::And, operand),
    {
        let result = self.a & operand;
        self.p = update_zero_and_negative(self.p, result);
        self.a = result;
    }

    fn ora(&mut self, operand: u8)
        ensures
            final(self)@ == old(self)@.after_read(Op::Ora, operand),
    {
        let result = self.a | operand;
        self.p = update_zero_and_negative(self.p, result);
        self.a = result;
    }

    fn eor(&mut self, operand: u8)
        ensures
            final(self)@ == old(self)@.after_read(Op::Eor, operand),
    {
        let result = self.a ^ operand;
        self.p = update_zero_and_negative(self.p, result);
        self.a = result;
    }

    fn bit(&mut self, operand: u8)
        ensures
            final(self)@ == old(self)@.after_read(Op::Bit, operand),
    {
        let p = update_flag(self.p, ZERO, self.a & operand == 0);
        let p = update_flag(p, OVERFLOW, operand & 0b0100_0000 != 0);
        self.p = update_flag(p, NEGATIVE, operand & 0b1000_0000 != 0);
    }

    fn lax(&mut self, operand: u8)
        ensures
            final(self)@ == old(self)@.after_read(Op::Lax, operand),
    {
        self.lda(operand);
        self.x = self.a;
    }

    fn anc(&mut self, operand: u8)
        ensures
            final(self)@ == old(self)@.after_read(Op::Anc, operand),
    {
        let result = self.a & operand;
        assert((result & 0b1000_0000 != 0) == (result >= 0x80)) by (bit_vector);
        self.p = update_zero_and_negative(self.p, result);
        self.p = update_flag(self.p, CARRY, result & 0b1000_0000 != 0);
        self.a = result;
    }

    fn alr(&mut self, operand: u8)
        ensures
            final(self)@ == old(self)@.after_read(Op::Alr, operand),
    {
        let (result, p) = shift_right(self.p, self.a & operand);
        self.p = p;
        self.a = result;
    }

    /// AND, then rotate right, with Carry and Overflow taken from bits 6 and 5.
    fn arr(&mut self, operand: u8)
        ensures
            final(self)@ == old(self)@.after_read(Op::Arr, operand),
    {
        let (result, _) = rotate_right(self.p, self.a & operand);
        let bit_6 = (result >> 6) & 1;
        let bit_5 = (result >> 5) & 1;
        assert(bit_6 == (result / 64) % 2 && bit_5 == (result / 32) % 2) by (bit_vector)
            requires
                bit_6 == (result >> 6) & 1,
                bit_5 == (result >> 5) & 1,
        ;
        let p = update_flag(self.p, CARRY, bit_6 == 1);
        let p = update_flag(p, OVERFLOW, bit_6 ^ bit_5 == 1);
        assert((bit_6 ^ bit_5 == 1) == (bit_6 != bit_5)) by (bit_vector)
            requires
                bit_6 <= 1,
                bit_5 <= 1,
        ;
        self.p = update_zero_and_negative(p, result);
        self.a = result;
    }

    fn xaa(&mut self, operand: u8)
        ensures
            final(self)@ == old(self)@.after_read(Op::Xaa, operand),
    {
        self.txa();
        self.and(operand);
    }

    fn lxa(&mut self, operand: u8)
        ensures
            final(self)@ == old(self)@.after_read(Op::Lxa, operand),
    {
        self.lda(operand);
        self.tax();
    }

    /// X becomes `(a & x) - operand`, with Carry as for a compare.
    fn axs(&mut self, operand: u8)
        ensures
            final(self)@ == old(self)@.after_read(Op::Axs, operand),
    {
        let t = self.a & self.x;
        let result = t.wrapping_sub(operand);
        assert(result == ((t - operand) % 256) as u8);
        let p = update_flag(self.p, CARRY, t >= operand);
        let p = update_zero_and_negative(p, result);
        self.p = p;
        self.x = result;
    }

    fn sbc_nop(&mut self, operand: u8)
        ensures
            final(self)@ == old(self)@.after_read(Op::SbcNop, operand),
    {
        self.sbc(operand);
    }

    fn las(&mut self, operand: u8)
        ensures
            final(self)@ == old(self)@.after_read(Op::Las, operand),
    {
        let result = operand & self.sp;
        self.a = result;
        self.x = result;
        self.sp = result;
        self.p = update_zero_and_negative(self.p, result);
    }

    /// Runs an operation that reads one operand byte.
    fn execute_read(&mut self, op: Op, operand: u8)
        requires
            op.spec_access() == Access::Read,
        ensures
            final(self)@ == old(self)@.after_read(op, operand),
    {
        match op {
            Op::Lda => self.lda(operand),
            Op::Ldx => self.ldx(operand),
            Op::Ldy => self.ldy(operand),
            Op::Adc => self.adc(operand),
            Op::Sbc => self.sbc(operand),
            Op::Cmp => self.cmp(operand),
            Op::Cpx => self.cpx(operand),
            Op::Cpy => self.cpy(operand),
            Op::And => self.and(operand),
            Op::Ora => self.ora(operand),
            Op::Eor => self.eor(operand),
            Op::Bit => self.bit(operand),
            Op::Lax => self.lax(operand),
            Op::Anc => self.anc(operand),
            Op::Alr => self.alr(operand),
            Op::Arr => self.arr(operand),
            Op::Xaa => self.xaa(operand),
            Op::Lxa => self.lxa(operand),
            Op::Axs => self.axs(operand),
            Op::SbcNop => self.sbc_nop(operand),
            Op::Las => self.las(operand),
            _ => {},
        }
    }

    fn asl_a(&mut self)
        ensures
            final(self)@ == old(self)@.implied(Op::AslA),
    {
        let (result, p) = shift_left(self.p, self.a);
        self.p = p;
        self.a = result;
    }

    fn lsr_a(&mut self)
        ensures
            final(self)@ == old(self)@.implied(Op::LsrA),
    {
        let (result, p) = shift_right(self.p, self.a);
        self.p = p;
        self.a = result;
    }

    fn rol_a(&mut self)
        ensures
            final(self)@ == old(self)@.implied(Op::RolA),
    {
        let (result, p) = rotate_left(self.p, self.a);
        self.p = p;
        self.a = result;
    }

    fn ror_a(&mut self)
        ensures
            final(self)@ == old(self)@.implied(Op::RorA),
    {
        let (result, p) = rotate_right(self.p, self.a);
        self.p = p;
        self.a = result;
    }

    fn inx(&mut self)
        ensures
            final(self)@ == old(self)@.implied(Op::Inx),
    {
        let result = self.x.wrapping_add(1);
        self.p = update_zero_and_negative(self.p, result);
        self.x = result;
    }

    fn dex(&mut self)
        ensures
            final(self)@ == old(self)@.implied(Op::Dex),
    {
        let result = self.x.wrapping_sub(1);
        self.p = update_zero_and_negative(self.p, result);
        self.x = result;
    }

    fn iny(&mut self)
        ensures
            final(self)@ == old(self)@.implied(Op::Iny),
    {
        let result = self.y.wrapping_add(1);
        self.p = update_zero_and_negative(self.p, result);
        self.y = result;
    }

    fn dey(&mut self)
        ensures
            final(self)@ == old(self)@.implied(Op::Dey),
    {
        let result = self.y.wrapping_sub(1);
        self.p = update_zero_and_negative(self.p, result);
        self.y = result;
    }

    fn tax(&mut self)
        ensures
            final(self)@ == old(self)@.implied(Op::Tax),
    {
        let result = self.a;
        self.p = update_zero_and_negative(self.p, result);
        self.x = result;
    }

    fn tay(&mut self)
        ensures
            final(self)@ == old(self)@.implied(Op::Tay),
    {
        let result = self.a;
        self.p = update_zero_and_negative(self.p, result);
        self.y = result;
    }

    fn txa(&mut self)
        ensures
            final(self)@ == old(self)@.implied(Op::Txa),
    {
        let result = self.x;
        self.p = update_zero_and_negative(self.p, result);
        self.a = result;
    }

    fn tya(&mut self)
        ensures
            final(self)@ == old(self)@.implied(Op::Tya),
    {
        let result = self.y;
        self.p = update_zero_and_negative(self.p, result);
        self.a = result;
    }

    fn tsx(&mut self)
        ensures
            final(self)@ == old(self)@.implied(Op::Tsx),
    {
        let result = self.sp;
        self.p = update_zero_and_negative(self.p, result);
        self.x = result;
    }

    fn txs(&mut self)
        ensures
            final(self)@ == old(self)@.implied(Op::Txs),
    {
        self.sp = self.x;
    }

    fn clc(&mut self)
        ensures
            final(self)@ == old(self)@.implied(Op::Clc),
    {
        self.p = update_flag(self.p, CARRY, false);
    }

    fn sec(&mut self)
        ensures
            final(self)@ == old(self)@.implied(Op::Sec),
    {
        self.p = update_flag(self.p, CARRY, true);
    }

    fn cli(&mut self)
        ensures
            final(self)@ == old(self)@.implied(Op::Cli),
    {
        self.p = update_flag(self.p, IRQ_DISABLE, false);
    }

    fn sei(&mut self)
        ensures
            final(self)@ == old(self)@.implied(Op::Sei),
    {
        self.p = update_flag(self.p, IRQ_DISABLE, true);
    }

    fn clv(&mut self)
        ensures
            final(self)@ == old(self)@.implied(Op::Clv),
    {
        self.p = update_flag(self.p, OVERFLOW, false);
    }

    fn cld(&mut self)
        ensures
            final(self)@ == old(self)@.implied(Op::Cld),
    {
        self.p = update_flag(self.p, DECIMAL, false);
    }

    fn sed(&mut self)
        ensures
            final(self)@ == old(self)@.implied(Op::Sed),
    {
        self.p = update_flag(self.p, DECIMAL, true);
    }

    /// Runs an operation on registers alone.
    fn execute_implied(&mut self, op: Op)
        ensures
            final(self)@ == old(self)@.implied(op),
    {
        match op {
            Op::AslA => self.asl_a(),
            Op::LsrA => self.lsr_a(),
            Op::RolA => self.rol_a(),
            Op::RorA => self.ror_a(),
            Op::Inx => self.inx(),
            Op::Dex => self.dex(),
            Op::Iny => self.iny(),
            Op::Dey => self.dey(),
            Op::Tax => self.tax(),
            Op::Tay => self.tay(),
            Op::Txa => self.txa(),
            Op::Tya => self.tya(),
            Op::Txs => self.txs(),
            Op::Tsx => self.tsx(),
            Op::Clc => self.clc(),
            Op::Sec => self.sec(),
            Op::Cli => self.cli(),
            Op::Sei => self.sei(),
            Op::Clv => self.clv(),
            Op::Cld => self.cld(),
            Op::Sed => self.sed(),
            _ => {},
        }
    }

    fn sta(&mut self, address: u16) -> (r: Result<(), NesError>)
        requires
            old(self)@.wf(),
        ensures
            (r, final(self)@) == old(self)@.store_op(Op::Sta, address, false),
            final(self)@.wf(),
    {
        let value = self.a;
        self.write(address, value)
    }

    fn stx(&mut self, address: u16) -> (r: Result<(), NesError>)
        requires
            old(self)@.wf(),
        ensures
            (r, final(self)@) == old(self)@.store_op(Op::Stx, address, false),
            final(self)@.wf(),
    {
        let value = self.x;
        self.write(address, value)
    }

    fn sty(&mut self, address: u16) -> (r: Result<(), NesError>)
        requires
            old(self)@.wf(),
        ensures
            (r, final(self)@) == old(self)@.store_op(Op::Sty, address, false),
            final(self)@.wf(),
    {
        let value = self.y;
        self.write(address, value)
    }

    fn sax(&mut self, address: u16) -> (r: Result<(), NesError>)
        requires
            old(self)@.wf(),
        ensures
            (r, final(self)@) == old(self)@.store_op(Op::Sax, address, false),
            final(self)@.wf(),
    {
        let value = self.a & self.x;
        self.write(address, value)
    }

    fn ahx(&mut self, address: u16) -> (r: Result<(), NesError>)
        requires
            old(self)@.wf(),
        ensures
            (r, final(self)@) == old(self)@.store_op(Op::Ahx, address, false),
            final(self)@.wf(),
    {
        let hi = (address >> 8) as u8;
        assert(hi == address / 256) by (bit_vector)
            requires
                hi == (address >> 8) as u8,
        ;
        let value = self.a & self.x & hi;
        self.write(address, value)
    }

    fn shx(&mut self, address: u16, crossed: bool) -> (r: Result<(), NesError>)
        requires
            old(self)@.wf(),
        ensures
            (r, final(self)@) == old(self)@.store_op(Op::Shx, address, crossed),
            final(self)@.wf(),
    {
        let mut target = address;
        let reg = self.x;
        if crossed {
            let mask = (reg as u16) << 8;
            assert(mask == ((reg as u16) * 256) as u16) by (bit_vector)
                requires
                    mask == (reg as u16) << 8,
            ;
            target = address & mask;
        }
        let hi = (target >> 8) as u8;
        assert(hi == target / 256) by (bit_vector)
            requires
                hi == (target >> 8) as u8,
        ;
        let value = reg & hi.wrapping_add(1);
        self.write(target, value)
    }

    fn shy(&mut self, address: u16, crossed: bool) -> (r: Result<(), NesError>)
        requires
            old(self)@.wf(),
        ensures
            (r, final(self)@) == old(self)@.store_op(Op::Shy, address, crossed),
            final(self)@.wf(),
    {
        let mut target = address;
        let reg = self.y;
        if crossed {
            let mask = (reg as u16) << 8;
            assert(mask == ((reg as u16) * 256) as u16) by (bit_vector)
                requires
                    mask == (reg as u16) << 8,
            ;
            target = address & mask;
        }
        let hi = (target >> 8) as u8;
        assert(hi == target / 256) by (bit_vector)
            requires
                hi == (target >> 8) as u8,
        ;
        let value = reg & hi.wrapping_add(1);
        self.write(target, value)
    }

    /// SP becomes `x & a`; the byte stored is SP and the address high byte plus one.
    fn tas(&mut self, address: u16) -> (r: Result<(), NesError>)
        requires
            old(self)@.wf(),
        ensures
            (r, final(self)@) == old(self)@.store_op(Op::Tas, address, false),
            final(self)@.wf(),
    {
        self.sp = self.x & self.a;
        let hi = (address >> 8) as u8;
        assert(hi == address / 256) by (bit_vector)
            requires
                hi == (address >> 8) as u8,
        ;
        let value = self.sp & hi.wrapping_add(1);
        self.write(address, value)
    }

    /// Runs an operation that stores a byte at its operand address.
    fn execute_store(&mut self, op: Op, address: u16, crossed: bool) -> (r: Result<(), NesError>)
        requires
            old(self)@.wf(),
            op.spec_access() == Access::Write,
        ensures
            (r, final(self)@) == old(self)@.store_op(op, address, crossed),
            final(self)@.wf(),
    {
        match op {
            Op::Sta => self.sta(address),
            Op::Stx => self.stx(address),
            Op::Sty => self.sty(address),
            Op::Sax => self.sax(address),
            Op::Ahx => self.ahx(address),
            Op::Shx => self.shx(address, crossed),
            Op::Shy => self.shy(address, crossed),
            _ => self.tas(address),
        }
    }

    /// The second half of a combined read-modify-write operation.
    fn apply_modified(&mut self, op: Op, m: u8)
        ensures
            final(self)@ == old(self)@.after_modify(op, m),
    {
        match op {
            Op::Slo => self.ora(m),
            Op::Rla => self.and(m),
            Op::Sre => self.eor(m),
            Op::Rra => self.adc(m),
            Op::Dcp => self.cmp(m),
            Op::Isc => self.sbc(m),
            _ => {},
        }
    }

    /// Reads the byte at `address`, rewrites it by `op`, writes it back, and
    /// for the combined operations applies the second half to the registers.
    fn read_modify_write(&mut self, op: Op, address: u16) -> (r: Result<(), NesError>)
        requires
            old(self)@.wf(),
            op.spec_access() == Access::Modify,
        ensures
            (r, final(self)@) == old(self)@.modify_op(op, address),
            final(self)@.wf(),
    {
        let v = match self.read(address) {
            Ok(v) => v,
            Err(e) => return Err(e),
        };
        let (m, p) = modify_value(op, self.p, v);
        self.p = p;
        match self.write(address, m) {
            Ok(()) => {},
            Err(e) => return Err(e),
        }
        self.apply_modified(op, m);
        Ok(())
    }

    fn check_flag(&self, flag_mask: u8) -> (r: bool)
        ensures
            r == flag(self.p, flag_mask),
    {
        (self.p & flag_mask) != 0
    }

    /// Runs the entry sequence of an interrupt.
    pub fn interrupt(&mut self, kind: InterruptType) -> (r: Result<(), NesError>)
        requires
            old(self)@.wf(),
        ensures
            (r, final(self)@) == old(self)@.interrupt(kind),
            final(self)@.wf(),
    {
        if kind == InterruptType::IRQ && self.check_flag(IRQ_DISABLE) {
            return Ok(());
        }
        let budget: u8 = match kind {
            InterruptType::RESET => 5,
            InterruptType::BRK => 1,
            _ => 2,
        };
        self.tick_cycles(budget);
        let vector: u16 = match kind {
            InterruptType::NMI => 0xFFFA,
            InterruptType::RESET => 0xFFFC,
            InterruptType::IRQ => 0xFFFE,
            InterruptType::BRK => 0xFFFE,
        };
        if kind != InterruptType::RESET {
            let pc = self.pc;
            let p = if kind == InterruptType::BRK {
                self.p | PUSH | BREAK
            } else {
                (self.p | PUSH) & !BREAK
            };
            self.push_2bytes(pc);
            self.push_byte(p);
        }
        match kind {
            InterruptType::RESET => {},
            InterruptType::BRK => {
                self.p = update_flag(self.p, IRQ_DISABLE, true);
                self.p = update_flag(self.p, BREAK, true);
            },
            _ => {
                self.p = update_flag(self.p, IRQ_DISABLE, true);
            },
        }
        match self.read_2bytes(vector, vector + 1) {
            Ok(t) => {
                self.pc = t;
                Ok(())
            },
            Err(e) => Err(e),
        }
    }

    /// Moves pc by the signed offset that follows the opcode when `condition`
    /// holds; reports whether the branch was taken and crossed a page.
    pub fn branch(&mut self, condition: bool) -> (r: Result<(bool, bool), NesError>)
        requires
            old(self)@.wf(),
        ensures
            (r, final(self)@) == old(self)@.branch(condition),
            final(self)@.wf(),
    {
        let offset = match self.next_byte() {
            Ok(v) => v,
            Err(e) => return Err(e),
        };
        if condition {
            let pc = self.pc;
            let forward = pc.wrapping_add(offset as u16);
            let next_step = if offset >= 0x80 {
                forward.wrapping_sub(0x100)
            } else {
                forward
            };
            let crossed = (pc & 0xFF00) != (next_step & 0xFF00);
            assert(crossed == (next_step / 256 != pc / 256)) by (bit_vector)
                requires
                    crossed == ((pc & 0xFF00) != (next_step & 0xFF00)),
            ;
            self.pc = next_step;
            Ok((true, crossed))
        } else {
            Ok((false, false))
        }
    }

    fn pha(&mut self)
        requires
            old(self)@.wf(),
        ensures
            final(self)@ == old(self)@.pushed(old(self).a),
            final(self)@.wf(),
    {
        let a = self.a;
        self.push_byte(a);
    }

    fn pla(&mut self)
        requires
            old(self)@.wf(),
        ensures
            (Ok::<(), NesError>(()), final(self)@) == old(self)@.other_op(Op::Pla, Mode::Implied),
            final(self)@.wf(),
    {
        let result = self.pop_byte();
        self.p = update_zero_and_negative(self.p, result);
        self.a = result;
    }

    /// Pushes the status with both unused bits set.
    fn php(&mut self)
        requires
            old(self)@.wf(),
        ensures
            final(self)@ == old(self)@.pushed(old(self).p | PUSH | BREAK),
            final(self)@.wf(),
    {
        let p = self.p | PUSH | BREAK;
        self.push_byte(p);
    }

    /// Pops the status with both unused bits cleared.
    fn plp(&mut self)
        requires
            old(self)@.wf(),
        ensures
            (Ok::<(), NesError>(()), final(self)@) == old(self)@.other_op(Op::Plp, Mode::Implied),
            final(self)@.wf(),
    {
        self.p = self.pop_byte() & !(PUSH | BREAK);
    }

    fn jmp(&mut self, mode: Mode) -> (r: Result<(), NesError>)
        requires
            old(self)@.wf(),
        ensures
            (r, final(self)@) == old(self)@.other_op(Op::Jmp, mode),
            final(self)@.wf(),
    {
        match self.get_operand_address(mode) {
            Ok((t, _)) => {
                self.pc = t;
                Ok(())
            },
            Err(e) => Err(e),
        }
    }

    /// Calls a subroutine, pushing the address of the call's last byte.
    fn jsr(&mut self) -> (r: Result<(), NesError>)
        requires
            old(self)@.wf(),
        ensures
            (r, final(self)@) == old(self)@.jsr_op(),
            final(self)@.wf(),
    {
        let target_address = match self.absolute_address(0) {
            Ok((t, _)) => t,
            Err(e) => return Err(e),
        };
        let return_address = self.pc.wrapping_sub(1);
        self.push_2bytes(return_address);
        self.pc = target_address;
        Ok(())
    }

    /// Returns from a subroutine to the byte after the pushed address.
    fn rts(&mut self)
        requires
            old(self)@.wf(),
        ensures
            (Ok::<(), NesError>(()), final(self)@) == old(self)@.other_op(Op::Rts, Mode::Implied),
            final(self)@.wf(),
    {
        self.pc = self.pop_2bytes().wrapping_add(1);
    }

    /// Returns from an interrupt: pops the status, then pc.
    fn rti(&mut self)
        requires
            old(self)@.wf(),
        ensures
            (Ok::<(), NesError>(()), final(self)@) == old(self)@.other_op(Op::Rti, Mode::Implied),
            final(self)@.wf(),
    {
        self.p = self.pop_byte();
        self.pc = self.pop_2bytes();
    }

    /// A software interrupt; the address pushed skips the padding byte after
    /// the opcode.
    pub fn brk(&mut self) -> (r: Result<(), NesError>)
        requires
            old(self)@.wf(),
        ensures
            (r, final(self)@) == old(self)@.brk_op(),
            final(self)@.wf(),
    {
        self.pc = self.pc.wrapping_add(1);
        self.interrupt(InterruptType::BRK)
    }

    fn execute_other(&mut self, op: Op, mode: Mode) -> (r: Result<(), NesError>)
        requires
            old(self)@.wf(),
            op.spec_access() == Access::Other,
        ensures
            (r, final(self)@) == old(self)@.other_op(op, mode),
            final(self)@.wf(),
    {
        match op {
            Op::Pha => {
                self.pha();
                Ok(())
            },
            Op::Pla => {
                self.pla();
                Ok(())
            },
            Op::Php => {
                self.php();
                Ok(())
            },
            Op::Plp => {
                self.plp();
                Ok(())
            },
            Op::Jmp => self.jmp(mode),
            Op::Jsr => self.jsr(),
            Op::Rts => {
                self.rts();
                Ok(())
            },
            Op::Rti => {
                self.rti();
                Ok(())
            },
            Op::Brk => self.brk(),
            _ => {
                self.execute_implied(op);
                Ok(())
            },
        }
    }

    /// Runs one decoded instruction whose opcode was fetched; returns the
    /// cycles it takes.
    fn execute_instruction(&mut self, i: Instruction) -> (r: Result<u8, NesError>)
        requires
            old(self)@.wf(),
        ensures
            (r, final(self)@) == old(self)@.execute(i),
            final(self)@.wf(),
    {
        match i.op.access() {
            Access::Read => {
                let (v, crossed) = match self.fetch_operand(i.mode) {
                    Ok(t) => t,
                    Err(e) => return Err(e),
                };
                self.execute_read(i.op, v);
                Ok(instruction_cycles(i, crossed, false, false))
            },
            Access::Write => {
                let (address, crossed) = match self.get_operand_address(i.mode) {
                    Ok(t) => t,
                    Err(e) => return Err(e),
                };
                match self.execute_store(i.op, address, crossed) {
                    Ok(()) => Ok(instruction_cycles(i, false, false, false)),
                    Err(e) => Err(e),
                }
            },
            Access::Modify => {
                let (address, _) = match self.get_operand_address(i.mode) {
                    Ok(t) => t,
                    Err(e) => return Err(e),
                };
                match self.read_modify_write(i.op, address) {
                    Ok(()) => Ok(instruction_cycles(i, false, false, false)),
                    Err(e) => Err(e),
                }
            },
            Access::Branch => {
                let condition = match i.op {
                    Op::Bpl => !self.check_flag(NEGATIVE),
                    Op::Bmi => self.check_flag(NEGATIVE),
                    Op::Bvc => !self.check_flag(OVERFLOW),
                    Op::Bvs => self.check_flag(OVERFLOW),
                    Op::Bcc => !self.check_flag(CARRY),
                    Op::Bcs => self.check_flag(CARRY),
                    Op::Bne => !self.check_flag(ZERO),
                    _ => self.check_flag(ZERO),
                };
                match self.branch(condition) {
                    Ok((taken, crossed)) => Ok(instruction_cycles(i, false, taken, crossed)),
                    Err(e) => Err(e),
                }
            },
            Access::Other => match self.execute_other(i.op, i.mode) {
                Ok(()) => Ok(instruction_cycles(i, false, false, false)),
                Err(e) => Err(e),
            },
        }
    }

    /// Decodes and runs the instruction whose opcode byte was fetched from `at`.
    pub fn execute_instruction_opcode(&mut self, opcode: u8, at: u16) -> (r: Result<u8, NesError>)
        requires
            old(self)@.wf(),
        ensures
            instruction_of(opcode) is None ==> r == Err::<u8, NesError>(
                NesError::IllegalOpcode { opcode, pc: at },
            ) && final(self)@ == old(self)@,
            instruction_of(opcode) is Some ==> (r, final(self)@) == old(self)@.execute(
                instruction_of(opcode)->Some_0,
            ),
            final(self)@.wf(),
    {
        match decode(opcode) {
            Some(i) => self.execute_instruction(i),
            None => Err(NesError::IllegalOpcode { opcode, pc: at }),
        }
    }

    /// Lets `n` cycles pass on the bus.
    fn tick_cycles(&mut self, n: u8)
        requires
            old(self)@.wf(),
        ensures
            final(self)@ == old(self)@.advanced(n as nat),
            final(self)@.wf(),
    {
        let mut i: u8 = 0;
        while i < n
            invariant
                i <= n,
                old(self)@.wf(),
                self@ == old(self)@.advanced(i as nat),
            decreases n - i,
        {
            self.bus.tick();
            i = i + 1;
        }
    }

    /// Runs one step (see [`CpuView::step`]) and returns the cycles it took.
    pub fn execute_next_instruction(&mut self) -> (r: Result<u8, NesError>)
        requires
            old(self)@.wf(),
        ensures
            (r, final(self)@) == old(self)@.step(),
            final(self)@.wf(),
    {
        if self.bus.stall_cycles > 0 {
            self.bus.stall_cycles = self.bus.stall_cycles - 1;
            self.tick_cycles(1);
            return Ok(1);
        }
        if self.nmi_pending {
            self.nmi_pending = false;
            return match self.interrupt(InterruptType::NMI) {
                Ok(()) => {
                    self.tick_cycles(5);
                    Ok(7)
                },
                Err(e) => Err(e),
            };
        }
        let irq_line = self.irq_pending || self.bus.irq();
        if irq_line && !self.check_flag(IRQ_DISABLE) {
            self.irq_pending = false;
            return match self.interrupt(InterruptType::IRQ) {
                Ok(()) => {
                    self.tick_cycles(5);
                    Ok(7)
                },
                Err(e) => Err(e),
            };
        }
        let at = self.pc;
        let opcode = match self.next_byte() {
            Ok(v) => v,
            Err(e) => return Err(e),
        };
        match self.execute_instruction_opcode(opcode, at) {
            Ok(cycles) => {
                let spent = if opcode == 0x00 {
                    1
                } else {
                    0
                };
                self.tick_cycles(cycles - spent);
                Ok(cycles)
            },
            Err(e) => Err(e),
        }
    }

    /// Power-on and reset: sp = 0xFF, status = 0x34, pc from the RESET vector.
    pub fn reset(&mut self) -> (r: Result<(), NesError>)
        requires
            old(self)@.wf(),
        ensures
            ({
                let (r2, s) = CpuView { sp: 0xFF, p: 0x34, ..old(self)@ }.interrupt(
                    InterruptType::RESET,
                );
                &&& r == r2
                &&& r is Ok ==> final(self)@ == s.advanced(2)
                &&& r is Err ==> final(self)@ == s
            }),
            final(self)@.wf(),
    {
        self.reset_registers();
        match self.interrupt(InterruptType::RESET) {
            Ok(()) => {
                self.tick_cycles(2);
                Ok(())
            },
            Err(e) => Err(e),
        }
    }

    /// Queues a non-maskable interrupt for the next step.
    pub fn raise_nmi(&mut self)
        ensures
            final(self)@ == (CpuView { nmi_pending: true, ..old(self)@ }),
    {
        self.nmi_pending = true;
    }

    /// Queues an interrupt request; it waits while IRQ-disable is set.
    pub fn raise_irq(&mut self)
        ensures
            final(self)@ == (CpuView { irq_pending: true, ..old(self)@ }),
    {
        self.irq_pending = true;
    }
}

/// An instruction takes its base cost, plus one cycle for a read in an
/// indexed mode whose indexing crossed a page, plus for a branch one cycle when
/// taken and another when the target lies on another page; nothing else.
pub proof fn lemma_instruction_cycles(s: CpuView, i: Instruction)
    ensures
        ({
            let (r, _) = s.execute(i);
            &&& r is Ok && i.op.spec_access() != Access::Branch && !pays_page_cross(i) ==> r->Ok_0
                == base_cycles(i)
            &&& r is Ok && pays_page_cross(i) ==> r->Ok_0 == base_cycles(i) + if s.operand(
                i.mode,
            ).0->Ok_0.1 {
                1int
            } else {
                0
            }
            &&& r is Ok && i.op.spec_access() == Access::Branch ==> {
                let (taken, crossed) = s.branch(s.branch_condition(i.op)).0->Ok_0;
                &&& taken == s.branch_condition(i.op)
                &&& r->Ok_0 == base_cycles(i) + if taken {
                    1 + if crossed {
                        1int
                    } else {
                        0
                    }
                } else {
                    0
                }
            }
            &&& r is Ok ==> base_cycles(i) <= r->Ok_0 <= base_cycles(i) + 2
        }),
{
}

/// The stack lives in 0x0100-0x01FF and sp wraps: a push at sp = 0x00 writes
/// 0x0100 and leaves sp = 0xFF; a pop at sp = 0xFF reads 0x0100 and leaves
/// sp = 0x00; and a pop after a push returns the pushed byte and sp.
pub proof fn lemma_stack_wraps(s: CpuView, v: u8)
    requires
        s.wf(),
    ensures
        s.sp == 0 ==> s.pushed(v).sp == 0xFF && s.pushed(v).bus.ram == s.bus.ram.update(
            0x0100,
            v,
        ),
        s.sp == 0xFF ==> s.popped().sp == 0 && s.top() == s.bus.ram[0x0100],
        s.pushed(v).top() == v,
        s.pushed(v).popped().sp == s.sp,
{
}

/// BRK, with pc just past its opcode: it pushes the opcode's address plus two
/// (high byte first) and then the status with Break and Push set, sets Break
/// and IRQ-disable, and loads pc from 0xFFFE/0xFFFF.
pub proof fn lemma_brk(s: CpuView)
    requires
        s.wf(),
    ensures
        ({
            let (r, t) = s.brk_op();
            let ret = inc16(s.pc);
            &&& t.bus.ram[0x0100 + s.sp] == ret / 256
            &&& t.bus.ram[0x0100 + (s.sp + 255) % 256] == ret % 256
            &&& t.bus.ram[0x0100 + (s.sp + 254) % 256] == s.p | PUSH | BREAK
            &&& t.sp == (s.sp + 253) % 256
            &&& flag(t.p, BREAK)
            &&& flag(t.p, IRQ_DISABLE)
            &&& flag(t.p, CARRY) == flag(s.p, CARRY)
            &&& flag(t.p, ZERO) == flag(s.p, ZERO)
            &&& flag(t.p, DECIMAL) == flag(s.p, DECIMAL)
            &&& flag(t.p, OVERFLOW) == flag(s.p, OVERFLOW)
            &&& flag(t.p, NEGATIVE) == flag(s.p, NEGATIVE)
            &&& t.a == s.a && t.x == s.x && t.y == s.y
            &&& t.bus.cycles == (s.bus.cycles + 1) % 0x1_0000_0000_0000_0000
            &&& forall|lo: u8, hi: u8|
                s.bus.vram.cartridge is Some && prg_read(s.bus.vram.cartridge->Some_0, 0xFFFE)
                    == Ok::<u8, NesError>(lo) && prg_read(s.bus.vram.cartridge->Some_0, 0xFFFF)
                    == Ok::<u8, NesError>(hi) ==> r == Ok::<(), NesError>(()) && t.pc == word(
                    lo,
                    hi,
                )
        }),
{
    reveal(BusView::read);
    let s0 = CpuView { pc: inc16(s.pc), ..s };
    let status = s0.p | PUSH | BREAK;
    let s1 = s0.pushed((s0.pc / 256) as u8).pushed((s0.pc % 256) as u8).pushed(status);
    let p1 = set_flag(s1.p, IRQ_DISABLE, true);
    lemma_set_flag(p1, BREAK, BREAK, true);
    lemma_set_flag(p1, BREAK, IRQ_DISABLE, true);
    lemma_set_flag(s1.p, IRQ_DISABLE, IRQ_DISABLE, true);
    lemma_flags_kept(s1.p, p1);
}

/// Setting IRQ-disable and then Break keeps Carry, Zero, Decimal, Overflow
/// and Negative.
proof fn lemma_flags_kept(p: u8, p1: u8)
    requires
        p1 == set_flag(p, IRQ_DISABLE, true),
    ensures
        ({
            let q = set_flag(p1, BREAK, true);
            &&& flag(q, CARRY) == flag(p, CARRY)
            &&& flag(q, ZERO) == flag(p, ZERO)
            &&& flag(q, DECIMAL) == flag(p, DECIMAL)
            &&& flag(q, OVERFLOW) == flag(p, OVERFLOW)
            &&& flag(q, NEGATIVE) == flag(p, NEGATIVE)
        }),
{
    lemma_set_flag(p, IRQ_DISABLE, CARRY, true);
    lemma_set_flag(p, IRQ_DISABLE, ZERO, true);
    lemma_set_flag(p, IRQ_DISABLE, DECIMAL, true);
    lemma_set_flag(p, IRQ_DISABLE, OVERFLOW, true);
    lemma_set_flag(p, IRQ_DISABLE, NEGATIVE, true);
    lemma_set_flag(p1, BREAK, CARRY, true);
    lemma_set_flag(p1, BREAK, ZERO, true);
    lemma_set_flag(p1, BREAK, DECIMAL, true);
    lemma_set_flag(p1, BREAK, OVERFLOW, true);
    lemma_set_flag(p1, BREAK, NEGATIVE, true);
}

/// NMI and IRQ entry: an IRQ while IRQ-disable is set changes nothing.
/// Otherwise the entry spends 2 cycles before its pushes, pushes pc (high
/// byte first) and then the status with Push set and Break clear, so that a
/// handler tells it from BRK; sets IRQ-disable; and loads pc from the kind's
/// vector (0xFFFA for NMI, 0xFFFE for IRQ).
pub proof fn lemma_hardware_interrupt(s: CpuView, kind: InterruptType)
    requires
        s.wf(),
        kind == InterruptType::NMI || kind == InterruptType::IRQ,
    ensures
        kind == InterruptType::IRQ && flag(s.p, IRQ_DISABLE) ==> s.interrupt(kind) == (
            Ok::<(), NesError>(()),
            s,
        ),
        !(kind == InterruptType::IRQ && flag(s.p, IRQ_DISABLE)) ==> {
            let (r, t) = s.interrupt(kind);
            let status = t.bus.ram[0x0100 + (s.sp + 254) % 256];
            &&& t.bus.ram[0x0100 + s.sp] == s.pc / 256
            &&& t.bus.ram[0x0100 + (s.sp + 255) % 256] == s.pc % 256
            &&& status == (s.p | PUSH) & !BREAK
            &&& !flag(status, BREAK)
            &&& flag(status, PUSH)
            &&& t.sp == (s.sp + 253) % 256
            &&& flag(t.p, IRQ_DISABLE)
            &&& t.bus.cycles == (s.bus.cycles + 2) % 0x1_0000_0000_0000_0000
            &&& forall|lo: u8, hi: u8|
                s.bus.vram.cartridge is Some && prg_read(s.bus.vram.cartridge->Some_0, kind.vector())
                    == Ok::<u8, NesError>(lo) && prg_read(
                    s.bus.vram.cartridge->Some_0,
                    (kind.vector() + 1) as u16,
                ) == Ok::<u8, NesError>(hi) ==> r == Ok::<(), NesError>(()) && t.pc == word(lo, hi)
        },
{
    reveal(BusView::read);
    let p = s.p;
    assert(((p | 0x20u8) & !0x10u8) & 0x10u8 == 0 && ((p | 0x20u8) & !0x10u8) & 0x20u8 != 0)
        by (bit_vector);
    let s0 = s.advanced(2);
    let s1 = s0.pushed((s0.pc / 256) as u8).pushed((s0.pc % 256) as u8).pushed(
        (s0.p | PUSH) & !BREAK,
    );
    lemma_set_flag(s1.p, IRQ_DISABLE, IRQ_DISABLE, true);
}

/// RESET entry: it spends 5 cycles, pushes nothing, leaves sp and the status
/// as they were, and loads pc from 0xFFFC/0xFFFD.
pub proof fn lemma_reset_entry(s: CpuView)
    requires
        s.wf(),
    ensures
        ({
            let (r, t) = s.interrupt(InterruptType::RESET);
            &&& t.bus.ram == s.bus.ram
            &&& t.sp == s.sp
            &&& t.p == s.p
            &&& t.bus.cycles == (s.bus.cycles + 5) % 0x1_0000_0000_0000_0000
            &&& forall|lo: u8, hi: u8|
                s.bus.vram.cartridge is Some && prg_read(s.bus.vram.cartridge->Some_0, 0xFFFC)
                    == Ok::<u8, NesError>(lo) && prg_read(s.bus.vram.cartridge->Some_0, 0xFFFD)
                    == Ok::<u8, NesError>(hi) ==> r == Ok::<(), NesError>(()) && t.pc == word(lo, hi)
        }),
{
    reveal(BusView::read);
}

} // verus!
