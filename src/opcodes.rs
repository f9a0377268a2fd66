//! The opcode table: which operation and addressing mode each opcode byte
//! names, and what it costs in cycles.
use vstd::prelude::*;

verus! {

/// How an instruction finds its operand.
#[derive(Debug, Clone, Copy, PartialEq, Eq, Structural)]
pub enum Mode {
    Immediate,
    ZeroPage,
    ZeroPageX,
    ZeroPageY,
    Absolute,
    AbsoluteX,
    AbsoluteY,
    Indirect,
    IndirectX,
    IndirectY,
    Implied,
}

/// The operations, documented and undocumented; the `A` forms of the shifts
/// work on the accumulator, `NopRead` reads its operand and drops it.
#[derive(Debug, Clone, Copy, PartialEq, Eq, Structural)]
pub enum Op {
    Brk,
    Ora,
    Slo,
    NopRead,
    Asl,
    Php,
    AslA,
    Anc,
    Bpl,
    Clc,
    Nop,
    Jsr,
    And,
    Rla,
    Bit,
    Rol,
    Plp,
    RolA,
    Bmi,
    Sec,
    Rti,
    Eor,
    Sre,
    Lsr,
    Pha,
    LsrA,
    Alr,
    Jmp,
    Bvc,
    Cli,
    Rts,
    Adc,
    Rra,
    Ror,
    Pla,
    RorA,
    Arr,
    Bvs,
    Sei,
    Sta,
    Sax,
    Sty,
    Stx,
    Dey,
    Txa,
    Xaa,
    Bcc,
    Ahx,
    Tya,
    Txs,
    Tas,
    Shy,
    Shx,
    Ldy,
    Lda,
    Ldx,
    Lax,
    Tay,
    Tax,
    Lxa,
    Bcs,
    Clv,
    Tsx,
    Las,
    Cpy,
    Cmp,
    Dcp,
    Dec,
    Iny,
    Dex,
    Axs,
    Bne,
    Cld,
    Cpx,
    Sbc,
    Isc,
    Inc,
    Inx,
    SbcNop,
    Beq,
    Sed,
}

/// How an operation uses memory.
#[derive(Debug, Clone, Copy, PartialEq, Eq, Structural)]
pub enum Access {
    /// Reads one operand byte.
    Read,
    /// Stores a byte at the operand address.
    Write,
    /// Reads a byte, changes it and writes it back.
    Modify,
    /// A conditional relative jump.
    Branch,
    /// Implied operands, stack operations, jumps and calls.
    Other,
}

/// An operation together with its addressing mode.
#[derive(Debug, Clone, Copy, PartialEq, Eq, Structural)]
pub struct Instruction {
    pub op: Op,
    pub mode: Mode,
}

impl Op {
    pub open spec fn spec_access(self) -> Access {
        match self {
            Op::Lda | Op::Ldx | Op::Ldy | Op::Adc | Op::Sbc | Op::Cmp | Op::Cpx | Op::Cpy | Op::And | Op::Ora | Op::Eor | Op::Bit | Op::Lax | Op::NopRead | Op::Anc | Op::Alr | Op::Arr | Op::Xaa | Op::Lxa | Op::Axs | Op::SbcNop | Op::Las => Access::Read,
            Op::Sta | Op::Stx | Op::Sty | Op::Sax | Op::Ahx | Op::Shx | Op::Shy | Op::Tas => Access::Write,
            Op::Asl | Op::Lsr | Op::Rol | Op::Ror | Op::Inc | Op::Dec | Op::Slo | Op::Rla | Op::Sre | Op::Rra | Op::Dcp | Op::Isc => Access::Modify,
            Op::Bpl | Op::Bmi | Op::Bvc | Op::Bvs | Op::Bcc | Op::Bcs | Op::Bne | Op::Beq => Access::Branch,
            _ => Access::Other,
        }
    }

    pub fn access(self) -> (r: Access)
        ensures
            r == self.spec_access(),
    {
        match self {
            Op::Lda | Op::Ldx | Op::Ldy | Op::Adc | Op::Sbc | Op::Cmp | Op::Cpx | Op::Cpy | Op::And | Op::Ora | Op::Eor | Op::Bit | Op::Lax | Op::NopRead | Op::Anc | Op::Alr | Op::Arr | Op::Xaa | Op::Lxa | Op::Axs | Op::SbcNop | Op::Las => Access::Read,
            Op::Sta | Op::Stx | Op::Sty | Op::Sax | Op::Ahx | Op::Shx | Op::Shy | Op::Tas => Access::Write,
            Op::Asl | Op::Lsr | Op::Rol | Op::Ror | Op::Inc | Op::Dec | Op::Slo | Op::Rla | Op::Sre | Op::Rra | Op::Dcp | Op::Isc => Access::Modify,
            Op::Bpl | Op::Bmi | Op::Bvc | Op::Bvs | Op::Bcc | Op::Bcs | Op::Bne | Op::Beq => Access::Branch,
            _ => Access::Other,
        }
    }
}

/// The instruction an opcode byte names; the twelve opcodes that halt the
/// processor on hardware name none.
pub open spec fn instruction_of(opcode: u8) -> Option<Instruction> {
    match opcode {
        0x00 => Some(Instruction { op: Op::Brk, mode: Mode::Implied }),
        0x01 => Some(Instruction { op: Op::Ora, mode: Mode::IndirectX }),
        0x05 => Some(Instruction { op: Op::Ora, mode: Mode::ZeroPage }),
        0x09 => Some(Instruction { op: Op::Ora, mode: Mode::Immediate }),
        0x0D => Some(Instruction { op: Op::Ora, mode: Mode::Absolute }),
        0x11 => Some(Instruction { op: Op::Ora, mode: Mode::IndirectY }),
        0x15 => Some(Instruction { op: Op::Ora, mode: Mode::ZeroPageX }),
        0x19 => Some(Instruction { op: Op::Ora, mode: Mode::AbsoluteY }),
        0x1D => Some(Instruction { op: Op::Ora, mode: Mode::AbsoluteX }),
        0x03 => Some(Instruction { op: Op::Slo, mode: Mode::IndirectX }),
        0x07 => Some(Instruction { op: Op::Slo, mode: Mode::ZeroPage }),
        0x0F => Some(Instruction { op: Op::Slo, mode: Mode::Absolute }),
        0x13 => Some(Instruction { op: Op::Slo, mode: Mode::IndirectY }),
        0x17 => Some(Instruction { op: Op::Slo, mode: Mode::ZeroPageX }),
        0x1B => Some(Instruction { op: Op::Slo, mode: Mode::AbsoluteY }),
        0x1F => Some(Instruction { op: Op::Slo, mode: Mode::AbsoluteX }),
        0x04 | 0x44 | 0x64 => Some(Instruction { op: Op::NopRead, mode: Mode::ZeroPage }),
        0x0C => Some(Instruction { op: Op::NopRead, mode: Mode::Absolute }),
        0x14 | 0x34 | 0x54 | 0x74 | 0xD4 | 0xF4 => Some(Instruction { op: Op::NopRead, mode: Mode::ZeroPageX }),
        0x1C | 0x3C | 0x5C | 0x7C | 0xDC | 0xFC => Some(Instruction { op: Op::NopRead, mode: Mode::AbsoluteX }),
        0x80 | 0x82 | 0x89 | 0xC2 | 0xE2 => Some(Instruction { op: Op::NopRead, mode: Mode::Immediate }),
        0x06 => Some(Instruction { op: Op::Asl, mode: Mode::ZeroPage }),
        0x0E => Some(Instruction { op: Op::Asl, mode: Mode::Absolute }),
        0x16 => Some(Instruction { op: Op::Asl, mode: Mode::ZeroPageX }),
        0x1E => Some(Instruction { op: Op::Asl, mode: Mode::AbsoluteX }),
        0x08 => Some(Instruction { op: Op::Php, mode: Mode::Implied }),
        0x0A => Some(Instruction { op: Op::AslA, mode: Mode::Implied }),
        0x0B | 0x2B => Some(Instruction { op: Op::Anc, mode: Mode::Immediate }),
        0x10 => Some(Instruction { op: Op::Bpl, mode: Mode::Immediate }),
        0x18 => Some(Instruction { op: Op::Clc, mode: Mode::Implied }),
        0x1A | 0x3A | 0x5A | 0x7A | 0xDA | 0xEA | 0xFA => Some(Instruction { op: Op::Nop, mode: Mode::Implied }),
        0x20 => Some(Instruction { op: Op::Jsr, mode: Mode::Absolute }),
        0x21 => Some(Instruction { op: Op::And, mode: Mode::IndirectX }),
        0x25 => Some(Instruction { op: Op::And, mode: Mode::ZeroPage }),
        0x29 => Some(Instruction { op: Op::And, mode: Mode::Immediate }),
        0x2D => Some(Instruction { op: Op::And, mode: Mode::Absolute }),
        0x31 => Some(Instruction { op: Op::And, mode: Mode::IndirectY }),
        0x35 => Some(Instruction { op: Op::And, mode: Mode::ZeroPageX }),
        0x39 => Some(Instruction { op: Op::And, mode: Mode::AbsoluteY }),
        0x3D => Some(Instruction { op: Op::And, mode: Mode::AbsoluteX }),
        0x23 => Some(Instruction { op: Op::Rla, mode: Mode::IndirectX }),
        0x27 => Some(Instruction { op: Op::Rla, mode: Mode::ZeroPage }),
        0x2F => Some(Instruction { op: Op::Rla, mode: Mode::Absolute }),
        0x33 => Some(Instruction { op: Op::Rla, mode: Mode::IndirectY }),
        0x37 => Some(Instruction { op: Op::Rla, mode: Mode::ZeroPageX }),
        0x3B => Some(Instruction { op: Op::Rla, mode: Mode::AbsoluteY }),
        0x3F => Some(Instruction { op: Op::Rla, mode: Mode::AbsoluteX }),
        0x24 => Some(Instruction { op: Op::Bit, mode: Mode::ZeroPage }),
        0x2C => Some(Instruction { op: Op::Bit, mode: Mode::Absolute }),
        0x26 => Some(Instruction { op: Op::Rol, mode: Mode::ZeroPage }),
        0x2E => Some(Instruction { op: Op::Rol, mode: Mode::Absolute }),
        0x36 => Some(Instruction { op: Op::Rol, mode: Mode::ZeroPageX }),
        0x3E => Some(Instruction { op: Op::Rol, mode: Mode::AbsoluteX }),
        0x28 => Some(Instruction { op: Op::Plp, mode: Mode::Implied }),
        0x2A => Some(Instruction { op: Op::RolA, mode: Mode::Implied }),
        0x30 => Some(Instruction { op: Op::Bmi, mode: Mode::Immediate }),
        0x38 => Some(Instruction { op: Op::Sec, mode: Mode::Implied }),
        0x40 => Some(Instruction { op: Op::Rti, mode: Mode::Implied }),
        0x41 => Some(Instruction { op: Op::Eor, mode: Mode::IndirectX }),
        0x45 => Some(Instruction { op: Op::Eor, mode: Mode::ZeroPage }),
        0x49 => Some(Instruction { op: Op::Eor, mode: Mode::Immediate }),
        0x4D => Some(Instruction { op: Op::Eor, mode: Mode::Absolute }),
        0x51 => Some(Instruction { op: Op::Eor, mode: Mode::IndirectY }),
        0x55 => Some(Instruction { op: Op::Eor, mode: Mode::ZeroPageX }),
        0x59 => Some(Instruction { op: Op::Eor, mode: Mode::AbsoluteY }),
        0x5D => Some(Instruction { op: Op::Eor, mode: Mode::AbsoluteX }),
        0x43 => Some(Instruction { op: Op::Sre, mode: Mode::IndirectX }),
        0x47 => Some(Instruction { op: Op::Sre, mode: Mode::ZeroPage }),
        0x4F => Some(Instruction { op: Op::Sre, mode: Mode::Absolute }),
        0x53 => Some(Instruction { op: Op::Sre, mode: Mode::IndirectY }),
        0x57 => Some(Instruction { op: Op::Sre, mode: Mode::ZeroPageX }),
        0x5B => Some(Instruction { op: Op::Sre, mode: Mode::AbsoluteY }),
        0x5F => Some(Instruction { op: Op::Sre, mode: Mode::AbsoluteX }),
        0x46 => Some(Instruction { op: Op::Lsr, mode: Mode::ZeroPage }),
        0x4E => Some(Instruction { op: Op::Lsr, mode: Mode::Absolute }),
        0x56 => Some(Instruction { op: Op::Lsr, mode: Mode::ZeroPageX }),
        0x5E => Some(Instruction { op: Op::Lsr, mode: Mode::AbsoluteX }),
        0x48 => Some(Instruction { op: Op::Pha, mode: Mode::Implied }),
        0x4A => Some(Instruction { op: Op::LsrA, mode: Mode::Implied }),
        0x4B => Some(Instruction { op: Op::Alr, mode: Mode::Immediate }),
        0x4C => Some(Instruction { op: Op::Jmp, mode: Mode::Absolute }),
        0x6C => Some(Instruction { op: Op::Jmp, mode: Mode::Indirect }),
        0x50 => Some(Instruction { op: Op::Bvc, mode: Mode::Immediate }),
        0x58 => Some(Instruction { op: Op::Cli, mode: Mode::Implied }),
        0x60 => Some(Instruction { op: Op::Rts, mode: Mode::Implied }),
        0x61 => Some(Instruction { op: Op::Adc, mode: Mode::IndirectX }),
        0x65 => Some(Instruction { op: Op::Adc, mode: Mode::ZeroPage }),
        0x69 => Some(Instruction { op: Op::Adc, mode: Mode::Immediate }),
        0x6D => Some(Instruction { op: Op::Adc, mode: Mode::Absolute }),
        0x71 => Some(Instruction { op: Op::Adc, mode: Mode::IndirectY }),
        0x75 => Some(Instruction { op: Op::Adc, mode: Mode::ZeroPageX }),
        0x79 => Some(Instruction { op: Op::Adc, mode: Mode::AbsoluteY }),
        0x7D => Some(Instruction { op: Op::Adc, mode: Mode::AbsoluteX }),
        0x63 => Some(Instruction { op: Op::Rra, mode: Mode::IndirectX }),
        0x67 => Some(Instruction { op: Op::Rra, mode: Mode::ZeroPage }),
        0x6F => Some(Instruction { op: Op::Rra, mode: Mode::Absolute }),
        0x73 => Some(Instruction { op: Op::Rra, mode: Mode::IndirectY }),
        0x77 => Some(Instruction { op: Op::Rra, mode: Mode::ZeroPageX }),
        0x7B => Some(Instruction { op: Op::Rra, mode: Mode::AbsoluteY }),
        0x7F => Some(Instruction { op: Op::Rra, mode: Mode::AbsoluteX }),
        0x66 => Some(Instruction { op: Op::Ror, mode: Mode::ZeroPage }),
        0x6E => Some(Instruction { op: Op::Ror, mode: Mode::Absolute }),
        0x76 => Some(Instruction { op: Op::Ror, mode: Mode::ZeroPageX }),
        0x7E => Some(Instruction { op: Op::Ror, mode: Mode::AbsoluteX }),
        0x68 => Some(Instruction { op: Op::Pla, mode: Mode::Implied }),
        0x6A => Some(Instruction { op: Op::RorA, mode: Mode::Implied }),
        0x6B => Some(Instruction { op: Op::Arr, mode: Mode::Immediate }),
        0x70 => Some(Instruction { op: Op::Bvs, mode: Mode::Immediate }),
        0x78 => Some(Instruction { op: Op::Sei, mode: Mode::Implied }),
        0x81 => Some(Instruction { op: Op::Sta, mode: Mode::IndirectX }),
        0x85 => Some(Instruction { op: Op::Sta, mode: Mode::ZeroPage }),
        0x8D => Some(Instruction { op: Op::Sta, mode: Mode::Absolute }),
        0x91 => Some(Instruction { op: Op::Sta, mode: Mode::IndirectY }),
        0x95 => Some(Instruction { op: Op::Sta, mode: Mode::ZeroPageX }),
        0x99 => Some(Instruction { op: Op::Sta, mode: Mode::AbsoluteY }),
        0x9D => Some(Instruction { op: Op::Sta, mode: Mode::AbsoluteX }),
        0x83 => Some(Instruction { op: Op::Sax, mode: Mode::IndirectX }),
        0x87 => Some(Instruction { op: Op::Sax, mode: Mode::ZeroPage }),
        0x8F => Some(Instruction { op: Op::Sax, mode: Mode::Absolute }),
        0x97 => Some(Instruction { op: Op::Sax, mode: Mode::ZeroPageY }),
        0x84 => Some(Instruction { op: Op::Sty, mode: Mode::ZeroPage }),
        0x8C => Some(Instruction { op: Op::Sty, mode: Mode::Absolute }),
        0x94 => Some(Instruction { op: Op::Sty, mode: Mode::ZeroPageX }),
        0x86 => Some(Instruction { op: Op::Stx, mode: Mode::ZeroPage }),
        0x8E => Some(Instruction { op: Op::Stx, mode: Mode::Absolute }),
        0x96 => Some(Instruction { op: Op::Stx, mode: Mode::ZeroPageY }),
        0x88 => Some(Instruction { op: Op::Dey, mode: Mode::Implied }),
        0x8A => Some(Instruction { op: Op::Txa, mode: Mode::Implied }),
        0x8B => Some(Instruction { op: Op::Xaa, mode: Mode::Immediate }),
        0x90 => Some(Instruction { op: Op::Bcc, mode: Mode::Immediate }),
        0x93 => Some(Instruction { op: Op::Ahx, mode: Mode::IndirectY }),
        0x9F => Some(Instruction { op: Op::Ahx, mode: Mode::AbsoluteY }),
        0x98 => Some(Instruction { op: Op::Tya, mode: Mode::Implied }),
        0x9A => Some(Instruction { op: Op::Txs, mode: Mode::Implied }),
        0x9B => Some(Instruction { op: Op::Tas, mode: Mode::AbsoluteY }),
        0x9C => Some(Instruction { op: Op::Shy, mode: Mode::AbsoluteX }),
        0x9E => Some(Instruction { op: Op::Shx, mode: Mode::AbsoluteY }),
        0xA0 => Some(Instruction { op: Op::Ldy, mode: Mode::Immediate }),
        0xA4 => Some(Instruction { op: Op::Ldy, mode: Mode::ZeroPage }),
        0xAC => Some(Instruction { op: Op::Ldy, mode: Mode::Absolute }),
        0xB4 => Some(Instruction { op: Op::Ldy, mode: Mode::ZeroPageX }),
        0xBC => Some(Instruction { op: Op::Ldy, mode: Mode::AbsoluteX }),
        0xA1 => Some(Instruction { op: Op::Lda, mode: Mode::IndirectX }),
        0xA5 => Some(Instruction { op: Op::Lda, mode: Mode::ZeroPage }),
        0xA9 => Some(Instruction { op: Op::Lda, mode: Mode::Immediate }),
        0xAD => Some(Instruction { op: Op::Lda, mode: Mode::Absolute }),
        0xB1 => Some(Instruction { op: Op::Lda, mode: Mode::IndirectY }),
        0xB5 => Some(Instruction { op: Op::Lda, mode: Mode::ZeroPageX }),
        0xB9 => Some(Instruction { op: Op::Lda, mode: Mode::AbsoluteY }),
        0xBD => Some(Instruction { op: Op::Lda, mode: Mode::AbsoluteX }),
        0xA2 => Some(Instruction { op: Op::Ldx, mode: Mode::Immediate }),
        0xA6 => Some(Instruction { op: Op::Ldx, mode: Mode::ZeroPage }),
        0xAE => Some(Instruction { op: Op::Ldx, mode: Mode::Absolute }),
        0xB6 => Some(Instruction { op: Op::Ldx, mode: Mode::ZeroPageY }),
        0xBE => Some(Instruction { op: Op::Ldx, mode: Mode::AbsoluteY }),
        0xA3 => Some(Instruction { op: Op::Lax, mode: Mode::IndirectX }),
        0xA7 => Some(Instruction { op: Op::Lax, mode: Mode::ZeroPage }),
        0xAF => Some(Instruction { op: Op::Lax, mode: Mode::Absolute }),
        0xB3 => Some(Instruction { op: Op::Lax, mode: Mode::IndirectY }),
        0xB7 => Some(Instruction { op: Op::Lax, mode: Mode::ZeroPageY }),
        0xBF => Some(Instruction { op: Op::Lax, mode: Mode::AbsoluteY }),
        0xA8 => Some(Instruction { op: Op::Tay, mode: Mode::Implied }),
        0xAA => Some(Instruction { op: Op::Tax, mode: Mode::Implied }),
        0xAB => Some(Instruction { op: Op::Lxa, mode: Mode::Immediate }),
        0xB0 => Some(Instruction { op: Op::Bcs, mode: Mode::Immediate }),
        0xB8 => Some(Instruction { op: Op::Clv, mode: Mode::Implied }),
        0xBA => Some(Instruction { op: Op::Tsx, mode: Mode::Implied }),
        0xBB => Some(Instruction { op: Op::Las, mode: Mode::AbsoluteY }),
        0xC0 => Some(Instruction { op: Op::Cpy, mode: Mode::Immediate }),
        0xC4 => Some(Instruction { op: Op::Cpy, mode: Mode::ZeroPage }),
        0xCC => Some(Instruction { op: Op::Cpy, mode: Mode::Absolute }),
        0xC1 => Some(Instruction { op: Op::Cmp, mode: Mode::IndirectX }),
        0xC5 => Some(Instruction { op: Op::Cmp, mode: Mode::ZeroPage }),
        0xC9 => Some(Instruction { op: Op::Cmp, mode: Mode::Immediate }),
        0xCD => Some(Instruction { op: Op::Cmp, mode: Mode::Absolute }),
        0xD1 => Some(Instruction { op: Op::Cmp, mode: Mode::IndirectY }),
        0xD5 => Some(Instruction { op: Op::Cmp, mode: Mode::ZeroPageX }),
        0xD9 => Some(Instruction { op: Op::Cmp, mode: Mode::AbsoluteY }),
        0xDD => Some(Instruction { op: Op::Cmp, mode: Mode::AbsoluteX }),
        0xC3 => Some(Instruction { op: Op::Dcp, mode: Mode::IndirectX }),
        0xC7 => Some(Instruction { op: Op::Dcp, mode: Mode::ZeroPage }),
        0xCF => Some(Instruction { op: Op::Dcp, mode: Mode::Absolute }),
        0xD3 => Some(Instruction { op: Op::Dcp, mode: Mode::IndirectY }),
        0xD7 => Some(Instruction { op: Op::Dcp, mode: Mode::ZeroPageX }),
        0xDB => Some(Instruction { op: Op::Dcp, mode: Mode::AbsoluteY }),
        0xDF => Some(Instruction { op: Op::Dcp, mode: Mode::AbsoluteX }),
        0xC6 => Some(Instruction { op: Op::Dec, mode: Mode::ZeroPage }),
        0xCE => Some(Instruction { op: Op::Dec, mode: Mode::Absolute }),
        0xD6 => Some(Instruction { op: Op::Dec, mode: Mode::ZeroPageX }),
        0xDE => Some(Instruction { op: Op::Dec, mode: Mode::AbsoluteX }),
        0xC8 => Some(Instruction { op: Op::Iny, mode: Mode::Implied }),
        0xCA => Some(Instruction { op: Op::Dex, mode: Mode::Implied }),
        0xCB => Some(Instruction { op: Op::Axs, mode: Mode::Immediate }),
        0xD0 => Some(Instruction { op: Op::Bne, mode: Mode::Immediate }),
        0xD8 => Some(Instruction { op: Op::Cld, mode: Mode::Implied }),
        0xE0 => Some(Instruction { op: Op::Cpx, mode: Mode::Immediate }),
        0xE4 => Some(Instruction { op: Op::Cpx, mode: Mode::ZeroPage }),
        0xEC => Some(Instruction { op: Op::Cpx, mode: Mode::Absolute }),
        0xE1 => Some(Instruction { op: Op::Sbc, mode: Mode::IndirectX }),
        0xE5 => Some(Instruction { op: Op::Sbc, mode: Mode::ZeroPage }),
        0xE9 => Some(Instruction { op: Op::Sbc, mode: Mode::Immediate }),
        0xED => Some(Instruction { op: Op::Sbc, mode: Mode::Absolute }),
        0xF1 => Some(Instruction { op: Op::Sbc, mode: Mode::IndirectY }),
        0xF5 => Some(Instruction { op: Op::Sbc, mode: Mode::ZeroPageX }),
        0xF9 => Some(Instruction { op: Op::Sbc, mode: Mode::AbsoluteY }),
        0xFD => Some(Instruction { op: Op::Sbc, mode: Mode::AbsoluteX }),
        0xE3 => Some(Instruction { op: Op::Isc, mode: Mode::IndirectX }),
        0xE7 => Some(Instruction { op: Op::Isc, mode: Mode::ZeroPage }),
        0xEF => Some(Instruction { op: Op::Isc, mode: Mode::Absolute }),
        0xF3 => Some(Instruction { op: Op::Isc, mode: Mode::IndirectY }),
        0xF7 => Some(Instruction { op: Op::Isc, mode: Mode::ZeroPageX }),
        0xFB => Some(Instruction { op: Op::Isc, mode: Mode::AbsoluteY }),
        0xFF => Some(Instruction { op: Op::Isc, mode: Mode::AbsoluteX }),
        0xE6 => Some(Instruction { op: Op::Inc, mode: Mode::ZeroPage }),
        0xEE => Some(Instruction { op: Op::Inc, mode: Mode::Absolute }),
        0xF6 => Some(Instruction { op: Op::Inc, mode: Mode::ZeroPageX }),
        0xFE => Some(Instruction { op: Op::Inc, mode: Mode::AbsoluteX }),
        0xE8 => Some(Instruction { op: Op::Inx, mode: Mode::Implied }),
        0xEB => Some(Instruction { op: Op::SbcNop, mode: Mode::Immediate }),
        0xF0 => Some(Instruction { op: Op::Beq, mode: Mode::Immediate }),
        0xF8 => Some(Instruction { op: Op::Sed, mode: Mode::Implied }),
        _ => None,
    }
}

pub fn decode(opcode: u8) -> (r: Option<Instruction>)
    ensures
        r == instruction_of(opcode),
{
    match opcode {
        0x00 => Some(Instruction { op: Op::Brk, mode: Mode::Implied }),
        0x01 => Some(Instruction { op: Op::Ora, mode: Mode::IndirectX }),
        0x05 => Some(Instruction { op: Op::Ora, mode: Mode::ZeroPage }),
        0x09 => Some(Instruction { op: Op::Ora, mode: Mode::Immediate }),
        0x0D => Some(Instruction { op: Op::Ora, mode: Mode::Absolute }),
        0x11 => Some(Instruction { op: Op::Ora, mode: Mode::IndirectY }),
        0x15 => Some(Instruction { op: Op::Ora, mode: Mode::ZeroPageX }),
        0x19 => Some(Instruction { op: Op::Ora, mode: Mode::AbsoluteY }),
        0x1D => Some(Instruction { op: Op::Ora, mode: Mode::AbsoluteX }),
        0x03 => Some(Instruction { op: Op::Slo, mode: Mode::IndirectX }),
        0x07 => Some(Instruction { op: Op::Slo, mode: Mode::ZeroPage }),
        0x0F => Some(Instruction { op: Op::Slo, mode: Mode::Absolute }),
        0x13 => Some(Instruction { op: Op::Slo, mode: Mode::IndirectY }),
        0x17 => Some(Instruction { op: Op::Slo, mode: Mode::ZeroPageX }),
        0x1B => Some(Instruction { op: Op::Slo, mode: Mode::AbsoluteY }),
        0x1F => Some(Instruction { op: Op::Slo, mode: Mode::AbsoluteX }),
        0x04 | 0x44 | 0x64 => Some(Instruction { op: Op::NopRead, mode: Mode::ZeroPage }),
        0x0C => Some(Instruction { op: Op::NopRead, mode: Mode::Absolute }),
        0x14 | 0x34 | 0x54 | 0x74 | 0xD4 | 0xF4 => Some(Instruction { op: Op::NopRead, mode: Mode::ZeroPageX }),
        0x1C | 0x3C | 0x5C | 0x7C | 0xDC | 0xFC => Some(Instruction { op: Op::NopRead, mode: Mode::AbsoluteX }),
        0x80 | 0x82 | 0x89 | 0xC2 | 0xE2 => Some(Instruction { op: Op::NopRead, mode: Mode::Immediate }),
        0x06 => Some(Instruction { op: Op::Asl, mode: Mode::ZeroPage }),
        0x0E => Some(Instruction { op: Op::Asl, mode: Mode::Absolute }),
        0x16 => Some(Instruction { op: Op::Asl, mode: Mode::ZeroPageX }),
        0x1E => Some(Instruction { op: Op::Asl, mode: Mode::AbsoluteX }),
        0x08 => Some(Instruction { op: Op::Php, mode: Mode::Implied }),
        0x0A => Some(Instruction { op: Op::AslA, mode: Mode::Implied }),
        0x0B | 0x2B => Some(Instruction { op: Op::Anc, mode: Mode::Immediate }),
        0x10 => Some(Instruction { op: Op::Bpl, mode: Mode::Immediate }),
        0x18 => Some(Instruction { op: Op::Clc, mode: Mode::Implied }),
        0x1A | 0x3A | 0x5A | 0x7A | 0xDA | 0xEA | 0xFA => Some(Instruction { op: Op::Nop, mode: Mode::Implied }),
        0x20 => Some(Instruction { op: Op::Jsr, mode: Mode::Absolute }),
        0x21 => Some(Instruction { op: Op::And, mode: Mode::IndirectX }),
        0x25 => Some(Instruction { op: Op::And, mode: Mode::ZeroPage }),
        0x29 => Some(Instruction { op: Op::And, mode: Mode::Immediate }),
        0x2D => Some(Instruction { op: Op::And, mode: Mode::Absolute }),
        0x31 => Some(Instruction { op: Op::And, mode: Mode::IndirectY }),
        0x35 => Some(Instruction { op: Op::And, mode: Mode::ZeroPageX }),
        0x39 => Some(Instruction { op: Op::And, mode: Mode::AbsoluteY }),
        0x3D => Some(Instruction { op: Op::And, mode: Mode::AbsoluteX }),
        0x23 => Some(Instruction { op: Op::Rla, mode: Mode::IndirectX }),
        0x27 => Some(Instruction { op: Op::Rla, mode: Mode::ZeroPage }),
        0x2F => Some(Instruction { op: Op::Rla, mode: Mode::Absolute }),
        0x33 => Some(Instruction { op: Op::Rla, mode: Mode::IndirectY }),
        0x37 => Some(Instruction { op: Op::Rla, mode: Mode::ZeroPageX }),
        0x3B => Some(Instruction { op: Op::Rla, mode: Mode::AbsoluteY }),
        0x3F => Some(Instruction { op: Op::Rla, mode: Mode::AbsoluteX }),
        0x24 => Some(Instruction { op: Op::Bit, mode: Mode::ZeroPage }),
        0x2C => Some(Instruction { op: Op::Bit, mode: Mode::Absolute }),
        0x26 => Some(Instruction { op: Op::Rol, mode: Mode::ZeroPage }),
        0x2E => Some(Instruction { op: Op::Rol, mode: Mode::Absolute }),
        0x36 => Some(Instruction { op: Op::Rol, mode: Mode::ZeroPageX }),
        0x3E => Some(Instruction { op: Op::Rol, mode: Mode::AbsoluteX }),
        0x28 => Some(Instruction { op: Op::Plp, mode: Mode::Implied }),
        0x2A => Some(Instruction { op: Op::RolA, mode: Mode::Implied }),
        0x30 => Some(Instruction { op: Op::Bmi, mode: Mode::Immediate }),
        0x38 => Some(Instruction { op: Op::Sec, mode: Mode::Implied }),
        0x40 => Some(Instruction { op: Op::Rti, mode: Mode::Implied }),
        0x41 => Some(Instruction { op: Op::Eor, mode: Mode::IndirectX }),
        0x45 => Some(Instruction { op: Op::Eor, mode: Mode::ZeroPage }),
        0x49 => Some(Instruction { op: Op::Eor, mode: Mode::Immediate }),
        0x4D => Some(Instruction { op: Op::Eor, mode: Mode::Absolute }),
        0x51 => Some(Instruction { op: Op::Eor, mode: Mode::IndirectY }),
        0x55 => Some(Instruction { op: Op::Eor, mode: Mode::ZeroPageX }),
        0x59 => Some(Instruction { op: Op::Eor, mode: Mode::AbsoluteY }),
        0x5D => Some(Instruction { op: Op::Eor, mode: Mode::AbsoluteX }),
        0x43 => Some(Instruction { op: Op::Sre, mode: Mode::IndirectX }),
        0x47 => Some(Instruction { op: Op::Sre, mode: Mode::ZeroPage }),
        0x4F => Some(Instruction { op: Op::Sre, mode: Mode::Absolute }),
        0x53 => Some(Instruction { op: Op::Sre, mode: Mode::IndirectY }),
        0x57 => Some(Instruction { op: Op::Sre, mode: Mode::ZeroPageX }),
        0x5B => Some(Instruction { op: Op::Sre, mode: Mode::AbsoluteY }),
        0x5F => Some(Instruction { op: Op::Sre, mode: Mode::AbsoluteX }),
        0x46 => Some(Instruction { op: Op::Lsr, mode: Mode::ZeroPage }),
        0x4E => Some(Instruction { op: Op::Lsr, mode: Mode::Absolute }),
        0x56 => Some(Instruction { op: Op::Lsr, mode: Mode::ZeroPageX }),
        0x5E => Some(Instruction { op: Op::Lsr, mode: Mode::AbsoluteX }),
        0x48 => Some(Instruction { op: Op::Pha, mode: Mode::Implied }),
        0x4A => Some(Instruction { op: Op::LsrA, mode: Mode::Implied }),
        0x4B => Some(Instruction { op: Op::Alr, mode: Mode::Immediate }),
        0x4C => Some(Instruction { op: Op::Jmp, mode: Mode::Absolute }),
        0x6C => Some(Instruction { op: Op::Jmp, mode: Mode::Indirect }),
        0x50 => Some(Instruction { op: Op::Bvc, mode: Mode::Immediate }),
        0x58 => Some(Instruction { op: Op::Cli, mode: Mode::Implied }),
        0x60 => Some(Instruction { op: Op::Rts, mode: Mode::Implied }),
        0x61 => Some(Instruction { op: Op::Adc, mode: Mode::IndirectX }),
        0x65 => Some(Instruction { op: Op::Adc, mode: Mode::ZeroPage }),
        0x69 => Some(Instruction { op: Op::Adc, mode: Mode::Immediate }),
        0x6D => Some(Instruction { op: Op::Adc, mode: Mode::Absolute }),
        0x71 => Some(Instruction { op: Op::Adc, mode: Mode::IndirectY }),
        0x75 => Some(Instruction { op: Op::Adc, mode: Mode::ZeroPageX }),
        0x79 => Some(Instruction { op: Op::Adc, mode: Mode::AbsoluteY }),
        0x7D => Some(Instruction { op: Op::Adc, mode: Mode::AbsoluteX }),
        0x63 => Some(Instruction { op: Op::Rra, mode: Mode::IndirectX }),
        0x67 => Some(Instruction { op: Op::Rra, mode: Mode::ZeroPage }),
        0x6F => Some(Instruction { op: Op::Rra, mode: Mode::Absolute }),
        0x73 => Some(Instruction { op: Op::Rra, mode: Mode::IndirectY }),
        0x77 => Some(Instruction { op: Op::Rra, mode: Mode::ZeroPageX }),
        0x7B => Some(Instruction { op: Op::Rra, mode: Mode::AbsoluteY }),
        0x7F => Some(Instruction { op: Op::Rra, mode: Mode::AbsoluteX }),
        0x66 => Some(Instruction { op: Op::Ror, mode: Mode::ZeroPage }),
        0x6E => Some(Instruction { op: Op::Ror, mode: Mode::Absolute }),
        0x76 => Some(Instruction { op: Op::Ror, mode: Mode::ZeroPageX }),
        0x7E => Some(Instruction { op: Op::Ror, mode: Mode::AbsoluteX }),
        0x68 => Some(Instruction { op: Op::Pla, mode: Mode::Implied }),
        0x6A => Some(Instruction { op: Op::RorA, mode: Mode::Implied }),
        0x6B => Some(Instruction { op: Op::Arr, mode: Mode::Immediate }),
        0x70 => Some(Instruction { op: Op::Bvs, mode: Mode::Immediate }),
        0x78 => Some(Instruction { op: Op::Sei, mode: Mode::Implied }),
        0x81 => Some(Instruction { op: Op::Sta, mode: Mode::IndirectX }),
        0x85 => Some(Instruction { op: Op::Sta, mode: Mode::ZeroPage }),
        0x8D => Some(Instruction { op: Op::Sta, mode: Mode::Absolute }),
        0x91 => Some(Instruction { op: Op::Sta, mode: Mode::IndirectY }),
        0x95 => Some(Instruction { op: Op::Sta, mode: Mode::ZeroPageX }),
        0x99 => Some(Instruction { op: Op::Sta, mode: Mode::AbsoluteY }),
        0x9D => Some(Instruction { op: Op::Sta, mode: Mode::AbsoluteX }),
        0x83 => Some(Instruction { op: Op::Sax, mode: Mode::IndirectX }),
        0x87 => Some(Instruction { op: Op::Sax, mode: Mode::ZeroPage }),
        0x8F => Some(Instruction { op: Op::Sax, mode: Mode::Absolute }),
        0x97 => Some(Instruction { op: Op::Sax, mode: Mode::ZeroPageY }),
        0x84 => Some(Instruction { op: Op::Sty, mode: Mode::ZeroPage }),
        0x8C => Some(Instruction { op: Op::Sty, mode: Mode::Absolute }),
        0x94 => Some(Instruction { op: Op::Sty, mode: Mode::ZeroPageX }),
        0x86 => Some(Instruction { op: Op::Stx, mode: Mode::ZeroPage }),
        0x8E => Some(Instruction { op: Op::Stx, mode: Mode::Absolute }),
        0x96 => Some(Instruction { op: Op::Stx, mode: Mode::ZeroPageY }),
        0x88 => Some(Instruction { op: Op::Dey, mode: Mode::Implied }),
        0x8A => Some(Instruction { op: Op::Txa, mode: Mode::Implied }),
        0x8B => Some(Instruction { op: Op::Xaa, mode: Mode::Immediate }),
        0x90 => Some(Instruction { op: Op::Bcc, mode: Mode::Immediate }),
        0x93 => Some(Instruction { op: Op::Ahx, mode: Mode::IndirectY }),
        0x9F => Some(Instruction { op: Op::Ahx, mode: Mode::AbsoluteY }),
        0x98 => Some(Instruction { op: Op::Tya, mode: Mode::Implied }),
        0x9A => Some(Instruction { op: Op::Txs, mode: Mode::Implied }),
        0x9B => Some(Instruction { op: Op::Tas, mode: Mode::AbsoluteY }),
        0x9C => Some(Instruction { op: Op::Shy, mode: Mode::AbsoluteX }),
        0x9E => Some(Instruction { op: Op::Shx, mode: Mode::AbsoluteY }),
        0xA0 => Some(Instruction { op: Op::Ldy, mode: Mode::Immediate }),
        0xA4 => Some(Instruction { op: Op::Ldy, mode: Mode::ZeroPage }),
        0xAC => Some(Instruction { op: Op::Ldy, mode: Mode::Absolute }),
        0xB4 => Some(Instruction { op: Op::Ldy, mode: Mode::ZeroPageX }),
        0xBC => Some(Instruction { op: Op::Ldy, mode: Mode::AbsoluteX }),
        0xA1 => Some(Instruction { op: Op::Lda, mode: Mode::IndirectX }),
        0xA5 => Some(Instruction { op: Op::Lda, mode: Mode::ZeroPage }),
        0xA9 => Some(Instruction { op: Op::Lda, mode: Mode::Immediate }),
        0xAD => Some(Instruction { op: Op::Lda, mode: Mode::Absolute }),
        0xB1 => Some(Instruction { op: Op::Lda, mode: Mode::IndirectY }),
        0xB5 => Some(Instruction { op: Op::Lda, mode: Mode::ZeroPageX }),
        0xB9 => Some(Instruction { op: Op::Lda, mode: Mode::AbsoluteY }),
        0xBD => Some(Instruction { op: Op::Lda, mode: Mode::AbsoluteX }),
        0xA2 => Some(Instruction { op: Op::Ldx, mode: Mode::Immediate }),
        0xA6 => Some(Instruction { op: Op::Ldx, mode: Mode::ZeroPage }),
        0xAE => Some(Instruction { op: Op::Ldx, mode: Mode::Absolute }),
        0xB6 => Some(Instruction { op: Op::Ldx, mode: Mode::ZeroPageY }),
        0xBE => Some(Instruction { op: Op::Ldx, mode: Mode::AbsoluteY }),
        0xA3 => Some(Instruction { op: Op::Lax, mode: Mode::IndirectX }),
        0xA7 => Some(Instruction { op: Op::Lax, mode: Mode::ZeroPage }),
        0xAF => Some(Instruction { op: Op::Lax, mode: Mode::Absolute }),
        0xB3 => Some(Instruction { op: Op::Lax, mode: Mode::IndirectY }),
        0xB7 => Some(Instruction { op: Op::Lax, mode: Mode::ZeroPageY }),
        0xBF => Some(Instruction { op: Op::Lax, mode: Mode::AbsoluteY }),
        0xA8 => Some(Instruction { op: Op::Tay, mode: Mode::Implied }),
        0xAA => Some(Instruction { op: Op::Tax, mode: Mode::Implied }),
        0xAB => Some(Instruction { op: Op::Lxa, mode: Mode::Immediate }),
        0xB0 => Some(Instruction { op: Op::Bcs, mode: Mode::Immediate }),
        0xB8 => Some(Instruction { op: Op::Clv, mode: Mode::Implied }),
        0xBA => Some(Instruction { op: Op::Tsx, mode: Mode::Implied }),
        0xBB => Some(Instruction { op: Op::Las, mode: Mode::AbsoluteY }),
        0xC0 => Some(Instruction { op: Op::Cpy, mode: Mode::Immediate }),
        0xC4 => Some(Instruction { op: Op::Cpy, mode: Mode::ZeroPage }),
        0xCC => Some(Instruction { op: Op::Cpy, mode: Mode::Absolute }),
        0xC1 => Some(Instruction { op: Op::Cmp, mode: Mode::IndirectX }),
        0xC5 => Some(Instruction { op: Op::Cmp, mode: Mode::ZeroPage }),
        0xC9 => Some(Instruction { op: Op::Cmp, mode: Mode::Immediate }),
        0xCD => Some(Instruction { op: Op::Cmp, mode: Mode::Absolute }),
        0xD1 => Some(Instruction { op: Op::Cmp, mode: Mode::IndirectY }),
        0xD5 => Some(Instruction { op: Op::Cmp, mode: Mode::ZeroPageX }),
        0xD9 => Some(Instruction { op: Op::Cmp, mode: Mode::AbsoluteY }),
        0xDD => Some(Instruction { op: Op::Cmp, mode: Mode::AbsoluteX }),
        0xC3 => Some(Instruction { op: Op::Dcp, mode: Mode::IndirectX }),
        0xC7 => Some(Instruction { op: Op::Dcp, mode: Mode::ZeroPage }),
        0xCF => Some(Instruction { op: Op::Dcp, mode: Mode::Absolute }),
        0xD3 => Some(Instruction { op: Op::Dcp, mode: Mode::IndirectY }),
        0xD7 => Some(Instruction { op: Op::Dcp, mode: Mode::ZeroPageX }),
        0xDB => Some(Instruction { op: Op::Dcp, mode: Mode::AbsoluteY }),
        0xDF => Some(Instruction { op: Op::Dcp, mode: Mode::AbsoluteX }),
        0xC6 => Some(Instruction { op: Op::Dec, mode: Mode::ZeroPage }),
        0xCE => Some(Instruction { op: Op::Dec, mode: Mode::Absolute }),
        0xD6 => Some(Instruction { op: Op::Dec, mode: Mode::ZeroPageX }),
        0xDE => Some(Instruction { op: Op::Dec, mode: Mode::AbsoluteX }),
        0xC8 => Some(Instruction { op: Op::Iny, mode: Mode::Implied }),
        0xCA => Some(Instruction { op: Op::Dex, mode: Mode::Implied }),
        0xCB => Some(Instruction { op: Op::Axs, mode: Mode::Immediate }),
        0xD0 => Some(Instruction { op: Op::Bne, mode: Mode::Immediate }),
        0xD8 => Some(Instruction { op: Op::Cld, mode: Mode::Implied }),
        0xE0 => Some(Instruction { op: Op::Cpx, mode: Mode::Immediate }),
        0xE4 => Some(Instruction { op: Op::Cpx, mode: Mode::ZeroPage }),
        0xEC => Some(Instruction { op: Op::Cpx, mode: Mode::Absolute }),
        0xE1 => Some(Instruction { op: Op::Sbc, mode: Mode::IndirectX }),
        0xE5 => Some(Instruction { op: Op::Sbc, mode: Mode::ZeroPage }),
        0xE9 => Some(Instruction { op: Op::Sbc, mode: Mode::Immediate }),
        0xED => Some(Instruction { op: Op::Sbc, mode: Mode::Absolute }),
        0xF1 => Some(Instruction { op: Op::Sbc, mode: Mode::IndirectY }),
        0xF5 => Some(Instruction { op: Op::Sbc, mode: Mode::ZeroPageX }),
        0xF9 => Some(Instruction { op: Op::Sbc, mode: Mode::AbsoluteY }),
        0xFD => Some(Instruction { op: Op::Sbc, mode: Mode::AbsoluteX }),
        0xE3 => Some(Instruction { op: Op::Isc, mode: Mode::IndirectX }),
        0xE7 => Some(Instruction { op: Op::Isc, mode: Mode::ZeroPage }),
        0xEF => Some(Instruction { op: Op::Isc, mode: Mode::Absolute }),
        0xF3 => Some(Instruction { op: Op::Isc, mode: Mode::IndirectY }),
        0xF7 => Some(Instruction { op: Op::Isc, mode: Mode::ZeroPageX }),
        0xFB => Some(Instruction { op: Op::Isc, mode: Mode::AbsoluteY }),
        0xFF => Some(Instruction { op: Op::Isc, mode: Mode::AbsoluteX }),
        0xE6 => Some(Instruction { op: Op::Inc, mode: Mode::ZeroPage }),
        0xEE => Some(Instruction { op: Op::Inc, mode: Mode::Absolute }),
        0xF6 => Some(Instruction { op: Op::Inc, mode: Mode::ZeroPageX }),
        0xFE => Some(Instruction { op: Op::Inc, mode: Mode::AbsoluteX }),
        0xE8 => Some(Instruction { op: Op::Inx, mode: Mode::Implied }),
        0xEB => Some(Instruction { op: Op::SbcNop, mode: Mode::Immediate }),
        0xF0 => Some(Instruction { op: Op::Beq, mode: Mode::Immediate }),
        0xF8 => Some(Instruction { op: Op::Sed, mode: Mode::Implied }),
        _ => None,
    }
}

/// The cycles an instruction takes before any page-crossing or branch penalty.
pub open spec fn base_cycles(i: Instruction) -> u8 {
    match i.op.spec_access() {
        Access::Read => match i.mode {
            Mode::Immediate => 2,
            Mode::ZeroPage => 3,
            Mode::IndirectX => 6,
            Mode::IndirectY => 5,
            _ => 4,
        },
        Access::Write => match i.mode {
            Mode::ZeroPage => 3,
            Mode::ZeroPageX | Mode::ZeroPageY | Mode::Absolute => 4,
            Mode::AbsoluteX | Mode::AbsoluteY => 5,
            _ => 6,
        },
        Access::Modify => match i.mode {
            Mode::ZeroPage => 5,
            Mode::ZeroPageX | Mode::Absolute => 6,
            Mode::AbsoluteX | Mode::AbsoluteY => 7,
            _ => 8,
        },
        Access::Branch => 2,
        Access::Other => match i.op {
            Op::Brk => 7,
            Op::Rti | Op::Rts | Op::Jsr => 6,
            Op::Jmp => if i.mode == Mode::Absolute {
                3
            } else {
                5
            },
            Op::Pha | Op::Php => 3,
            Op::Pla | Op::Plp => 4,
            _ => 2,
        },
    }
}

/// Whether crossing a page while indexing costs the instruction a cycle: so
/// it is for reads in the indexed absolute modes and the indirect-indexed mode.
pub open spec fn pays_page_cross(i: Instruction) -> bool {
    i.op.spec_access() == Access::Read && (i.mode == Mode::AbsoluteX || i.mode == Mode::AbsoluteY
        || i.mode == Mode::IndirectY)
}

/// The cycles an instruction takes: its base cost, one more for a paying read
/// that crossed a page, and for a branch one more when taken and another when
/// the target lies on another page.
pub open spec fn cycles_of(i: Instruction, page_crossed: bool, taken: bool, target_crossed: bool) -> int {
    base_cycles(i) + (if pays_page_cross(i) && page_crossed {
        1int
    } else {
        0
    }) + (if i.op.spec_access() == Access::Branch && taken {
        1int + if target_crossed {
            1int
        } else {
            0
        }
    } else {
        0
    })
}

/// The cycles an instruction takes, with the penalties that apply to it.
pub fn instruction_cycles(i: Instruction, page_crossed: bool, taken: bool, target_crossed: bool) -> (r: u8)
    ensures
        r == cycles_of(i, page_crossed, taken, target_crossed),
{
    let access = i.op.access();
    let base: u8 = match access {
        Access::Read => match i.mode {
            Mode::Immediate => 2,
            Mode::ZeroPage => 3,
            Mode::IndirectX => 6,
            Mode::IndirectY => 5,
            _ => 4,
        },
        Access::Write => match i.mode {
            Mode::ZeroPage => 3,
            Mode::ZeroPageX | Mode::ZeroPageY | Mode::Absolute => 4,
            Mode::AbsoluteX | Mode::AbsoluteY => 5,
            _ => 6,
        },
        Access::Modify => match i.mode {
            Mode::ZeroPage => 5,
            Mode::ZeroPageX | Mode::Absolute => 6,
            Mode::AbsoluteX | Mode::AbsoluteY => 7,
            _ => 8,
        },
        Access::Branch => 2,
        Access::Other => match i.op {
            Op::Brk => 7,
            Op::Rti | Op::Rts | Op::Jsr => 6,
            Op::Jmp => if i.mode == Mode::Absolute {
                3
            } else {
                5
            },
            Op::Pha | Op::Php => 3,
            Op::Pla | Op::Plp => 4,
            _ => 2,
        },
    };
    let mut r = base;
    if access == Access::Read && (i.mode == Mode::AbsoluteX || i.mode == Mode::AbsoluteY || i.mode
        == Mode::IndirectY) && page_crossed {
        r = r + 1;
    }
    if access == Access::Branch && taken {
        r = r + 1;
        if target_crossed {
            r = r + 1;
        }
    }
    r
}

} // verus!
