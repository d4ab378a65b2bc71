//! Executing one instruction of the 6502 over a flat 64 KiB memory: the
//! opcode table, operand fetch, register, flag and stack effects, and cycle
//! accounting. Besides the documented instruction set the table holds the
//! undocumented NOPs, LAX, SAX, SLO, RLA, SRE, RRA, DCP, ISB, ANC, ALR, ARR,
//! AXS and the $EB alias of SBC; other opcodes run as 2-cycle, 1-byte NOPs.
use vstd::prelude::*;
use crate::cpu::{
    AddrMode, Interrupt, Registers, Status, MEM_SIZE, branch, branch_cycles, branch_target,
    enter_interrupt, operand_address, operand_byte, operand_spec, pull, push, pushed_status,
    stack_addr, status_of, word_at, IRQ_VECTOR,
};

verus! {

/// Operations of the opcode table. `AslA` to `RorA` are the accumulator
/// forms of the shifts and rotates.
#[derive(PartialEq, Eq, Structural, Clone, Copy, Debug)]
pub enum Op {
    Lda, Ldx, Ldy, Sta, Stx, Sty,
    And, Ora, Eor, Adc, Sbc, Cmp, Cpx, Cpy,
    Tax, Tay, Txa, Tya, Tsx, Txs, Inx, Iny, Dex, Dey,
    Clc, Sec, Cli, Sei, Cld, Sed, Clv, Nop, Jmp,
    Bit, Asl, Lsr, Rol, Ror, Inc, Dec, AslA, LsrA, RolA, RorA,
    Lax, Sax, Anc, Alr, Axs, Arr,
    Slo, Rla, Sre, Rra, Dcp, Isb,
}

/// The opcode table: operation and addressing mode (`None` for implied).
#[verifier::opaque]
pub open spec fn decode_spec(opcode: u8) -> Option<(Op, Option<AddrMode>)> {
    match opcode {
        0x01 => Some((Op::Ora, Some(AddrMode::IndexedIndirect))),
        0x05 => Some((Op::Ora, Some(AddrMode::ZeroPage))),
        0x09 => Some((Op::Ora, Some(AddrMode::Immediate))),
        0x0D => Some((Op::Ora, Some(AddrMode::Absolute))),
        0x11 => Some((Op::Ora, Some(AddrMode::IndirectIndexed))),
        0x15 => Some((Op::Ora, Some(AddrMode::ZeroPageX))),
        0x18 => Some((Op::Clc, None)),
        0x19 => Some((Op::Ora, Some(AddrMode::AbsoluteY))),
        0x1D => Some((Op::Ora, Some(AddrMode::AbsoluteX))),
        0x21 => Some((Op::And, Some(AddrMode::IndexedIndirect))),
        0x25 => Some((Op::And, Some(AddrMode::ZeroPage))),
        0x29 => Some((Op::And, Some(AddrMode::Immediate))),
        0x2D => Some((Op::And, Some(AddrMode::Absolute))),
        0x31 => Some((Op::And, Some(AddrMode::IndirectIndexed))),
        0x35 => Some((Op::And, Some(AddrMode::ZeroPageX))),
        0x38 => Some((Op::Sec, None)),
        0x39 => Some((Op::And, Some(AddrMode::AbsoluteY))),
        0x3D => Some((Op::And, Some(AddrMode::AbsoluteX))),
        0x41 => Some((Op::Eor, Some(AddrMode::IndexedIndirect))),
        0x45 => Some((Op::Eor, Some(AddrMode::ZeroPage))),
        0x49 => Some((Op::Eor, Some(AddrMode::Immediate))),
        0x4C => Some((Op::Jmp, Some(AddrMode::Absolute))),
        0x4D => Some((Op::Eor, Some(AddrMode::Absolute))),
        0x51 => Some((Op::Eor, Some(AddrMode::IndirectIndexed))),
        0x55 => Some((Op::Eor, Some(AddrMode::ZeroPageX))),
        0x58 => Some((Op::Cli, None)),
        0x59 => Some((Op::Eor, Some(AddrMode::AbsoluteY))),
        0x5D => Some((Op::Eor, Some(AddrMode::AbsoluteX))),
        0x61 => Some((Op::Adc, Some(AddrMode::IndexedIndirect))),
        0x65 => Some((Op::Adc, Some(AddrMode::ZeroPage))),
        0x69 => Some((Op::Adc, Some(AddrMode::Immediate))),
        0x6C => Some((Op::Jmp, Some(AddrMode::Indirect))),
        0x6D => Some((Op::Adc, Some(AddrMode::Absolute))),
        0x71 => Some((Op::Adc, Some(AddrMode::IndirectIndexed))),
        0x75 => Some((Op::Adc, Some(AddrMode::ZeroPageX))),
        0x78 => Some((Op::Sei, None)),
        0x79 => Some((Op::Adc, Some(AddrMode::AbsoluteY))),
        0x7D => Some((Op::Adc, Some(AddrMode::AbsoluteX))),
        0x81 => Some((Op::Sta, Some(AddrMode::IndexedIndirect))),
        0x84 => Some((Op::Sty, Some(AddrMode::ZeroPage))),
        0x85 => Some((Op::Sta, Some(AddrMode::ZeroPage))),
        0x86 => Some((Op::Stx, Some(AddrMode::ZeroPage))),
        0x88 => Some((Op::Dey, None)),
        0x8A => Some((Op::Txa, None)),
        0x8C => Some((Op::Sty, Some(AddrMode::Absolute))),
        0x8D => Some((Op::Sta, Some(AddrMode::Absolute))),
        0x8E => Some((Op::Stx, Some(AddrMode::Absolute))),
        0x91 => Some((Op::Sta, Some(AddrMode::IndirectIndexed))),
        0x94 => Some((Op::Sty, Some(AddrMode::ZeroPageX))),
        0x95 => Some((Op::Sta, Some(AddrMode::ZeroPageX))),
        0x96 => Some((Op::Stx, Some(AddrMode::ZeroPageY))),
        0x98 => Some((Op::Tya, None)),
        0x99 => Some((Op::Sta, Some(AddrMode::AbsoluteY))),
        0x9A => Some((Op::Txs, None)),
        0x9D => Some((Op::Sta, Some(AddrMode::AbsoluteX))),
        0xA0 => Some((Op::Ldy, Some(AddrMode::Immediate))),
        0xA1 => Some((Op::Lda, Some(AddrMode::IndexedIndirect))),
        0xA2 => Some((Op::Ldx, Some(AddrMode::Immediate))),
        0xA4 => Some((Op::Ldy, Some(AddrMode::ZeroPage))),
        0xA5 => Some((Op::Lda, Some(AddrMode::ZeroPage))),
        0xA6 => Some((Op::Ldx, Some(AddrMode::ZeroPage))),
        0xA8 => Some((Op::Tay, None)),
        0xA9 => Some((Op::Lda, Some(AddrMode::Immediate))),
        0xAA => Some((Op::Tax, None)),
        0xAC => Some((Op::Ldy, Some(AddrMode::Absolute))),
        0xAD => Some((Op::Lda, Some(AddrMode::Absolute))),
        0xAE => Some((Op::Ldx, Some(AddrMode::Absolute))),
        0xB1 => Some((Op::Lda, Some(AddrMode::IndirectIndexed))),
        0xB4 => Some((Op::Ldy, Some(AddrMode::ZeroPageX))),
        0xB5 => Some((Op::Lda, Some(AddrMode::ZeroPageX))),
        0xB6 => Some((Op::Ldx, Some(AddrMode::ZeroPageY))),
        0xB8 => Some((Op::Clv, None)),
        0xB9 => Some((Op::Lda, Some(AddrMode::AbsoluteY))),
        0xBA => Some((Op::Tsx, None)),
        0xBC => Some((Op::Ldy, Some(AddrMode::AbsoluteX))),
        0xBD => Some((Op::Lda, Some(AddrMode::AbsoluteX))),
        0xBE => Some((Op::Ldx, Some(AddrMode::AbsoluteY))),
        0xC0 => Some((Op::Cpy, Some(AddrMode::Immediate))),
        0xC1 => Some((Op::Cmp, Some(AddrMode::IndexedIndirect))),
        0xC4 => Some((Op::Cpy, Some(AddrMode::ZeroPage))),
        0xC5 => Some((Op::Cmp, Some(AddrMode::ZeroPage))),
        0xC8 => Some((Op::Iny, None)),
        0xC9 => Some((Op::Cmp, Some(AddrMode::Immediate))),
        0xCA => Some((Op::Dex, None)),
        0xCC => Some((Op::Cpy, Some(AddrMode::Absolute))),
        0xCD => Some((Op::Cmp, Some(AddrMode::Absolute))),
        0xD1 => Some((Op::Cmp, Some(AddrMode::IndirectIndexed))),
        0xD5 => Some((Op::Cmp, Some(AddrMode::ZeroPageX))),
        0xD8 => Some((Op::Cld, None)),
        0xD9 => Some((Op::Cmp, Some(AddrMode::AbsoluteY))),
        0xDD => Some((Op::Cmp, Some(AddrMode::AbsoluteX))),
        0xE0 => Some((Op::Cpx, Some(AddrMode::Immediate))),
        0xE1 => Some((Op::Sbc, Some(AddrMode::IndexedIndirect))),
        0xE4 => Some((Op::Cpx, Some(AddrMode::ZeroPage))),
        0xE5 => Some((Op::Sbc, Some(AddrMode::ZeroPage))),
        0xE8 => Some((Op::Inx, None)),
        0xE9 => Some((Op::Sbc, Some(AddrMode::Immediate))),
        0xEA => Some((Op::Nop, None)),
        0xEC => Some((Op::Cpx, Some(AddrMode::Absolute))),
        0xED => Some((Op::Sbc, Some(AddrMode::Absolute))),
        0xF1 => Some((Op::Sbc, Some(AddrMode::IndirectIndexed))),
        0xF5 => Some((Op::Sbc, Some(AddrMode::ZeroPageX))),
        0xF8 => Some((Op::Sed, None)),
        0xF9 => Some((Op::Sbc, Some(AddrMode::AbsoluteY))),
        0xFD => Some((Op::Sbc, Some(AddrMode::AbsoluteX))),
        0x06 => Some((Op::Asl, Some(AddrMode::ZeroPage))),
        0x0A => Some((Op::AslA, None)),
        0x0E => Some((Op::Asl, Some(AddrMode::Absolute))),
        0x16 => Some((Op::Asl, Some(AddrMode::ZeroPageX))),
        0x1E => Some((Op::Asl, Some(AddrMode::AbsoluteX))),
        0x24 => Some((Op::Bit, Some(AddrMode::ZeroPage))),
        0x26 => Some((Op::Rol, Some(AddrMode::ZeroPage))),
        0x2A => Some((Op::RolA, None)),
        0x2C => Some((Op::Bit, Some(AddrMode::Absolute))),
        0x2E => Some((Op::Rol, Some(AddrMode::Absolute))),
        0x36 => Some((Op::Rol, Some(AddrMode::ZeroPageX))),
        0x3E => Some((Op::Rol, Some(AddrMode::AbsoluteX))),
        0x46 => Some((Op::Lsr, Some(AddrMode::ZeroPage))),
        0x4A => Some((Op::LsrA, None)),
        0x4E => Some((Op::Lsr, Some(AddrMode::Absolute))),
        0x56 => Some((Op::Lsr, Some(AddrMode::ZeroPageX))),
        0x5E => Some((Op::Lsr, Some(AddrMode::AbsoluteX))),
        0x66 => Some((Op::Ror, Some(AddrMode::ZeroPage))),
        0x6A => Some((Op::RorA, None)),
        0x6E => Some((Op::Ror, Some(AddrMode::Absolute))),
        0x76 => Some((Op::Ror, Some(AddrMode::ZeroPageX))),
        0x7E => Some((Op::Ror, Some(AddrMode::AbsoluteX))),
        0xC6 => Some((Op::Dec, Some(AddrMode::ZeroPage))),
        0xCE => Some((Op::Dec, Some(AddrMode::Absolute))),
        0xD6 => Some((Op::Dec, Some(AddrMode::ZeroPageX))),
        0xDE => Some((Op::Dec, Some(AddrMode::AbsoluteX))),
        0xE6 => Some((Op::Inc, Some(AddrMode::ZeroPage))),
        0xEE => Some((Op::Inc, Some(AddrMode::Absolute))),
        0xF6 => Some((Op::Inc, Some(AddrMode::ZeroPageX))),
        0xFE => Some((Op::Inc, Some(AddrMode::AbsoluteX))),
        0x04 => Some((Op::Nop, Some(AddrMode::ZeroPage))),
        0x0B => Some((Op::Anc, Some(AddrMode::Immediate))),
        0x0C => Some((Op::Nop, Some(AddrMode::Absolute))),
        0x14 => Some((Op::Nop, Some(AddrMode::ZeroPageX))),
        0x1A => Some((Op::Nop, None)),
        0x1C => Some((Op::Nop, Some(AddrMode::AbsoluteX))),
        0x2B => Some((Op::Anc, Some(AddrMode::Immediate))),
        0x34 => Some((Op::Nop, Some(AddrMode::ZeroPageX))),
        0x3A => Some((Op::Nop, None)),
        0x3C => Some((Op::Nop, Some(AddrMode::AbsoluteX))),
        0x44 => Some((Op::Nop, Some(AddrMode::ZeroPage))),
        0x4B => Some((Op::Alr, Some(AddrMode::Immediate))),
        0x54 => Some((Op::Nop, Some(AddrMode::ZeroPageX))),
        0x5A => Some((Op::Nop, None)),
        0x5C => Some((Op::Nop, Some(AddrMode::AbsoluteX))),
        0x64 => Some((Op::Nop, Some(AddrMode::ZeroPage))),
        0x74 => Some((Op::Nop, Some(AddrMode::ZeroPageX))),
        0x7A => Some((Op::Nop, None)),
        0x7C => Some((Op::Nop, Some(AddrMode::AbsoluteX))),
        0x80 => Some((Op::Nop, Some(AddrMode::Immediate))),
        0x82 => Some((Op::Nop, Some(AddrMode::Immediate))),
        0x83 => Some((Op::Sax, Some(AddrMode::IndexedIndirect))),
        0x87 => Some((Op::Sax, Some(AddrMode::ZeroPage))),
        0x89 => Some((Op::Nop, Some(AddrMode::Immediate))),
        0x8F => Some((Op::Sax, Some(AddrMode::Absolute))),
        0x97 => Some((Op::Sax, Some(AddrMode::ZeroPageY))),
        0xA3 => Some((Op::Lax, Some(AddrMode::IndexedIndirect))),
        0xA7 => Some((Op::Lax, Some(AddrMode::ZeroPage))),
        0xAF => Some((Op::Lax, Some(AddrMode::Absolute))),
        0xB3 => Some((Op::Lax, Some(AddrMode::IndirectIndexed))),
        0xB7 => Some((Op::Lax, Some(AddrMode::ZeroPageY))),
        0xBF => Some((Op::Lax, Some(AddrMode::AbsoluteY))),
        0xC2 => Some((Op::Nop, Some(AddrMode::Immediate))),
        0xCB => Some((Op::Axs, Some(AddrMode::Immediate))),
        0xD4 => Some((Op::Nop, Some(AddrMode::ZeroPageX))),
        0xDA => Some((Op::Nop, None)),
        0xDC => Some((Op::Nop, Some(AddrMode::AbsoluteX))),
        0xE2 => Some((Op::Nop, Some(AddrMode::Immediate))),
        0xEB => Some((Op::Sbc, Some(AddrMode::Immediate))),
        0xF4 => Some((Op::Nop, Some(AddrMode::ZeroPageX))),
        0xFA => Some((Op::Nop, None)),
        0xFC => Some((Op::Nop, Some(AddrMode::AbsoluteX))),
        0x03 => Some((Op::Slo, Some(AddrMode::IndexedIndirect))),
        0x07 => Some((Op::Slo, Some(AddrMode::ZeroPage))),
        0x0F => Some((Op::Slo, Some(AddrMode::Absolute))),
        0x13 => Some((Op::Slo, Some(AddrMode::IndirectIndexed))),
        0x17 => Some((Op::Slo, Some(AddrMode::ZeroPageX))),
        0x1B => Some((Op::Slo, Some(AddrMode::AbsoluteY))),
        0x1F => Some((Op::Slo, Some(AddrMode::AbsoluteX))),
        0x23 => Some((Op::Rla, Some(AddrMode::IndexedIndirect))),
        0x27 => Some((Op::Rla, Some(AddrMode::ZeroPage))),
        0x2F => Some((Op::Rla, Some(AddrMode::Absolute))),
        0x33 => Some((Op::Rla, Some(AddrMode::IndirectIndexed))),
        0x37 => Some((Op::Rla, Some(AddrMode::ZeroPageX))),
        0x3B => Some((Op::Rla, Some(AddrMode::AbsoluteY))),
        0x3F => Some((Op::Rla, Some(AddrMode::AbsoluteX))),
        0x43 => Some((Op::Sre, Some(AddrMode::IndexedIndirect))),
        0x47 => Some((Op::Sre, Some(AddrMode::ZeroPage))),
        0x4F => Some((Op::Sre, Some(AddrMode::Absolute))),
        0x53 => Some((Op::Sre, Some(AddrMode::IndirectIndexed))),
        0x57 => Some((Op::Sre, Some(AddrMode::ZeroPageX))),
        0x5B => Some((Op::Sre, Some(AddrMode::AbsoluteY))),
        0x5F => Some((Op::Sre, Some(AddrMode::AbsoluteX))),
        0x63 => Some((Op::Rra, Some(AddrMode::IndexedIndirect))),
        0x67 => Some((Op::Rra, Some(AddrMode::ZeroPage))),
        0x6B => Some((Op::Arr, Some(AddrMode::Immediate))),
        0x6F => Some((Op::Rra, Some(AddrMode::Absolute))),
        0x73 => Some((Op::Rra, Some(AddrMode::IndirectIndexed))),
        0x77 => Some((Op::Rra, Some(AddrMode::ZeroPageX))),
        0x7B => Some((Op::Rra, Some(AddrMode::AbsoluteY))),
        0x7F => Some((Op::Rra, Some(AddrMode::AbsoluteX))),
        0xC3 => Some((Op::Dcp, Some(AddrMode::IndexedIndirect))),
        0xC7 => Some((Op::Dcp, Some(AddrMode::ZeroPage))),
        0xCF => Some((Op::Dcp, Some(AddrMode::Absolute))),
        0xD3 => Some((Op::Dcp, Some(AddrMode::IndirectIndexed))),
        0xD7 => Some((Op::Dcp, Some(AddrMode::ZeroPageX))),
        0xDB => Some((Op::Dcp, Some(AddrMode::AbsoluteY))),
        0xDF => Some((Op::Dcp, Some(AddrMode::AbsoluteX))),
        0xE3 => Some((Op::Isb, Some(AddrMode::IndexedIndirect))),
        0xE7 => Some((Op::Isb, Some(AddrMode::ZeroPage))),
        0xEF => Some((Op::Isb, Some(AddrMode::Absolute))),
        0xF3 => Some((Op::Isb, Some(AddrMode::IndirectIndexed))),
        0xF7 => Some((Op::Isb, Some(AddrMode::ZeroPageX))),
        0xFB => Some((Op::Isb, Some(AddrMode::AbsoluteY))),
        0xFF => Some((Op::Isb, Some(AddrMode::AbsoluteX))),
        _ => None,
    }
}

pub fn decode(opcode: u8) -> (r: Option<(Op, Option<AddrMode>)>)
    ensures
        r == decode_spec(opcode),
{
    reveal(decode_spec);
    match opcode {
        0x01 => Some((Op::Ora, Some(AddrMode::IndexedIndirect))),
        0x05 => Some((Op::Ora, Some(AddrMode::ZeroPage))),
        0x09 => Some((Op::Ora, Some(AddrMode::Immediate))),
        0x0D => Some((Op::Ora, Some(AddrMode::Absolute))),
        0x11 => Some((Op::Ora, Some(AddrMode::IndirectIndexed))),
        0x15 => Some((Op::Ora, Some(AddrMode::ZeroPageX))),
        0x18 => Some((Op::Clc, None)),
        0x19 => Some((Op::Ora, Some(AddrMode::AbsoluteY))),
        0x1D => Some((Op::Ora, Some(AddrMode::AbsoluteX))),
        0x21 => Some((Op::And, Some(AddrMode::IndexedIndirect))),
        0x25 => Some((Op::And, Some(AddrMode::ZeroPage))),
        0x29 => Some((Op::And, Some(AddrMode::Immediate))),
        0x2D => Some((Op::And, Some(AddrMode::Absolute))),
        0x31 => Some((Op::And, Some(AddrMode::IndirectIndexed))),
        0x35 => Some((Op::And, Some(AddrMode::ZeroPageX))),
        0x38 => Some((Op::Sec, None)),
        0x39 => Some((Op::And, Some(AddrMode::AbsoluteY))),
        0x3D => Some((Op::And, Some(AddrMode::AbsoluteX))),
        0x41 => Some((Op::Eor, Some(AddrMode::IndexedIndirect))),
        0x45 => Some((Op::Eor, Some(AddrMode::ZeroPage))),
        0x49 => Some((Op::Eor, Some(AddrMode::Immediate))),
        0x4C => Some((Op::Jmp, Some(AddrMode::Absolute))),
        0x4D => Some((Op::Eor, Some(AddrMode::Absolute))),
        0x51 => Some((Op::Eor, Some(AddrMode::IndirectIndexed))),
        0x55 => Some((Op::Eor, Some(AddrMode::ZeroPageX))),
        0x58 => Some((Op::Cli, None)),
        0x59 => Some((Op::Eor, Some(AddrMode::AbsoluteY))),
        0x5D => Some((Op::Eor, Some(AddrMode::AbsoluteX))),
        0x61 => Some((Op::Adc, Some(AddrMode::IndexedIndirect))),
        0x65 => Some((Op::Adc, Some(AddrMode::ZeroPage))),
        0x69 => Some((Op::Adc, Some(AddrMode::Immediate))),
        0x6C => Some((Op::Jmp, Some(AddrMode::Indirect))),
        0x6D => Some((Op::Adc, Some(AddrMode::Absolute))),
        0x71 => Some((Op::Adc, Some(AddrMode::IndirectIndexed))),
        0x75 => Some((Op::Adc, Some(AddrMode::ZeroPageX))),
        0x78 => Some((Op::Sei, None)),
        0x79 => Some((Op::Adc, Some(AddrMode::AbsoluteY))),
        0x7D => Some((Op::Adc, Some(AddrMode::AbsoluteX))),
        0x81 => Some((Op::Sta, Some(AddrMode::IndexedIndirect))),
        0x84 => Some((Op::Sty, Some(AddrMode::ZeroPage))),
        0x85 => Some((Op::Sta, Some(AddrMode::ZeroPage))),
        0x86 => Some((Op::Stx, Some(AddrMode::ZeroPage))),
        0x88 => Some((Op::Dey, None)),
        0x8A => Some((Op::Txa, None)),
        0x8C => Some((Op::Sty, Some(AddrMode::Absolute))),
        0x8D => Some((Op::Sta, Some(AddrMode::Absolute))),
        0x8E => Some((Op::Stx, Some(AddrMode::Absolute))),
        0x91 => Some((Op::Sta, Some(AddrMode::IndirectIndexed))),
        0x94 => Some((Op::Sty, Some(AddrMode::ZeroPageX))),
        0x95 => Some((Op::Sta, Some(AddrMode::ZeroPageX))),
        0x96 => Some((Op::Stx, Some(AddrMode::ZeroPageY))),
        0x98 => Some((Op::Tya, None)),
        0x99 => Some((Op::Sta, Some(AddrMode::AbsoluteY))),
        0x9A => Some((Op::Txs, None)),
        0x9D => Some((Op::Sta, Some(AddrMode::AbsoluteX))),
        0xA0 => Some((Op::Ldy, Some(AddrMode::Immediate))),
        0xA1 => Some((Op::Lda, Some(AddrMode::IndexedIndirect))),
        0xA2 => Some((Op::Ldx, Some(AddrMode::Immediate))),
        0xA4 => Some((Op::Ldy, Some(AddrMode::ZeroPage))),
        0xA5 => Some((Op::Lda, Some(AddrMode::ZeroPage))),
        0xA6 => Some((Op::Ldx, Some(AddrMode::ZeroPage))),
        0xA8 => Some((Op::Tay, None)),
        0xA9 => Some((Op::Lda, Some(AddrMode::Immediate))),
        0xAA => Some((Op::Tax, None)),
        0xAC => Some((Op::Ldy, Some(AddrMode::Absolute))),
        0xAD => Some((Op::Lda, Some(AddrMode::Absolute))),
        0xAE => Some((Op::Ldx, Some(AddrMode::Absolute))),
        0xB1 => Some((Op::Lda, Some(AddrMode::IndirectIndexed))),
        0xB4 => Some((Op::Ldy, Some(AddrMode::ZeroPageX))),
        0xB5 => Some((Op::Lda, Some(AddrMode::ZeroPageX))),
        0xB6 => Some((Op::Ldx, Some(AddrMode::ZeroPageY))),
        0xB8 => Some((Op::Clv, None)),
        0xB9 => Some((Op::Lda, Some(AddrMode::AbsoluteY))),
        0xBA => Some((Op::Tsx, None)),
        0xBC => Some((Op::Ldy, Some(AddrMode::AbsoluteX))),
        0xBD => Some((Op::Lda, Some(AddrMode::AbsoluteX))),
        0xBE => Some((Op::Ldx, Some(AddrMode::AbsoluteY))),
        0xC0 => Some((Op::Cpy, Some(AddrMode::Immediate))),
        0xC1 => Some((Op::Cmp, Some(AddrMode::IndexedIndirect))),
        0xC4 => Some((Op::Cpy, Some(AddrMode::ZeroPage))),
        0xC5 => Some((Op::Cmp, Some(AddrMode::ZeroPage))),
        0xC8 => Some((Op::Iny, None)),
        0xC9 => Some((Op::Cmp, Some(AddrMode::Immediate))),
        0xCA => Some((Op::Dex, None)),
        0xCC => Some((Op::Cpy, Some(AddrMode::Absolute))),
        0xCD => Some((Op::Cmp, Some(AddrMode::Absolute))),
        0xD1 => Some((Op::Cmp, Some(AddrMode::IndirectIndexed))),
        0xD5 => Some((Op::Cmp, Some(AddrMode::ZeroPageX))),
        0xD8 => Some((Op::Cld, None)),
        0xD9 => Some((Op::Cmp, Some(AddrMode::AbsoluteY))),
        0xDD => Some((Op::Cmp, Some(AddrMode::AbsoluteX))),
        0xE0 => Some((Op::Cpx, Some(AddrMode::Immediate))),
        0xE1 => Some((Op::Sbc, Some(AddrMode::IndexedIndirect))),
        0xE4 => Some((Op::Cpx, Some(AddrMode::ZeroPage))),
        0xE5 => Some((Op::Sbc, Some(AddrMode::ZeroPage))),
        0xE8 => Some((Op::Inx, None)),
        0xE9 => Some((Op::Sbc, Some(AddrMode::Immediate))),
        0xEA => Some((Op::Nop, None)),
        0xEC => Some((Op::Cpx, Some(AddrMode::Absolute))),
        0xED => Some((Op::Sbc, Some(AddrMode::Absolute))),
        0xF1 => Some((Op::Sbc, Some(AddrMode::IndirectIndexed))),
        0xF5 => Some((Op::Sbc, Some(AddrMode::ZeroPageX))),
        0xF8 => Some((Op::Sed, None)),
        0xF9 => Some((Op::Sbc, Some(AddrMode::AbsoluteY))),
        0xFD => Some((Op::Sbc, Some(AddrMode::AbsoluteX))),
        0x06 => Some((Op::Asl, Some(AddrMode::ZeroPage))),
        0x0A => Some((Op::AslA, None)),
        0x0E => Some((Op::Asl, Some(AddrMode::Absolute))),
        0x16 => Some((Op::Asl, Some(AddrMode::ZeroPageX))),
        0x1E => Some((Op::Asl, Some(AddrMode::AbsoluteX))),
        0x24 => Some((Op::Bit, Some(AddrMode::ZeroPage))),
        0x26 => Some((Op::Rol, Some(AddrMode::ZeroPage))),
        0x2A => Some((Op::RolA, None)),
        0x2C => Some((Op::Bit, Some(AddrMode::Absolute))),
        0x2E => Some((Op::Rol, Some(AddrMode::Absolute))),
        0x36 => Some((Op::Rol, Some(AddrMode::ZeroPageX))),
        0x3E => Some((Op::Rol, Some(AddrMode::AbsoluteX))),
        0x46 => Some((Op::Lsr, Some(AddrMode::ZeroPage))),
        0x4A => Some((Op::LsrA, None)),
        0x4E => Some((Op::Lsr, Some(AddrMode::Absolute))),
        0x56 => Some((Op::Lsr, Some(AddrMode::ZeroPageX))),
        0x5E => Some((Op::Lsr, Some(AddrMode::AbsoluteX))),
        0x66 => Some((Op::Ror, Some(AddrMode::ZeroPage))),
        0x6A => Some((Op::RorA, None)),
        0x6E => Some((Op::Ror, Some(AddrMode::Absolute))),
        0x76 => Some((Op::Ror, Some(AddrMode::ZeroPageX))),
        0x7E => Some((Op::Ror, Some(AddrMode::AbsoluteX))),
        0xC6 => Some((Op::Dec, Some(AddrMode::ZeroPage))),
        0xCE => Some((Op::Dec, Some(AddrMode::Absolute))),
        0xD6 => Some((Op::Dec, Some(AddrMode::ZeroPageX))),
        0xDE => Some((Op::Dec, Some(AddrMode::AbsoluteX))),
        0xE6 => Some((Op::Inc, Some(AddrMode::ZeroPage))),
        0xEE => Some((Op::Inc, Some(AddrMode::Absolute))),
        0xF6 => Some((Op::Inc, Some(AddrMode::ZeroPageX))),
        0xFE => Some((Op::Inc, Some(AddrMode::AbsoluteX))),
        0x04 => Some((Op::Nop, Some(AddrMode::ZeroPage))),
        0x0B => Some((Op::Anc, Some(AddrMode::Immediate))),
        0x0C => Some((Op::Nop, Some(AddrMode::Absolute))),
        0x14 => Some((Op::Nop, Some(AddrMode::ZeroPageX))),
        0x1A => Some((Op::Nop, None)),
        0x1C => Some((Op::Nop, Some(AddrMode::AbsoluteX))),
        0x2B => Some((Op::Anc, Some(AddrMode::Immediate))),
        0x34 => Some((Op::Nop, Some(AddrMode::ZeroPageX))),
        0x3A => Some((Op::Nop, None)),
        0x3C => Some((Op::Nop, Some(AddrMode::AbsoluteX))),
        0x44 => Some((Op::Nop, Some(AddrMode::ZeroPage))),
        0x4B => Some((Op::Alr, Some(AddrMode::Immediate))),
        0x54 => Some((Op::Nop, Some(AddrMode::ZeroPageX))),
        0x5A => Some((Op::Nop, None)),
        0x5C => Some((Op::Nop, Some(AddrMode::AbsoluteX))),
        0x64 => Some((Op::Nop, Some(AddrMode::ZeroPage))),
        0x74 => Some((Op::Nop, Some(AddrMode::ZeroPageX))),
        0x7A => Some((Op::Nop, None)),
        0x7C => Some((Op::Nop, Some(AddrMode::AbsoluteX))),
        0x80 => Some((Op::Nop, Some(AddrMode::Immediate))),
        0x82 => Some((Op::Nop, Some(AddrMode::Immediate))),
        0x83 => Some((Op::Sax, Some(AddrMode::IndexedIndirect))),
        0x87 => Some((Op::Sax, Some(AddrMode::ZeroPage))),
        0x89 => Some((Op::Nop, Some(AddrMode::Immediate))),
        0x8F => Some((Op::Sax, Some(AddrMode::Absolute))),
        0x97 => Some((Op::Sax, Some(AddrMode::ZeroPageY))),
        0xA3 => Some((Op::Lax, Some(AddrMode::IndexedIndirect))),
        0xA7 => Some((Op::Lax, Some(AddrMode::ZeroPage))),
        0xAF => Some((Op::Lax, Some(AddrMode::Absolute))),
        0xB3 => Some((Op::Lax, Some(AddrMode::IndirectIndexed))),
        0xB7 => Some((Op::Lax, Some(AddrMode::ZeroPageY))),
        0xBF => Some((Op::Lax, Some(AddrMode::AbsoluteY))),
        0xC2 => Some((Op::Nop, Some(AddrMode::Immediate))),
        0xCB => Some((Op::Axs, Some(AddrMode::Immediate))),
        0xD4 => Some((Op::Nop, Some(AddrMode::ZeroPageX))),
        0xDA => Some((Op::Nop, None)),
        0xDC => Some((Op::Nop, Some(AddrMode::AbsoluteX))),
        0xE2 => Some((Op::Nop, Some(AddrMode::Immediate))),
        0xEB => Some((Op::Sbc, Some(AddrMode::Immediate))),
        0xF4 => Some((Op::Nop, Some(AddrMode::ZeroPageX))),
        0xFA => Some((Op::Nop, None)),
        0xFC => Some((Op::Nop, Some(AddrMode::AbsoluteX))),
        0x03 => Some((Op::Slo, Some(AddrMode::IndexedIndirect))),
        0x07 => Some((Op::Slo, Some(AddrMode::ZeroPage))),
        0x0F => Some((Op::Slo, Some(AddrMode::Absolute))),
        0x13 => Some((Op::Slo, Some(AddrMode::IndirectIndexed))),
        0x17 => Some((Op::Slo, Some(AddrMode::ZeroPageX))),
        0x1B => Some((Op::Slo, Some(AddrMode::AbsoluteY))),
        0x1F => Some((Op::Slo, Some(AddrMode::AbsoluteX))),
        0x23 => Some((Op::Rla, Some(AddrMode::IndexedIndirect))),
        0x27 => Some((Op::Rla, Some(AddrMode::ZeroPage))),
        0x2F => Some((Op::Rla, Some(AddrMode::Absolute))),
        0x33 => Some((Op::Rla, Some(AddrMode::IndirectIndexed))),
        0x37 => Some((Op::Rla, Some(AddrMode::ZeroPageX))),
        0x3B => Some((Op::Rla, Some(AddrMode::AbsoluteY))),
        0x3F => Some((Op::Rla, Some(AddrMode::AbsoluteX))),
        0x43 => Some((Op::Sre, Some(AddrMode::IndexedIndirect))),
        0x47 => Some((Op::Sre, Some(AddrMode::ZeroPage))),
        0x4F => Some((Op::Sre, Some(AddrMode::Absolute))),
        0x53 => Some((Op::Sre, Some(AddrMode::IndirectIndexed))),
        0x57 => Some((Op::Sre, Some(AddrMode::ZeroPageX))),
        0x5B => Some((Op::Sre, Some(AddrMode::AbsoluteY))),
        0x5F => Some((Op::Sre, Some(AddrMode::AbsoluteX))),
        0x63 => Some((Op::Rra, Some(AddrMode::IndexedIndirect))),
        0x67 => Some((Op::Rra, Some(AddrMode::ZeroPage))),
        0x6B => Some((Op::Arr, Some(AddrMode::Immediate))),
        0x6F => Some((Op::Rra, Some(AddrMode::Absolute))),
        0x73 => Some((Op::Rra, Some(AddrMode::IndirectIndexed))),
        0x77 => Some((Op::Rra, Some(AddrMode::ZeroPageX))),
        0x7B => Some((Op::Rra, Some(AddrMode::AbsoluteY))),
        0x7F => Some((Op::Rra, Some(AddrMode::AbsoluteX))),
        0xC3 => Some((Op::Dcp, Some(AddrMode::IndexedIndirect))),
        0xC7 => Some((Op::Dcp, Some(AddrMode::ZeroPage))),
        0xCF => Some((Op::Dcp, Some(AddrMode::Absolute))),
        0xD3 => Some((Op::Dcp, Some(AddrMode::IndirectIndexed))),
        0xD7 => Some((Op::Dcp, Some(AddrMode::ZeroPageX))),
        0xDB => Some((Op::Dcp, Some(AddrMode::AbsoluteY))),
        0xDF => Some((Op::Dcp, Some(AddrMode::AbsoluteX))),
        0xE3 => Some((Op::Isb, Some(AddrMode::IndexedIndirect))),
        0xE7 => Some((Op::Isb, Some(AddrMode::ZeroPage))),
        0xEF => Some((Op::Isb, Some(AddrMode::Absolute))),
        0xF3 => Some((Op::Isb, Some(AddrMode::IndirectIndexed))),
        0xF7 => Some((Op::Isb, Some(AddrMode::ZeroPageX))),
        0xFB => Some((Op::Isb, Some(AddrMode::AbsoluteY))),
        0xFF => Some((Op::Isb, Some(AddrMode::AbsoluteX))),
        _ => None,
    }
}

pub open spec fn is_store(op: Op) -> bool {
    op == Op::Sta || op == Op::Stx || op == Op::Sty || op == Op::Sax
}

/// Operations that read, change and write back their memory operand.
pub open spec fn is_rmw(op: Op) -> bool {
    op == Op::Asl || op == Op::Lsr || op == Op::Rol || op == Op::Ror || op == Op::Inc || op == Op::Dec
}

/// The undocumented operations that modify memory and then combine the
/// result with a register.
pub open spec fn is_combo(op: Op) -> bool {
    op == Op::Slo || op == Op::Rla || op == Op::Sre || op == Op::Rra || op == Op::Dcp || op == Op::Isb
}

/// The memory half of a combined operation.
pub open spec fn combo_modify(op: Op) -> Op {
    match op {
        Op::Slo => Op::Asl,
        Op::Rla => Op::Rol,
        Op::Sre => Op::Lsr,
        Op::Rra => Op::Ror,
        Op::Dcp => Op::Dec,
        _ => Op::Inc,
    }
}

/// The register half of a combined operation.
pub open spec fn combo_combine(op: Op) -> Op {
    match op {
        Op::Slo => Op::Ora,
        Op::Rla => Op::And,
        Op::Sre => Op::Eor,
        Op::Rra => Op::Adc,
        Op::Dcp => Op::Cmp,
        _ => Op::Sbc,
    }
}

/// Byte written back and registers after a combined operation on `m`.
pub open spec fn combo_spec(r: Registers, op: Op, m: u8) -> (u8, Registers) {
    let (v, p) = rmw_spec(combo_modify(op), r.p, m);
    (v, read_spec(Registers { p, ..r }, combo_combine(op), v))
}

/// Result and flags of a shift, rotate, increment or decrement of `m`.
pub open spec fn rmw_spec(op: Op, p: Status, m: u8) -> (u8, Status) {
    let c = if p.carry { 1int } else { 0int };
    match op {
        Op::Asl => {
            let v = ((m * 2) % 256) as u8;
            (v, Status { carry: m >= 128, ..set_nz(p, v) })
        },
        Op::Lsr => {
            let v = (m / 2) as u8;
            (v, Status { carry: m % 2 == 1, ..set_nz(p, v) })
        },
        Op::Rol => {
            let v = ((m * 2 + c) % 256) as u8;
            (v, Status { carry: m >= 128, ..set_nz(p, v) })
        },
        Op::Ror => {
            let v = (m / 2 + 128 * c) as u8;
            (v, Status { carry: m % 2 == 1, ..set_nz(p, v) })
        },
        Op::Inc => {
            let v = ((m + 1) % 256) as u8;
            (v, set_nz(p, v))
        },
        _ => {
            let v = ((m + 255) % 256) as u8;
            (v, set_nz(p, v))
        },
    }
}

/// Bytes of an instruction in `mode`.
pub open spec fn instr_len(mode: Option<AddrMode>) -> int {
    match mode {
        None => 1,
        Some(m) => match m {
            AddrMode::Absolute | AddrMode::AbsoluteX | AddrMode::AbsoluteY | AddrMode::Indirect => 3,
            _ => 2,
        },
    }
}

/// Cycles from the published table, before the page-cross penalty.
pub open spec fn base_cycles(op: Op, mode: Option<AddrMode>) -> int {
    match mode {
        None => 2,
        Some(m) => if op == Op::Jmp {
            if m == AddrMode::Indirect { 5 } else { 3 }
        } else if is_rmw(op) || is_combo(op) {
            match m {
                AddrMode::ZeroPage => 5,
                AddrMode::ZeroPageX | AddrMode::Absolute => 6,
                AddrMode::IndexedIndirect | AddrMode::IndirectIndexed => 8,
                _ => 7,
            }
        } else {
            match m {
                AddrMode::Immediate => 2,
                AddrMode::ZeroPage => 3,
                AddrMode::ZeroPageX | AddrMode::ZeroPageY | AddrMode::Absolute => 4,
                AddrMode::AbsoluteX | AddrMode::AbsoluteY => if is_store(op) { 5 } else { 4 },
                AddrMode::IndexedIndirect => 6,
                AddrMode::IndirectIndexed => if is_store(op) { 6 } else { 5 },
                AddrMode::Indirect => 5,
            }
        },
    }
}

/// Cycles charged: the table's count, plus one when a read crossed a page.
pub open spec fn cycles_spec(op: Op, mode: Option<AddrMode>, crossed: bool) -> int {
    base_cycles(op, mode) + if crossed && !is_store(op) && !is_rmw(op) && !is_combo(op) && op
        != Op::Jmp {
        1int
    } else {
        0int
    }
}

/// N and Z from result `v`.
pub open spec fn set_nz(p: Status, v: u8) -> Status {
    Status { negative: v >= 128, zero: v == 0, ..p }
}

/// `a + m + carry`, with the carry out and the signed overflow.
pub open spec fn adc_spec(p: Status, a: u8, m: u8) -> (u8, Status) {
    let sum = a as int + m as int + if p.carry { 1int } else { 0int };
    let r = (sum % 256) as u8;
    let v = ((a < 128) == (m < 128)) && ((r < 128) != (a < 128));
    (r, Status { carry: sum >= 256, overflow: v, ..set_nz(p, r) })
}

/// Flags after comparing register value `reg` with `m`.
pub open spec fn compare_spec(p: Status, reg: u8, m: u8) -> Status {
    Status { carry: reg >= m, ..set_nz(p, ((reg as int - m as int + 256) % 256) as u8) }
}

/// Registers after an implied-mode operation (PC and cycles aside).
pub open spec fn implied_spec(r: Registers, op: Op) -> Registers {
    match op {
        Op::Tax => Registers { x: r.a, p: set_nz(r.p, r.a), ..r },
        Op::Tay => Registers { y: r.a, p: set_nz(r.p, r.a), ..r },
        Op::Txa => Registers { a: r.x, p: set_nz(r.p, r.x), ..r },
        Op::Tya => Registers { a: r.y, p: set_nz(r.p, r.y), ..r },
        Op::Tsx => Registers { x: r.sp, p: set_nz(r.p, r.sp), ..r },
        Op::Txs => Registers { sp: r.x, ..r },
        Op::Inx => Registers { x: ((r.x + 1) % 256) as u8, p: set_nz(r.p, ((r.x + 1) % 256) as u8), ..r },
        Op::Iny => Registers { y: ((r.y + 1) % 256) as u8, p: set_nz(r.p, ((r.y + 1) % 256) as u8), ..r },
        Op::Dex => Registers { x: ((r.x + 255) % 256) as u8, p: set_nz(r.p, ((r.x + 255) % 256) as u8), ..r },
        Op::Dey => Registers { y: ((r.y + 255) % 256) as u8, p: set_nz(r.p, ((r.y + 255) % 256) as u8), ..r },
        Op::Clc => Registers { p: Status { carry: false, ..r.p }, ..r },
        Op::Sec => Registers { p: Status { carry: true, ..r.p }, ..r },
        Op::Cli => Registers { p: Status { interrupt: false, ..r.p }, ..r },
        Op::Sei => Registers { p: Status { interrupt: true, ..r.p }, ..r },
        Op::Cld => Registers { p: Status { decimal: false, ..r.p }, ..r },
        Op::Sed => Registers { p: Status { decimal: true, ..r.p }, ..r },
        Op::Clv => Registers { p: Status { overflow: false, ..r.p }, ..r },
        Op::AslA => Registers { a: rmw_spec(Op::Asl, r.p, r.a).0, p: rmw_spec(Op::Asl, r.p, r.a).1, ..r },
        Op::LsrA => Registers { a: rmw_spec(Op::Lsr, r.p, r.a).0, p: rmw_spec(Op::Lsr, r.p, r.a).1, ..r },
        Op::RolA => Registers { a: rmw_spec(Op::Rol, r.p, r.a).0, p: rmw_spec(Op::Rol, r.p, r.a).1, ..r },
        Op::RorA => Registers { a: rmw_spec(Op::Ror, r.p, r.a).0, p: rmw_spec(Op::Ror, r.p, r.a).1, ..r },
        _ => r,
    }
}

/// Registers after an operation that reads operand `m` (PC and cycles aside).
/// Decimal mode plays no part in ADC and SBC.
pub open spec fn read_spec(r: Registers, op: Op, m: u8) -> Registers {
    match op {
        Op::Lda => Registers { a: m, p: set_nz(r.p, m), ..r },
        Op::Ldx => Registers { x: m, p: set_nz(r.p, m), ..r },
        Op::Ldy => Registers { y: m, p: set_nz(r.p, m), ..r },
        Op::And => Registers { a: r.a & m, p: set_nz(r.p, r.a & m), ..r },
        Op::Ora => Registers { a: r.a | m, p: set_nz(r.p, r.a | m), ..r },
        Op::Eor => Registers { a: r.a ^ m, p: set_nz(r.p, r.a ^ m), ..r },
        Op::Adc => Registers { a: adc_spec(r.p, r.a, m).0, p: adc_spec(r.p, r.a, m).1, ..r },
        Op::Sbc => Registers {
            a: adc_spec(r.p, r.a, (255 - m) as u8).0,
            p: adc_spec(r.p, r.a, (255 - m) as u8).1,
            ..r
        },
        Op::Cmp => Registers { p: compare_spec(r.p, r.a, m), ..r },
        Op::Cpx => Registers { p: compare_spec(r.p, r.x, m), ..r },
        Op::Cpy => Registers { p: compare_spec(r.p, r.y, m), ..r },
        Op::Bit => Registers {
            p: Status { negative: m >= 128, overflow: (m / 64) % 2 == 1, zero: r.a & m == 0, ..r.p },
            ..r
        },
        Op::Lax => Registers { a: m, x: m, p: set_nz(r.p, m), ..r },
        Op::Anc => Registers {
            a: r.a & m,
            p: Status { carry: r.a & m >= 128, ..set_nz(r.p, r.a & m) },
            ..r
        },
        Op::Alr => Registers {
            a: (r.a & m) / 2,
            p: Status { carry: (r.a & m) % 2 == 1, ..set_nz(r.p, (r.a & m) / 2) },
            ..r
        },
        Op::Arr => Registers {
            a: arr_value(r.p, r.a & m),
            p: Status {
                carry: (arr_value(r.p, r.a & m) / 64) % 2 == 1,
                overflow: (arr_value(r.p, r.a & m) / 64) % 2 != (arr_value(r.p, r.a & m) / 32) % 2,
                ..set_nz(r.p, arr_value(r.p, r.a & m))
            },
            ..r
        },
        Op::Axs => Registers {
            x: (((r.a & r.x) as int - m as int + 256) % 256) as u8,
            p: compare_spec(r.p, r.a & r.x, m),
            ..r
        },
        _ => r,
    }
}

/// ARR's accumulator: `t` rotated right through the carry.
pub open spec fn arr_value(p: Status, t: u8) -> u8 {
    (t / 2 + if p.carry { 128int } else { 0int }) as u8
}

/// The register a store writes.
pub open spec fn store_value(r: Registers, op: Op) -> u8 {
    match op {
        Op::Stx => r.x,
        Op::Sty => r.y,
        Op::Sax => r.a & r.x,
        _ => r.a,
    }
}

/// Registers and memory after the instruction at `r.pc`, with the cycle
/// count advanced by what it took.
pub open spec fn step_spec(r: Registers, mem: Seq<u8>) -> (Registers, Seq<u8>) {
    let opcode = mem[r.pc as int];
    if is_stack_op(opcode) {
        stack_step_spec(r, mem, opcode)
    } else if is_branch(opcode) {
        branch_step_spec(r, mem, opcode)
    } else {
        decoded_step_spec(r, mem, decode_spec(opcode))
    }
}

/// `step_spec` for the branch `opcode`.
pub open spec fn branch_step_spec(r: Registers, mem: Seq<u8>, opcode: u8) -> (Registers, Seq<u8>) {
    let off = operand_byte(mem, r.pc, 1) as u8;
    let taken = branch_taken(opcode, r.p);
    (
        Registers {
            pc: branch_target(r.pc, off, taken) as u16,
            cycles: (r.cycles + branch_cycles(r.pc, off, taken)) as u64,
            ..r
        },
        mem,
    )
}

/// `step_spec` for an instruction that the table decoded as `d`.
pub open spec fn decoded_step_spec(r: Registers, mem: Seq<u8>, d: Option<(Op, Option<AddrMode>)>) -> (Registers, Seq<u8>) {
    match d {
        None => (
            Registers { pc: ((r.pc + 1) % 0x10000) as u16, cycles: (r.cycles + 2) as u64, ..r },
            mem,
        ),
        Some((op, None)) => (
            Registers {
                pc: ((r.pc + 1) % 0x10000) as u16,
                cycles: (r.cycles + 2) as u64,
                ..implied_spec(r, op)
            },
            mem,
        ),
        Some((op, Some(m))) => operand_step_spec(r, mem, op, m),
    }
}

/// Instructions that work on the stack: BRK, PHP, JSR, PLP, RTI, PHA, RTS, PLA.
pub open spec fn is_stack_op(opcode: u8) -> bool {
    opcode == 0x00 || opcode == 0x08 || opcode == 0x20 || opcode == 0x28 || opcode == 0x40
        || opcode == 0x48 || opcode == 0x60 || opcode == 0x68
}

/// The flags that PLP and RTI load from byte `b`: B and bit 5 are no real
/// flip-flops and keep their values.
pub open spec fn pulled_status(p: Status, b: u8) -> Status {
    Status { brk: p.brk, unused: p.unused, ..status_of(b) }
}

/// `step_spec` for the stack instructions.
pub open spec fn stack_step_spec(r: Registers, mem: Seq<u8>, opcode: u8) -> (Registers, Seq<u8>) {
    let sp = r.sp as int;
    let pc1 = ((r.pc + 1) % 0x10000) as u16;
    if opcode == 0x48 {
        (
            Registers { pc: pc1, sp: ((sp + 255) % 256) as u8, cycles: (r.cycles + 3) as u64, ..r },
            mem.update(stack_addr(sp), r.a),
        )
    } else if opcode == 0x08 {
        (
            Registers { pc: pc1, sp: ((sp + 255) % 256) as u8, cycles: (r.cycles + 3) as u64, ..r },
            mem.update(stack_addr(sp), pushed_status(r.p, Interrupt::Brk)),
        )
    } else if opcode == 0x68 {
        let v = mem[stack_addr(sp + 1)];
        (
            Registers {
                pc: pc1,
                sp: ((sp + 1) % 256) as u8,
                a: v,
                p: set_nz(r.p, v),
                cycles: (r.cycles + 4) as u64,
                ..r
            },
            mem,
        )
    } else if opcode == 0x28 {
        let v = mem[stack_addr(sp + 1)];
        (
            Registers {
                pc: pc1,
                sp: ((sp + 1) % 256) as u8,
                p: pulled_status(r.p, v),
                cycles: (r.cycles + 4) as u64,
                ..r
            },
            mem,
        )
    } else if opcode == 0x20 {
        let ret = (r.pc + 2) % 0x10000;
        let target = operand_byte(mem, r.pc, 1) + 256 * operand_byte(mem, r.pc, 2);
        (
            Registers {
                pc: target as u16,
                sp: ((sp + 254) % 256) as u8,
                cycles: (r.cycles + 6) as u64,
                ..r
            },
            mem.update(stack_addr(sp), (ret / 256) as u8).update(stack_addr(sp + 255), (ret % 256) as u8),
        )
    } else if opcode == 0x60 {
        let ret = mem[stack_addr(sp + 1)] + 256 * mem[stack_addr(sp + 2)];
        (
            Registers {
                pc: ((ret + 1) % 0x10000) as u16,
                sp: ((sp + 2) % 256) as u8,
                cycles: (r.cycles + 6) as u64,
                ..r
            },
            mem,
        )
    } else if opcode == 0x40 {
        let ret = mem[stack_addr(sp + 2)] + 256 * mem[stack_addr(sp + 3)];
        (
            Registers {
                pc: ret as u16,
                sp: ((sp + 3) % 256) as u8,
                p: pulled_status(r.p, mem[stack_addr(sp + 1)]),
                cycles: (r.cycles + 6) as u64,
                ..r
            },
            mem,
        )
    } else {
        // BRK: the return address skips a padding byte.
        let ret = (r.pc + 2) % 0x10000;
        let m2 = mem.update(stack_addr(sp), (ret / 256) as u8).update(stack_addr(sp + 255), (ret % 256) as u8).update(
            stack_addr(sp + 254),
            pushed_status(r.p, Interrupt::Brk),
        );
        (
            Registers {
                pc: word_at(m2, IRQ_VECTOR as int) as u16,
                sp: ((sp + 253) % 256) as u8,
                p: Status { interrupt: true, ..r.p },
                cycles: (r.cycles + 7) as u64,
                ..r
            },
            m2,
        )
    }
}

/// The eight relative branches: opcodes $10, $30, ..., $F0.
pub open spec fn is_branch(opcode: u8) -> bool {
    opcode % 32 == 16
}

/// Whether the branch `opcode` is taken: bits 6-7 pick the flag (N, V, C,
/// Z) and bit 5 the value it must have.
pub open spec fn branch_taken(opcode: u8, p: Status) -> bool {
    let flag = match opcode / 64 {
        0 => p.negative,
        1 => p.overflow,
        2 => p.carry,
        _ => p.zero,
    };
    flag == ((opcode / 32) % 2 == 1)
}

/// `step_spec` for an instruction with an operand in mode `m`.
pub open spec fn operand_step_spec(r: Registers, mem: Seq<u8>, op: Op, m: AddrMode) -> (Registers, Seq<u8>) {
    let next = ((r.pc + instr_len(Some(m))) % 0x10000) as u16;
    let (addr, crossed) = operand_spec(r, mem, m);
    let cycles = (r.cycles + cycles_spec(op, Some(m), crossed)) as u64;
    if op == Op::Jmp {
        (Registers { pc: addr as u16, cycles, ..r }, mem)
    } else if is_store(op) {
        (Registers { pc: next, cycles, ..r }, mem.update(addr, store_value(r, op)))
    } else if is_rmw(op) {
        (
            Registers { pc: next, cycles, p: rmw_spec(op, r.p, mem[addr]).1, ..r },
            mem.update(addr, rmw_spec(op, r.p, mem[addr]).0),
        )
    } else if is_combo(op) {
        (
            Registers { pc: next, cycles, ..combo_spec(r, op, mem[addr]).1 },
            mem.update(addr, combo_spec(r, op, mem[addr]).0),
        )
    } else {
        (Registers { pc: next, cycles, ..read_spec(r, op, mem[addr]) }, mem)
    }
}

fn nz(p: Status, v: u8) -> (r: Status)
    ensures
        r == set_nz(p, v),
{
    Status { negative: v >= 128, zero: v == 0, ..p }
}

fn adc(p: Status, a: u8, m: u8) -> (res: (u8, Status))
    ensures
        res == adc_spec(p, a, m),
{
    let sum: u16 = a as u16 + m as u16 + if p.carry { 1 } else { 0 };
    let r = (sum % 256) as u8;
    let v = ((a < 128) == (m < 128)) && ((r < 128) != (a < 128));
    (r, Status { carry: sum >= 256, overflow: v, ..nz(p, r) })
}

fn compare(p: Status, reg: u8, m: u8) -> (r: Status)
    ensures
        r == compare_spec(p, reg, m),
{
    Status { carry: reg >= m, ..nz(p, reg.wrapping_sub(m)) }
}

pub(crate) fn rmw(op: Op, p: Status, m: u8) -> (res: (u8, Status))
    requires
        op == Op::Asl || op == Op::Lsr || op == Op::Rol || op == Op::Ror || op == Op::Inc || op
            == Op::Dec,
    ensures
        res == rmw_spec(op, p, m),
{
    match op {
        Op::Asl => {
            let v = m.wrapping_mul(2);
            (v, Status { carry: m >= 128, ..nz(p, v) })
        },
        Op::Lsr => {
            let v = m / 2;
            (v, Status { carry: m % 2 == 1, ..nz(p, v) })
        },
        Op::Rol => {
            let v = m.wrapping_mul(2) + if p.carry { 1 } else { 0 };
            (v, Status { carry: m >= 128, ..nz(p, v) })
        },
        Op::Ror => {
            let v = m / 2 + if p.carry { 128 } else { 0 };
            (v, Status { carry: m % 2 == 1, ..nz(p, v) })
        },
        Op::Inc => {
            let v = m.wrapping_add(1);
            (v, nz(p, v))
        },
        _ => {
            let v = m.wrapping_sub(1);
            (v, nz(p, v))
        },
    }
}

#[verifier::rlimit(100)]
fn exec_implied(r: &mut Registers, op: Op)
    ensures
        *final(r) == implied_spec(*old(r), op),
{
    let p = r.p;
    match op {
        Op::Tax => {
            r.x = r.a;
            r.p = nz(p, r.a);
        },
        Op::Tay => {
            r.y = r.a;
            r.p = nz(p, r.a);
        },
        Op::Txa => {
            r.a = r.x;
            r.p = nz(p, r.x);
        },
        Op::Tya => {
            r.a = r.y;
            r.p = nz(p, r.y);
        },
        Op::Tsx => {
            r.x = r.sp;
            r.p = nz(p, r.sp);
        },
        Op::Txs => {
            r.sp = r.x;
        },
        Op::Inx => {
            r.x = r.x.wrapping_add(1);
            r.p = nz(p, r.x);
        },
        Op::Iny => {
            r.y = r.y.wrapping_add(1);
            r.p = nz(p, r.y);
        },
        Op::Dex => {
            r.x = r.x.wrapping_sub(1);
            r.p = nz(p, r.x);
        },
        Op::Dey => {
            r.y = r.y.wrapping_sub(1);
            r.p = nz(p, r.y);
        },
        Op::Clc => r.p.carry = false,
        Op::Sec => r.p.carry = true,
        Op::Cli => r.p.interrupt = false,
        Op::Sei => r.p.interrupt = true,
        Op::Cld => r.p.decimal = false,
        Op::Sed => r.p.decimal = true,
        Op::Clv => r.p.overflow = false,
        Op::AslA | Op::LsrA | Op::RolA | Op::RorA => {
            let base = match op {
                Op::AslA => Op::Asl,
                Op::LsrA => Op::Lsr,
                Op::RolA => Op::Rol,
                _ => Op::Ror,
            };
            let (v, q) = rmw(base, p, r.a);
            r.a = v;
            r.p = q;
        },
        _ => {},
    }
}

/// Loads and logic operations.
pub open spec fn is_logic(op: Op) -> bool {
    op == Op::Lda || op == Op::Ldx || op == Op::Ldy || op == Op::And || op == Op::Ora || op
        == Op::Eor || op == Op::Bit || op == Op::Lax || op == Op::Anc || op == Op::Alr || op
        == Op::Arr
}

#[verifier::rlimit(100)]
fn exec_logic(r: &mut Registers, op: Op, m: u8)
    requires
        is_logic(op),
    ensures
        *final(r) == read_spec(*old(r), op, m),
{
    let p = r.p;
    let a = r.a;
    match op {
        Op::Lda => *r = Registers { a: m, p: nz(p, m), ..*r },
        Op::Ldx => *r = Registers { x: m, p: nz(p, m), ..*r },
        Op::Ldy => *r = Registers { y: m, p: nz(p, m), ..*r },
        Op::And => *r = Registers { a: a & m, p: nz(p, a & m), ..*r },
        Op::Ora => *r = Registers { a: a | m, p: nz(p, a | m), ..*r },
        Op::Eor => *r = Registers { a: a ^ m, p: nz(p, a ^ m), ..*r },
        Op::Bit => {
            r.p = Status { negative: m >= 128, overflow: (m / 64) % 2 == 1, zero: a & m == 0, ..p };
        },
        Op::Lax => *r = Registers { a: m, x: m, p: nz(p, m), ..*r },
        Op::Anc => {
            let t = a & m;
            *r = Registers { a: t, p: Status { carry: t >= 128, ..nz(p, t) }, ..*r };
        },
        Op::Arr => {
            let v = (a & m) / 2 + if p.carry { 128 } else { 0 };
            *r = Registers {
                a: v,
                p: Status { carry: (v / 64) % 2 == 1, overflow: (v / 64) % 2 != (v / 32) % 2, ..nz(p, v) },
                ..*r
            };
        },
        _ => {
            let t = a & m;
            *r = Registers { a: t / 2, p: Status { carry: t % 2 == 1, ..nz(p, t / 2) }, ..*r };
        },
    }
}

#[verifier::rlimit(100)]
fn exec_arith(r: &mut Registers, op: Op, m: u8)
    requires
        !is_logic(op),
    ensures
        *final(r) == read_spec(*old(r), op, m),
{
    let p = r.p;
    match op {
        Op::Adc => {
            let (v, q) = adc(p, r.a, m);
            *r = Registers { a: v, p: q, ..*r };
        },
        Op::Sbc => {
            let (v, q) = adc(p, r.a, 255 - m);
            *r = Registers { a: v, p: q, ..*r };
        },
        Op::Cmp => r.p = compare(p, r.a, m),
        Op::Cpx => r.p = compare(p, r.x, m),
        Op::Cpy => r.p = compare(p, r.y, m),
        Op::Axs => {
            let t = r.a & r.x;
            *r = Registers { x: t.wrapping_sub(m), p: compare(p, t, m), ..*r };
        },
        _ => {},
    }
}

pub(crate) fn exec_read(r: &mut Registers, op: Op, m: u8)
    ensures
        *final(r) == read_spec(*old(r), op, m),
{
    if op == Op::Lda || op == Op::Ldx || op == Op::Ldy || op == Op::And || op == Op::Ora || op
        == Op::Eor || op == Op::Bit || op == Op::Lax || op == Op::Anc || op == Op::Alr || op
        == Op::Arr {
        exec_logic(r, op, m);
    } else {
        exec_arith(r, op, m);
    }
}

fn len_of(mode: AddrMode) -> (n: u16)
    ensures
        n == instr_len(Some(mode)),
{
    match mode {
        AddrMode::Absolute | AddrMode::AbsoluteX | AddrMode::AbsoluteY | AddrMode::Indirect => 3,
        _ => 2,
    }
}

fn cycles_of(op: Op, mode: AddrMode, crossed: bool) -> (c: u64)
    ensures
        c == cycles_spec(op, Some(mode), crossed),
        2 <= c <= 8,
{
    let store = op == Op::Sta || op == Op::Stx || op == Op::Sty || op == Op::Sax;
    let modify = op == Op::Asl || op == Op::Lsr || op == Op::Rol || op == Op::Ror || op == Op::Inc
        || op == Op::Dec || op == Op::Slo || op == Op::Rla || op == Op::Sre || op == Op::Rra || op
        == Op::Dcp || op == Op::Isb;
    let base: u64 = if op == Op::Jmp {
        if mode == AddrMode::Indirect {
            5
        } else {
            3
        }
    } else if modify {
        match mode {
            AddrMode::ZeroPage => 5,
            AddrMode::ZeroPageX | AddrMode::Absolute => 6,
            AddrMode::IndexedIndirect | AddrMode::IndirectIndexed => 8,
            _ => 7,
        }
    } else {
        match mode {
            AddrMode::Immediate => 2,
            AddrMode::ZeroPage => 3,
            AddrMode::ZeroPageX | AddrMode::ZeroPageY | AddrMode::Absolute => 4,
            AddrMode::AbsoluteX | AddrMode::AbsoluteY => if store {
                5
            } else {
                4
            },
            AddrMode::IndexedIndirect => 6,
            AddrMode::IndirectIndexed => if store {
                6
            } else {
                5
            },
            AddrMode::Indirect => 5,
        }
    };
    if crossed && !store && !modify && op != Op::Jmp {
        base + 1
    } else {
        base
    }
}

#[verifier::rlimit(100)]
fn exec_operand(r: &mut Registers, mem: &mut Vec<u8>, op: Op, m: AddrMode) -> (c: u64)
    requires
        old(mem)@.len() == MEM_SIZE,
        old(r).cycles + 8 <= u64::MAX,
    ensures
        final(mem)@.len() == MEM_SIZE,
        (*final(r), final(mem)@) == operand_step_spec(*old(r), old(mem)@, op, m),
        final(r).cycles == old(r).cycles + c,
        2 <= c <= 8,
{
    let ghost r0 = *r;
    let ghost m0 = mem@;
    let (addr, crossed) = operand_address(r, mem, m);
    let c = cycles_of(op, m, crossed);
    let len = len_of(m);
    let next = r.pc.wrapping_add(len);
    let cycles = r.cycles + c;
    proof {
        let (a2, c2) = operand_spec(r0, m0, m);
        assert(a2 == addr as int && c2 == crossed);
        assert(next as int == (r0.pc + instr_len(Some(m))) % 0x10000);
    }
    if op == Op::Jmp {
        *r = Registers { pc: addr, cycles, ..*r };
        assert((*r, mem@) == operand_step_spec(r0, m0, op, m));
    } else if op == Op::Sta || op == Op::Stx || op == Op::Sty || op == Op::Sax {
        let v = match op {
            Op::Stx => r.x,
            Op::Sty => r.y,
            Op::Sax => r.a & r.x,
            _ => r.a,
        };
        assert(v == store_value(r0, op));
        mem.set(addr as usize, v);
        *r = Registers { pc: next, cycles, ..*r };
        assert((*r, mem@) == operand_step_spec(r0, m0, op, m));
    } else if op == Op::Asl || op == Op::Lsr || op == Op::Rol || op == Op::Ror || op == Op::Inc
        || op == Op::Dec {
        let old_v = mem[addr as usize];
        let (v, q) = rmw(op, r.p, old_v);
        mem.set(addr as usize, v);
        *r = Registers { pc: next, cycles, p: q, ..*r };
        assert((*r, mem@) == operand_step_spec(r0, m0, op, m));
    } else if op == Op::Slo || op == Op::Rla || op == Op::Sre || op == Op::Rra || op == Op::Dcp
        || op == Op::Isb {
        let old_v = mem[addr as usize];
        let (v, r2) = combo(*r, op, old_v);
        mem.set(addr as usize, v);
        *r = Registers { pc: next, cycles, ..r2 };
        assert((*r, mem@) == operand_step_spec(r0, m0, op, m));
    } else {
        let v = mem[addr as usize];
        exec_read(r, op, v);
        *r = Registers { pc: next, cycles, ..*r };
        assert((*r, mem@) == operand_step_spec(r0, m0, op, m));
    }
    c
}

pub(crate) fn combo(r: Registers, op: Op, m: u8) -> (res: (u8, Registers))
    requires
        is_combo(op),
    ensures
        res == combo_spec(r, op, m),
{
    let base = match op {
        Op::Slo => Op::Asl,
        Op::Rla => Op::Rol,
        Op::Sre => Op::Lsr,
        Op::Rra => Op::Ror,
        Op::Dcp => Op::Dec,
        _ => Op::Inc,
    };
    let alu = match op {
        Op::Slo => Op::Ora,
        Op::Rla => Op::And,
        Op::Sre => Op::Eor,
        Op::Rra => Op::Adc,
        Op::Dcp => Op::Cmp,
        _ => Op::Sbc,
    };
    let (v, p) = rmw(base, r.p, m);
    let mut r2 = Registers { p, ..r };
    exec_read(&mut r2, alu, v);
    (v, r2)
}

fn exec_push(r: &mut Registers, mem: &mut Vec<u8>, opcode: u8) -> (c: u64)
    requires
        old(mem)@.len() == MEM_SIZE,
        old(r).cycles + 8 <= u64::MAX,
        opcode == 0x48 || opcode == 0x08,
    ensures
        final(mem)@.len() == MEM_SIZE,
        (*final(r), final(mem)@) == stack_step_spec(*old(r), old(mem)@, opcode),
        final(r).cycles == old(r).cycles + c,
        3 <= c <= 8,
{
    let v = if opcode == 0x48 {
        r.a
    } else {
        Status { brk: true, unused: true, ..r.p }.to_byte()
    };
    push(r, mem, v);
    r.pc = r.pc.wrapping_add(1);
    r.cycles = r.cycles + 3;
    3
}

fn exec_pull(r: &mut Registers, mem: &mut Vec<u8>, opcode: u8) -> (c: u64)
    requires
        old(mem)@.len() == MEM_SIZE,
        old(r).cycles + 8 <= u64::MAX,
        opcode == 0x68 || opcode == 0x28,
    ensures
        final(mem)@.len() == MEM_SIZE,
        (*final(r), final(mem)@) == stack_step_spec(*old(r), old(mem)@, opcode),
        final(r).cycles == old(r).cycles + c,
        3 <= c <= 8,
{
    let v = pull(r, mem);
    if opcode == 0x68 {
        r.a = v;
        r.p = nz(r.p, v);
    } else {
        r.p = Status { brk: r.p.brk, unused: r.p.unused, ..Status::from_byte(v) };
    }
    r.pc = r.pc.wrapping_add(1);
    r.cycles = r.cycles + 4;
    4
}

#[verifier::rlimit(100)]
fn exec_jsr(r: &mut Registers, mem: &mut Vec<u8>, opcode: u8) -> (c: u64)
    requires
        old(mem)@.len() == MEM_SIZE,
        old(r).cycles + 8 <= u64::MAX,
        opcode == 0x20,
    ensures
        final(mem)@.len() == MEM_SIZE,
        (*final(r), final(mem)@) == stack_step_spec(*old(r), old(mem)@, opcode),
        final(r).cycles == old(r).cycles + c,
        3 <= c <= 8,
{
    let ghost r0 = *r;
    let ghost m0 = mem@;
    let lo = mem[r.pc.wrapping_add(1) as usize] as u16;
    let hi = mem[r.pc.wrapping_add(2) as usize] as u16;
    assert(lo == operand_byte(m0, r0.pc, 1) && hi == operand_byte(m0, r0.pc, 2));
    let ret = r.pc.wrapping_add(2);
    assert(ret as int == (r0.pc + 2) % 0x10000);
    push(r, mem, (ret / 256) as u8);
    push(r, mem, (ret % 256) as u8);
    assert(mem@ == m0.update(stack_addr(r0.sp as int), (ret / 256) as u8).update(
        stack_addr(r0.sp as int + 255),
        (ret % 256) as u8,
    ));
    assert(r.sp as int == (r0.sp as int + 254) % 256);
    r.pc = lo + 256 * hi;
    r.cycles = r.cycles + 6;
    6
}

#[verifier::rlimit(80)]
fn exec_rts(r: &mut Registers, mem: &mut Vec<u8>, opcode: u8) -> (c: u64)
    requires
        old(mem)@.len() == MEM_SIZE,
        old(r).cycles + 8 <= u64::MAX,
        opcode == 0x60,
    ensures
        final(mem)@.len() == MEM_SIZE,
        (*final(r), final(mem)@) == stack_step_spec(*old(r), old(mem)@, opcode),
        final(r).cycles == old(r).cycles + c,
        3 <= c <= 8,
{
    let lo = pull(r, mem) as u16;
    let hi = pull(r, mem) as u16;
    r.pc = (lo + 256 * hi).wrapping_add(1);
    r.cycles = r.cycles + 6;
    6
}

#[verifier::rlimit(80)]
fn exec_rti(r: &mut Registers, mem: &mut Vec<u8>, opcode: u8) -> (c: u64)
    requires
        old(mem)@.len() == MEM_SIZE,
        old(r).cycles + 8 <= u64::MAX,
        opcode == 0x40,
    ensures
        final(mem)@.len() == MEM_SIZE,
        (*final(r), final(mem)@) == stack_step_spec(*old(r), old(mem)@, opcode),
        final(r).cycles == old(r).cycles + c,
        3 <= c <= 8,
{
    let ghost r0 = *r;
    let b = pull(r, mem);
    let lo = pull(r, mem) as u16;
    let hi = pull(r, mem) as u16;
    assert(r.sp as int == (r0.sp as int + 3) % 256);
    r.p = Status { brk: r.p.brk, unused: r.p.unused, ..Status::from_byte(b) };
    r.pc = lo + 256 * hi;
    r.cycles = r.cycles + 6;
    6
}

#[verifier::rlimit(80)]
fn exec_brk(r: &mut Registers, mem: &mut Vec<u8>, opcode: u8) -> (c: u64)
    requires
        old(mem)@.len() == MEM_SIZE,
        old(r).cycles + 8 <= u64::MAX,
        opcode == 0x00,
    ensures
        final(mem)@.len() == MEM_SIZE,
        (*final(r), final(mem)@) == stack_step_spec(*old(r), old(mem)@, opcode),
        final(r).cycles == old(r).cycles + c,
        3 <= c <= 8,
{
    r.pc = r.pc.wrapping_add(2);
    enter_interrupt(r, mem, Interrupt::Brk);
    7
}

fn exec_branch(r: &mut Registers, mem: &Vec<u8>, opcode: u8) -> (c: u64)
    requires
        mem@.len() == MEM_SIZE,
        old(r).cycles + 8 <= u64::MAX,
    ensures
        (*final(r), mem@) == branch_step_spec(*old(r), mem@, opcode),
        final(r).cycles == old(r).cycles + c,
        2 <= c <= 4,
{
    let flag = match opcode / 64 {
        0 => r.p.negative,
        1 => r.p.overflow,
        2 => r.p.carry,
        _ => r.p.zero,
    };
    let taken = flag == ((opcode / 32) % 2 == 1);
    branch(r, mem, taken)
}

fn exec_decoded(r: &mut Registers, mem: &mut Vec<u8>, d: Option<(Op, Option<AddrMode>)>) -> (c: u64)
    requires
        old(mem)@.len() == MEM_SIZE,
        old(r).cycles + 8 <= u64::MAX,
    ensures
        final(mem)@.len() == MEM_SIZE,
        (*final(r), final(mem)@) == decoded_step_spec(*old(r), old(mem)@, d),
        final(r).cycles == old(r).cycles + c,
        2 <= c <= 8,
{
    match d {
        None => {
            r.pc = r.pc.wrapping_add(1);
            r.cycles = r.cycles + 2;
            2
        },
        Some((op, None)) => {
            exec_implied(r, op);
            r.pc = r.pc.wrapping_add(1);
            r.cycles = r.cycles + 2;
            2
        },
        Some((op, Some(m))) => exec_operand(r, mem, op, m),
    }
}

fn exec_stack(r: &mut Registers, mem: &mut Vec<u8>, opcode: u8) -> (c: u64)
    requires
        old(mem)@.len() == MEM_SIZE,
        old(r).cycles + 8 <= u64::MAX,
        is_stack_op(opcode),
    ensures
        final(mem)@.len() == MEM_SIZE,
        (*final(r), final(mem)@) == stack_step_spec(*old(r), old(mem)@, opcode),
        final(r).cycles == old(r).cycles + c,
        3 <= c <= 8,
{
    if opcode == 0x48 || opcode == 0x08 {
        exec_push(r, mem, opcode)
    } else if opcode == 0x68 || opcode == 0x28 {
        exec_pull(r, mem, opcode)
    } else if opcode == 0x20 {
        exec_jsr(r, mem, opcode)
    } else if opcode == 0x00 {
        exec_brk(r, mem, opcode)
    } else if opcode == 0x60 {
        exec_rts(r, mem, opcode)
    } else {
        exec_rti(r, mem, opcode)
    }
}

/// Runs the instruction at `r.pc` and returns the cycles it took.
pub fn step(r: &mut Registers, mem: &mut Vec<u8>) -> (cycles: u64)
    requires
        old(mem)@.len() == MEM_SIZE,
        old(r).cycles + 8 <= u64::MAX,
    ensures
        final(mem)@.len() == MEM_SIZE,
        (*final(r), final(mem)@) == step_spec(*old(r), old(mem)@),
        final(r).cycles == old(r).cycles + cycles,
        2 <= cycles <= 8,
{
    let opcode = mem[r.pc as usize];
    if opcode == 0x00 || opcode == 0x08 || opcode == 0x20 || opcode == 0x28 || opcode == 0x40
        || opcode == 0x48 || opcode == 0x60 || opcode == 0x68 {
        exec_stack(r, mem, opcode)
    } else if opcode % 32 == 16 {
        exec_branch(r, mem, opcode)
    } else {
        let d = decode(opcode);
        exec_decoded(r, mem, d)
    }
}

/// Every instruction takes at least two cycles (and at most eight): the
/// table's count, at most one more for a page crossed.
pub proof fn lemma_step_cycles(r: Registers, mem: Seq<u8>)
    requires
        mem.len() == MEM_SIZE,
        r.cycles + 8 <= u64::MAX,
    ensures
        r.cycles + 2 <= step_spec(r, mem).0.cycles <= r.cycles + 8,
{
}

} // verus!
