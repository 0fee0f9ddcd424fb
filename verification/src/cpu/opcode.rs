//! The 6502 opcode table: instruction, addressing mode and base cycle count of each of
//! the 151 official opcodes.
use vstd::prelude::*;
use super::disassembler::AddressingMode;

verus! {

/// The 56 instructions of the 6502.
#[derive(Clone, Copy, Debug, PartialEq, Eq, Structural)]
pub enum Instruction {
    /// Add with carry.
    Adc,
    /// Bitwise and.
    And,
    /// Arithmetic shift left.
    Asl,
    /// Branch if carry clear.
    Bcc,
    /// Branch if carry set.
    Bcs,
    /// Branch if equal (zero set).
    Beq,
    /// Bit test.
    Bit,
    /// Branch if minus.
    Bmi,
    /// Branch if not equal.
    Bne,
    /// Branch if plus.
    Bpl,
    /// Break (software interrupt).
    Brk,
    /// Branch if overflow clear.
    Bvc,
    /// Branch if overflow set.
    Bvs,
    /// Clear carry.
    Clc,
    /// Clear decimal.
    Cld,
    /// Clear interrupt disable.
    Cli,
    /// Clear overflow.
    Clv,
    /// Compare with A.
    Cmp,
    /// Compare with X.
    Cpx,
    /// Compare with Y.
    Cpy,
    /// Decrement memory.
    Dec,
    /// Decrement X.
    Dex,
    /// Decrement Y.
    Dey,
    /// Exclusive or.
    Eor,
    /// Increment memory.
    Inc,
    /// Increment X.
    Inx,
    /// Increment Y.
    Iny,
    /// Jump.
    Jmp,
    /// Jump to subroutine.
    Jsr,
    /// Load A.
    Lda,
    /// Load X.
    Ldx,
    /// Load Y.
    Ldy,
    /// Logical shift right.
    Lsr,
    /// No operation.
    Nop,
    /// Bitwise or.
    Ora,
    /// Push A.
    Pha,
    /// Push status.
    Php,
    /// Pull A.
    Pla,
    /// Pull status.
    Plp,
    /// Rotate left.
    Rol,
    /// Rotate right.
    Ror,
    /// Return from interrupt.
    Rti,
    /// Return from subroutine.
    Rts,
    /// Subtract with carry.
    Sbc,
    /// Set carry.
    Sec,
    /// Set decimal.
    Sed,
    /// Set interrupt disable.
    Sei,
    /// Store A.
    Sta,
    /// Store X.
    Stx,
    /// Store Y.
    Sty,
    /// Transfer A to X.
    Tax,
    /// Transfer A to Y.
    Tay,
    /// Transfer stack pointer to X.
    Tsx,
    /// Transfer X to A.
    Txa,
    /// Transfer X to stack pointer.
    Txs,
    /// Transfer Y to A.
    Tya,
}

impl Instruction {
    /// The three-letter lowercase mnemonic.
    pub open spec fn spec_mnemonic(self) -> Seq<char> {
        match self {
            Instruction::Adc => seq!['a', 'd', 'c'],
            Instruction::And => seq!['a', 'n', 'd'],
            Instruction::Asl => seq!['a', 's', 'l'],
            Instruction::Bcc => seq!['b', 'c', 'c'],
            Instruction::Bcs => seq!['b', 'c', 's'],
            Instruction::Beq => seq!['b', 'e', 'q'],
            Instruction::Bit => seq!['b', 'i', 't'],
            Instruction::Bmi => seq!['b', 'm', 'i'],
            Instruction::Bne => seq!['b', 'n', 'e'],
            Instruction::Bpl => seq!['b', 'p', 'l'],
            Instruction::Brk => seq!['b', 'r', 'k'],
            Instruction::Bvc => seq!['b', 'v', 'c'],
            Instruction::Bvs => seq!['b', 'v', 's'],
            Instruction::Clc => seq!['c', 'l', 'c'],
            Instruction::Cld => seq!['c', 'l', 'd'],
            Instruction::Cli => seq!['c', 'l', 'i'],
            Instruction::Clv => seq!['c', 'l', 'v'],
            Instruction::Cmp => seq!['c', 'm', 'p'],
            Instruction::Cpx => seq!['c', 'p', 'x'],
            Instruction::Cpy => seq!['c', 'p', 'y'],
            Instruction::Dec => seq!['d', 'e', 'c'],
            Instruction::Dex => seq!['d', 'e', 'x'],
            Instruction::Dey => seq!['d', 'e', 'y'],
            Instruction::Eor => seq!['e', 'o', 'r'],
            Instruction::Inc => seq!['i', 'n', 'c'],
            Instruction::Inx => seq!['i', 'n', 'x'],
            Instruction::Iny => seq!['i', 'n', 'y'],
            Instruction::Jmp => seq!['j', 'm', 'p'],
            Instruction::Jsr => seq!['j', 's', 'r'],
            Instruction::Lda => seq!['l', 'd', 'a'],
            Instruction::Ldx => seq!['l', 'd', 'x'],
            Instruction::Ldy => seq!['l', 'd', 'y'],
            Instruction::Lsr => seq!['l', 's', 'r'],
            Instruction::Nop => seq!['n', 'o', 'p'],
            Instruction::Ora => seq!['o', 'r', 'a'],
            Instruction::Pha => seq!['p', 'h', 'a'],
            Instruction::Php => seq!['p', 'h', 'p'],
            Instruction::Pla => seq!['p', 'l', 'a'],
            Instruction::Plp => seq!['p', 'l', 'p'],
            Instruction::Rol => seq!['r', 'o', 'l'],
            Instruction::Ror => seq!['r', 'o', 'r'],
            Instruction::Rti => seq!['r', 't', 'i'],
            Instruction::Rts => seq!['r', 't', 's'],
            Instruction::Sbc => seq!['s', 'b', 'c'],
            Instruction::Sec => seq!['s', 'e', 'c'],
            Instruction::Sed => seq!['s', 'e', 'd'],
            Instruction::Sei => seq!['s', 'e', 'i'],
            Instruction::Sta => seq!['s', 't', 'a'],
            Instruction::Stx => seq!['s', 't', 'x'],
            Instruction::Sty => seq!['s', 't', 'y'],
            Instruction::Tax => seq!['t', 'a', 'x'],
            Instruction::Tay => seq!['t', 'a', 'y'],
            Instruction::Tsx => seq!['t', 's', 'x'],
            Instruction::Txa => seq!['t', 'x', 'a'],
            Instruction::Txs => seq!['t', 'x', 's'],
            Instruction::Tya => seq!['t', 'y', 'a'],
        }
    }

    /// The three-letter lowercase mnemonic.
    pub fn mnemonic(&self) -> (r: [char; 3])
        ensures
            r@ == self.spec_mnemonic(),
    {
        let r = match self {
            Instruction::Adc => ['a', 'd', 'c'],
            Instruction::And => ['a', 'n', 'd'],
            Instruction::Asl => ['a', 's', 'l'],
            Instruction::Bcc => ['b', 'c', 'c'],
            Instruction::Bcs => ['b', 'c', 's'],
            Instruction::Beq => ['b', 'e', 'q'],
            Instruction::Bit => ['b', 'i', 't'],
            Instruction::Bmi => ['b', 'm', 'i'],
            Instruction::Bne => ['b', 'n', 'e'],
            Instruction::Bpl => ['b', 'p', 'l'],
            Instruction::Brk => ['b', 'r', 'k'],
            Instruction::Bvc => ['b', 'v', 'c'],
            Instruction::Bvs => ['b', 'v', 's'],
            Instruction::Clc => ['c', 'l', 'c'],
            Instruction::Cld => ['c', 'l', 'd'],
            Instruction::Cli => ['c', 'l', 'i'],
            Instruction::Clv => ['c', 'l', 'v'],
            Instruction::Cmp => ['c', 'm', 'p'],
            Instruction::Cpx => ['c', 'p', 'x'],
            Instruction::Cpy => ['c', 'p', 'y'],
            Instruction::Dec => ['d', 'e', 'c'],
            Instruction::Dex => ['d', 'e', 'x'],
            Instruction::Dey => ['d', 'e', 'y'],
            Instruction::Eor => ['e', 'o', 'r'],
            Instruction::Inc => ['i', 'n', 'c'],
            Instruction::Inx => ['i', 'n', 'x'],
            Instruction::Iny => ['i', 'n', 'y'],
            Instruction::Jmp => ['j', 'm', 'p'],
            Instruction::Jsr => ['j', 's', 'r'],
            Instruction::Lda => ['l', 'd', 'a'],
            Instruction::Ldx => ['l', 'd', 'x'],
            Instruction::Ldy => ['l', 'd', 'y'],
            Instruction::Lsr => ['l', 's', 'r'],
            Instruction::Nop => ['n', 'o', 'p'],
            Instruction::Ora => ['o', 'r', 'a'],
            Instruction::Pha => ['p', 'h', 'a'],
            Instruction::Php => ['p', 'h', 'p'],
            Instruction::Pla => ['p', 'l', 'a'],
            Instruction::Plp => ['p', 'l', 'p'],
            Instruction::Rol => ['r', 'o', 'l'],
            Instruction::Ror => ['r', 'o', 'r'],
            Instruction::Rti => ['r', 't', 'i'],
            Instruction::Rts => ['r', 't', 's'],
            Instruction::Sbc => ['s', 'b', 'c'],
            Instruction::Sec => ['s', 'e', 'c'],
            Instruction::Sed => ['s', 'e', 'd'],
            Instruction::Sei => ['s', 'e', 'i'],
            Instruction::Sta => ['s', 't', 'a'],
            Instruction::Stx => ['s', 't', 'x'],
            Instruction::Sty => ['s', 't', 'y'],
            Instruction::Tax => ['t', 'a', 'x'],
            Instruction::Tay => ['t', 'a', 'y'],
            Instruction::Tsx => ['t', 's', 'x'],
            Instruction::Txa => ['t', 'x', 'a'],
            Instruction::Txs => ['t', 'x', 's'],
            Instruction::Tya => ['t', 'y', 'a'],
        };
        assert(r@ =~= self.spec_mnemonic());
        r
    }
}

/// A decoded opcode.
#[derive(Clone, Copy, Debug, PartialEq, Eq, Structural)]
pub struct Opcode {
    pub instruction: Instruction,
    pub mode: AddressingMode,
    /// Base cycle count, before page-crossing and branch penalties.
    pub cycles: u8,
}

/// The opcode table. Bytes that are not official opcodes decode to `None`.
pub open spec fn spec_decode(byte: u8) -> Option<Opcode> {
    match byte {
        0x00u8 => Some(Opcode { instruction: Instruction::Brk, mode: AddressingMode::Implied, cycles: 7 }),
        0x01u8 => Some(Opcode { instruction: Instruction::Ora, mode: AddressingMode::IndirectX, cycles: 6 }),
        0x05u8 => Some(Opcode { instruction: Instruction::Ora, mode: AddressingMode::ZeroPage, cycles: 3 }),
        0x06u8 => Some(Opcode { instruction: Instruction::Asl, mode: AddressingMode::ZeroPage, cycles: 5 }),
        0x08u8 => Some(Opcode { instruction: Instruction::Php, mode: AddressingMode::Implied, cycles: 3 }),
        0x09u8 => Some(Opcode { instruction: Instruction::Ora, mode: AddressingMode::Immediate, cycles: 2 }),
        0x0Au8 => Some(Opcode { instruction: Instruction::Asl, mode: AddressingMode::Accumulator, cycles: 2 }),
        0x0Du8 => Some(Opcode { instruction: Instruction::Ora, mode: AddressingMode::Absolute, cycles: 4 }),
        0x0Eu8 => Some(Opcode { instruction: Instruction::Asl, mode: AddressingMode::Absolute, cycles: 6 }),
        0x10u8 => Some(Opcode { instruction: Instruction::Bpl, mode: AddressingMode::Relative, cycles: 2 }),
        0x11u8 => Some(Opcode { instruction: Instruction::Ora, mode: AddressingMode::IndirectY, cycles: 5 }),
        0x15u8 => Some(Opcode { instruction: Instruction::Ora, mode: AddressingMode::ZeroPageX, cycles: 4 }),
        0x16u8 => Some(Opcode { instruction: Instruction::Asl, mode: AddressingMode::ZeroPageX, cycles: 6 }),
        0x18u8 => Some(Opcode { instruction: Instruction::Clc, mode: AddressingMode::Implied, cycles: 2 }),
        0x19u8 => Some(Opcode { instruction: Instruction::Ora, mode: AddressingMode::AbsoluteY, cycles: 4 }),
        0x1Du8 => Some(Opcode { instruction: Instruction::Ora, mode: AddressingMode::AbsoluteX, cycles: 4 }),
        0x1Eu8 => Some(Opcode { instruction: Instruction::Asl, mode: AddressingMode::AbsoluteX, cycles: 7 }),
        0x20u8 => Some(Opcode { instruction: Instruction::Jsr, mode: AddressingMode::Absolute, cycles: 6 }),
        0x21u8 => Some(Opcode { instruction: Instruction::And, mode: AddressingMode::IndirectX, cycles: 6 }),
        0x24u8 => Some(Opcode { instruction: Instruction::Bit, mode: AddressingMode::ZeroPage, cycles: 3 }),
        0x25u8 => Some(Opcode { instruction: Instruction::And, mode: AddressingMode::ZeroPage, cycles: 3 }),
        0x26u8 => Some(Opcode { instruction: Instruction::Rol, mode: AddressingMode::ZeroPage, cycles: 5 }),
        0x28u8 => Some(Opcode { instruction: Instruction::Plp, mode: AddressingMode::Implied, cycles: 4 }),
        0x29u8 => Some(Opcode { instruction: Instruction::And, mode: AddressingMode::Immediate, cycles: 2 }),
        0x2Au8 => Some(Opcode { instruction: Instruction::Rol, mode: AddressingMode::Accumulator, cycles: 2 }),
        0x2Cu8 => Some(Opcode { instruction: Instruction::Bit, mode: AddressingMode::Absolute, cycles: 4 }),
        0x2Du8 => Some(Opcode { instruction: Instruction::And, mode: AddressingMode::Absolute, cycles: 4 }),
        0x2Eu8 => Some(Opcode { instruction: Instruction::Rol, mode: AddressingMode::Absolute, cycles: 6 }),
        0x30u8 => Some(Opcode { instruction: Instruction::Bmi, mode: AddressingMode::Relative, cycles: 2 }),
        0x31u8 => Some(Opcode { instruction: Instruction::And, mode: AddressingMode::IndirectY, cycles: 5 }),
        0x35u8 => Some(Opcode { instruction: Instruction::And, mode: AddressingMode::ZeroPageX, cycles: 4 }),
        0x36u8 => Some(Opcode { instruction: Instruction::Rol, mode: AddressingMode::ZeroPageX, cycles: 6 }),
        0x38u8 => Some(Opcode { instruction: Instruction::Sec, mode: AddressingMode::Implied, cycles: 2 }),
        0x39u8 => Some(Opcode { instruction: Instruction::And, mode: AddressingMode::AbsoluteY, cycles: 4 }),
        0x3Du8 => Some(Opcode { instruction: Instruction::And, mode: AddressingMode::AbsoluteX, cycles: 4 }),
        0x3Eu8 => Some(Opcode { instruction: Instruction::Rol, mode: AddressingMode::AbsoluteX, cycles: 7 }),
        0x40u8 => Some(Opcode { instruction: Instruction::Rti, mode: AddressingMode::Implied, cycles: 6 }),
        0x41u8 => Some(Opcode { instruction: Instruction::Eor, mode: AddressingMode::IndirectX, cycles: 6 }),
        0x45u8 => Some(Opcode { instruction: Instruction::Eor, mode: AddressingMode::ZeroPage, cycles: 3 }),
        0x46u8 => Some(Opcode { instruction: Instruction::Lsr, mode: AddressingMode::ZeroPage, cycles: 5 }),
        0x48u8 => Some(Opcode { instruction: Instruction::Pha, mode: AddressingMode::Implied, cycles: 3 }),
        0x49u8 => Some(Opcode { instruction: Instruction::Eor, mode: AddressingMode::Immediate, cycles: 2 }),
        0x4Au8 => Some(Opcode { instruction: Instruction::Lsr, mode: AddressingMode::Accumulator, cycles: 2 }),
        0x4Cu8 => Some(Opcode { instruction: Instruction::Jmp, mode: AddressingMode::Absolute, cycles: 3 }),
        0x4Du8 => Some(Opcode { instruction: Instruction::Eor, mode: AddressingMode::Absolute, cycles: 4 }),
        0x4Eu8 => Some(Opcode { instruction: Instruction::Lsr, mode: AddressingMode::Absolute, cycles: 6 }),
        0x50u8 => Some(Opcode { instruction: Instruction::Bvc, mode: AddressingMode::Relative, cycles: 2 }),
        0x51u8 => Some(Opcode { instruction: Instruction::Eor, mode: AddressingMode::IndirectY, cycles: 5 }),
        0x55u8 => Some(Opcode { instruction: Instruction::Eor, mode: AddressingMode::ZeroPageX, cycles: 4 }),
        0x56u8 => Some(Opcode { instruction: Instruction::Lsr, mode: AddressingMode::ZeroPageX, cycles: 6 }),
        0x58u8 => Some(Opcode { instruction: Instruction::Cli, mode: AddressingMode::Implied, cycles: 2 }),
        0x59u8 => Some(Opcode { instruction: Instruction::Eor, mode: AddressingMode::AbsoluteY, cycles: 4 }),
        0x5Du8 => Some(Opcode { instruction: Instruction::Eor, mode: AddressingMode::AbsoluteX, cycles: 4 }),
        0x5Eu8 => Some(Opcode { instruction: Instruction::Lsr, mode: AddressingMode::AbsoluteX, cycles: 7 }),
        0x60u8 => Some(Opcode { instruction: Instruction::Rts, mode: AddressingMode::Implied, cycles: 6 }),
        0x61u8 => Some(Opcode { instruction: Instruction::Adc, mode: AddressingMode::IndirectX, cycles: 6 }),
        0x65u8 => Some(Opcode { instruction: Instruction::Adc, mode: AddressingMode::ZeroPage, cycles: 3 }),
        0x66u8 => Some(Opcode { instruction: Instruction::Ror, mode: AddressingMode::ZeroPage, cycles: 5 }),
        0x68u8 => Some(Opcode { instruction: Instruction::Pla, mode: AddressingMode::Implied, cycles: 4 }),
        0x69u8 => Some(Opcode { instruction: Instruction::Adc, mode: AddressingMode::Immediate, cycles: 2 }),
        0x6Au8 => Some(Opcode { instruction: Instruction::Ror, mode: AddressingMode::Accumulator, cycles: 2 }),
        0x6Cu8 => Some(Opcode { instruction: Instruction::Jmp, mode: AddressingMode::Indirect, cycles: 5 }),
        0x6Du8 => Some(Opcode { instruction: Instruction::Adc, mode: AddressingMode::Absolute, cycles: 4 }),
        0x6Eu8 => Some(Opcode { instruction: Instruction::Ror, mode: AddressingMode::Absolute, cycles: 6 }),
        0x70u8 => Some(Opcode { instruction: Instruction::Bvs, mode: AddressingMode::Relative, cycles: 2 }),
        0x71u8 => Some(Opcode { instruction: Instruction::Adc, mode: AddressingMode::IndirectY, cycles: 5 }),
        0x75u8 => Some(Opcode { instruction: Instruction::Adc, mode: AddressingMode::ZeroPageX, cycles: 4 }),
        0x76u8 => Some(Opcode { instruction: Instruction::Ror, mode: AddressingMode::ZeroPageX, cycles: 6 }),
        0x78u8 => Some(Opcode { instruction: Instruction::Sei, mode: AddressingMode::Implied, cycles: 2 }),
        0x79u8 => Some(Opcode { instruction: Instruction::Adc, mode: AddressingMode::AbsoluteY, cycles: 4 }),
        0x7Du8 => Some(Opcode { instruction: Instruction::Adc, mode: AddressingMode::AbsoluteX, cycles: 4 }),
        0x7Eu8 => Some(Opcode { instruction: Instruction::Ror, mode: AddressingMode::AbsoluteX, cycles: 7 }),
        0x81u8 => Some(Opcode { instruction: Instruction::Sta, mode: AddressingMode::IndirectX, cycles: 6 }),
        0x84u8 => Some(Opcode { instruction: Instruction::Sty, mode: AddressingMode::ZeroPage, cycles: 3 }),
        0x85u8 => Some(Opcode { instruction: Instruction::Sta, mode: AddressingMode::ZeroPage, cycles: 3 }),
        0x86u8 => Some(Opcode { instruction: Instruction::Stx, mode: AddressingMode::ZeroPage, cycles: 3 }),
        0x88u8 => Some(Opcode { instruction: Instruction::Dey, mode: AddressingMode::Implied, cycles: 2 }),
        0x8Au8 => Some(Opcode { instruction: Instruction::Txa, mode: AddressingMode::Implied, cycles: 2 }),
        0x8Cu8 => Some(Opcode { instruction: Instruction::Sty, mode: AddressingMode::Absolute, cycles: 4 }),
        0x8Du8 => Some(Opcode { instruction: Instruction::Sta, mode: AddressingMode::Absolute, cycles: 4 }),
        0x8Eu8 => Some(Opcode { instruction: Instruction::Stx, mode: AddressingMode::Absolute, cycles: 4 }),
        0x90u8 => Some(Opcode { instruction: Instruction::Bcc, mode: AddressingMode::Relative, cycles: 2 }),
        0x91u8 => Some(Opcode { instruction: Instruction::Sta, mode: AddressingMode::IndirectY, cycles: 6 }),
        0x94u8 => Some(Opcode { instruction: Instruction::Sty, mode: AddressingMode::ZeroPageX, cycles: 4 }),
        0x95u8 => Some(Opcode { instruction: Instruction::Sta, mode: AddressingMode::ZeroPageX, cycles: 4 }),
        0x96u8 => Some(Opcode { instruction: Instruction::Stx, mode: AddressingMode::ZeroPageY, cycles: 4 }),
        0x98u8 => Some(Opcode { instruction: Instruction::Tya, mode: AddressingMode::Implied, cycles: 2 }),
        0x99u8 => Some(Opcode { instruction: Instruction::Sta, mode: AddressingMode::AbsoluteY, cycles: 5 }),
        0x9Au8 => Some(Opcode { instruction: Instruction::Txs, mode: AddressingMode::Implied, cycles: 2 }),
        0x9Du8 => Some(Opcode { instruction: Instruction::Sta, mode: AddressingMode::AbsoluteX, cycles: 5 }),
        0xA0u8 => Some(Opcode { instruction: Instruction::Ldy, mode: AddressingMode::Immediate, cycles: 2 }),
        0xA1u8 => Some(Opcode { instruction: Instruction::Lda, mode: AddressingMode::IndirectX, cycles: 6 }),
        0xA2u8 => Some(Opcode { instruction: Instruction::Ldx, mode: AddressingMode::Immediate, cycles: 2 }),
        0xA4u8 => Some(Opcode { instruction: Instruction::Ldy, mode: AddressingMode::ZeroPage, cycles: 3 }),
        0xA5u8 => Some(Opcode { instruction: Instruction::Lda, mode: AddressingMode::ZeroPage, cycles: 3 }),
        0xA6u8 => Some(Opcode { instruction: Instruction::Ldx, mode: AddressingMode::ZeroPage, cycles: 3 }),
        0xA8u8 => Some(Opcode { instruction: Instruction::Tay, mode: AddressingMode::Implied, cycles: 2 }),
        0xA9u8 => Some(Opcode { instruction: Instruction::Lda, mode: AddressingMode::Immediate, cycles: 2 }),
        0xAAu8 => Some(Opcode { instruction: Instruction::Tax, mode: AddressingMode::Implied, cycles: 2 }),
        0xACu8 => Some(Opcode { instruction: Instruction::Ldy, mode: AddressingMode::Absolute, cycles: 4 }),
        0xADu8 => Some(Opcode { instruction: Instruction::Lda, mode: AddressingMode::Absolute, cycles: 4 }),
        0xAEu8 => Some(Opcode { instruction: Instruction::Ldx, mode: AddressingMode::Absolute, cycles: 4 }),
        0xB0u8 => Some(Opcode { instruction: Instruction::Bcs, mode: AddressingMode::Relative, cycles: 2 }),
        0xB1u8 => Some(Opcode { instruction: Instruction::Lda, mode: AddressingMode::IndirectY, cycles: 5 }),
        0xB4u8 => Some(Opcode { instruction: Instruction::Ldy, mode: AddressingMode::ZeroPageX, cycles: 4 }),
        0xB5u8 => Some(Opcode { instruction: Instruction::Lda, mode: AddressingMode::ZeroPageX, cycles: 4 }),
        0xB6u8 => Some(Opcode { instruction: Instruction::Ldx, mode: AddressingMode::ZeroPageY, cycles: 4 }),
        0xB8u8 => Some(Opcode { instruction: Instruction::Clv, mode: AddressingMode::Implied, cycles: 2 }),
        0xB9u8 => Some(Opcode { instruction: Instruction::Lda, mode: AddressingMode::AbsoluteY, cycles: 4 }),
        0xBAu8 => Some(Opcode { instruction: Instruction::Tsx, mode: AddressingMode::Implied, cycles: 2 }),
        0xBCu8 => Some(Opcode { instruction: Instruction::Ldy, mode: AddressingMode::AbsoluteX, cycles: 4 }),
        0xBDu8 => Some(Opcode { instruction: Instruction::Lda, mode: AddressingMode::AbsoluteX, cycles: 4 }),
        0xBEu8 => Some(Opcode { instruction: Instruction::Ldx, mode: AddressingMode::AbsoluteY, cycles: 4 }),
        0xC0u8 => Some(Opcode { instruction: Instruction::Cpy, mode: AddressingMode::Immediate, cycles: 2 }),
        0xC1u8 => Some(Opcode { instruction: Instruction::Cmp, mode: AddressingMode::IndirectX, cycles: 6 }),
        0xC4u8 => Some(Opcode { instruction: Instruction::Cpy, mode: AddressingMode::ZeroPage, cycles: 3 }),
        0xC5u8 => Some(Opcode { instruction: Instruction::Cmp, mode: AddressingMode::ZeroPage, cycles: 3 }),
        0xC6u8 => Some(Opcode { instruction: Instruction::Dec, mode: AddressingMode::ZeroPage, cycles: 5 }),
        0xC8u8 => Some(Opcode { instruction: Instruction::Iny, mode: AddressingMode::Implied, cycles: 2 }),
        0xC9u8 => Some(Opcode { instruction: Instruction::Cmp, mode: AddressingMode::Immediate, cycles: 2 }),
        0xCAu8 => Some(Opcode { instruction: Instruction::Dex, mode: AddressingMode::Implied, cycles: 2 }),
        0xCCu8 => Some(Opcode { instruction: Instruction::Cpy, mode: AddressingMode::Absolute, cycles: 4 }),
        0xCDu8 => Some(Opcode { instruction: Instruction::Cmp, mode: AddressingMode::Absolute, cycles: 4 }),
        0xCEu8 => Some(Opcode { instruction: Instruction::Dec, mode: AddressingMode::Absolute, cycles: 6 }),
        0xD0u8 => Some(Opcode { instruction: Instruction::Bne, mode: AddressingMode::Relative, cycles: 2 }),
        0xD1u8 => Some(Opcode { instruction: Instruction::Cmp, mode: AddressingMode::IndirectY, cycles: 5 }),
        0xD5u8 => Some(Opcode { instruction: Instruction::Cmp, mode: AddressingMode::ZeroPageX, cycles: 4 }),
        0xD6u8 => Some(Opcode { instruction: Instruction::Dec, mode: AddressingMode::ZeroPageX, cycles: 6 }),
        0xD8u8 => Some(Opcode { instruction: Instruction::Cld, mode: AddressingMode::Implied, cycles: 2 }),
        0xD9u8 => Some(Opcode { instruction: Instruction::Cmp, mode: AddressingMode::AbsoluteY, cycles: 4 }),
        0xDDu8 => Some(Opcode { instruction: Instruction::Cmp, mode: AddressingMode::AbsoluteX, cycles: 4 }),
        0xDEu8 => Some(Opcode { instruction: Instruction::Dec, mode: AddressingMode::AbsoluteX, cycles: 7 }),
        0xE0u8 => Some(Opcode { instruction: Instruction::Cpx, mode: AddressingMode::Immediate, cycles: 2 }),
        0xE1u8 => Some(Opcode { instruction: Instruction::Sbc, mode: AddressingMode::IndirectX, cycles: 6 }),
        0xE4u8 => Some(Opcode { instruction: Instruction::Cpx, mode: AddressingMode::ZeroPage, cycles: 3 }),
        0xE5u8 => Some(Opcode { instruction: Instruction::Sbc, mode: AddressingMode::ZeroPage, cycles: 3 }),
        0xE6u8 => Some(Opcode { instruction: Instruction::Inc, mode: AddressingMode::ZeroPage, cycles: 5 }),
        0xE8u8 => Some(Opcode { instruction: Instruction::Inx, mode: AddressingMode::Implied, cycles: 2 }),
        0xE9u8 => Some(Opcode { instruction: Instruction::Sbc, mode: AddressingMode::Immediate, cycles: 2 }),
        0xEAu8 => Some(Opcode { instruction: Instruction::Nop, mode: AddressingMode::Implied, cycles: 2 }),
        0xECu8 => Some(Opcode { instruction: Instruction::Cpx, mode: AddressingMode::Absolute, cycles: 4 }),
        0xEDu8 => Some(Opcode { instruction: Instruction::Sbc, mode: AddressingMode::Absolute, cycles: 4 }),
        0xEEu8 => Some(Opcode { instruction: Instruction::Inc, mode: AddressingMode::Absolute, cycles: 6 }),
        0xF0u8 => Some(Opcode { instruction: Instruction::Beq, mode: AddressingMode::Relative, cycles: 2 }),
        0xF1u8 => Some(Opcode { instruction: Instruction::Sbc, mode: AddressingMode::IndirectY, cycles: 5 }),
        0xF5u8 => Some(Opcode { instruction: Instruction::Sbc, mode: AddressingMode::ZeroPageX, cycles: 4 }),
        0xF6u8 => Some(Opcode { instruction: Instruction::Inc, mode: AddressingMode::ZeroPageX, cycles: 6 }),
        0xF8u8 => Some(Opcode { instruction: Instruction::Sed, mode: AddressingMode::Implied, cycles: 2 }),
        0xF9u8 => Some(Opcode { instruction: Instruction::Sbc, mode: AddressingMode::AbsoluteY, cycles: 4 }),
        0xFDu8 => Some(Opcode { instruction: Instruction::Sbc, mode: AddressingMode::AbsoluteX, cycles: 4 }),
        0xFEu8 => Some(Opcode { instruction: Instruction::Inc, mode: AddressingMode::AbsoluteX, cycles: 7 }),
        _ => None,
    }
}

impl Opcode {
    /// Decodes an opcode byte.
    pub fn try_from(byte: u8) -> (r: Option<Opcode>)
        ensures
            r == spec_decode(byte),
    {
        match byte {
            0x00u8 => Some(Opcode { instruction: Instruction::Brk, mode: AddressingMode::Implied, cycles: 7 }),
            0x01u8 => Some(Opcode { instruction: Instruction::Ora, mode: AddressingMode::IndirectX, cycles: 6 }),
            0x05u8 => Some(Opcode { instruction: Instruction::Ora, mode: AddressingMode::ZeroPage, cycles: 3 }),
            0x06u8 => Some(Opcode { instruction: Instruction::Asl, mode: AddressingMode::ZeroPage, cycles: 5 }),
            0x08u8 => Some(Opcode { instruction: Instruction::Php, mode: AddressingMode::Implied, cycles: 3 }),
            0x09u8 => Some(Opcode { instruction: Instruction::Ora, mode: AddressingMode::Immediate, cycles: 2 }),
            0x0Au8 => Some(Opcode { instruction: Instruction::Asl, mode: AddressingMode::Accumulator, cycles: 2 }),
            0x0Du8 => Some(Opcode { instruction: Instruction::Ora, mode: AddressingMode::Absolute, cycles: 4 }),
            0x0Eu8 => Some(Opcode { instruction: Instruction::Asl, mode: AddressingMode::Absolute, cycles: 6 }),
            0x10u8 => Some(Opcode { instruction: Instruction::Bpl, mode: AddressingMode::Relative, cycles: 2 }),
            0x11u8 => Some(Opcode { instruction: Instruction::Ora, mode: AddressingMode::IndirectY, cycles: 5 }),
            0x15u8 => Some(Opcode { instruction: Instruction::Ora, mode: AddressingMode::ZeroPageX, cycles: 4 }),
            0x16u8 => Some(Opcode { instruction: Instruction::Asl, mode: AddressingMode::ZeroPageX, cycles: 6 }),
            0x18u8 => Some(Opcode { instruction: Instruction::Clc, mode: AddressingMode::Implied, cycles: 2 }),
            0x19u8 => Some(Opcode { instruction: Instruction::Ora, mode: AddressingMode::AbsoluteY, cycles: 4 }),
            0x1Du8 => Some(Opcode { instruction: Instruction::Ora, mode: AddressingMode::AbsoluteX, cycles: 4 }),
            0x1Eu8 => Some(Opcode { instruction: Instruction::Asl, mode: AddressingMode::AbsoluteX, cycles: 7 }),
            0x20u8 => Some(Opcode { instruction: Instruction::Jsr, mode: AddressingMode::Absolute, cycles: 6 }),
            0x21u8 => Some(Opcode { instruction: Instruction::And, mode: AddressingMode::IndirectX, cycles: 6 }),
            0x24u8 => Some(Opcode { instruction: Instruction::Bit, mode: AddressingMode::ZeroPage, cycles: 3 }),
            0x25u8 => Some(Opcode { instruction: Instruction::And, mode: AddressingMode::ZeroPage, cycles: 3 }),
            0x26u8 => Some(Opcode { instruction: Instruction::Rol, mode: AddressingMode::ZeroPage, cycles: 5 }),
            0x28u8 => Some(Opcode { instruction: Instruction::Plp, mode: AddressingMode::Implied, cycles: 4 }),
            0x29u8 => Some(Opcode { instruction: Instruction::And, mode: AddressingMode::Immediate, cycles: 2 }),
            0x2Au8 => Some(Opcode { instruction: Instruction::Rol, mode: AddressingMode::Accumulator, cycles: 2 }),
            0x2Cu8 => Some(Opcode { instruction: Instruction::Bit, mode: AddressingMode::Absolute, cycles: 4 }),
            0x2Du8 => Some(Opcode { instruction: Instruction::And, mode: AddressingMode::Absolute, cycles: 4 }),
            0x2Eu8 => Some(Opcode { instruction: Instruction::Rol, mode: AddressingMode::Absolute, cycles: 6 }),
            0x30u8 => Some(Opcode { instruction: Instruction::Bmi, mode: AddressingMode::Relative, cycles: 2 }),
            0x31u8 => Some(Opcode { instruction: Instruction::And, mode: AddressingMode::IndirectY, cycles: 5 }),
            0x35u8 => Some(Opcode { instruction: Instruction::And, mode: AddressingMode::ZeroPageX, cycles: 4 }),
            0x36u8 => Some(Opcode { instruction: Instruction::Rol, mode: AddressingMode::ZeroPageX, cycles: 6 }),
            0x38u8 => Some(Opcode { instruction: Instruction::Sec, mode: AddressingMode::Implied, cycles: 2 }),
            0x39u8 => Some(Opcode { instruction: Instruction::And, mode: AddressingMode::AbsoluteY, cycles: 4 }),
            0x3Du8 => Some(Opcode { instruction: Instruction::And, mode: AddressingMode::AbsoluteX, cycles: 4 }),
            0x3Eu8 => Some(Opcode { instruction: Instruction::Rol, mode: AddressingMode::AbsoluteX, cycles: 7 }),
            0x40u8 => Some(Opcode { instruction: Instruction::Rti, mode: AddressingMode::Implied, cycles: 6 }),
            0x41u8 => Some(Opcode { instruction: Instruction::Eor, mode: AddressingMode::IndirectX, cycles: 6 }),
            0x45u8 => Some(Opcode { instruction: Instruction::Eor, mode: AddressingMode::ZeroPage, cycles: 3 }),
            0x46u8 => Some(Opcode { instruction: Instruction::Lsr, mode: AddressingMode::ZeroPage, cycles: 5 }),
            0x48u8 => Some(Opcode { instruction: Instruction::Pha, mode: AddressingMode::Implied, cycles: 3 }),
            0x49u8 => Some(Opcode { instruction: Instruction::Eor, mode: AddressingMode::Immediate, cycles: 2 }),
            0x4Au8 => Some(Opcode { instruction: Instruction::Lsr, mode: AddressingMode::Accumulator, cycles: 2 }),
            0x4Cu8 => Some(Opcode { instruction: Instruction::Jmp, mode: AddressingMode::Absolute, cycles: 3 }),
            0x4Du8 => Some(Opcode { instruction: Instruction::Eor, mode: AddressingMode::Absolute, cycles: 4 }),
            0x4Eu8 => Some(Opcode { instruction: Instruction::Lsr, mode: AddressingMode::Absolute, cycles: 6 }),
            0x50u8 => Some(Opcode { instruction: Instruction::Bvc, mode: AddressingMode::Relative, cycles: 2 }),
            0x51u8 => Some(Opcode { instruction: Instruction::Eor, mode: AddressingMode::IndirectY, cycles: 5 }),
            0x55u8 => Some(Opcode { instruction: Instruction::Eor, mode: AddressingMode::ZeroPageX, cycles: 4 }),
            0x56u8 => Some(Opcode { instruction: Instruction::Lsr, mode: AddressingMode::ZeroPageX, cycles: 6 }),
            0x58u8 => Some(Opcode { instruction: Instruction::Cli, mode: AddressingMode::Implied, cycles: 2 }),
            0x59u8 => Some(Opcode { instruction: Instruction::Eor, mode: AddressingMode::AbsoluteY, cycles: 4 }),
            0x5Du8 => Some(Opcode { instruction: Instruction::Eor, mode: AddressingMode::AbsoluteX, cycles: 4 }),
            0x5Eu8 => Some(Opcode { instruction: Instruction::Lsr, mode: AddressingMode::AbsoluteX, cycles: 7 }),
            0x60u8 => Some(Opcode { instruction: Instruction::Rts, mode: AddressingMode::Implied, cycles: 6 }),
            0x61u8 => Some(Opcode { instruction: Instruction::Adc, mode: AddressingMode::IndirectX, cycles: 6 }),
            0x65u8 => Some(Opcode { instruction: Instruction::Adc, mode: AddressingMode::ZeroPage, cycles: 3 }),
            0x66u8 => Some(Opcode { instruction: Instruction::Ror, mode: AddressingMode::ZeroPage, cycles: 5 }),
            0x68u8 => Some(Opcode { instruction: Instruction::Pla, mode: AddressingMode::Implied, cycles: 4 }),
            0x69u8 => Some(Opcode { instruction: Instruction::Adc, mode: AddressingMode::Immediate, cycles: 2 }),
            0x6Au8 => Some(Opcode { instruction: Instruction::Ror, mode: AddressingMode::Accumulator, cycles: 2 }),
            0x6Cu8 => Some(Opcode { instruction: Instruction::Jmp, mode: AddressingMode::Indirect, cycles: 5 }),
            0x6Du8 => Some(Opcode { instruction: Instruction::Adc, mode: AddressingMode::Absolute, cycles: 4 }),
            0x6Eu8 => Some(Opcode { instruction: Instruction::Ror, mode: AddressingMode::Absolute, cycles: 6 }),
            0x70u8 => Some(Opcode { instruction: Instruction::Bvs, mode: AddressingMode::Relative, cycles: 2 }),
            0x71u8 => Some(Opcode { instruction: Instruction::Adc, mode: AddressingMode::IndirectY, cycles: 5 }),
            0x75u8 => Some(Opcode { instruction: Instruction::Adc, mode: AddressingMode::ZeroPageX, cycles: 4 }),
            0x76u8 => Some(Opcode { instruction: Instruction::Ror, mode: AddressingMode::ZeroPageX, cycles: 6 }),
            0x78u8 => Some(Opcode { instruction: Instruction::Sei, mode: AddressingMode::Implied, cycles: 2 }),
            0x79u8 => Some(Opcode { instruction: Instruction::Adc, mode: AddressingMode::AbsoluteY, cycles: 4 }),
            0x7Du8 => Some(Opcode { instruction: Instruction::Adc, mode: AddressingMode::AbsoluteX, cycles: 4 }),
            0x7Eu8 => Some(Opcode { instruction: Instruction::Ror, mode: AddressingMode::AbsoluteX, cycles: 7 }),
            0x81u8 => Some(Opcode { instruction: Instruction::Sta, mode: AddressingMode::IndirectX, cycles: 6 }),
            0x84u8 => Some(Opcode { instruction: Instruction::Sty, mode: AddressingMode::ZeroPage, cycles: 3 }),
            0x85u8 => Some(Opcode { instruction: Instruction::Sta, mode: AddressingMode::ZeroPage, cycles: 3 }),
            0x86u8 => Some(Opcode { instruction: Instruction::Stx, mode: AddressingMode::ZeroPage, cycles: 3 }),
            0x88u8 => Some(Opcode { instruction: Instruction::Dey, mode: AddressingMode::Implied, cycles: 2 }),
            0x8Au8 => Some(Opcode { instruction: Instruction::Txa, mode: AddressingMode::Implied, cycles: 2 }),
            0x8Cu8 => Some(Opcode { instruction: Instruction::Sty, mode: AddressingMode::Absolute, cycles: 4 }),
            0x8Du8 => Some(Opcode { instruction: Instruction::Sta, mode: AddressingMode::Absolute, cycles: 4 }),
            0x8Eu8 => Some(Opcode { instruction: Instruction::Stx, mode: AddressingMode::Absolute, cycles: 4 }),
            0x90u8 => Some(Opcode { instruction: Instruction::Bcc, mode: AddressingMode::Relative, cycles: 2 }),
            0x91u8 => Some(Opcode { instruction: Instruction::Sta, mode: AddressingMode::IndirectY, cycles: 6 }),
            0x94u8 => Some(Opcode { instruction: Instruction::Sty, mode: AddressingMode::ZeroPageX, cycles: 4 }),
            0x95u8 => Some(Opcode { instruction: Instruction::Sta, mode: AddressingMode::ZeroPageX, cycles: 4 }),
            0x96u8 => Some(Opcode { instruction: Instruction::Stx, mode: AddressingMode::ZeroPageY, cycles: 4 }),
            0x98u8 => Some(Opcode { instruction: Instruction::Tya, mode: AddressingMode::Implied, cycles: 2 }),
            0x99u8 => Some(Opcode { instruction: Instruction::Sta, mode: AddressingMode::AbsoluteY, cycles: 5 }),
            0x9Au8 => Some(Opcode { instruction: Instruction::Txs, mode: AddressingMode::Implied, cycles: 2 }),
            0x9Du8 => Some(Opcode { instruction: Instruction::Sta, mode: AddressingMode::AbsoluteX, cycles: 5 }),
            0xA0u8 => Some(Opcode { instruction: Instruction::Ldy, mode: AddressingMode::Immediate, cycles: 2 }),
            0xA1u8 => Some(Opcode { instruction: Instruction::Lda, mode: AddressingMode::IndirectX, cycles: 6 }),
            0xA2u8 => Some(Opcode { instruction: Instruction::Ldx, mode: AddressingMode::Immediate, cycles: 2 }),
            0xA4u8 => Some(Opcode { instruction: Instruction::Ldy, mode: AddressingMode::ZeroPage, cycles: 3 }),
            0xA5u8 => Some(Opcode { instruction: Instruction::Lda, mode: AddressingMode::ZeroPage, cycles: 3 }),
            0xA6u8 => Some(Opcode { instruction: Instruction::Ldx, mode: AddressingMode::ZeroPage, cycles: 3 }),
            0xA8u8 => Some(Opcode { instruction: Instruction::Tay, mode: AddressingMode::Implied, cycles: 2 }),
            0xA9u8 => Some(Opcode { instruction: Instruction::Lda, mode: AddressingMode::Immediate, cycles: 2 }),
            0xAAu8 => Some(Opcode { instruction: Instruction::Tax, mode: AddressingMode::Implied, cycles: 2 }),
            0xACu8 => Some(Opcode { instruction: Instruction::Ldy, mode: AddressingMode::Absolute, cycles: 4 }),
            0xADu8 => Some(Opcode { instruction: Instruction::Lda, mode: AddressingMode::Absolute, cycles: 4 }),
            0xAEu8 => Some(Opcode { instruction: Instruction::Ldx, mode: AddressingMode::Absolute, cycles: 4 }),
            0xB0u8 => Some(Opcode { instruction: Instruction::Bcs, mode: AddressingMode::Relative, cycles: 2 }),
            0xB1u8 => Some(Opcode { instruction: Instruction::Lda, mode: AddressingMode::IndirectY, cycles: 5 }),
            0xB4u8 => Some(Opcode { instruction: Instruction::Ldy, mode: AddressingMode::ZeroPageX, cycles: 4 }),
            0xB5u8 => Some(Opcode { instruction: Instruction::Lda, mode: AddressingMode::ZeroPageX, cycles: 4 }),
            0xB6u8 => Some(Opcode { instruction: Instruction::Ldx, mode: AddressingMode::ZeroPageY, cycles: 4 }),
            0xB8u8 => Some(Opcode { instruction: Instruction::Clv, mode: AddressingMode::Implied, cycles: 2 }),
            0xB9u8 => Some(Opcode { instruction: Instruction::Lda, mode: AddressingMode::AbsoluteY, cycles: 4 }),
            0xBAu8 => Some(Opcode { instruction: Instruction::Tsx, mode: AddressingMode::Implied, cycles: 2 }),
            0xBCu8 => Some(Opcode { instruction: Instruction::Ldy, mode: AddressingMode::AbsoluteX, cycles: 4 }),
            0xBDu8 => Some(Opcode { instruction: Instruction::Lda, mode: AddressingMode::AbsoluteX, cycles: 4 }),
            0xBEu8 => Some(Opcode { instruction: Instruction::Ldx, mode: AddressingMode::AbsoluteY, cycles: 4 }),
            0xC0u8 => Some(Opcode { instruction: Instruction::Cpy, mode: AddressingMode::Immediate, cycles: 2 }),
            0xC1u8 => Some(Opcode { instruction: Instruction::Cmp, mode: AddressingMode::IndirectX, cycles: 6 }),
            0xC4u8 => Some(Opcode { instruction: Instruction::Cpy, mode: AddressingMode::ZeroPage, cycles: 3 }),
            0xC5u8 => Some(Opcode { instruction: Instruction::Cmp, mode: AddressingMode::ZeroPage, cycles: 3 }),
            0xC6u8 => Some(Opcode { instruction: Instruction::Dec, mode: AddressingMode::ZeroPage, cycles: 5 }),
            0xC8u8 => Some(Opcode { instruction: Instruction::Iny, mode: AddressingMode::Implied, cycles: 2 }),
            0xC9u8 => Some(Opcode { instruction: Instruction::Cmp, mode: AddressingMode::Immediate, cycles: 2 }),
            0xCAu8 => Some(Opcode { instruction: Instruction::Dex, mode: AddressingMode::Implied, cycles: 2 }),
            0xCCu8 => Some(Opcode { instruction: Instruction::Cpy, mode: AddressingMode::Absolute, cycles: 4 }),
            0xCDu8 => Some(Opcode { instruction: Instruction::Cmp, mode: AddressingMode::Absolute, cycles: 4 }),
            0xCEu8 => Some(Opcode { instruction: Instruction::Dec, mode: AddressingMode::Absolute, cycles: 6 }),
            0xD0u8 => Some(Opcode { instruction: Instruction::Bne, mode: AddressingMode::Relative, cycles: 2 }),
            0xD1u8 => Some(Opcode { instruction: Instruction::Cmp, mode: AddressingMode::IndirectY, cycles: 5 }),
            0xD5u8 => Some(Opcode { instruction: Instruction::Cmp, mode: AddressingMode::ZeroPageX, cycles: 4 }),
            0xD6u8 => Some(Opcode { instruction: Instruction::Dec, mode: AddressingMode::ZeroPageX, cycles: 6 }),
            0xD8u8 => Some(Opcode { instruction: Instruction::Cld, mode: AddressingMode::Implied, cycles: 2 }),
            0xD9u8 => Some(Opcode { instruction: Instruction::Cmp, mode: AddressingMode::AbsoluteY, cycles: 4 }),
            0xDDu8 => Some(Opcode { instruction: Instruction::Cmp, mode: AddressingMode::AbsoluteX, cycles: 4 }),
            0xDEu8 => Some(Opcode { instruction: Instruction::Dec, mode: AddressingMode::AbsoluteX, cycles: 7 }),
            0xE0u8 => Some(Opcode { instruction: Instruction::Cpx, mode: AddressingMode::Immediate, cycles: 2 }),
            0xE1u8 => Some(Opcode { instruction: Instruction::Sbc, mode: AddressingMode::IndirectX, cycles: 6 }),
            0xE4u8 => Some(Opcode { instruction: Instruction::Cpx, mode: AddressingMode::ZeroPage, cycles: 3 }),
            0xE5u8 => Some(Opcode { instruction: Instruction::Sbc, mode: AddressingMode::ZeroPage, cycles: 3 }),
            0xE6u8 => Some(Opcode { instruction: Instruction::Inc, mode: AddressingMode::ZeroPage, cycles: 5 }),
            0xE8u8 => Some(Opcode { instruction: Instruction::Inx, mode: AddressingMode::Implied, cycles: 2 }),
            0xE9u8 => Some(Opcode { instruction: Instruction::Sbc, mode: AddressingMode::Immediate, cycles: 2 }),
            0xEAu8 => Some(Opcode { instruction: Instruction::Nop, mode: AddressingMode::Implied, cycles: 2 }),
            0xECu8 => Some(Opcode { instruction: Instruction::Cpx, mode: AddressingMode::Absolute, cycles: 4 }),
            0xEDu8 => Some(Opcode { instruction: Instruction::Sbc, mode: AddressingMode::Absolute, cycles: 4 }),
            0xEEu8 => Some(Opcode { instruction: Instruction::Inc, mode: AddressingMode::Absolute, cycles: 6 }),
            0xF0u8 => Some(Opcode { instruction: Instruction::Beq, mode: AddressingMode::Relative, cycles: 2 }),
            0xF1u8 => Some(Opcode { instruction: Instruction::Sbc, mode: AddressingMode::IndirectY, cycles: 5 }),
            0xF5u8 => Some(Opcode { instruction: Instruction::Sbc, mode: AddressingMode::ZeroPageX, cycles: 4 }),
            0xF6u8 => Some(Opcode { instruction: Instruction::Inc, mode: AddressingMode::ZeroPageX, cycles: 6 }),
            0xF8u8 => Some(Opcode { instruction: Instruction::Sed, mode: AddressingMode::Implied, cycles: 2 }),
            0xF9u8 => Some(Opcode { instruction: Instruction::Sbc, mode: AddressingMode::AbsoluteY, cycles: 4 }),
            0xFDu8 => Some(Opcode { instruction: Instruction::Sbc, mode: AddressingMode::AbsoluteX, cycles: 4 }),
            0xFEu8 => Some(Opcode { instruction: Instruction::Inc, mode: AddressingMode::AbsoluteX, cycles: 7 }),
            _ => None,
        }
    }

    /// Base cycle count.
    pub fn cycles(&self) -> (r: u8)
        ensures
            r == self.cycles,
    {
        self.cycles
    }

    /// The addressing mode.
    pub fn addressing_mode(&self) -> (r: AddressingMode)
        ensures
            r == self.mode,
    {
        self.mode
    }

    /// The opcode unknown bytes execute as: a two-cycle no-op.
    pub open spec fn spec_nop() -> Opcode {
        Opcode { instruction: Instruction::Nop, mode: AddressingMode::Implied, cycles: 2 }
    }

    /// The opcode unknown bytes execute as: a two-cycle no-op.
    pub fn nop() -> (r: Opcode)
        ensures
            r == Self::spec_nop(),
    {
        Opcode { instruction: Instruction::Nop, mode: AddressingMode::Implied, cycles: 2 }
    }
}

/// Every official opcode takes between 2 and 7 cycles before penalties.
pub proof fn lemma_decode_cycles(byte: u8)
    ensures
        spec_decode(byte) matches Some(o) ==> 2 <= o.cycles <= 7,
{
}

} // verus!
