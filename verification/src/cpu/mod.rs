//! The 6502 core: registers, addressing modes, the instruction set and the
//! cycle-by-cycle clock.
//!
//! Every operation is stated against a pure model: [`Cpu`] is its own model (all of
//! its fields are plain values), and the bus is seen through
//! [`CpuBusState`](crate::bus::CpuBusState), so that an instruction is a function from
//! a CPU and a bus to a CPU and a bus.

pub mod disassembler;
pub mod opcode;

use vstd::prelude::*;
use crate::bus::{same_dot, CpuBus, CpuBusState};
use crate::ppu::registers::{has_all, with_bits};
use self::disassembler::AddressingMode;
use self::opcode::{spec_decode, Instruction, Opcode};

verus! {

/// Page 1, where the stack lives.
pub const STACK_BASE: u16 = 0x0100;

/// The reset vector.
pub const PC_START: u16 = 0xFFFC;

/// The IRQ/BRK vector.
pub const IRQ_HANDLER: u16 = 0xFFFE;

/// The NMI vector.
pub const NMI_HANDLER: u16 = 0xFFFA;

/// Carry.
pub const FLAG_C: u8 = 0x01;

/// Zero.
pub const FLAG_Z: u8 = 0x02;

/// Interrupt disable.
pub const FLAG_I: u8 = 0x04;

/// Decimal mode (stored, never acted upon by the NES's 6502).
pub const FLAG_D: u8 = 0x08;

/// Break: only ever set in the copy of P pushed by BRK and PHP.
pub const FLAG_B: u8 = 0x10;

/// Unused bit, pushed as 1.
pub const FLAG_U: u8 = 0x20;

/// Signed overflow.
pub const FLAG_V: u8 = 0x40;

/// Negative.
pub const FLAG_N: u8 = 0x80;

/// `v` reduced to a byte.
pub open spec fn wrap8(v: int) -> u8 {
    (v % 256) as u8
}

/// `v` reduced to a 16-bit address.
pub open spec fn wrap16(v: int) -> u16 {
    (v % 65536) as u16
}

/// The little-endian word made of `lo` and `hi`.
pub open spec fn word(lo: u8, hi: u8) -> u16 {
    (lo + hi * 256) as u16
}

/// `p` with Z and N set from the value `v`.
pub open spec fn zn(p: u8, v: u8) -> u8 {
    with_bits(with_bits(p, FLAG_Z, v == 0), FLAG_N, v >= 128)
}

/// The value of a byte read as a two's complement signed number.
pub open spec fn signed(v: u8) -> int {
    if v < 128 {
        v as int
    } else {
        v - 256
    }
}

/// The processor status register P.
#[derive(Clone, Copy, Debug)]
pub struct StatusRegister {
    pub bits: u8,
}

impl StatusRegister {
    /// Every flag clear.
    pub fn empty() -> (r: Self)
        ensures
            r.bits == 0,
    {
        StatusRegister { bits: 0 }
    }

    /// The register holding `bits`; every bit of a byte is a flag, so nothing is dropped.
    pub fn from_bits_truncate(bits: u8) -> (r: Self)
        ensures
            r.bits == bits,
    {
        StatusRegister { bits }
    }

    /// The raw flags.
    pub fn bits(&self) -> (r: u8)
        ensures
            r == self.bits,
    {
        self.bits
    }

    /// Whether every flag of `mask` is set.
    pub fn contains(&self, mask: u8) -> (r: bool)
        ensures
            r == has_all(self.bits, mask),
    {
        self.bits & mask == mask
    }

    /// Sets the flags of `mask`.
    pub fn insert(&mut self, mask: u8)
        ensures
            final(self).bits == with_bits(old(self).bits, mask, true),
    {
        self.bits = self.bits | mask;
    }

    /// Clears the flags of `mask`.
    pub fn remove(&mut self, mask: u8)
        ensures
            final(self).bits == with_bits(old(self).bits, mask, false),
    {
        self.bits = self.bits & !mask;
    }

    /// Sets the flags of `mask` when `on`, clears them otherwise.
    pub fn set(&mut self, mask: u8, on: bool)
        ensures
            final(self).bits == with_bits(old(self).bits, mask, on),
    {
        if on {
            self.bits = self.bits | mask;
        } else {
            self.bits = self.bits & !mask;
        }
    }
}

/// The 6502's registers and the count of cycles left in the current instruction.
#[derive(Clone, Copy, Debug)]
pub struct Cpu {
    /// Accumulator.
    pub a: u8,
    /// Index register X.
    pub x: u8,
    /// Index register Y.
    pub y: u8,
    /// Stack pointer, an offset into page 1.
    pub st: u8,
    /// Program counter.
    pub pc: u16,
    /// Cycles left before the next instruction is fetched.
    pub cycles: u8,
    /// Processor status P.
    pub status_register: StatusRegister,
}

impl Default for Cpu {
    fn default() -> (r: Self)
        ensures
            r == Cpu::spec_zeroed(),
    {
        Cpu::new()
    }
}

impl Cpu {
    /// All registers and flags zero.
    pub open spec fn spec_zeroed() -> Cpu {
        Cpu { a: 0, x: 0, y: 0, st: 0, pc: 0, cycles: 0, status_register: StatusRegister { bits: 0 } }
    }

    /// All registers and flags zero.
    pub fn new() -> (r: Self)
        ensures
            r == Cpu::spec_zeroed(),
    {
        Cpu {
            a: 0,
            x: 0,
            y: 0,
            st: 0,
            pc: 0,
            cycles: 0,
            status_register: StatusRegister::empty(),
        }
    }

    /// The flags as a byte.
    pub open spec fn p(self) -> u8 {
        self.status_register.bits
    }

    /// Whether every flag of `mask` is set.
    pub open spec fn flag(self, mask: u8) -> bool {
        has_all(self.p(), mask)
    }

    /// The carry as a number.
    pub open spec fn carry(self) -> int {
        if self.flag(FLAG_C) {
            1
        } else {
            0
        }
    }

    /// This CPU with flags `p`.
    pub open spec fn with_p(self, p: u8) -> Cpu {
        Cpu { status_register: StatusRegister { bits: p }, ..self }
    }

    /// A loaded into with `v`, Z and N from it.
    pub open spec fn load_a(self, v: u8) -> Cpu {
        Cpu { a: v, ..self }.with_p(zn(self.p(), v))
    }

    /// X loaded with `v`, Z and N from it.
    pub open spec fn load_x(self, v: u8) -> Cpu {
        Cpu { x: v, ..self }.with_p(zn(self.p(), v))
    }

    /// Y loaded with `v`, Z and N from it.
    pub open spec fn load_y(self, v: u8) -> Cpu {
        Cpu { y: v, ..self }.with_p(zn(self.p(), v))
    }

    /// ADC: `a + op + carry`; C is the unsigned carry out, V the signed overflow.
    pub open spec fn spec_adc(self, op: u8) -> Cpu {
        let sum = self.a + op + self.carry();
        let r = wrap8(sum);
        let v = (self.a < 128) == (op < 128) && (r < 128) != (self.a < 128);
        Cpu { a: r, ..self }.with_p(
            zn(with_bits(with_bits(self.p(), FLAG_C, sum > 255), FLAG_V, v), r),
        )
    }

    /// SBC: ADC of the one's complement of the operand.
    pub open spec fn spec_sbc(self, op: u8) -> Cpu {
        self.spec_adc((255 - op) as u8)
    }

    /// CMP, CPX, CPY: C when `reg >= op`, Z and N from `reg - op`.
    pub open spec fn spec_compare(self, reg: u8, op: u8) -> Cpu {
        self.with_p(zn(with_bits(self.p(), FLAG_C, reg >= op), wrap8(reg - op)))
    }

    /// BIT: Z from `a & op`, V and N copied from bits 6 and 7 of the operand.
    pub open spec fn spec_bit(self, op: u8) -> Cpu {
        self.with_p(
            with_bits(
                with_bits(with_bits(self.p(), FLAG_Z, self.a & op == 0), FLAG_V, (op / 64) % 2 == 1),
                FLAG_N,
                op >= 128,
            ),
        )
    }

    /// ASL: the shifted value, and the CPU with C from the bit shifted out.
    pub open spec fn spec_asl(self, op: u8) -> (u8, Cpu) {
        let r = wrap8(op * 2);
        (r, self.with_p(zn(with_bits(self.p(), FLAG_C, op >= 128), r)))
    }

    /// LSR: the shifted value, and the CPU with C from the bit shifted out.
    pub open spec fn spec_lsr(self, op: u8) -> (u8, Cpu) {
        let r = op / 2;
        (r, self.with_p(zn(with_bits(self.p(), FLAG_C, op % 2 == 1), r)))
    }

    /// ROL: shift left through the carry.
    pub open spec fn spec_rol(self, op: u8) -> (u8, Cpu) {
        let r = wrap8(op * 2 + self.carry());
        (r, self.with_p(zn(with_bits(self.p(), FLAG_C, op >= 128), r)))
    }

    /// ROR: shift right through the carry.
    pub open spec fn spec_ror(self, op: u8) -> (u8, Cpu) {
        let r = (op / 2 + self.carry() * 128) as u8;
        (r, self.with_p(zn(with_bits(self.p(), FLAG_C, op % 2 == 1), r)))
    }

    /// INC: the incremented value, Z and N from it.
    pub open spec fn spec_inc(self, op: u8) -> (u8, Cpu) {
        let r = wrap8(op + 1);
        (r, self.with_p(zn(self.p(), r)))
    }

    /// DEC: the decremented value, Z and N from it.
    pub open spec fn spec_dec(self, op: u8) -> (u8, Cpu) {
        let r = wrap8(op - 1);
        (r, self.with_p(zn(self.p(), r)))
    }

    /// The CPU with the flags of `mask` set or cleared.
    pub open spec fn with_flag(self, mask: u8, on: bool) -> Cpu {
        self.with_p(with_bits(self.p(), mask, on))
    }

    // Instructions that work on registers only.

    fn inst_adc(&mut self, op: u8)
        ensures
            *final(self) == old(self).spec_adc(op),
    {
        let carry: u16 = if self.status_register.contains(FLAG_C) {
            1
        } else {
            0
        };
        let result: u16 = self.a as u16 + op as u16 + carry;

        // Carry
        self.status_register.set(FLAG_C, result > 0xff);

        let r = (result % 256) as u8;

        // Signed overflow: both operands share a sign that the result does not have.
        let v = (self.a < 0x80) == (op < 0x80) && (r < 0x80) != (self.a < 0x80);
        self.status_register.set(FLAG_V, v);

        self.status_register.set(FLAG_Z, r == 0);
        self.status_register.set(FLAG_N, r >= 0x80);

        self.a = r;
    }

    fn inst_sbc(&mut self, op: u8)
        ensures
            *final(self) == old(self).spec_sbc(op),
    {
        let op = 0xff - op;
        self.inst_adc(op);
    }

    fn inst_and(&mut self, op: u8)
        ensures
            *final(self) == old(self).load_a(old(self).a & op),
    {
        self.a = self.a & op;
        let z = self.a == 0;
        self.status_register.set(FLAG_Z, z);
        let n = self.a >= 0x80;
        self.status_register.set(FLAG_N, n);
    }

    fn inst_ora(&mut self, op: u8)
        ensures
            *final(self) == old(self).load_a(old(self).a | op),
    {
        self.a = self.a | op;
        let z = self.a == 0;
        self.status_register.set(FLAG_Z, z);
        let n = self.a >= 0x80;
        self.status_register.set(FLAG_N, n);
    }

    fn inst_eor(&mut self, op: u8)
        ensures
            *final(self) == old(self).load_a(old(self).a ^ op),
    {
        self.a = self.a ^ op;
        let z = self.a == 0;
        self.status_register.set(FLAG_Z, z);
        let n = self.a >= 0x80;
        self.status_register.set(FLAG_N, n);
    }

    fn inst_asl(&mut self, op: u8) -> (r: u8)
        ensures
            (r, *final(self)) == old(self).spec_asl(op),
    {
        self.status_register.set(FLAG_C, op >= 0x80);
        let result = ((op as u16 * 2) % 256) as u8;
        let z = result == 0;
        self.status_register.set(FLAG_Z, z);
        let n = result >= 0x80;
        self.status_register.set(FLAG_N, n);
        result
    }

    fn inst_lsr(&mut self, op: u8) -> (r: u8)
        ensures
            (r, *final(self)) == old(self).spec_lsr(op),
    {
        self.status_register.set(FLAG_C, op % 2 == 1);
        let result = op / 2;
        self.status_register.set(FLAG_Z, result == 0);
        self.status_register.set(FLAG_N, result >= 0x80);
        result
    }

    fn inst_rol(&mut self, op: u8) -> (r: u8)
        ensures
            (r, *final(self)) == old(self).spec_rol(op),
    {
        let carry = self.status_register.contains(FLAG_C);
        self.status_register.set(FLAG_C, op >= 0x80);
        let mut result = ((op as u16 * 2) % 256) as u8;
        if carry {
            result = result + 1;
        }
        self.status_register.set(FLAG_Z, result == 0);
        self.status_register.set(FLAG_N, result >= 0x80);
        result
    }

    fn inst_ror(&mut self, op: u8) -> (r: u8)
        ensures
            (r, *final(self)) == old(self).spec_ror(op),
    {
        let carry = self.status_register.contains(FLAG_C);
        self.status_register.set(FLAG_C, op % 2 == 1);
        let mut result = op / 2;
        if carry {
            result = result + 0x80;
        }
        self.status_register.set(FLAG_Z, result == 0);
        self.status_register.set(FLAG_N, result >= 0x80);
        result
    }

    fn inst_bit(&mut self, op: u8)
        ensures
            *final(self) == old(self).spec_bit(op),
    {
        let result = self.a & op;
        self.status_register.set(FLAG_Z, result == 0);
        self.status_register.set(FLAG_V, (op / 64) % 2 == 1);
        self.status_register.set(FLAG_N, op >= 0x80);
    }

    fn inst_cmp(&mut self, op: u8)
        ensures
            *final(self) == old(self).spec_compare(old(self).a, op),
    {
        let result = self.a.wrapping_sub(op);
        let c = self.a >= op;
        self.status_register.set(FLAG_C, c);
        self.status_register.set(FLAG_Z, result == 0);
        self.status_register.set(FLAG_N, result >= 0x80);
    }

    fn inst_cpx(&mut self, op: u8)
        ensures
            *final(self) == old(self).spec_compare(old(self).x, op),
    {
        let result = self.x.wrapping_sub(op);
        let c = self.x >= op;
        self.status_register.set(FLAG_C, c);
        self.status_register.set(FLAG_Z, result == 0);
        self.status_register.set(FLAG_N, result >= 0x80);
    }

    fn inst_cpy(&mut self, op: u8)
        ensures
            *final(self) == old(self).spec_compare(old(self).y, op),
    {
        let result = self.y.wrapping_sub(op);
        let c = self.y >= op;
        self.status_register.set(FLAG_C, c);
        self.status_register.set(FLAG_Z, result == 0);
        self.status_register.set(FLAG_N, result >= 0x80);
    }

    fn inst_inc(&mut self, op: u8) -> (r: u8)
        ensures
            (r, *final(self)) == old(self).spec_inc(op),
    {
        let result = op.wrapping_add(1);
        self.status_register.set(FLAG_Z, result == 0);
        self.status_register.set(FLAG_N, result >= 0x80);
        result
    }

    fn inst_dec(&mut self, op: u8) -> (r: u8)
        ensures
            (r, *final(self)) == old(self).spec_dec(op),
    {
        let result = op.wrapping_sub(1);
        self.status_register.set(FLAG_Z, result == 0);
        self.status_register.set(FLAG_N, result >= 0x80);
        result
    }

    fn inst_lda(&mut self, op: u8)
        ensures
            *final(self) == old(self).load_a(op),
    {
        self.a = op;
        let z = self.a == 0;
        self.status_register.set(FLAG_Z, z);
        let n = self.a >= 0x80;
        self.status_register.set(FLAG_N, n);
    }

    fn inst_ldx(&mut self, op: u8)
        ensures
            *final(self) == old(self).load_x(op),
    {
        self.x = op;
        let z = self.x == 0;
        self.status_register.set(FLAG_Z, z);
        let n = self.x >= 0x80;
        self.status_register.set(FLAG_N, n);
    }

    fn inst_ldy(&mut self, op: u8)
        ensures
            *final(self) == old(self).load_y(op),
    {
        self.y = op;
        let z = self.y == 0;
        self.status_register.set(FLAG_Z, z);
        let n = self.y >= 0x80;
        self.status_register.set(FLAG_N, n);
    }

    fn inst_tax(&mut self)
        ensures
            *final(self) == old(self).load_x(old(self).a),
    {
        let v = self.a;
        self.inst_ldx(v);
    }

    fn inst_tay(&mut self)
        ensures
            *final(self) == old(self).load_y(old(self).a),
    {
        let v = self.a;
        self.inst_ldy(v);
    }

    fn inst_tsx(&mut self)
        ensures
            *final(self) == old(self).load_x(old(self).st),
    {
        let v = self.st;
        self.inst_ldx(v);
    }

    fn inst_txa(&mut self)
        ensures
            *final(self) == old(self).load_a(old(self).x),
    {
        let v = self.x;
        self.inst_lda(v);
    }

    fn inst_tya(&mut self)
        ensures
            *final(self) == old(self).load_a(old(self).y),
    {
        let v = self.y;
        self.inst_lda(v);
    }

    fn inst_txs(&mut self)
        ensures
            *final(self) == (Cpu { st: old(self).x, ..*old(self) }),
    {
        self.st = self.x;
    }

    fn inst_inx(&mut self)
        ensures
            *final(self) == old(self).load_x(wrap8(old(self).x + 1)),
    {
        let v = self.x.wrapping_add(1);
        self.inst_ldx(v);
    }

    fn inst_iny(&mut self)
        ensures
            *final(self) == old(self).load_y(wrap8(old(self).y + 1)),
    {
        let v = self.y.wrapping_add(1);
        self.inst_ldy(v);
    }

    fn inst_dex(&mut self)
        ensures
            *final(self) == old(self).load_x(wrap8(old(self).x - 1)),
    {
        let v = self.x.wrapping_sub(1);
        self.inst_ldx(v);
    }

    fn inst_dey(&mut self)
        ensures
            *final(self) == old(self).load_y(wrap8(old(self).y - 1)),
    {
        let v = self.y.wrapping_sub(1);
        self.inst_ldy(v);
    }

    fn inst_clc(&mut self)
        ensures
            *final(self) == old(self).with_flag(FLAG_C, false),
    {
        self.status_register.set(FLAG_C, false);
    }

    fn inst_cld(&mut self)
        ensures
            *final(self) == old(self).with_flag(FLAG_D, false),
    {
        self.status_register.set(FLAG_D, false);
    }

    fn inst_cli(&mut self)
        ensures
            *final(self) == old(self).with_flag(FLAG_I, false),
    {
        self.status_register.set(FLAG_I, false);
    }

    fn inst_clv(&mut self)
        ensures
            *final(self) == old(self).with_flag(FLAG_V, false),
    {
        self.status_register.set(FLAG_V, false);
    }

    fn inst_sec(&mut self)
        ensures
            *final(self) == old(self).with_flag(FLAG_C, true),
    {
        self.status_register.set(FLAG_C, true);
    }

    fn inst_sed(&mut self)
        ensures
            *final(self) == old(self).with_flag(FLAG_D, true),
    {
        self.status_register.set(FLAG_D, true);
    }

    fn inst_sei(&mut self)
        ensures
            *final(self) == old(self).with_flag(FLAG_I, true),
    {
        self.status_register.set(FLAG_I, true);
    }
}

impl Cpu {
    /// The CPU with its program counter moved `n` bytes on.
    pub open spec fn advance(self, n: int) -> Cpu {
        Cpu { pc: wrap16(self.pc + n), ..self }
    }

    /// The immediate operand: the byte at PC, and the CPU and bus after reading it.
    pub open spec fn spec_am_imm(self, b: CpuBusState) -> (u8, Cpu, CpuBusState) {
        let (v, b1) = b.read_result(self.pc);
        (v, self.advance(1), b1)
    }

    /// The branch offset at PC, sign-extended to 16 bits.
    pub open spec fn spec_am_rel(self, b: CpuBusState) -> (u16, Cpu, CpuBusState) {
        let (v, b1) = b.read_result(self.pc);
        (if v >= 128 {
            (v + 0xff00) as u16
        } else {
            v as u16
        }, self.advance(1), b1)
    }

    /// Zero page: the operand byte is the address.
    pub open spec fn spec_am_zp(self, b: CpuBusState) -> (u16, bool, Cpu, CpuBusState) {
        let (lo, b1) = b.read_result(self.pc);
        (lo as u16, false, self.advance(1), b1)
    }

    /// Zero page indexed: the operand byte plus `index`, wrapping within page 0.
    pub open spec fn spec_am_zp_indexed(self, b: CpuBusState, index: u8) -> (
        u16,
        bool,
        Cpu,
        CpuBusState,
    ) {
        let (lo, b1) = b.read_result(self.pc);
        (wrap8(lo + index) as u16, false, self.advance(1), b1)
    }

    /// Absolute indexed: the operand word plus `index`, and whether that crossed a page.
    pub open spec fn spec_am_abs_indexed(self, b: CpuBusState, index: u8) -> (
        u16,
        bool,
        Cpu,
        CpuBusState,
    ) {
        let (base, b2) = Self::read_vector(b, self.pc);
        let addr = wrap16(base + index);
        (addr, base / 256 != addr / 256, self.advance(2), b2)
    }

    /// Indirect (JMP only): the word at the operand pointer. The pointer does not carry
    /// into its high byte: a pointer at `$xxFF` takes its high byte from `$xx00`.
    pub open spec fn spec_am_ind(self, b: CpuBusState) -> (u16, bool, Cpu, CpuBusState) {
        let (lo, b1) = b.read_result(self.pc);
        let (hi, b2) = b1.read_result(wrap16(self.pc + 1));
        let ptr = word(lo, hi);
        let (l, b3) = b2.read_result(ptr);
        let (h, b4) = b3.read_result(
            if lo == 255 {
                (hi * 256) as u16
            } else {
                (ptr + 1) as u16
            },
        );
        (word(l, h), false, self.advance(2), b4)
    }

    /// Indexed indirect, `(zp,X)`: the word at the zero-page pointer operand + X.
    pub open spec fn spec_am_izx(self, b: CpuBusState) -> (u16, bool, Cpu, CpuBusState) {
        let (t, b1) = b.read_result(self.pc);
        let p = wrap8(t + self.x);
        let (l, b2) = b1.read_result(p as u16);
        let (h, b3) = b2.read_result(wrap8(p + 1) as u16);
        (word(l, h), false, self.advance(1), b3)
    }

    /// Indirect indexed, `(zp),Y`: the word at the zero-page pointer operand, plus Y,
    /// and whether adding Y crossed a page.
    pub open spec fn spec_am_izy(self, b: CpuBusState) -> (u16, bool, Cpu, CpuBusState) {
        let (t, b1) = b.read_result(self.pc);
        let (l, b2) = b1.read_result(t as u16);
        let (h, b3) = b2.read_result(wrap8(t + 1) as u16);
        let base = word(l, h);
        let addr = wrap16(base + self.y);
        (addr, base / 256 != addr / 256, self.advance(1), b3)
    }

    /// The effective address of a memory operand, whether indexing crossed a page, and
    /// the CPU and bus after the operand bytes and pointers were read. Modes without a
    /// memory operand give address 0 and change nothing.
    pub open spec fn operand_address(self, b: CpuBusState, mode: AddressingMode) -> (
        u16,
        bool,
        Cpu,
        CpuBusState,
    ) {
        match mode {
            AddressingMode::ZeroPage => self.spec_am_zp(b),
            AddressingMode::ZeroPageX => self.spec_am_zp_indexed(b, self.x),
            AddressingMode::ZeroPageY => self.spec_am_zp_indexed(b, self.y),
            AddressingMode::Absolute => {
                let (addr, b2) = Self::read_vector(b, self.pc);
                (addr, false, self.advance(2), b2)
            },
            AddressingMode::AbsoluteX => self.spec_am_abs_indexed(b, self.x),
            AddressingMode::AbsoluteY => self.spec_am_abs_indexed(b, self.y),
            AddressingMode::Indirect => self.spec_am_ind(b),
            AddressingMode::IndirectX => self.spec_am_izx(b),
            AddressingMode::IndirectY => self.spec_am_izy(b),
            _ => (0, false, self, b),
        }
    }

    /// Reads a 16-bit little-endian word from `addr` then `addr + 1`.
    fn read_word(bus: &mut CpuBus, addr: u16) -> (r: u16)
        requires
            old(bus)@.wf(),
        ensures
            ({
                let (lo, b1) = old(bus)@.read_result(addr);
                let (hi, b2) = b1.read_result(wrap16(addr + 1));
                r == word(lo, hi) && final(bus)@ == b2
            }),
            final(bus)@.wf(),
    {
        let lo = bus.read(addr);
        let hi = bus.read(addr.wrapping_add(1));
        lo as u16 + (hi as u16) * 256
    }

    fn am_imm(&mut self, bus: &mut CpuBus) -> (r: u8)
        requires
            old(bus)@.wf(),
        ensures
            (r, *final(self), final(bus)@) == old(self).spec_am_imm(old(bus)@),
            final(bus)@.wf(),
    {
        let ret = bus.read(self.pc);
        self.pc = self.pc.wrapping_add(1);
        ret
    }

    fn am_zp(&mut self, bus: &mut CpuBus) -> (r: u16)
        requires
            old(bus)@.wf(),
        ensures
            (r, false, *final(self), final(bus)@) == old(self).spec_am_zp(old(bus)@),
            final(bus)@.wf(),
    {
        let lo = bus.read(self.pc);
        self.pc = self.pc.wrapping_add(1);
        lo as u16
    }

    fn am_zpx(&mut self, bus: &mut CpuBus) -> (r: u16)
        requires
            old(bus)@.wf(),
        ensures
            (r, false, *final(self), final(bus)@) == old(self).spec_am_zp_indexed(old(bus)@, old(self).x),
            final(bus)@.wf(),
    {
        let lo = bus.read(self.pc);
        self.pc = self.pc.wrapping_add(1);
        lo.wrapping_add(self.x) as u16
    }

    fn am_zpy(&mut self, bus: &mut CpuBus) -> (r: u16)
        requires
            old(bus)@.wf(),
        ensures
            (r, false, *final(self), final(bus)@) == old(self).spec_am_zp_indexed(old(bus)@, old(self).y),
            final(bus)@.wf(),
    {
        let lo = bus.read(self.pc);
        self.pc = self.pc.wrapping_add(1);
        lo.wrapping_add(self.y) as u16
    }

    fn am_abs(&mut self, bus: &mut CpuBus) -> (r: u16)
        requires
            old(bus)@.wf(),
        ensures
            (r, false, *final(self), final(bus)@) == old(self).operand_address(old(bus)@, AddressingMode::Absolute),
            final(bus)@.wf(),
    {
        let addr = Self::read_word(bus, self.pc);
        self.pc = self.pc.wrapping_add(2);
        addr
    }

    fn am_abx(&mut self, bus: &mut CpuBus) -> (r: (u16, bool))
        requires
            old(bus)@.wf(),
        ensures
            (r.0, r.1, *final(self), final(bus)@) == old(self).spec_am_abs_indexed(old(bus)@, old(self).x),
            final(bus)@.wf(),
    {
        let address_no_offset = Self::read_word(bus, self.pc);
        self.pc = self.pc.wrapping_add(2);
        let address_with_offset = address_no_offset.wrapping_add(self.x as u16);
        // Crossing into another page costs an extra cycle.
        let need_additional_cycle = address_no_offset / 256 != address_with_offset / 256;
        (address_with_offset, need_additional_cycle)
    }

    fn am_aby(&mut self, bus: &mut CpuBus) -> (r: (u16, bool))
        requires
            old(bus)@.wf(),
        ensures
            (r.0, r.1, *final(self), final(bus)@) == old(self).spec_am_abs_indexed(old(bus)@, old(self).y),
            final(bus)@.wf(),
    {
        let address_no_offset = Self::read_word(bus, self.pc);
        self.pc = self.pc.wrapping_add(2);
        let address_with_offset = address_no_offset.wrapping_add(self.y as u16);
        let need_additional_cycle = address_no_offset / 256 != address_with_offset / 256;
        (address_with_offset, need_additional_cycle)
    }

    fn am_ind(&mut self, bus: &mut CpuBus) -> (r: u16)
        requires
            old(bus)@.wf(),
        ensures
            (r, false, *final(self), final(bus)@) == old(self).spec_am_ind(old(bus)@),
            final(bus)@.wf(),
    {
        let lo = bus.read(self.pc);
        let hi = bus.read(self.pc.wrapping_add(1));
        self.pc = self.pc.wrapping_add(2);
        let ptr = lo as u16 + (hi as u16) * 256;
        let l = bus.read(ptr);
        // The pointer's high byte does not carry: `$xxFF` wraps to `$xx00`.
        let h = if lo == 0xff {
            bus.read((hi as u16) * 256)
        } else {
            bus.read(ptr + 1)
        };
        l as u16 + (h as u16) * 256
    }

    fn am_izx(&mut self, bus: &mut CpuBus) -> (r: u16)
        requires
            old(bus)@.wf(),
        ensures
            (r, false, *final(self), final(bus)@) == old(self).spec_am_izx(old(bus)@),
            final(bus)@.wf(),
    {
        let target = bus.read(self.pc);
        self.pc = self.pc.wrapping_add(1);
        let ptr_lo = target.wrapping_add(self.x);
        let ptr_hi = ptr_lo.wrapping_add(1);
        let val_lo = bus.read(ptr_lo as u16);
        let val_hi = bus.read(ptr_hi as u16);
        val_lo as u16 + (val_hi as u16) * 256
    }

    fn am_izy(&mut self, bus: &mut CpuBus) -> (r: (u16, bool))
        requires
            old(bus)@.wf(),
        ensures
            (r.0, r.1, *final(self), final(bus)@) == old(self).spec_am_izy(old(bus)@),
            final(bus)@.wf(),
    {
        let ptr = bus.read(self.pc);
        self.pc = self.pc.wrapping_add(1);
        let lo = bus.read(ptr as u16);
        let hi = bus.read(ptr.wrapping_add(1) as u16);
        let address_no_offset = lo as u16 + (hi as u16) * 256;
        let address_with_offset = address_no_offset.wrapping_add(self.y as u16);
        let need_additional_cycle = address_no_offset / 256 != address_with_offset / 256;
        (address_with_offset, need_additional_cycle)
    }

    fn am_rel(&mut self, bus: &mut CpuBus) -> (r: u16)
        requires
            old(bus)@.wf(),
        ensures
            (r, *final(self), final(bus)@) == old(self).spec_am_rel(old(bus)@),
            final(bus)@.wf(),
    {
        let offset = bus.read(self.pc);
        self.pc = self.pc.wrapping_add(1);
        // Sign extension.
        if offset >= 0x80 {
            offset as u16 + 0xff00
        } else {
            offset as u16
        }
    }
}

impl Cpu {
    /// PUSH: `v` written at the stack pointer, which then moves down (within page 1).
    pub open spec fn spec_push(self, b: CpuBusState, v: u8) -> (Cpu, CpuBusState) {
        (Cpu { st: wrap8(self.st - 1), ..self }, b.after_write((0x100 + self.st) as u16, v))
    }

    /// POP: the stack pointer moves up (within page 1), then the byte there is read.
    pub open spec fn spec_pop(self, b: CpuBusState) -> (u8, Cpu, CpuBusState) {
        let st = wrap8(self.st + 1);
        let (v, b1) = b.read_result((0x100 + st) as u16);
        (v, Cpu { st, ..self }, b1)
    }

    /// Pushes the program counter, high byte first, then `p`.
    pub open spec fn push_pc_and(self, b: CpuBusState, p: u8) -> (Cpu, CpuBusState) {
        let (c1, b1) = self.spec_push(b, (self.pc / 256) as u8);
        let (c2, b2) = c1.spec_push(b1, (self.pc % 256) as u8);
        c2.spec_push(b2, p)
    }

    /// Reads the 16-bit vector at `addr`.
    pub open spec fn read_vector(b: CpuBusState, addr: u16) -> (u16, CpuBusState) {
        let (lo, b1) = b.read_result(addr);
        let (hi, b2) = b1.read_result(wrap16(addr + 1));
        (word(lo, hi), b2)
    }

    /// Taking an interrupt through `vector`: PC and P (B clear, U set) pushed, I set,
    /// PC loaded from the vector, and `cycles` cycles to wait.
    pub open spec fn spec_interrupt(self, b: CpuBusState, vector: u16, cycles: u8) -> (
        Cpu,
        CpuBusState,
    ) {
        let p = with_bits(with_bits(self.p(), FLAG_B, false), FLAG_U, true);
        let (c1, b1) = self.push_pc_and(b, p);
        let (pc, b2) = Self::read_vector(b1, vector);
        (Cpu { pc, cycles, ..c1.with_p(with_bits(p, FLAG_I, true)) }, b2)
    }

    /// RESET: registers cleared, stack pointer at `$FD`, I and U set, 8 cycles to wait,
    /// PC loaded from the reset vector.
    pub open spec fn spec_reset(self, b: CpuBusState) -> (Cpu, CpuBusState) {
        let (pc, b1) = Self::read_vector(b, PC_START);
        (
            Cpu {
                a: 0,
                x: 0,
                y: 0,
                st: 0xFD,
                cycles: 8,
                status_register: StatusRegister { bits: FLAG_U | FLAG_I },
                pc,
            },
            b1,
        )
    }

    /// IRQ: taken through `$FFFE` in 7 cycles unless I is set; ignored otherwise.
    pub open spec fn spec_irq(self, b: CpuBusState) -> (Cpu, CpuBusState) {
        if self.flag(FLAG_I) {
            (self, b)
        } else {
            self.spec_interrupt(b, IRQ_HANDLER, 7)
        }
    }

    /// NMI: always taken, through `$FFFA`, in 8 cycles.
    pub open spec fn spec_nmi(self, b: CpuBusState) -> (Cpu, CpuBusState) {
        self.spec_interrupt(b, NMI_HANDLER, 8)
    }

    /// BRK: PC + 1 and P with B set pushed, I set, PC loaded from `$FFFE`.
    pub open spec fn spec_brk(self, b: CpuBusState) -> (Cpu, CpuBusState) {
        let c = self.advance(1);
        let pushed = with_bits(c.p(), FLAG_B, true);
        let (c1, b1) = c.push_pc_and(b, pushed);
        let (pc, b2) = Self::read_vector(b1, IRQ_HANDLER);
        (Cpu { pc, ..c1.with_p(with_bits(with_bits(pushed, FLAG_B, false), FLAG_I, true)) }, b2)
    }

    /// PHP: P pushed with B and U set.
    pub open spec fn spec_php(self, b: CpuBusState) -> (Cpu, CpuBusState) {
        self.spec_push(b, with_bits(with_bits(self.p(), FLAG_B, true), FLAG_U, true))
    }

    /// PLP: P pulled, B cleared and U set.
    pub open spec fn spec_plp(self, b: CpuBusState) -> (Cpu, CpuBusState) {
        let (v, c1, b1) = self.spec_pop(b);
        (c1.with_p(with_bits(with_bits(v, FLAG_B, false), FLAG_U, true)), b1)
    }

    /// PLA: A pulled, Z and N from it.
    pub open spec fn spec_pla(self, b: CpuBusState) -> (Cpu, CpuBusState) {
        let (v, c1, b1) = self.spec_pop(b);
        (c1.load_a(v), b1)
    }

    /// RTI: P pulled (B cleared, U set), then PC, low byte first.
    pub open spec fn spec_rti(self, b: CpuBusState) -> (Cpu, CpuBusState) {
        let (p, c1, b1) = self.spec_pop(b);
        let (lo, c2, b2) = c1.spec_pop(b1);
        let (hi, c3, b3) = c2.spec_pop(b2);
        (Cpu { pc: word(lo, hi), ..c3.with_p(with_bits(with_bits(p, FLAG_B, false), FLAG_U, true)) }, b3)
    }

    /// RTS: PC pulled, low byte first, plus one.
    pub open spec fn spec_rts(self, b: CpuBusState) -> (Cpu, CpuBusState) {
        let (lo, c1, b1) = self.spec_pop(b);
        let (hi, c2, b2) = c1.spec_pop(b1);
        (Cpu { pc: wrap16(word(lo, hi) + 1), ..c2 }, b2)
    }

    /// JSR to `address`: the address of the last operand byte pushed, high byte first.
    pub open spec fn spec_jsr(self, b: CpuBusState, address: u16) -> (Cpu, CpuBusState) {
        let ret = wrap16(self.pc - 1);
        let (c1, b1) = self.spec_push(b, (ret / 256) as u8);
        let (c2, b2) = c1.spec_push(b1, (ret % 256) as u8);
        (Cpu { pc: address, ..c2 }, b2)
    }

    /// A taken branch: one more cycle, another if the target is on another page.
    pub open spec fn spec_branch(self, offset: u16) -> Cpu {
        let target = wrap16(self.pc + offset);
        Cpu {
            pc: target,
            cycles: (self.cycles + 1 + if target / 256 != self.pc / 256 {
                1int
            } else {
                0int
            }) as u8,
            ..self
        }
    }

    fn stack_push(&mut self, bus: &mut CpuBus, data: u8)
        requires
            old(bus)@.wf(),
        ensures
            (*final(self), final(bus)@) == old(self).spec_push(old(bus)@, data),
            final(bus)@.wf(),
    {
        bus.write(STACK_BASE + self.st as u16, data);
        self.st = self.st.wrapping_sub(1);
    }

    fn stack_pop(&mut self, bus: &mut CpuBus) -> (r: u8)
        requires
            old(bus)@.wf(),
        ensures
            (r, *final(self), final(bus)@) == old(self).spec_pop(old(bus)@),
            final(bus)@.wf(),
    {
        self.st = self.st.wrapping_add(1);
        bus.read(STACK_BASE + self.st as u16)
    }

    fn branch(&mut self, offset: u16)
        requires
            old(self).cycles <= 253,
        ensures
            *final(self) == old(self).spec_branch(offset),
    {
        self.cycles = self.cycles + 1;
        let result = self.pc.wrapping_add(offset);
        // A target on another page takes one more cycle.
        if result / 256 != self.pc / 256 {
            self.cycles = self.cycles + 1;
        }
        self.pc = result;
    }

    fn push_pc(&mut self, bus: &mut CpuBus)
        requires
            old(bus)@.wf(),
        ensures
            ({
                let (c1, b1) = old(self).spec_push(old(bus)@, (old(self).pc / 256) as u8);
                let (c2, b2) = c1.spec_push(b1, (old(self).pc % 256) as u8);
                *final(self) == c2 && final(bus)@ == b2
            }),
            final(bus)@.wf(),
    {
        let hi = (self.pc / 256) as u8;
        let lo = (self.pc % 256) as u8;
        self.stack_push(bus, hi);
        self.stack_push(bus, lo);
    }

    /// Resets the CPU: registers cleared, stack pointer at `$FD`, I and U set, eight
    /// cycles to wait, and PC loaded from the reset vector at `$FFFC`.
    pub fn reset(&mut self, bus: &mut CpuBus)
        requires
            old(bus)@.wf(),
        ensures
            (*final(self), final(bus)@) == old(self).spec_reset(old(bus)@),
            final(bus)@.wf(),
    {
        self.a = 0;
        self.x = 0;
        self.y = 0;
        self.st = 0xFD;
        self.cycles = 8;
        self.status_register = StatusRegister::from_bits_truncate(FLAG_U | FLAG_I);
        self.pc = Self::read_word(bus, PC_START);
    }

    /// A maskable interrupt request: unless I is set, pushes PC and P (B clear, U set),
    /// sets I, jumps through `$FFFE` and waits seven cycles.
    pub fn irq(&mut self, bus: &mut CpuBus)
        requires
            old(bus)@.wf(),
        ensures
            (*final(self), final(bus)@) == old(self).spec_irq(old(bus)@),
            final(bus)@.wf(),
    {
        if !self.status_register.contains(FLAG_I) {
            self.push_pc(bus);
            self.status_register.remove(FLAG_B);
            self.status_register.insert(FLAG_U);
            let p = self.status_register.bits();
            self.stack_push(bus, p);
            self.status_register.insert(FLAG_I);
            self.pc = Self::read_word(bus, IRQ_HANDLER);
            self.cycles = 7;
        }
    }

    /// A non-maskable interrupt: pushes PC and P (B clear, U set), sets I, jumps through
    /// `$FFFA` and waits eight cycles.
    pub fn nmi(&mut self, bus: &mut CpuBus)
        requires
            old(bus)@.wf(),
        ensures
            (*final(self), final(bus)@) == old(self).spec_nmi(old(bus)@),
            final(bus)@.wf(),
    {
        self.push_pc(bus);
        self.status_register.remove(FLAG_B);
        self.status_register.insert(FLAG_U);
        let p = self.status_register.bits();
        self.stack_push(bus, p);
        self.status_register.insert(FLAG_I);
        self.pc = Self::read_word(bus, NMI_HANDLER);
        self.cycles = 8;
    }

    fn inst_brk(&mut self, bus: &mut CpuBus)
        requires
            old(bus)@.wf(),
        ensures
            (*final(self), final(bus)@) == old(self).spec_brk(old(bus)@),
            final(bus)@.wf(),
    {
        // The return address skips the padding byte after BRK.
        self.pc = self.pc.wrapping_add(1);
        self.push_pc(bus);
        self.status_register.insert(FLAG_B);
        let p = self.status_register.bits();
        self.stack_push(bus, p);
        self.status_register.remove(FLAG_B);
        self.status_register.insert(FLAG_I);
        self.pc = Self::read_word(bus, IRQ_HANDLER);
    }

    fn inst_php(&mut self, bus: &mut CpuBus)
        requires
            old(bus)@.wf(),
        ensures
            (*final(self), final(bus)@) == old(self).spec_php(old(bus)@),
            final(bus)@.wf(),
    {
        let mut status_register_copy = self.status_register;
        status_register_copy.set(FLAG_B, true);
        status_register_copy.set(FLAG_U, true);
        self.stack_push(bus, status_register_copy.bits);
    }

    fn inst_plp(&mut self, bus: &mut CpuBus)
        requires
            old(bus)@.wf(),
        ensures
            (*final(self), final(bus)@) == old(self).spec_plp(old(bus)@),
            final(bus)@.wf(),
    {
        let v = self.stack_pop(bus);
        self.status_register = StatusRegister::from_bits_truncate(v);
        self.status_register.set(FLAG_B, false);
        self.status_register.set(FLAG_U, true);
    }

    fn inst_pha(&mut self, bus: &mut CpuBus)
        requires
            old(bus)@.wf(),
        ensures
            (*final(self), final(bus)@) == old(self).spec_push(old(bus)@, old(self).a),
            final(bus)@.wf(),
    {
        let a = self.a;
        self.stack_push(bus, a);
    }

    fn inst_pla(&mut self, bus: &mut CpuBus)
        requires
            old(bus)@.wf(),
        ensures
            (*final(self), final(bus)@) == old(self).spec_pla(old(bus)@),
            final(bus)@.wf(),
    {
        let v = self.stack_pop(bus);
        self.inst_lda(v);
    }

    fn inst_rti(&mut self, bus: &mut CpuBus)
        requires
            old(bus)@.wf(),
        ensures
            (*final(self), final(bus)@) == old(self).spec_rti(old(bus)@),
            final(bus)@.wf(),
    {
        let p = self.stack_pop(bus);
        self.status_register = StatusRegister::from_bits_truncate(p);
        self.status_register.remove(FLAG_B);
        self.status_register.insert(FLAG_U);
        let lo = self.stack_pop(bus);
        let hi = self.stack_pop(bus);
        self.pc = lo as u16 + (hi as u16) * 256;
    }

    fn inst_rts(&mut self, bus: &mut CpuBus)
        requires
            old(bus)@.wf(),
        ensures
            (*final(self), final(bus)@) == old(self).spec_rts(old(bus)@),
            final(bus)@.wf(),
    {
        let lo = self.stack_pop(bus);
        let hi = self.stack_pop(bus);
        self.pc = (lo as u16 + (hi as u16) * 256).wrapping_add(1);
    }

    fn inst_jsr(&mut self, bus: &mut CpuBus, address: u16)
        requires
            old(bus)@.wf(),
        ensures
            (*final(self), final(bus)@) == old(self).spec_jsr(old(bus)@, address),
            final(bus)@.wf(),
    {
        let pc = self.pc.wrapping_sub(1);
        self.stack_push(bus, (pc / 256) as u8);
        self.stack_push(bus, (pc % 256) as u8);
        self.pc = address;
    }

    fn inst_jmp(&mut self, address: u16)
        ensures
            *final(self) == (Cpu { pc: address, ..*old(self) }),
    {
        self.pc = address;
    }

    fn inst_sta(&mut self, bus: &mut CpuBus, address: u16)
        requires
            old(bus)@.wf(),
        ensures
            *final(self) == *old(self),
            final(bus)@ == old(bus)@.after_write(address, old(self).a),
            final(bus)@.wf(),
    {
        bus.write(address, self.a);
    }

    fn inst_stx(&mut self, bus: &mut CpuBus, address: u16)
        requires
            old(bus)@.wf(),
        ensures
            *final(self) == *old(self),
            final(bus)@ == old(bus)@.after_write(address, old(self).x),
            final(bus)@.wf(),
    {
        bus.write(address, self.x);
    }

    fn inst_sty(&mut self, bus: &mut CpuBus, address: u16)
        requires
            old(bus)@.wf(),
        ensures
            *final(self) == *old(self),
            final(bus)@ == old(bus)@.after_write(address, old(self).y),
            final(bus)@.wf(),
    {
        bus.write(address, self.y);
    }
}

impl Cpu {
    /// The byte a read-type instruction works on, immediate or at the effective address,
    /// and the CPU and bus afterwards; a page crossed by indexing costs one more cycle.
    pub open spec fn spec_read_operand(self, b: CpuBusState, mode: AddressingMode) -> (
        u8,
        Cpu,
        CpuBusState,
    ) {
        if mode == AddressingMode::Immediate {
            self.spec_am_imm(b)
        } else {
            let (addr, extra, c1, b1) = self.operand_address(b, mode);
            let (v, b2) = b1.read_result(addr);
            (v, if extra {
                Cpu { cycles: (c1.cycles + 1) as u8, ..c1 }
            } else {
                c1
            }, b2)
        }
    }

    /// What a read-type instruction does with its operand `v`.
    pub open spec fn apply_read(self, i: Instruction, v: u8) -> Cpu {
        match i {
            Instruction::Ora => self.load_a(self.a | v),
            Instruction::And => self.load_a(self.a & v),
            Instruction::Eor => self.load_a(self.a ^ v),
            Instruction::Adc => self.spec_adc(v),
            Instruction::Sbc => self.spec_sbc(v),
            Instruction::Cmp => self.spec_compare(self.a, v),
            Instruction::Cpx => self.spec_compare(self.x, v),
            Instruction::Cpy => self.spec_compare(self.y, v),
            Instruction::Bit => self.spec_bit(v),
            Instruction::Lda => self.load_a(v),
            Instruction::Ldx => self.load_x(v),
            Instruction::Ldy => self.load_y(v),
            _ => self,
        }
    }

    /// What a read-modify-write instruction makes of `v`, and the CPU afterwards.
    pub open spec fn apply_rmw(self, i: Instruction, v: u8) -> (u8, Cpu) {
        match i {
            Instruction::Asl => self.spec_asl(v),
            Instruction::Lsr => self.spec_lsr(v),
            Instruction::Rol => self.spec_rol(v),
            Instruction::Ror => self.spec_ror(v),
            Instruction::Inc => self.spec_inc(v),
            Instruction::Dec => self.spec_dec(v),
            _ => (v, self),
        }
    }

    /// What an instruction without operand or bus access does.
    pub open spec fn apply_implied(self, i: Instruction) -> Cpu {
        match i {
            Instruction::Clc => self.with_flag(FLAG_C, false),
            Instruction::Cld => self.with_flag(FLAG_D, false),
            Instruction::Cli => self.with_flag(FLAG_I, false),
            Instruction::Clv => self.with_flag(FLAG_V, false),
            Instruction::Sec => self.with_flag(FLAG_C, true),
            Instruction::Sed => self.with_flag(FLAG_D, true),
            Instruction::Sei => self.with_flag(FLAG_I, true),
            Instruction::Tax => self.load_x(self.a),
            Instruction::Tay => self.load_y(self.a),
            Instruction::Tsx => self.load_x(self.st),
            Instruction::Txa => self.load_a(self.x),
            Instruction::Tya => self.load_a(self.y),
            Instruction::Txs => Cpu { st: self.x, ..self },
            Instruction::Inx => self.load_x(wrap8(self.x + 1)),
            Instruction::Iny => self.load_y(wrap8(self.y + 1)),
            Instruction::Dex => self.load_x(wrap8(self.x - 1)),
            Instruction::Dey => self.load_y(wrap8(self.y - 1)),
            _ => self,
        }
    }

    /// Whether a branch instruction's condition holds.
    pub open spec fn branch_taken(self, i: Instruction) -> bool {
        match i {
            Instruction::Bcc => !self.flag(FLAG_C),
            Instruction::Bcs => self.flag(FLAG_C),
            Instruction::Beq => self.flag(FLAG_Z),
            Instruction::Bne => !self.flag(FLAG_Z),
            Instruction::Bmi => self.flag(FLAG_N),
            Instruction::Bpl => !self.flag(FLAG_N),
            Instruction::Bvc => !self.flag(FLAG_V),
            Instruction::Bvs => self.flag(FLAG_V),
            _ => false,
        }
    }

    /// One instruction, its opcode byte already fetched: the CPU (with any page-crossing
    /// or branch cycles added) and the bus afterwards.
    #[verifier::opaque]
    pub open spec fn spec_execute(self, b: CpuBusState, op: Opcode) -> (Cpu, CpuBusState) {
        let i = op.instruction;
        match i {
            Instruction::Ora | Instruction::And | Instruction::Eor | Instruction::Adc
            | Instruction::Sbc | Instruction::Cmp | Instruction::Cpx | Instruction::Cpy
            | Instruction::Bit | Instruction::Lda | Instruction::Ldx | Instruction::Ldy => {
                let (v, c1, b1) = self.spec_read_operand(b, op.mode);
                (c1.apply_read(i, v), b1)
            },
            Instruction::Asl | Instruction::Lsr | Instruction::Rol | Instruction::Ror
            | Instruction::Inc | Instruction::Dec => {
                if op.mode == AddressingMode::Accumulator {
                    let (r, c1) = self.apply_rmw(i, self.a);
                    (Cpu { a: r, ..c1 }, b)
                } else {
                    let (addr, extra, c1, b1) = self.operand_address(b, op.mode);
                    let (v, b2) = b1.read_result(addr);
                    let (r, c2) = c1.apply_rmw(i, v);
                    (c2, b2.after_write(addr, r))
                }
            },
            Instruction::Sta | Instruction::Stx | Instruction::Sty => {
                let (addr, extra, c1, b1) = self.operand_address(b, op.mode);
                let v = match i {
                    Instruction::Sta => self.a,
                    Instruction::Stx => self.x,
                    _ => self.y,
                };
                (c1, b1.after_write(addr, v))
            },
            Instruction::Jmp => {
                let (addr, extra, c1, b1) = self.operand_address(b, op.mode);
                (Cpu { pc: addr, ..c1 }, b1)
            },
            Instruction::Jsr => {
                let (addr, extra, c1, b1) = self.operand_address(b, op.mode);
                c1.spec_jsr(b1, addr)
            },
            Instruction::Bcc | Instruction::Bcs | Instruction::Beq | Instruction::Bne
            | Instruction::Bmi | Instruction::Bpl | Instruction::Bvc | Instruction::Bvs => {
                let (offset, c1, b1) = self.spec_am_rel(b);
                (if c1.branch_taken(i) {
                    c1.spec_branch(offset)
                } else {
                    c1
                }, b1)
            },
            Instruction::Brk => self.spec_brk(b),
            Instruction::Php => self.spec_php(b),
            Instruction::Plp => self.spec_plp(b),
            Instruction::Pha => self.spec_push(b, self.a),
            Instruction::Pla => self.spec_pla(b),
            Instruction::Rti => self.spec_rti(b),
            Instruction::Rts => self.spec_rts(b),
            _ => (self.apply_implied(i), b),
        }
    }

    /// The opcode a byte executes as: itself when official, a two-cycle NOP otherwise.
    pub open spec fn decode_or_nop(byte: u8) -> Opcode {
        match spec_decode(byte) {
            Some(o) => o,
            None => Opcode::spec_nop(),
        }
    }

    /// One CPU clock. With no cycles pending, the opcode at PC is fetched and the whole
    /// instruction executed at once; its cycle count (base cost plus penalties) is then
    /// waited out one clock at a time.
    pub open spec fn spec_clock(self, b: CpuBusState) -> (Cpu, CpuBusState) {
        if self.cycles == 0 {
            let (byte, b1) = b.read_result(self.pc);
            let op = Self::decode_or_nop(byte);
            let (c2, b2) = self.advance(1).spec_execute(b1, op);
            (Cpu { cycles: (c2.cycles + op.cycles - 1) as u8, ..c2 }, b2)
        } else {
            (Cpu { cycles: (self.cycles - 1) as u8, ..self }, b)
        }
    }

    fn effective_address(&mut self, bus: &mut CpuBus, mode: AddressingMode) -> (r: (u16, bool))
        requires
            old(bus)@.wf(),
        ensures
            (r.0, r.1, *final(self), final(bus)@) == old(self).operand_address(old(bus)@, mode),
            final(self).cycles == old(self).cycles,
            final(bus)@.wf(),
    {
        match mode {
            AddressingMode::ZeroPage => (self.am_zp(bus), false),
            AddressingMode::ZeroPageX => (self.am_zpx(bus), false),
            AddressingMode::ZeroPageY => (self.am_zpy(bus), false),
            AddressingMode::Absolute => (self.am_abs(bus), false),
            AddressingMode::AbsoluteX => self.am_abx(bus),
            AddressingMode::AbsoluteY => self.am_aby(bus),
            AddressingMode::Indirect => (self.am_ind(bus), false),
            AddressingMode::IndirectX => (self.am_izx(bus), false),
            AddressingMode::IndirectY => self.am_izy(bus),
            _ => (0, false),
        }
    }

    fn read_operand(&mut self, bus: &mut CpuBus, mode: AddressingMode) -> (r: u8)
        requires
            old(bus)@.wf(),
            old(self).cycles == 0,
        ensures
            (r, *final(self), final(bus)@) == old(self).spec_read_operand(old(bus)@, mode),
            final(self).cycles <= 1,
            final(bus)@.wf(),
    {
        match mode {
            AddressingMode::Immediate => self.am_imm(bus),
            _ => {
                let (addr, extra_cycle) = self.effective_address(bus, mode);
                if extra_cycle {
                    self.cycles = self.cycles + 1;
                }
                bus.read(addr)
            },
        }
    }

    fn apply_read_exec(&mut self, i: Instruction, v: u8)
        ensures
            *final(self) == old(self).apply_read(i, v),
    {
        match i {
            Instruction::Ora => self.inst_ora(v),
            Instruction::And => self.inst_and(v),
            Instruction::Eor => self.inst_eor(v),
            Instruction::Adc => self.inst_adc(v),
            Instruction::Sbc => self.inst_sbc(v),
            Instruction::Cmp => self.inst_cmp(v),
            Instruction::Cpx => self.inst_cpx(v),
            Instruction::Cpy => self.inst_cpy(v),
            Instruction::Bit => self.inst_bit(v),
            Instruction::Lda => self.inst_lda(v),
            Instruction::Ldx => self.inst_ldx(v),
            Instruction::Ldy => self.inst_ldy(v),
            _ => {},
        }
    }

    fn apply_rmw_exec(&mut self, i: Instruction, v: u8) -> (r: u8)
        ensures
            (r, *final(self)) == old(self).apply_rmw(i, v),
    {
        match i {
            Instruction::Asl => self.inst_asl(v),
            Instruction::Lsr => self.inst_lsr(v),
            Instruction::Rol => self.inst_rol(v),
            Instruction::Ror => self.inst_ror(v),
            Instruction::Inc => self.inst_inc(v),
            Instruction::Dec => self.inst_dec(v),
            _ => v,
        }
    }

    fn apply_implied_exec(&mut self, i: Instruction)
        ensures
            *final(self) == old(self).apply_implied(i),
    {
        match i {
            Instruction::Clc => self.inst_clc(),
            Instruction::Cld => self.inst_cld(),
            Instruction::Cli => self.inst_cli(),
            Instruction::Clv => self.inst_clv(),
            Instruction::Sec => self.inst_sec(),
            Instruction::Sed => self.inst_sed(),
            Instruction::Sei => self.inst_sei(),
            Instruction::Tax => self.inst_tax(),
            Instruction::Tay => self.inst_tay(),
            Instruction::Tsx => self.inst_tsx(),
            Instruction::Txa => self.inst_txa(),
            Instruction::Tya => self.inst_tya(),
            Instruction::Txs => self.inst_txs(),
            Instruction::Inx => self.inst_inx(),
            Instruction::Iny => self.inst_iny(),
            Instruction::Dex => self.inst_dex(),
            Instruction::Dey => self.inst_dey(),
            // NOP, and the instructions the caller dispatches elsewhere, do nothing here.
            _ => {},
        }
    }

    fn inst_bcc(&mut self, offset: u16)
        requires
            old(self).cycles <= 253,
        ensures
            *final(self) == if !old(self).flag(FLAG_C) {
                old(self).spec_branch(offset)
            } else {
                *old(self)
            },
    {
        if !self.status_register.contains(FLAG_C) {
            self.branch(offset);
        }
    }

    fn inst_bcs(&mut self, offset: u16)
        requires
            old(self).cycles <= 253,
        ensures
            *final(self) == if old(self).flag(FLAG_C) {
                old(self).spec_branch(offset)
            } else {
                *old(self)
            },
    {
        if self.status_register.contains(FLAG_C) {
            self.branch(offset);
        }
    }

    fn inst_beq(&mut self, offset: u16)
        requires
            old(self).cycles <= 253,
        ensures
            *final(self) == if old(self).flag(FLAG_Z) {
                old(self).spec_branch(offset)
            } else {
                *old(self)
            },
    {
        if self.status_register.contains(FLAG_Z) {
            self.branch(offset);
        }
    }

    fn inst_bne(&mut self, offset: u16)
        requires
            old(self).cycles <= 253,
        ensures
            *final(self) == if !old(self).flag(FLAG_Z) {
                old(self).spec_branch(offset)
            } else {
                *old(self)
            },
    {
        if !self.status_register.contains(FLAG_Z) {
            self.branch(offset);
        }
    }

    fn inst_bmi(&mut self, offset: u16)
        requires
            old(self).cycles <= 253,
        ensures
            *final(self) == if old(self).flag(FLAG_N) {
                old(self).spec_branch(offset)
            } else {
                *old(self)
            },
    {
        if self.status_register.contains(FLAG_N) {
            self.branch(offset);
        }
    }

    fn inst_bpl(&mut self, offset: u16)
        requires
            old(self).cycles <= 253,
        ensures
            *final(self) == if !old(self).flag(FLAG_N) {
                old(self).spec_branch(offset)
            } else {
                *old(self)
            },
    {
        if !self.status_register.contains(FLAG_N) {
            self.branch(offset);
        }
    }

    fn inst_bvc(&mut self, offset: u16)
        requires
            old(self).cycles <= 253,
        ensures
            *final(self) == if !old(self).flag(FLAG_V) {
                old(self).spec_branch(offset)
            } else {
                *old(self)
            },
    {
        if !self.status_register.contains(FLAG_V) {
            self.branch(offset);
        }
    }

    fn inst_bvs(&mut self, offset: u16)
        requires
            old(self).cycles <= 253,
        ensures
            *final(self) == if old(self).flag(FLAG_V) {
                old(self).spec_branch(offset)
            } else {
                *old(self)
            },
    {
        if self.status_register.contains(FLAG_V) {
            self.branch(offset);
        }
    }

    fn apply_branch(&mut self, i: Instruction, offset: u16)
        requires
            old(self).cycles <= 253,
        ensures
            *final(self) == if old(self).branch_taken(i) {
                old(self).spec_branch(offset)
            } else {
                *old(self)
            },
    {
        match i {
            Instruction::Bcc => self.inst_bcc(offset),
            Instruction::Bcs => self.inst_bcs(offset),
            Instruction::Beq => self.inst_beq(offset),
            Instruction::Bne => self.inst_bne(offset),
            Instruction::Bmi => self.inst_bmi(offset),
            Instruction::Bpl => self.inst_bpl(offset),
            Instruction::Bvc => self.inst_bvc(offset),
            Instruction::Bvs => self.inst_bvs(offset),
            _ => {},
        }
    }

    fn execute(&mut self, bus: &mut CpuBus, op: Opcode)
        requires
            old(bus)@.wf(),
            old(self).cycles == 0,
        ensures
            (*final(self), final(bus)@) == old(self).spec_execute(old(bus)@, op),
            final(self).cycles <= 2,
            final(bus)@.wf(),
    {
        reveal(Cpu::spec_execute);
        let i = op.instruction;
        match i {
            Instruction::Ora | Instruction::And | Instruction::Eor | Instruction::Adc
            | Instruction::Sbc | Instruction::Cmp | Instruction::Cpx | Instruction::Cpy
            | Instruction::Bit | Instruction::Lda | Instruction::Ldx | Instruction::Ldy => {
                let v = self.read_operand(bus, op.mode);
                self.apply_read_exec(i, v);
            },
            Instruction::Asl | Instruction::Lsr | Instruction::Rol | Instruction::Ror
            | Instruction::Inc | Instruction::Dec => {
                match op.mode {
                    AddressingMode::Accumulator => {
                        let a = self.a;
                        let r = self.apply_rmw_exec(i, a);
                        self.a = r;
                    },
                    _ => {
                        let (addr, _) = self.effective_address(bus, op.mode);
                        let v = bus.read(addr);
                        let r = self.apply_rmw_exec(i, v);
                        bus.write(addr, r);
                    },
                }
            },
            Instruction::Sta => {
                let (addr, _) = self.effective_address(bus, op.mode);
                self.inst_sta(bus, addr);
            },
            Instruction::Stx => {
                let (addr, _) = self.effective_address(bus, op.mode);
                self.inst_stx(bus, addr);
            },
            Instruction::Sty => {
                let (addr, _) = self.effective_address(bus, op.mode);
                self.inst_sty(bus, addr);
            },
            Instruction::Jmp => {
                let (addr, _) = self.effective_address(bus, op.mode);
                self.inst_jmp(addr);
            },
            Instruction::Jsr => {
                let (addr, _) = self.effective_address(bus, op.mode);
                self.inst_jsr(bus, addr);
            },
            Instruction::Bcc | Instruction::Bcs | Instruction::Beq | Instruction::Bne
            | Instruction::Bmi | Instruction::Bpl | Instruction::Bvc | Instruction::Bvs => {
                let offset = self.am_rel(bus);
                self.apply_branch(i, offset);
            },
            Instruction::Brk => self.inst_brk(bus),
            Instruction::Php => self.inst_php(bus),
            Instruction::Plp => self.inst_plp(bus),
            Instruction::Pha => self.inst_pha(bus),
            Instruction::Pla => self.inst_pla(bus),
            Instruction::Rti => self.inst_rti(bus),
            Instruction::Rts => self.inst_rts(bus),
            _ => self.apply_implied_exec(i),
        }
    }

    /// One CPU clock: with no cycles pending, fetches the opcode at PC (an unofficial
    /// opcode runs as a two-cycle NOP) and executes the whole instruction, then counts
    /// one of its cycles down.
    pub fn clock(&mut self, bus: &mut CpuBus)
        requires
            old(bus)@.wf(),
        ensures
            (*final(self), final(bus)@) == old(self).spec_clock(old(bus)@),
            final(bus)@.wf(),
    {
        if self.cycles == 0 {
            let byte = bus.read(self.pc);
            let opcode = match Opcode::try_from(byte) {
                Some(o) => o,
                None => Opcode::nop(),
            };
            proof {
                opcode::lemma_decode_cycles(byte);
            }
            self.pc = self.pc.wrapping_add(1);
            self.execute(bus, opcode);
            self.cycles = self.cycles + opcode.cycles();
        }
        self.cycles = self.cycles - 1;
    }
}

/// Reading flag `n` after Z and N are set from `v` and flags `m1`, `m2` before them.
proof fn lemma_flags_after(p: u8, m1: u8, on1: bool, m2: u8, on2: bool, v: u8, n: u8)
    requires
        m1 == FLAG_C || m1 == FLAG_V || m1 == FLAG_Z,
        m2 == FLAG_C || m2 == FLAG_V || m2 == FLAG_Z,
        n == FLAG_C || n == FLAG_Z || n == FLAG_I || n == FLAG_D || n == FLAG_B || n == FLAG_U
            || n == FLAG_V || n == FLAG_N,
    ensures
        has_all(zn(with_bits(with_bits(p, m1, on1), m2, on2), v), n) == if n == FLAG_N {
            v >= 128
        } else if n == FLAG_Z {
            v == 0
        } else if n == m2 {
            on2
        } else if n == m1 {
            on1
        } else {
            has_all(p, n)
        },
{
    let p1 = with_bits(p, m1, on1);
    let p2 = with_bits(p1, m2, on2);
    let p3 = with_bits(p2, FLAG_Z, v == 0);
    crate::bits::lemma_flag_update(p, m1, n, on1);
    crate::bits::lemma_flag_update(p1, m2, n, on2);
    crate::bits::lemma_flag_update(p2, FLAG_Z, n, v == 0);
    crate::bits::lemma_flag_update(p3, FLAG_N, n, v >= 128);
}

/// ADC adds with carry: A becomes `A + op + C` modulo 256, C the carry out, V whether
/// the signed sum left `-128..=127`, Z and N from the result; the other flags stay.
pub proof fn lemma_adc(c: Cpu, op: u8)
    ensures
        c.spec_adc(op).a == (c.a + op + c.carry()) % 256,
        c.spec_adc(op).flag(FLAG_C) == (c.a + op + c.carry() > 255),
        c.spec_adc(op).flag(FLAG_V) == !(-128 <= signed(c.a) + signed(op) + c.carry() <= 127),
        c.spec_adc(op).flag(FLAG_Z) == (c.spec_adc(op).a == 0),
        c.spec_adc(op).flag(FLAG_N) == (c.spec_adc(op).a >= 128),
        c.spec_adc(op).flag(FLAG_I) == c.flag(FLAG_I),
        c.spec_adc(op).flag(FLAG_D) == c.flag(FLAG_D),
        c.spec_adc(op).x == c.x && c.spec_adc(op).y == c.y && c.spec_adc(op).st == c.st,
        c.spec_adc(op).pc == c.pc,
{
    let sum = c.a + op + c.carry();
    let r = wrap8(sum);
    let v = (c.a < 128) == (op < 128) && (r < 128) != (c.a < 128);
    lemma_flags_after(c.p(), FLAG_C, sum > 255, FLAG_V, v, r, FLAG_C);
    lemma_flags_after(c.p(), FLAG_C, sum > 255, FLAG_V, v, r, FLAG_V);
    lemma_flags_after(c.p(), FLAG_C, sum > 255, FLAG_V, v, r, FLAG_Z);
    lemma_flags_after(c.p(), FLAG_C, sum > 255, FLAG_V, v, r, FLAG_N);
    lemma_flags_after(c.p(), FLAG_C, sum > 255, FLAG_V, v, r, FLAG_I);
    lemma_flags_after(c.p(), FLAG_C, sum > 255, FLAG_V, v, r, FLAG_D);
}

/// SBC subtracts with borrow: A becomes `A - op - (1 - C)` modulo 256, C is set when no
/// borrow was needed, V whether the signed difference left `-128..=127`.
pub proof fn lemma_sbc(c: Cpu, op: u8)
    ensures
        c.spec_sbc(op).a == (c.a - op - (1 - c.carry())) % 256,
        c.spec_sbc(op).flag(FLAG_C) == (c.a - op - (1 - c.carry()) >= 0),
        c.spec_sbc(op).flag(FLAG_V) == !(-128 <= signed(c.a) - signed(op) - (1 - c.carry())
            <= 127),
        c.spec_sbc(op).flag(FLAG_Z) == (c.spec_sbc(op).a == 0),
        c.spec_sbc(op).flag(FLAG_N) == (c.spec_sbc(op).a >= 128),
{
    lemma_adc(c, (255 - op) as u8);
    assert(signed((255 - op) as u8) == -signed(op) - 1);
}

/// A pull returns what the matching push stored, and leaves the stack pointer and the
/// bus as the push left them.
pub proof fn lemma_push_pop(c: Cpu, b: CpuBusState, v: u8)
    requires
        b.wf(),
    ensures
        ({
            let (c1, b1) = c.spec_push(b, v);
            let (x, c2, b2) = c1.spec_pop(b1);
            x == v && c2 == c && b2 == b1
        }),
{
    let addr = (0x100 + c.st) as u16;
    let (c1, b1) = c.spec_push(b, v);
    crate::bus::lemma_ram_write_read(b, addr, addr, v);
    crate::bus::lemma_ram_mirror(b1, addr);
}

/// RTS after JSR returns to the address after the JSR's operand, with the stack
/// pointer back where it was.
pub proof fn lemma_jsr_rts(c: Cpu, b: CpuBusState, target: u16)
    requires
        b.wf(),
    ensures
        ({
            let (c1, b1) = c.spec_jsr(b, target);
            let (c2, b2) = c1.spec_rts(b1);
            c2.pc == c.pc && c2.st == c.st && c1.pc == target
        }),
{
    let ret = wrap16(c.pc - 1);
    let hi = (ret / 256) as u8;
    let lo = (ret % 256) as u8;
    let a1 = (0x100 + c.st) as u16;
    let a2 = (0x100 + wrap8(c.st - 1)) as u16;
    let (c1, b1) = c.spec_push(b, hi);
    crate::bus::lemma_ram_write_read(b, a1, a1, hi);
    let (c2, b2) = c1.spec_push(b1, lo);
    crate::bus::lemma_ram_write_read(b1, a2, a2, lo);
    crate::bus::lemma_ram_write_read(b1, a2, a1, lo);
    crate::bus::lemma_ram_mirror(b2, a2);
    crate::bus::lemma_ram_mirror(b2, a1);
}

/// RTI right after an interrupt returns to the interrupted instruction with the stack
/// pointer, registers and flags as they were (B clear, U set); the interrupt itself went
/// to the address in `vector`.
pub proof fn lemma_interrupt_rti(c: Cpu, b: CpuBusState, vector: u16, cycles: u8)
    requires
        b.wf(),
        0x4020 <= vector < 0xFFFF,
    ensures
        ({
            let (c1, b1) = c.spec_interrupt(b, vector, cycles);
            let (c2, b2) = c1.spec_rti(b1);
            &&& c1.pc == word(b.ppu_bus.cart.prg_read(vector), b.ppu_bus.cart.prg_read((vector + 1) as u16))
            &&& c1.flag(FLAG_I)
            &&& c2.pc == c.pc
            &&& c2.st == c.st
            &&& c2.a == c.a && c2.x == c.x && c2.y == c.y
            &&& c2.p() == with_bits(with_bits(c.p(), FLAG_B, false), FLAG_U, true)
        }),
{
    let p = with_bits(with_bits(c.p(), FLAG_B, false), FLAG_U, true);
    let hi = (c.pc / 256) as u8;
    let lo = (c.pc % 256) as u8;
    let a1 = (0x100 + c.st) as u16;
    let a2 = (0x100 + wrap8(c.st - 1)) as u16;
    let a3 = (0x100 + wrap8(c.st - 2)) as u16;
    let (c1, b1) = c.spec_push(b, hi);
    crate::bus::lemma_ram_write_read(b, a1, a1, hi);
    let (c2, b2) = c1.spec_push(b1, lo);
    crate::bus::lemma_ram_write_read(b1, a2, a2, lo);
    crate::bus::lemma_ram_write_read(b1, a2, a1, lo);
    let (c3, b3) = c2.spec_push(b2, p);
    crate::bus::lemma_ram_write_read(b2, a3, a3, p);
    crate::bus::lemma_ram_write_read(b2, a3, a2, p);
    crate::bus::lemma_ram_write_read(b2, a3, a1, p);
    crate::bus::lemma_cart_read_keeps(b3, vector);
    crate::bus::lemma_cart_read_keeps(b3, (vector + 1) as u16);
    assert(wrap16(vector + 1) == (vector + 1) as u16);
    let (ci, bi) = c.spec_interrupt(b, vector, cycles);
    assert(bi == b3);
    crate::bus::lemma_ram_mirror(b3, a3);
    crate::bus::lemma_ram_mirror(b3, a2);
    crate::bus::lemma_ram_mirror(b3, a1);
    assert(ci.st == wrap8(c.st - 3));
    lemma_bu_idempotent(p);
    lemma_bu_idempotent(c.p());
    // The three pulls read back the three pushes, in reverse order.
    let (v1, d1, e1) = ci.spec_pop(bi);
    assert(d1.st == wrap8(c.st - 2));
    assert(e1 == b3);
    let (v2, d2, e2) = d1.spec_pop(e1);
    assert(d2.st == wrap8(c.st - 1));
    assert(e2 == b3);
    assert(word(lo, hi) == c.pc);
}

proof fn lemma_bu_idempotent(x: u8)
    by (bit_vector)
    ensures
        with_bits(with_bits(with_bits(with_bits(x, FLAG_B, false), FLAG_U, true), FLAG_B, false), FLAG_U, true)
            == with_bits(with_bits(x, FLAG_B, false), FLAG_U, true),
        has_all(with_bits(x, FLAG_I, true), FLAG_I),
{
}

/// A CPU cycle, and the entry into an interrupt, leave the PPU at its dot: the CPU only
/// reaches the PPU through register reads and writes.
pub proof fn lemma_cpu_keeps_dot(c: Cpu, b: CpuBusState)
    ensures
        same_dot(b, c.spec_clock(b).1),
        same_dot(b, c.spec_nmi(b).1),
        same_dot(b, c.spec_irq(b).1),
{
    broadcast use {crate::bus::lemma_read_keeps_dot, crate::bus::lemma_write_keeps_dot};
    reveal(Cpu::spec_execute);
}

proof fn lemma_ror_bits(op: u8, carry: bool)
    by (bit_vector)
    ensures
        ((op / 2 + (if carry { 1u8 } else { 0u8 }) * 128) as u8) == ((op >> 1u8) | (if carry {
            0x80u8
        } else {
            0u8
        })),
        (op % 2 == 1) == (op & 1 == 1),
{
}

/// ROR rotates right through the carry: the result is the operand shifted right with
/// the old carry in bit 7, the new carry is the bit shifted out (bit 0), N is the old
/// carry and Z tells a zero result; ROL then undoes it, operand and carry both.
pub proof fn lemma_ror(c: Cpu, op: u8)
    ensures
        c.spec_ror(op).0 == ((op >> 1u8) | (if c.flag(FLAG_C) {
            0x80u8
        } else {
            0u8
        })),
        c.spec_ror(op).1.flag(FLAG_C) == (op & 1 == 1),
        c.spec_ror(op).1.flag(FLAG_N) == c.flag(FLAG_C),
        c.spec_ror(op).1.flag(FLAG_Z) == (c.spec_ror(op).0 == 0),
        c.spec_ror(op).1.spec_rol(c.spec_ror(op).0).0 == op,
        c.spec_ror(op).1.spec_rol(c.spec_ror(op).0).1.flag(FLAG_C) == c.flag(FLAG_C),
{
    let (r, c1) = c.spec_ror(op);
    lemma_ror_bits(op, c.flag(FLAG_C));
    let q = with_bits(c.p(), FLAG_C, op % 2 == 1);
    let q1 = with_bits(q, FLAG_Z, r == 0);
    crate::bits::lemma_flag_update(c.p(), FLAG_C, FLAG_C, op % 2 == 1);
    crate::bits::lemma_flag_update(q, FLAG_Z, FLAG_C, r == 0);
    crate::bits::lemma_flag_update(q1, FLAG_N, FLAG_C, r >= 128);
    crate::bits::lemma_flag_update(q, FLAG_Z, FLAG_Z, r == 0);
    crate::bits::lemma_flag_update(q1, FLAG_N, FLAG_Z, r >= 128);
    crate::bits::lemma_flag_update(q1, FLAG_N, FLAG_N, r >= 128);
    assert((r >= 128) == c.flag(FLAG_C));
    let (r2, c2) = c1.spec_rol(r);
    let u = with_bits(c1.p(), FLAG_C, r >= 128);
    let u1 = with_bits(u, FLAG_Z, r2 == 0);
    crate::bits::lemma_flag_update(c1.p(), FLAG_C, FLAG_C, r >= 128);
    crate::bits::lemma_flag_update(u, FLAG_Z, FLAG_C, r2 == 0);
    crate::bits::lemma_flag_update(u1, FLAG_N, FLAG_C, r2 >= 128);
}

/// `ROR A` (opcode `$6A`) as the CPU runs it: A is rotated right through the carry as
/// [`lemma_ror`] says, the carry takes bit 0 of the old A, and the bus is untouched.
pub proof fn lemma_ror_accumulator(c: Cpu, b: CpuBusState)
    ensures
        ({
            let (c2, b2) = c.spec_execute(b, spec_decode(0x6A)->0);
            &&& c2.a == ((c.a >> 1u8) | (if c.flag(FLAG_C) {
                0x80u8
            } else {
                0u8
            }))
            &&& c2.flag(FLAG_C) == (c.a & 1 == 1)
            &&& c2.flag(FLAG_N) == c.flag(FLAG_C)
            &&& b2 == b
        }),
{
    reveal(Cpu::spec_execute);
    lemma_ror(c, c.a);
}

} // verus!
