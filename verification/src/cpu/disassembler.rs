//! A disassembler for cartridge code: one line of text per instruction.
use vstd::prelude::*;
use crate::cartridge::{Cartridge, CartridgeState};
use super::opcode::{spec_decode, Opcode};

verus! {

/// How an instruction finds its operand.
#[derive(Clone, Copy, Debug, PartialEq, Eq, Structural)]
pub enum AddressingMode {
    Accumulator,
    Immediate,
    Implied,
    Relative,
    Absolute,
    AbsoluteX,
    AbsoluteY,
    ZeroPage,
    ZeroPageX,
    ZeroPageY,
    Indirect,
    IndirectX,
    IndirectY,
}

impl AddressingMode {
    /// Number of operand bytes after the opcode byte.
    pub open spec fn spec_required_bytes(self) -> u16 {
        match self {
            AddressingMode::Accumulator | AddressingMode::Implied => 0,
            AddressingMode::Absolute | AddressingMode::AbsoluteX | AddressingMode::AbsoluteY
            | AddressingMode::Indirect => 2,
            _ => 1,
        }
    }

    /// Number of operand bytes after the opcode byte.
    pub fn required_bytes(&self) -> (r: u16)
        ensures
            r == self.spec_required_bytes(),
    {
        match self {
            AddressingMode::Accumulator => 0,
            AddressingMode::Immediate => 1,
            AddressingMode::Implied => 0,
            AddressingMode::Relative => 1,
            AddressingMode::Absolute => 2,
            AddressingMode::AbsoluteX => 2,
            AddressingMode::AbsoluteY => 2,
            AddressingMode::ZeroPage => 1,
            AddressingMode::ZeroPageX => 1,
            AddressingMode::ZeroPageY => 1,
            AddressingMode::Indirect => 2,
            AddressingMode::IndirectX => 1,
            AddressingMode::IndirectY => 1,
        }
    }
}


/// The lower-case hexadecimal digit for `d`, `0 <= d < 16`.
pub open spec fn hex_digit(d: int) -> char {
    if d < 10 {
        if d == 0 { '0' } else if d == 1 { '1' } else if d == 2 { '2' } else if d == 3 { '3' }
        else if d == 4 { '4' } else if d == 5 { '5' } else if d == 6 { '6' } else if d == 7 { '7' }
        else if d == 8 { '8' } else { '9' }
    } else {
        if d == 10 { 'a' } else if d == 11 { 'b' } else if d == 12 { 'c' } else if d == 13 { 'd' }
        else if d == 14 { 'e' } else { 'f' }
    }
}

/// The hexadecimal digits of `n`, most significant first, without leading zeros
/// (`0` is the single digit `0`).
pub open spec fn hex_digits(n: nat) -> Seq<char>
    decreases n,
{
    if n < 16 {
        seq![hex_digit(n as int)]
    } else {
        hex_digits(n / 16).push(hex_digit((n % 16) as int))
    }
}

/// `n` written as `{:#x}` writes it: `0x` and its lower-case hexadecimal digits.
pub open spec fn hex(n: nat) -> Seq<char> {
    seq!['0', 'x'] + hex_digits(n)
}

/// Where a relative branch at `pc` (the address after its operand) with offset byte
/// `offset` lands. An offset up to `0x80` counts forward; above, backward.
pub open spec fn relative_target(offset: u8, pc: u16) -> u16 {
    if offset <= 0x80 {
        ((pc + offset) % 65536) as u16
    } else {
        ((pc - (0xff - offset) + 1 + 65536) % 65536) as u16
    }
}

/// The operand text of an instruction in `mode` whose operand bytes are `data`, at `pc`.
pub open spec fn spec_format(mode: AddressingMode, data: Seq<u8>, pc: u16) -> Seq<char> {
    let word = (data[0] + data[1] * 256) as nat;
    match mode {
        AddressingMode::Accumulator => seq!['a'],
        AddressingMode::Immediate => seq!['#'] + hex(data[0] as nat),
        AddressingMode::Implied => Seq::empty(),
        AddressingMode::Relative => hex(relative_target(data[0], pc) as nat),
        AddressingMode::Absolute => hex(word),
        AddressingMode::AbsoluteX => hex(word) + seq![',', 'x'],
        AddressingMode::AbsoluteY => hex(word) + seq![',', 'y'],
        AddressingMode::ZeroPage => hex(data[0] as nat),
        AddressingMode::ZeroPageX => hex(data[0] as nat) + seq![',', 'x'],
        AddressingMode::ZeroPageY => hex(data[0] as nat) + seq![',', 'y'],
        AddressingMode::Indirect => seq!['('] + hex(word) + seq![')'],
        AddressingMode::IndirectX => seq!['('] + hex(data[0] as nat) + seq![',', 'x', ')'],
        AddressingMode::IndirectY => seq!['('] + hex(data[0] as nat) + seq![')', ',', 'y'],
    }
}

/// `String::push`: appends `c` to `s`.
#[verifier::external_body]
pub(crate) fn push_char(s: &mut String, c: char)
    ensures
        final(s)@ == old(s)@.push(c),
{
    s.push(c);
}

pub(crate) fn digit_char(d: u16) -> (c: char)
    requires
        d < 16,
    ensures
        c == hex_digit(d as int),
{
    let digits = ['0', '1', '2', '3', '4', '5', '6', '7', '8', '9', 'a', 'b', 'c', 'd', 'e', 'f'];
    digits[d as usize]
}

fn push_hex_digits(s: &mut String, n: u16)
    ensures
        final(s)@ == old(s)@ + hex_digits(n as nat),
    decreases n,
{
    if n >= 16 {
        push_hex_digits(s, n / 16);
    }
    let c = digit_char(n % 16);
    push_char(s, c);
    proof {
        if n >= 16 {
            assert(hex_digits(n as nat) == hex_digits((n / 16) as nat).push(hex_digit((n % 16) as int)));
        }
    }
    assert(final(s)@ =~= old(s)@ + hex_digits(n as nat));
}

fn push_hex(s: &mut String, n: u16)
    ensures
        final(s)@ == old(s)@ + hex(n as nat),
{
    push_char(s, '0');
    push_char(s, 'x');
    push_hex_digits(s, n);
    assert(final(s)@ =~= old(s)@ + hex(n as nat));
}

fn push_suffix(s: &mut String, c: char)
    ensures
        final(s)@ == old(s)@ + seq![',', c],
{
    push_char(s, ',');
    push_char(s, c);
    assert(final(s)@ =~= old(s)@ + seq![',', c]);
}

impl AddressingMode {
    /// Appends the operand text for operand bytes `data`, the instruction ending at `pc`.
    fn push_operand(&self, s: &mut String, data: &[u8], pc: u16)
        requires
            data@.len() >= self.spec_required_bytes(),
        ensures
            final(s)@ == old(s)@ + spec_format(*self, data@, pc),
    {
        match self {
            AddressingMode::Accumulator => push_char(s, 'a'),
            AddressingMode::Immediate => {
                push_char(s, '#');
                push_hex(s, data[0] as u16);
            },
            AddressingMode::Implied => {},
            AddressingMode::Relative => {
                let offset = data[0];
                let address = if offset <= 0x80 {
                    pc.wrapping_add(offset as u16)
                } else {
                    pc.wrapping_sub(0xff - offset as u16).wrapping_add(1)
                };
                push_hex(s, address);
            },
            AddressingMode::Absolute => push_hex(s, to_u16(data)),
            AddressingMode::AbsoluteX => {
                push_hex(s, to_u16(data));
                push_suffix(s, 'x');
            },
            AddressingMode::AbsoluteY => {
                push_hex(s, to_u16(data));
                push_suffix(s, 'y');
            },
            AddressingMode::ZeroPage => push_hex(s, data[0] as u16),
            AddressingMode::ZeroPageX => {
                push_hex(s, data[0] as u16);
                push_suffix(s, 'x');
            },
            AddressingMode::ZeroPageY => {
                push_hex(s, data[0] as u16);
                push_suffix(s, 'y');
            },
            AddressingMode::Indirect => {
                push_char(s, '(');
                push_hex(s, to_u16(data));
                push_char(s, ')');
            },
            AddressingMode::IndirectX => {
                push_char(s, '(');
                push_hex(s, data[0] as u16);
                push_suffix(s, 'x');
                push_char(s, ')');
            },
            AddressingMode::IndirectY => {
                push_char(s, '(');
                push_hex(s, data[0] as u16);
                push_char(s, ')');
                push_suffix(s, 'y');
            },
        }
        assert(final(s)@ =~= old(s)@ + spec_format(*self, data@, pc));
    }

    /// The operand text for operand bytes `data`, the instruction ending at `pc`: the
    /// operand as `{:#x}` writes it, with the mode's decoration around it.
    pub fn format(&self, data: &[u8], pc: u16) -> (r: String)
        requires
            data@.len() >= self.spec_required_bytes(),
        ensures
            r@ == spec_format(*self, data@, pc),
    {
        let mut s = String::new();
        self.push_operand(&mut s, data, pc);
        assert(s@ =~= spec_format(*self, data@, pc));
        s
    }
}

/// The little-endian word in the first two bytes of `data`.
pub fn to_u16(data: &[u8]) -> (r: u16)
    requires
        data@.len() >= 2,
    ensures
        r == data@[0] + data@[1] * 256,
{
    data[0] as u16 + (data[1] as u16) * 256
}

/// One line of the disassembly: the PRG bank the address maps to, the address, the text.
pub type DisassemblyLine = (Option<u8>, u16, Seq<char>);

/// The text of the instruction `op` at `addr` whose operand bytes are `data`.
pub open spec fn instruction_text(op: Opcode, data: Seq<u8>, addr: u16) -> Seq<char> {
    let rb = op.mode.spec_required_bytes();
    if rb < 1 {
        op.instruction.spec_mnemonic()
    } else {
        op.instruction.spec_mnemonic() + seq![' '] + spec_format(op.mode, data, (addr + rb + 1) as u16)
    }
}

/// The operand bytes after `addr`.
pub open spec fn operand_bytes(cart: CartridgeState, addr: u16, n: nat) -> Seq<u8> {
    Seq::new(n, |i: int| cart.prg_read((addr + i + 1) as u16))
}

/// The disassembly of cartridge space from `addr` up to (not including) `$FFFF`.
///
/// An unofficial opcode gives a `???` line and the next byte is tried; an instruction
/// whose operands would reach `$FFFF` is skipped without a line.
pub open spec fn spec_disassembly(cart: CartridgeState, addr: u16) -> Seq<DisassemblyLine>
    decreases 0xFFFF - addr,
{
    if addr >= 0xFFFF {
        Seq::empty()
    } else {
        let bank = cart.mapper.prg_bank_at(addr);
        match spec_decode(cart.prg_read(addr)) {
            Some(op) => {
                let rb = op.mode.spec_required_bytes();
                if rb < 1 {
                    seq![(bank, addr, instruction_text(op, Seq::empty(), addr))]
                        + spec_disassembly(cart, (addr + 1) as u16)
                } else if rb < 0xFFFF - addr {
                    seq![(bank, addr, instruction_text(op, operand_bytes(cart, addr, rb as nat), addr))]
                        + spec_disassembly(cart, (addr + rb + 1) as u16)
                } else {
                    spec_disassembly(cart, (addr + 1) as u16)
                }
            },
            None => seq![(bank, addr, seq!['?', '?', '?'])] + spec_disassembly(cart, (addr + 1) as u16),
        }
    }
}

/// The lines of `v` as the contracts see them.
pub open spec fn lines_view(v: Seq<(Option<u8>, u16, String)>) -> Seq<DisassemblyLine> {
    v.map_values(|l: (Option<u8>, u16, String)| (l.0, l.1, l.2@))
}

fn instruction_line(cart: &Cartridge, op: Opcode, addr: u16) -> (r: String)
    requires
        op.mode.spec_required_bytes() < 0xFFFF - addr,
    ensures
        r@ == instruction_text(op, operand_bytes(cart@, addr, op.mode.spec_required_bytes() as nat), addr),
{
    let mut disas = String::new();
    let m = op.instruction.mnemonic();
    push_char(&mut disas, m[0]);
    push_char(&mut disas, m[1]);
    push_char(&mut disas, m[2]);
    let required_bytes = op.addressing_mode().required_bytes();
    if required_bytes >= 1 {
        let mut data: Vec<u8> = Vec::new();
        let mut i: u16 = 0;
        while i < required_bytes
            invariant
                i <= required_bytes,
                required_bytes == op.mode.spec_required_bytes(),
                required_bytes < 0xFFFF - addr,
                data@ =~= operand_bytes(cart@, addr, i as nat),
            decreases required_bytes - i,
        {
            data.push(cart.read_prg_mem(addr + i + 1));
            i = i + 1;
        }
        push_char(&mut disas, ' ');
        op.addressing_mode().push_operand(&mut disas, data.as_slice(), addr + required_bytes + 1);
    }
    assert(disas@ =~= instruction_text(
        op,
        operand_bytes(cart@, addr, op.mode.spec_required_bytes() as nat),
        addr,
    ));
    disas
}

/// Disassembles cartridge space from `start` up to `$FFFF`: for each instruction, the PRG
/// bank its address maps to, the address, and its text (`lda #0x5`, `jmp (0x1234)`, ...).
/// Unofficial opcodes read `???`.
pub fn disassemble(cart: &Cartridge, start: u16) -> (r: Vec<(Option<u8>, u16, String)>)
    ensures
        lines_view(r@) == spec_disassembly(cart@, start),
{
    let mut addr: u16 = start;
    let mut disassembly: Vec<(Option<u8>, u16, String)> = Vec::new();
    assert(lines_view(disassembly@) =~= Seq::<DisassemblyLine>::empty());
    while addr < 0xFFFF
        invariant
            lines_view(disassembly@) + spec_disassembly(cart@, addr) == spec_disassembly(
                cart@,
                start,
            ),
        decreases 0xFFFF - addr,
    {
        let ghost before = disassembly@;
        let prg_bank = cart.get_prg_bank(addr);
        let byte = cart.read_prg_mem(addr);
        match Opcode::try_from(byte) {
            Some(opcode) => {
                let required_bytes = opcode.addressing_mode().required_bytes();
                if required_bytes < 1 {
                    let text = instruction_line(cart, opcode, addr);
                    disassembly.push((prg_bank, addr, text));
                    proof {
                        assert(lines_view(disassembly@) =~= lines_view(before).push(
                            (prg_bank, addr, text@),
                        ));
                        assert(text@ == instruction_text(opcode, Seq::empty(), addr));
                    }
                    addr = addr + 1;
                } else if required_bytes < 0xFFFF - addr {
                    let text = instruction_line(cart, opcode, addr);
                    disassembly.push((prg_bank, addr, text));
                    proof {
                        assert(lines_view(disassembly@) =~= lines_view(before).push(
                            (prg_bank, addr, text@),
                        ));
                    }
                    addr = addr + required_bytes + 1;
                } else {
                    addr = addr + 1;
                }
            },
            None => {
                let mut text = String::new();
                push_char(&mut text, '?');
                push_char(&mut text, '?');
                push_char(&mut text, '?');
                disassembly.push((prg_bank, addr, text));
                proof {
                    assert(text@ =~= seq!['?', '?', '?']);
                    assert(lines_view(disassembly@) =~= lines_view(before).push(
                        (prg_bank, addr, text@),
                    ));
                }
                addr = addr + 1;
            },
        }
        proof {
            assert(lines_view(disassembly@) + spec_disassembly(cart@, addr) =~= spec_disassembly(
                cart@,
                start,
            ));
        }
    }
    proof {
        assert(lines_view(disassembly@) + spec_disassembly(cart@, addr) =~= lines_view(
            disassembly@,
        ));
    }
    disassembly
}

/// The listing is in address order: every line lies between `addr` and `$FFFE`, and the
/// addresses strictly increase from line to line.
pub proof fn lemma_disassembly_ordered(cart: CartridgeState, addr: u16)
    ensures
        forall|i: int|
            0 <= i < spec_disassembly(cart, addr).len() ==> addr <= (
            #[trigger] spec_disassembly(cart, addr)[i]).1 < 0xFFFF,
        forall|i: int, j: int|
            0 <= i < j < spec_disassembly(cart, addr).len() ==> (
            #[trigger] spec_disassembly(cart, addr)[i]).1 < (
            #[trigger] spec_disassembly(cart, addr)[j]).1,
    decreases 0xFFFF - addr,
{
    if addr < 0xFFFF {
        let lines = spec_disassembly(cart, addr);
        match spec_decode(cart.prg_read(addr)) {
            Some(op) => {
                let rb = op.mode.spec_required_bytes();
                if rb < 1 {
                    lemma_disassembly_ordered(cart, (addr + 1) as u16);
                    let rest = spec_disassembly(cart, (addr + 1) as u16);
                    assert(forall|i: int| 1 <= i < lines.len() ==> lines[i] == rest[i - 1]);
                } else if rb < 0xFFFF - addr {
                    lemma_disassembly_ordered(cart, (addr + rb + 1) as u16);
                    let rest = spec_disassembly(cart, (addr + rb + 1) as u16);
                    assert(forall|i: int| 1 <= i < lines.len() ==> lines[i] == rest[i - 1]);
                } else {
                    lemma_disassembly_ordered(cart, (addr + 1) as u16);
                }
            },
            None => {
                lemma_disassembly_ordered(cart, (addr + 1) as u16);
                let rest = spec_disassembly(cart, (addr + 1) as u16);
                assert(forall|i: int| 1 <= i < lines.len() ==> lines[i] == rest[i - 1]);
            },
        }
    }
}

} // verus!
