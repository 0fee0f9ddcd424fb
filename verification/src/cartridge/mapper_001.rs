//! MMC1: a serial shift register programs PRG/CHR banking and mirroring.
use vstd::prelude::*;

use super::{CartridgeReadTarget, Mirroring};

verus! {

/// CHR mode bit of the control register (0: one 8 KiB bank; 1: two 4 KiB banks).
pub const CHR_MODE_MASK: u8 = 0b10000;

/// PRG mode bits of the control register.
pub const PRG_MODE_MASK: u8 = 0b01100;

/// Mapper 1 (MMC1).
pub struct Mapper001 {
    prg_banks: u8,
    prg_bank_selector_32: u8,
    prg_bank_selector_16_lo: u8,
    prg_bank_selector_16_hi: u8,
    chr_bank_selector_8: u8,
    chr_bank_selector_4_lo: u8,
    chr_bank_selector_4_hi: u8,
    load_register: u8,
    load_register_count: u8,
    control_register: u8,
    ram_data: [u8; 0x8000],
}

/// The state of an MMC1 mapper, with its work RAM as a sequence.
pub struct Mapper001State {
    pub prg_banks: u8,
    pub prg_bank_selector_32: u8,
    pub prg_bank_selector_16_lo: u8,
    pub prg_bank_selector_16_hi: u8,
    pub chr_bank_selector_8: u8,
    pub chr_bank_selector_4_lo: u8,
    pub chr_bank_selector_4_hi: u8,
    pub load_register: u8,
    pub load_register_count: u8,
    pub control_register: u8,
    pub ram: Seq<u8>,
}

impl Mapper001State {
    /// The power-on state.
    pub open spec fn initial(prg_banks: u8) -> Self {
    Mapper001State {
            prg_banks,
            prg_bank_selector_32: 0,
            prg_bank_selector_16_lo: 0,
            prg_bank_selector_16_hi: (prg_banks - 1) as u8,
            chr_bank_selector_8: 0,
            chr_bank_selector_4_lo: 0,
            chr_bank_selector_4_hi: 0,
            load_register: 0,
            load_register_count: 0,
            control_register: 0x0C,
            ram: Seq::new(0x8000, |i: int| 0u8),
        }
    }

    /// Whether the PRG mode is one of the two 16 KiB modes (bits 2..=3 of control non-zero).
    pub open spec fn prg_16k_mode(self) -> bool {
        (self.control_register as int / 4) % 4 != 0
    }

    /// Whether CHR is switched as two 4 KiB banks.
    pub open spec fn chr_4k_mode(self) -> bool {
        (self.control_register as int / 16) % 2 == 1
    }

    /// Where a CPU read of `addr` lands. In the 32 KiB mode every address outside the RAM
    /// window reads the 32 KiB bank (folded to 15 bits, so `$4020-$5FFF` too); in the
    /// 16 KiB modes the addresses below `$6000` have no bank and read 0.
    pub open spec fn cpu_target(self, addr: u16) -> CartridgeReadTarget {
        if 0x6000 <= addr <= 0x7FFF {
            CartridgeReadTarget::PrgRam(self.ram[addr as int % 0x2000])
        } else if addr < 0x6000 && self.prg_16k_mode() {
            CartridgeReadTarget::PrgRam(0)
        } else if self.prg_16k_mode() {
            if addr <= 0xBFFF {
                CartridgeReadTarget::PrgRom(
                    (self.prg_bank_selector_16_lo as int * 0x4000 + addr as int % 0x4000) as usize,
                )
            } else {
                CartridgeReadTarget::PrgRom(
                    (self.prg_bank_selector_16_hi as int * 0x4000 + addr as int % 0x4000) as usize,
                )
            }
        } else {
            CartridgeReadTarget::PrgRom(
                (self.prg_bank_selector_32 as int * 0x8000 + addr as int % 0x8000) as usize,
            )
        }
    }

    /// The state after the shift register has received its fifth bit, `value`, for a
    /// write at `addr`: the register selected by address bits 13..=14 is loaded.
    pub open spec fn commit(self, addr: u16, value: u8) -> Self {
        let target = (addr as int / 0x2000) % 4;
        let loaded = if target == 0 {
            Self { control_register: value % 32, ..self }
        } else if target == 1 {
            if self.chr_4k_mode() {
                Self { chr_bank_selector_4_lo: value % 32, ..self }
            } else {
                Self { chr_bank_selector_8: (value % 32 - value % 2) as u8, ..self }
            }
        } else if target == 2 {
            Self { chr_bank_selector_4_hi: value % 32, ..self }
        } else {
            let mode = (self.control_register as int / 4) % 4;
            if mode == 2 {
                Self { prg_bank_selector_16_lo: 0, prg_bank_selector_16_hi: value % 16, ..self }
            } else if mode == 3 {
                Self {
                    prg_bank_selector_16_lo: value % 16,
                    prg_bank_selector_16_hi: (self.prg_banks - 1) as u8,
                    ..self
                }
            } else {
                Self { prg_bank_selector_32: ((value % 16) / 2) as u8, ..self }
            }
        };
        Self { load_register: 0, load_register_count: 0, ..loaded }
    }

    /// The state after a CPU write of `data` at `addr`.
    pub open spec fn after_cpu_write(self, addr: u16, data: u8) -> Self {
        if 0x6000 <= addr <= 0x7FFF {
            Self { ram: self.ram.update(addr as int % 0x2000, data), ..self }
        } else if data >= 0x80 {
            Self {
                load_register: 0,
                load_register_count: 0,
                control_register: (self.control_register as int / 16 * 16 + 0x0C
                    + self.control_register as int % 4) as u8,
                ..self
            }
        } else {
            let shifted = (self.load_register as int / 2 + (data as int % 2) * 16) as u8;
            if self.load_register_count + 1 == 5 {
                self.commit(addr, shifted)
            } else {
                Self {
                    load_register: shifted,
                    load_register_count: (self.load_register_count + 1) as u8,
                    ..self
                }
            }
        }
    }

    /// The CHR index of a PPU read of `addr`.
    pub open spec fn ppu_target(self, addr: u16) -> usize {
        if self.chr_4k_mode() {
            if addr <= 0x0FFF {
                (self.chr_bank_selector_4_lo as int * 0x1000 + addr as int % 0x1000) as usize
            } else {
                (self.chr_bank_selector_4_hi as int * 0x1000 + addr as int % 0x1000) as usize
            }
        } else {
            (self.chr_bank_selector_8 as int * 0x2000 + addr as int % 0x2000) as usize
        }
    }

    /// The CHR index of a PPU write of `addr`.
    pub open spec fn ppu_write_target(self, addr: u16) -> usize {
        (self.chr_bank_selector_8 as int * 0x2000 + addr as int % 0x2000) as usize
    }

    /// The nametable arrangement selected by control bits 0..=1.
    pub open spec fn mirroring(self) -> Mirroring {
        let m = self.control_register as int % 4;
        if m == 0 {
            Mirroring::OneScreenLower
        } else if m == 1 {
            Mirroring::OneScreenUpper
        } else if m == 2 {
            Mirroring::Vertical
        } else {
            Mirroring::Horizontal
        }
    }

    /// The 16 KiB bank seen at `addr`.
    pub open spec fn prg_bank_at(self, addr: u16) -> Option<u8> {
        if addr < 0x8000 {
            None
        } else if self.prg_16k_mode() {
            if addr <= 0xBFFF {
                Some(self.prg_bank_selector_16_lo)
            } else {
                Some(self.prg_bank_selector_16_hi)
            }
        } else if addr <= 0xBFFF {
            Some((self.prg_bank_selector_32 as int * 2) as u8)
        } else {
            Some((self.prg_bank_selector_32 as int * 2 + 1) as u8)
        }
    }

    /// The well-formedness every reachable state keeps.
    pub open spec fn wf(self) -> bool {
        &&& self.prg_banks >= 1
        &&& self.load_register_count < 5
        &&& self.load_register < 32
        &&& self.prg_bank_selector_32 < 8
        &&& self.ram.len() == 0x8000
    }
}

impl View for Mapper001 {
    type V = Mapper001State;

    closed spec fn view(&self) -> Mapper001State {
        Mapper001State {
            prg_banks: self.prg_banks,
            prg_bank_selector_32: self.prg_bank_selector_32,
            prg_bank_selector_16_lo: self.prg_bank_selector_16_lo,
            prg_bank_selector_16_hi: self.prg_bank_selector_16_hi,
            chr_bank_selector_8: self.chr_bank_selector_8,
            chr_bank_selector_4_lo: self.chr_bank_selector_4_lo,
            chr_bank_selector_4_hi: self.chr_bank_selector_4_hi,
            load_register: self.load_register,
            load_register_count: self.load_register_count,
            control_register: self.control_register,
            ram: self.ram_data@,
        }
    }
}

proof fn lemma_mmc1_bits(v: u8)
    by (bit_vector)
    ensures
        v & 0x1F == v % 32,
        v & 0x1E == v % 32 - v % 2,
        v & 0x0F == v % 16,
        (v & 0x0E) >> 1u8 == (v % 16) / 2,
        (v & PRG_MODE_MASK) > 1 <==> (v / 4) % 4 != 0,
        (v & PRG_MODE_MASK) >> 2u8 == (v / 4) % 4,
        (v & CHR_MODE_MASK) != 0 <==> (v / 16) % 2 == 1,
        (v | 0x0C) == v / 16 * 16 + 0x0C + v % 4,
        v & 0x80 == 0x80 <==> v >= 0x80,
        v & 0x03 == v % 4,
{
}

impl Mapper001 {
    #[verifier::type_invariant]
    spec fn inv(self) -> bool {
        self@.wf()
    }

    /// Power-on state: 16 KiB mode with the last bank fixed at `$C000`.
    pub fn new(prg_banks: u8) -> (r: Self)
        requires
            prg_banks >= 1,
        ensures
            r@ == Mapper001State::initial(prg_banks),
    {
        let r = Self {
            prg_banks,
            prg_bank_selector_32: 0,
            prg_bank_selector_16_lo: 0,
            prg_bank_selector_16_hi: prg_banks - 1,
            chr_bank_selector_8: 0,
            chr_bank_selector_4_lo: 0,
            chr_bank_selector_4_hi: 0,
            load_register: 0,
            load_register_count: 0,
            control_register: 0x0C,
            ram_data: [0u8; 0x8000],
        };
        assert(r@.ram =~= Seq::new(0x8000, |i: int| 0u8));
        r
    }

    /// Maps a CPU read.
    pub fn cpu_map_read(&self, addr: u16) -> (r: CartridgeReadTarget)
        ensures
            r == self@.cpu_target(addr),
    {
        proof {
            lemma_mmc1_bits(self.control_register);
        }
        if 0x6000 <= addr && addr <= 0x7FFF {
            CartridgeReadTarget::PrgRam(self.ram_data[(addr % 0x2000) as usize])
        } else if addr < 0x6000 && (self.control_register & PRG_MODE_MASK) > 1 {
            CartridgeReadTarget::PrgRam(0)
        } else if (self.control_register & PRG_MODE_MASK) > 1 {
            if addr <= 0xBFFF {
                CartridgeReadTarget::PrgRom(
                    (self.prg_bank_selector_16_lo as usize) * 0x4000 + (addr % 0x4000) as usize,
                )
            } else {
                CartridgeReadTarget::PrgRom(
                    (self.prg_bank_selector_16_hi as usize) * 0x4000 + (addr % 0x4000) as usize,
                )
            }
        } else {
            CartridgeReadTarget::PrgRom(
                (self.prg_bank_selector_32 as usize) * 0x8000 + (addr % 0x8000) as usize,
            )
        }
    }

    /// Handles a CPU write: RAM at `$6000..=$7FFF`, otherwise one bit into the shift
    /// register (bit 7 set resets it); the fifth bit loads the register chosen by the
    /// address.
    pub fn cpu_map_write(&mut self, addr: u16, data: u8)
        ensures
            final(self)@ == old(self)@.after_cpu_write(addr, data),
    {
        proof {
            use_type_invariant(&*self);
            lemma_mmc1_bits(data);
            lemma_mmc1_bits(self.control_register);
        }
        if 0x6000 <= addr && addr <= 0x7FFF {
            self.ram_data[(addr % 0x2000) as usize] = data;
            assert(self@.ram =~= old(self)@.ram.update(addr as int % 0x2000, data));
            return ;
        }
        if (data & 0x80) == 0x80 {
            self.load_register = 0;
            self.load_register_count = 0;
            self.control_register = self.control_register | 0x0C;
            return ;
        }
        let shifted = (self.load_register >> 1u8) | ((data & 0x01) << 4u8);
        proof {
            let lr = self.load_register;
            assert(lr < 32 ==> (lr >> 1u8) | ((data & 0x01) << 4u8) == lr / 2 + (data % 2) * 16)
                by (bit_vector);
        }
        let count = self.load_register_count + 1;
        if count < 5 {
            self.load_register = shifted;
            self.load_register_count = count;
        } else {
            let value = shifted;
            proof {
                lemma_mmc1_bits(value);
                crate::bits::lemma_word_bits(addr);
            }
            let target = addr & 0x6000;
            if target == 0x0000 {
                self.control_register = value & 0x1F;
            } else if target == 0x2000 {
                if (self.control_register & CHR_MODE_MASK) != 0 {
                    self.chr_bank_selector_4_lo = value & 0x1F;
                } else {
                    self.chr_bank_selector_8 = value & 0x1E;
                }
            } else if target == 0x4000 {
                self.chr_bank_selector_4_hi = value & 0x1F;
            } else {
                let mode = (self.control_register & PRG_MODE_MASK) >> 2u8;
                if mode == 2 {
                    self.prg_bank_selector_16_lo = 0;
                    self.prg_bank_selector_16_hi = value & 0x0F;
                } else if mode == 3 {
                    self.prg_bank_selector_16_lo = value & 0x0F;
                    self.prg_bank_selector_16_hi = self.prg_banks - 1;
                } else {
                    self.prg_bank_selector_32 = (value & 0x0E) >> 1u8;
                }
            }
            self.load_register = 0x00;
            self.load_register_count = 0;
        }
    }

    /// Maps a PPU read.
    pub fn ppu_map_read(&mut self, addr: u16) -> (r: usize)
        ensures
            r == old(self)@.ppu_target(addr),
            final(self)@ == old(self)@,
    {
        proof {
            lemma_mmc1_bits(self.control_register);
        }
        if (self.control_register & CHR_MODE_MASK) != 0 {
            if addr <= 0x0FFF {
                (self.chr_bank_selector_4_lo as usize) * 0x1000 + (addr % 0x1000) as usize
            } else {
                (self.chr_bank_selector_4_hi as usize) * 0x1000 + (addr % 0x1000) as usize
            }
        } else {
            (self.chr_bank_selector_8 as usize) * 0x2000 + (addr % 0x2000) as usize
        }
    }

    /// Maps a PPU write, always in the 8 KiB bank.
    pub fn ppu_map_write(&self, addr: u16) -> (r: Option<usize>)
        ensures
            r == Some(self@.ppu_write_target(addr)),
    {
        Some((self.chr_bank_selector_8 as usize) * 0x2000 + (addr % 0x2000) as usize)
    }

    /// The nametable arrangement selected by the control register.
    pub fn mirroring(&self) -> (r: Mirroring)
        ensures
            r == self@.mirroring(),
    {
        proof {
            lemma_mmc1_bits(self.control_register);
        }
        let m = self.control_register & 0x03;
        if m == 0 {
            Mirroring::OneScreenLower
        } else if m == 1 {
            Mirroring::OneScreenUpper
        } else if m == 2 {
            Mirroring::Vertical
        } else {
            Mirroring::Horizontal
        }
    }

    /// The battery-backed work RAM.
    pub fn get_sram(&self) -> (r: &[u8])
        ensures
            r@ == self@.ram,
    {
        self.ram_data.as_slice()
    }

    /// Loads saved work RAM: the first `min(len, 0x8000)` bytes of `data`.
    pub fn load_sram(&mut self, data: &[u8])
        ensures
            final(self)@ == (Mapper001State {
                ram: Seq::new(
                    0x8000,
                    |i: int|
                        if i < data@.len() {
                            data@[i]
                        } else {
                            old(self)@.ram[i]
                        },
                ),
                ..old(self)@
            }),
    {
        proof {
            use_type_invariant(&*self);
        }
        let n = if data.len() < 0x8000 {
            data.len()
        } else {
            0x8000
        };
        let mut i: usize = 0;
        while i < n
            invariant
                n <= data@.len(),
                n <= 0x8000,
                i <= n,
                self@ == (Mapper001State { ram: self@.ram, ..old(self)@ }),
                old(self)@.wf(),
                forall|j: int|
                    0 <= j < 0x8000 ==> #[trigger] self@.ram[j] == if j < i {
                        data@[j]
                    } else {
                        old(self)@.ram[j]
                    },
                self@.ram.len() == 0x8000,
            decreases n - i,
        {
            self.ram_data[i] = data[i];
            i = i + 1;
        }
        assert(self@.ram =~= Seq::new(
            0x8000,
            |i: int|
                if i < data@.len() {
                    data@[i]
                } else {
                    old(self)@.ram[i]
                },
        ));
    }

    /// The 16 KiB bank seen at `addr`.
    pub fn get_prg_bank(&self, addr: u16) -> (r: Option<u8>)
        ensures
            r == self@.prg_bank_at(addr),
    {
        proof {
            use_type_invariant(self);
            lemma_mmc1_bits(self.control_register);
        }
        if addr < 0x8000 {
            None
        } else if (self.control_register & PRG_MODE_MASK) > 1 {
            if addr <= 0xBFFF {
                Some(self.prg_bank_selector_16_lo)
            } else {
                Some(self.prg_bank_selector_16_hi)
            }
        } else if addr <= 0xBFFF {
            Some(self.prg_bank_selector_32 * 2)
        } else {
            Some(self.prg_bank_selector_32 * 2 + 1)
        }
    }
}

/// The MMC1 serial port: from an empty shift register, five writes to `$8000-$FFFF` with
/// bit 7 clear shift in their bit 0, first bit lowest, and the fifth loads the five-bit
/// value into the register that its address selects.
pub proof fn lemma_mmc1_serial_load(m: Mapper001State, addr: u16, d0: u8, d1: u8, d2: u8, d3: u8, d4: u8)
    requires
        m.load_register == 0,
        m.load_register_count == 0,
        addr >= 0x8000,
        d0 < 0x80 && d1 < 0x80 && d2 < 0x80 && d3 < 0x80 && d4 < 0x80,
    ensures
        m.after_cpu_write(addr, d0).after_cpu_write(addr, d1).after_cpu_write(addr, d2)
            .after_cpu_write(addr, d3).after_cpu_write(addr, d4) == m.commit(
            addr,
            (d0 % 2 + 2 * (d1 % 2) + 4 * (d2 % 2) + 8 * (d3 % 2) + 16 * (d4 % 2)) as u8,
        ),
{
    let m1 = m.after_cpu_write(addr, d0);
    assert(m1.load_register == 16 * (d0 % 2) && m1.load_register_count == 1);
    let m2 = m1.after_cpu_write(addr, d1);
    assert(m2.load_register == 8 * (d0 % 2) + 16 * (d1 % 2) && m2.load_register_count == 2);
    let m3 = m2.after_cpu_write(addr, d2);
    assert(m3.load_register == 4 * (d0 % 2) + 8 * (d1 % 2) + 16 * (d2 % 2));
    let m4 = m3.after_cpu_write(addr, d3);
    assert(m4.load_register == 2 * (d0 % 2) + 4 * (d1 % 2) + 8 * (d2 % 2) + 16 * (d3 % 2));
    assert(m4.load_register_count == 4);
    assert(m4 == Mapper001State { load_register: m4.load_register, load_register_count: 4, ..m });
}

} // verus!
