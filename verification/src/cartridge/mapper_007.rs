//! AxROM: a switchable 32 KiB PRG bank and single-screen mirroring.
use vstd::prelude::*;

use super::{CartridgeReadTarget, Mirroring};

verus! {

/// Mapper 7 (AxROM).
pub struct Mapper007 {
    prg_bank_selector: u8,
    mirroring: Mirroring,
}

impl Mapper007 {
    /// The selected 32 KiB bank (0..=7).
    pub closed spec fn spec_selector(self) -> u8 {
        self.prg_bank_selector
    }

    /// Where a CPU read of `addr` lands.
    pub closed spec fn cpu_target(self, addr: u16) -> CartridgeReadTarget {
        CartridgeReadTarget::PrgRom(
            (addr as int % 0x8000 + self.prg_bank_selector as int * 0x8000) as usize,
        )
    }

    /// The mapper's nametable arrangement.
    pub closed spec fn spec_mirroring(self) -> Mirroring {
        self.mirroring
    }

    /// The 32 KiB bank seen at `addr`.
    pub closed spec fn prg_bank_at(self, addr: u16) -> Option<u8> {
        if 0x8000 <= addr {
            Some(self.prg_bank_selector)
        } else {
            None
        }
    }

    /// The power-on state.
    pub closed spec fn spec_new() -> Self {
        Self { prg_bank_selector: 0, mirroring: Mirroring::OneScreenUpper }
    }

    /// The state after a CPU write at `addr`.
    pub closed spec fn after_cpu_write(self, addr: u16, data: u8) -> Self {
        if addr >= 0x8000 {
            Self {
                prg_bank_selector: data % 8,
                mirroring: if (data / 16) % 2 == 1 {
                    Mirroring::OneScreenUpper
                } else {
                    Mirroring::OneScreenLower
                },
            }
        } else {
            self
        }
    }

    /// The CHR index of a PPU read of `addr`.
    pub closed spec fn ppu_target(self, addr: u16) -> usize {
        (addr as int % 0x2000) as usize
    }

    /// The CHR index of a PPU write of `addr`.
    pub closed spec fn ppu_write_target(self, addr: u16) -> Option<usize> {
        Some((addr as int % 0x2000) as usize)
    }

    /// Bank 0, upper single-screen mirroring.
    pub fn new() -> (r: Self)
        ensures
            r == Self::spec_new(),
            r.spec_selector() == 0,
            r.spec_mirroring() == Mirroring::OneScreenUpper,
    {
        Self { prg_bank_selector: 0, mirroring: Mirroring::OneScreenUpper }
    }

    /// Maps a CPU read.
    pub fn cpu_map_read(&self, addr: u16) -> (r: CartridgeReadTarget)
        ensures
            r == self.cpu_target(addr),
    {
        let addr = (addr % 0x8000) as usize;
        CartridgeReadTarget::PrgRom(addr + (self.prg_bank_selector as usize) * 0x8000)
    }

    /// A write at `$8000` or above selects the bank (bits 0..=2) and the screen (bit 4).
    pub fn cpu_map_write(&mut self, addr: u16, data: u8)
        ensures
            *final(self) == old(self).after_cpu_write(addr, data),
            addr >= 0x8000 ==> final(self).spec_selector() == data % 8
                && final(self).spec_mirroring() == (if (data / 16) % 2 == 1 {
                Mirroring::OneScreenUpper
            } else {
                Mirroring::OneScreenLower
            }),
            addr < 0x8000 ==> *final(self) == *old(self),
    {
        proof {
            crate::bits::lemma_word_bits(addr);
            crate::bits::lemma_byte_bits(data);
        }
        if addr & 0x8000 == 0x8000 {
            self.prg_bank_selector = data & 0b111;
            self.mirroring = if data & 0x10 == 0x10 {
                Mirroring::OneScreenUpper
            } else {
                Mirroring::OneScreenLower
            };
        }
    }

    /// CHR is not banked.
    pub fn ppu_map_read(&mut self, addr: u16) -> (r: usize)
        ensures
            r == old(self).ppu_target(addr),
            *final(self) == *old(self),
    {
        (addr % 0x2000) as usize
    }

    /// CHR is writable, not banked.
    pub fn ppu_map_write(&self, addr: u16) -> (r: Option<usize>)
        ensures
            r == self.ppu_write_target(addr),
    {
        Some((addr % 0x2000) as usize)
    }

    /// The selected single screen.
    pub fn mirroring(&self) -> (r: Mirroring)
        ensures
            r == self.spec_mirroring(),
    {
        self.mirroring
    }

    /// The 32 KiB bank seen at `addr`.
    pub fn get_prg_bank(&self, addr: u16) -> (r: Option<u8>)
        ensures
            r == self.prg_bank_at(addr),
    {
        if 0x8000 <= addr {
            Some(self.prg_bank_selector)
        } else {
            None
        }
    }
}

} // verus!
