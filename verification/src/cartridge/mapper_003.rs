//! CNROM: fixed PRG ROM and a switchable 8 KiB CHR bank.
use vstd::prelude::*;

use super::{CartridgeReadTarget, Mirroring};

verus! {

/// Mapper 3 (CNROM).
pub struct Mapper003 {
    chr_bank_selector: u8,
    prg_banks: u8,
    mirroring: Mirroring,
}

impl Mapper003 {
    /// The selected 8 KiB CHR bank (0..=3).
    pub closed spec fn spec_chr_selector(self) -> u8 {
        self.chr_bank_selector
    }

    /// Number of 16 KiB PRG banks.
    pub closed spec fn spec_prg_banks(self) -> u8 {
        self.prg_banks
    }

    /// Where a CPU read of `addr` lands.
    pub closed spec fn cpu_target(self, addr: u16) -> CartridgeReadTarget {
        if self.prg_banks > 1 {
            CartridgeReadTarget::PrgRom((addr as int % 0x8000) as usize)
        } else {
            CartridgeReadTarget::PrgRom((addr as int % 0x4000) as usize)
        }
    }

    /// The CHR index of a PPU access to `addr`.
    pub closed spec fn ppu_target(self, addr: u16) -> usize {
        (self.chr_bank_selector as int * 0x2000 + addr as int % 0x2000) as usize
    }

    /// The mapper's nametable arrangement.
    pub closed spec fn spec_mirroring(self) -> Mirroring {
        self.mirroring
    }

    /// The 16 KiB bank seen at `addr`.
    pub closed spec fn prg_bank_at(self, addr: u16) -> Option<u8> {
        if 0x8000 <= addr <= 0xBFFF {
            Some(0u8)
        } else if 0xC000 <= addr {
            Some(1u8)
        } else {
            None
        }
    }

    /// The power-on state.
    pub closed spec fn spec_new(prg_banks: u8, mirroring: Mirroring) -> Self {
        Self { chr_bank_selector: 0, prg_banks, mirroring }
    }

    /// The state after a CPU write: any write selects the CHR bank.
    pub closed spec fn after_cpu_write(self, addr: u16, data: u8) -> Self {
        Self { chr_bank_selector: data % 4, ..self }
    }

    /// The CHR index of a PPU write of `addr`.
    pub closed spec fn ppu_write_target(self, addr: u16) -> Option<usize> {
        Some(self.ppu_target(addr))
    }

    /// A mapper for `prg_banks` banks of 16 KiB, with CHR bank 0 selected.
    pub fn new(prg_banks: u8, mirroring: Mirroring) -> (r: Self)
        ensures
            r == Self::spec_new(prg_banks, mirroring),
            r.spec_chr_selector() == 0,
            r.spec_prg_banks() == prg_banks,
            r.spec_mirroring() == mirroring,
    {
        Self { chr_bank_selector: 0, prg_banks, mirroring }
    }

    /// Maps a CPU read.
    pub fn cpu_map_read(&self, addr: u16) -> (r: CartridgeReadTarget)
        ensures
            r == self.cpu_target(addr),
    {
        let mask: u16 = if self.prg_banks > 1 {
            0x7fff
        } else {
            0x3fff
        };
        proof {
            crate::bits::lemma_word_bits(addr);
        }
        CartridgeReadTarget::PrgRom((addr & mask) as usize)
    }

    /// Any write selects the CHR bank from its two low bits.
    pub fn cpu_map_write(&mut self, addr: u16, data: u8)
        ensures
            *final(self) == old(self).after_cpu_write(addr, data),
            final(self).spec_chr_selector() == data % 4,
            final(self).spec_prg_banks() == old(self).spec_prg_banks(),
            final(self).spec_mirroring() == old(self).spec_mirroring(),
    {
        self.chr_bank_selector = data % 4;
    }

    /// Maps a PPU read.
    pub fn ppu_map_read(&mut self, addr: u16) -> (r: usize)
        ensures
            r == old(self).ppu_target(addr),
            *final(self) == *old(self),
    {
        (self.chr_bank_selector as usize) * 0x2000 + (addr % 0x2000) as usize
    }

    /// Maps a PPU write, in the same bank as reads.
    pub fn ppu_map_write(&self, addr: u16) -> (r: Option<usize>)
        ensures
            r == self.ppu_write_target(addr),
    {
        Some((self.chr_bank_selector as usize) * 0x2000 + (addr % 0x2000) as usize)
    }

    /// The mapper's nametable arrangement.
    pub fn mirroring(&self) -> (r: Mirroring)
        ensures
            r == self.spec_mirroring(),
    {
        self.mirroring
    }

    /// The 16 KiB bank seen at `addr`.
    pub fn get_prg_bank(&self, addr: u16) -> (r: Option<u8>)
        ensures
            r == self.prg_bank_at(addr),
    {
        if 0x8000 <= addr && addr <= 0xBFFF {
            Some(0)
        } else if 0xC000 <= addr {
            Some(1)
        } else {
            None
        }
    }
}

} // verus!
