//! GxROM: a switchable 32 KiB PRG bank and a switchable 8 KiB CHR bank.
use vstd::prelude::*;

use super::{CartridgeReadTarget, Mirroring};

verus! {

/// Mapper 66 (GxROM).
pub struct Mapper066 {
    prg_bank_selector: u8,
    chr_bank_selector: u8,
    mirroring: Mirroring,
}

impl Mapper066 {
    /// The selected 32 KiB PRG bank (0..=3).
    pub closed spec fn spec_prg_selector(self) -> u8 {
        self.prg_bank_selector
    }

    /// The selected 8 KiB CHR bank (0..=3).
    pub closed spec fn spec_chr_selector(self) -> u8 {
        self.chr_bank_selector
    }

    /// Where a CPU read of `addr` lands.
    pub closed spec fn cpu_target(self, addr: u16) -> CartridgeReadTarget {
        CartridgeReadTarget::PrgRom(
            (self.prg_bank_selector as int * 0x8000 + addr as int % 0x8000) as usize,
        )
    }

    /// The CHR index of a PPU access to `addr`.
    pub closed spec fn ppu_target(self, addr: u16) -> usize {
        (self.chr_bank_selector as int * 0x2000 + addr as int) as usize
    }

    /// The mapper's nametable arrangement.
    pub closed spec fn spec_mirroring(self) -> Mirroring {
        self.mirroring
    }

    /// The 32 KiB bank seen at `addr`.
    pub closed spec fn prg_bank_at(self, addr: u16) -> Option<u8> {
        if 0x8000 <= addr {
            Some(self.prg_bank_selector)
        } else {
            None
        }
    }

    /// The power-on state.
    pub closed spec fn spec_new(mirroring: Mirroring) -> Self {
        Self { prg_bank_selector: 0, chr_bank_selector: 0, mirroring }
    }

    /// The state after a CPU write: any write selects both banks.
    pub closed spec fn after_cpu_write(self, addr: u16, data: u8) -> Self {
        Self { chr_bank_selector: data % 4, prg_bank_selector: (data / 16) % 4, ..self }
    }

    /// The CHR index of a PPU write of `addr`.
    pub closed spec fn ppu_write_target(self, addr: u16) -> Option<usize> {
        Some(self.ppu_target(addr))
    }

    /// Both banks at 0.
    pub fn new(mirroring: Mirroring) -> (r: Self)
        ensures
            r == Self::spec_new(mirroring),
            r.spec_prg_selector() == 0,
            r.spec_chr_selector() == 0,
            r.spec_mirroring() == mirroring,
    {
        Self { prg_bank_selector: 0, chr_bank_selector: 0, mirroring }
    }

    /// Maps a CPU read.
    pub fn cpu_map_read(&self, addr: u16) -> (r: CartridgeReadTarget)
        ensures
            r == self.cpu_target(addr),
    {
        CartridgeReadTarget::PrgRom(
            (self.prg_bank_selector as usize) * 0x8000 + (addr % 0x8000) as usize,
        )
    }

    /// Any write selects the CHR bank (bits 0..=1) and the PRG bank (bits 4..=5).
    pub fn cpu_map_write(&mut self, addr: u16, data: u8)
        ensures
            *final(self) == old(self).after_cpu_write(addr, data),
            final(self).spec_chr_selector() == data % 4,
            final(self).spec_prg_selector() == (data / 16) % 4,
            final(self).spec_mirroring() == old(self).spec_mirroring(),
    {
        proof {
            crate::bits::lemma_byte_bits(data);
        }
        self.chr_bank_selector = data & 0x03;
        self.prg_bank_selector = (data & 0x30) >> 4u8;
    }

    /// Maps a PPU read.
    pub fn ppu_map_read(&mut self, addr: u16) -> (r: usize)
        ensures
            r == old(self).ppu_target(addr),
            *final(self) == *old(self),
    {
        (self.chr_bank_selector as usize) * 0x2000 + addr as usize
    }

    /// Maps a PPU write, in the same bank as reads.
    pub fn ppu_map_write(&self, addr: u16) -> (r: Option<usize>)
        ensures
            r == self.ppu_write_target(addr),
    {
        Some((self.chr_bank_selector as usize) * 0x2000 + addr as usize)
    }

    /// The mapper's nametable arrangement.
    pub fn mirroring(&self) -> (r: Mirroring)
        ensures
            r == self.spec_mirroring(),
    {
        self.mirroring
    }

    /// The 32 KiB bank seen at `addr`.
    pub fn get_prg_bank(&self, addr: u16) -> (r: Option<u8>)
        ensures
            r == self.prg_bank_at(addr),
    {
        if 0x8000 <= addr {
            Some(self.prg_bank_selector)
        } else {
            None
        }
    }
}

} // verus!
