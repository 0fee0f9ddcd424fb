//! NROM: fixed PRG ROM (16 KiB mirrored, or 32 KiB), fixed CHR.
use vstd::prelude::*;

use super::{CartridgeReadTarget, Mirroring};

verus! {

/// Mapper 0 (NROM).
pub struct Mapper000 {
    prg_banks: u8,
    mirroring: Mirroring,
}

impl Mapper000 {
    /// Number of 16 KiB PRG banks.
    pub closed spec fn spec_prg_banks(self) -> u8 {
        self.prg_banks
    }

    /// Where a CPU read of `addr` lands: the 32 KiB window when there are two or more
    /// banks, otherwise the single 16 KiB bank mirrored.
    pub closed spec fn cpu_target(self, addr: u16) -> CartridgeReadTarget {
        if self.prg_banks > 1 {
            CartridgeReadTarget::PrgRom((addr as int % 0x8000) as usize)
        } else {
            CartridgeReadTarget::PrgRom((addr as int % 0x4000) as usize)
        }
    }

    /// The CHR index of a PPU read of `addr`.
    pub closed spec fn ppu_target(self, addr: u16) -> usize {
        addr as usize
    }

    /// The mapper's nametable arrangement.
    pub closed spec fn spec_mirroring(self) -> Mirroring {
        self.mirroring
    }

    /// The 16 KiB bank seen at `addr`.
    pub closed spec fn prg_bank_at(self, addr: u16) -> Option<u8> {
        if 0x8000 <= addr <= 0xBFFF {
            Some(0u8)
        } else if 0xC000 <= addr {
            Some(if self.prg_banks > 1 {
                1u8
            } else {
                0u8
            })
        } else {
            None
        }
    }

    /// The power-on state.
    pub closed spec fn spec_new(prg_banks: u8, mirroring: Mirroring) -> Self {
        Self { prg_banks, mirroring }
    }

    /// The state after a CPU write: NROM has no registers.
    pub closed spec fn after_cpu_write(self, addr: u16, data: u8) -> Self {
        self
    }

    /// The CHR index of a PPU write of `addr`, if CHR is writable.
    pub closed spec fn ppu_write_target(self, addr: u16) -> Option<usize> {
        None
    }

    /// A mapper for `prg_banks` banks of 16 KiB.
    pub fn new(prg_banks: u8, mirroring: Mirroring) -> (r: Self)
        ensures
            r == Self::spec_new(prg_banks, mirroring),
            r.spec_prg_banks() == prg_banks,
            r.spec_mirroring() == mirroring,
    {
        Self { prg_banks, mirroring }
    }

    /// Maps a CPU read.
    pub fn cpu_map_read(&self, addr: u16) -> (r: CartridgeReadTarget)
        ensures
            r == self.cpu_target(addr),
    {
        if self.prg_banks > 1 {
            CartridgeReadTarget::PrgRom((addr % 0x8000) as usize)
        } else {
            CartridgeReadTarget::PrgRom((addr % 0x4000) as usize)
        }
    }

    /// CPU writes are ignored: NROM has no registers.
    pub fn cpu_map_write(&mut self, addr: u16, data: u8)
        ensures
            *final(self) == old(self).after_cpu_write(addr, data),
    {
    }

    /// Maps a PPU read.
    pub fn ppu_map_read(&mut self, addr: u16) -> (r: usize)
        ensures
            r == old(self).ppu_target(addr),
            *final(self) == *old(self),
    {
        addr as usize
    }

    /// CHR is read-only.
    pub fn ppu_map_write(&self, addr: u16) -> (r: Option<usize>)
        ensures
            r == self.ppu_write_target(addr),
    {
        None
    }

    /// The mapper's nametable arrangement.
    pub fn mirroring(&self) -> (r: Mirroring)
        ensures
            r == self.spec_mirroring(),
    {
        self.mirroring
    }

    /// The 16 KiB bank seen at `addr`.
    pub fn get_prg_bank(&self, addr: u16) -> (r: Option<u8>)
        ensures
            r == self.prg_bank_at(addr),
    {
        if 0x8000 <= addr && addr <= 0xBFFF {
            Some(0)
        } else if 0xC000 <= addr {
            Some(
                if self.prg_banks > 1 {
                    1
                } else {
                    0
                },
            )
        } else {
            None
        }
    }
}

} // verus!
