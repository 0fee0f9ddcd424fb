//! UxROM: a switchable 16 KiB PRG bank at $8000 and the last bank fixed at $C000.
use vstd::prelude::*;

use super::{CartridgeReadTarget, Mirroring};

verus! {

/// Mapper 2 (UxROM).
pub struct Mapper002 {
    prg_bank_selector: u8,
    prg_banks: u8,
    mirroring: Mirroring,
}

impl Mapper002 {
    #[verifier::type_invariant]
    spec fn inv(self) -> bool {
        self.prg_banks >= 1
    }

    /// The bank selected for `$8000..=$BFFF`.
    pub closed spec fn spec_selector(self) -> u8 {
        self.prg_bank_selector
    }

    /// Number of 16 KiB PRG banks.
    pub closed spec fn spec_prg_banks(self) -> u8 {
        self.prg_banks
    }

    /// Where a CPU read of `addr` lands.
    pub closed spec fn cpu_target(self, addr: u16) -> CartridgeReadTarget {
        if 0x8000 <= addr <= 0xBFFF {
            CartridgeReadTarget::PrgRom(
                (self.prg_bank_selector as int * 0x4000 + addr as int % 0x4000) as usize,
            )
        } else {
            CartridgeReadTarget::PrgRom(
                ((self.prg_banks as int - 1) * 0x4000 + addr as int % 0x4000) as usize,
            )
        }
    }

    /// The mapper's nametable arrangement.
    pub closed spec fn spec_mirroring(self) -> Mirroring {
        self.mirroring
    }

    /// The 16 KiB bank seen at `addr`.
    pub closed spec fn prg_bank_at(self, addr: u16) -> Option<u8> {
        if 0x8000 <= addr <= 0xBFFF {
            Some(self.prg_bank_selector)
        } else if 0xC000 <= addr {
            Some((self.prg_banks - 1) as u8)
        } else {
            None
        }
    }

    /// The power-on state.
    pub closed spec fn spec_new(prg_banks: u8, mirroring: Mirroring) -> Self {
        Self { prg_bank_selector: 0, prg_banks, mirroring }
    }

    /// The state after a CPU write: any write at `$8000` or above selects the bank.
    pub closed spec fn after_cpu_write(self, addr: u16, data: u8) -> Self {
        if addr >= 0x8000 {
            Self { prg_bank_selector: data, ..self }
        } else {
            self
        }
    }

    /// The CHR index of a PPU read of `addr`.
    pub closed spec fn ppu_target(self, addr: u16) -> usize {
        addr as usize
    }

    /// The CHR index of a PPU write of `addr`.
    pub closed spec fn ppu_write_target(self, addr: u16) -> Option<usize> {
        Some(addr as usize)
    }

    /// A mapper for `prg_banks` banks of 16 KiB, with bank 0 selected.
    pub fn new(prg_banks: u8, mirroring: Mirroring) -> (r: Self)
        requires
            prg_banks >= 1,
        ensures
            r == Self::spec_new(prg_banks, mirroring),
            r.spec_selector() == 0,
            r.spec_prg_banks() == prg_banks,
            r.spec_mirroring() == mirroring,
    {
        Self { prg_bank_selector: 0, prg_banks, mirroring }
    }

    /// Maps a CPU read.
    pub fn cpu_map_read(&self, addr: u16) -> (r: CartridgeReadTarget)
        ensures
            r == self.cpu_target(addr),
    {
        proof {
            use_type_invariant(self);
        }
        if 0x8000 <= addr && addr <= 0xBFFF {
            CartridgeReadTarget::PrgRom(
                (self.prg_bank_selector as usize) * 0x4000 + (addr % 0x4000) as usize,
            )
        } else {
            CartridgeReadTarget::PrgRom(
                (self.prg_banks as usize - 1) * 0x4000 + (addr % 0x4000) as usize,
            )
        }
    }

    /// Any write at `$8000` or above selects the bank.
    pub fn cpu_map_write(&mut self, addr: u16, data: u8)
        ensures
            *final(self) == old(self).after_cpu_write(addr, data),
            addr >= 0x8000 ==> final(self).spec_selector() == data,
            addr < 0x8000 ==> final(self).spec_selector() == old(self).spec_selector(),
            final(self).spec_prg_banks() == old(self).spec_prg_banks(),
            final(self).spec_mirroring() == old(self).spec_mirroring(),
    {
        proof {
            use_type_invariant(&*self);
        }
        if addr >= 0x8000 {
            self.prg_bank_selector = data;
        }
    }

    /// CHR is not banked.
    pub fn ppu_map_read(&mut self, addr: u16) -> (r: usize)
        ensures
            r == old(self).ppu_target(addr),
            *final(self) == *old(self),
    {
        addr as usize
    }

    /// CHR is writable (CHR RAM), not banked.
    pub fn ppu_map_write(&self, addr: u16) -> (r: Option<usize>)
        ensures
            r == self.ppu_write_target(addr),
    {
        Some(addr as usize)
    }

    /// The mapper's nametable arrangement.
    pub fn mirroring(&self) -> (r: Mirroring)
        ensures
            r == self.spec_mirroring(),
    {
        self.mirroring
    }

    /// The 16 KiB bank seen at `addr`.
    pub fn get_prg_bank(&self, addr: u16) -> (r: Option<u8>)
        ensures
            r == self.prg_bank_at(addr),
    {
        proof {
            use_type_invariant(self);
        }
        if 0x8000 <= addr && addr <= 0xBFFF {
            Some(self.prg_bank_selector)
        } else if 0xC000 <= addr {
            Some(self.prg_banks - 1)
        } else {
            None
        }
    }
}

/// The last bank stays at `$C000..=$FFFF` whatever the program writes, and the bank a
/// write selects is what `$8000..=$BFFF` then shows.
pub proof fn lemma_uxrom_banks(m: Mapper002, w: u16, data: u8, addr: u16)
    ensures
        addr >= 0xC000 ==> m.after_cpu_write(w, data).cpu_target(addr) == m.cpu_target(addr),
        w >= 0x8000 && 0x8000 <= addr <= 0xBFFF ==> m.after_cpu_write(w, data).cpu_target(addr)
            == CartridgeReadTarget::PrgRom((data as int * 0x4000 + addr as int % 0x4000) as usize),
{
}

} // verus!
