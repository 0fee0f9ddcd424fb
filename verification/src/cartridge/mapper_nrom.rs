//! NROM as a bare address mapping: the PRG window folds onto 16 or 32 KiB, and CHR
//! is read as is and never written.
use vstd::prelude::*;

verus! {

/// NROM address mapping for `prg_banks` banks of 16 KiB.
pub struct NRom {
    prg_banks: u8,
}

impl NRom {
    /// Number of 16 KiB PRG banks.
    pub closed spec fn spec_prg_banks(self) -> u8 {
        self.prg_banks
    }

    /// A mapping for `prg_banks` banks of 16 KiB.
    pub fn new(prg_banks: u8) -> (r: Self)
        ensures
            r.spec_prg_banks() == prg_banks,
    {
        Self { prg_banks }
    }

    /// The PRG offset of a CPU read of `addr`: the 32 KiB window with two or more banks,
    /// otherwise the single bank mirrored.
    pub fn cpu_map_read(&self, addr: u16) -> (r: u16)
        ensures
            r == (if self.spec_prg_banks() > 1 {
                addr % 0x8000
            } else {
                addr % 0x4000
            }),
    {
        let mask: u16 = if self.prg_banks > 1 {
            0x7fff
        } else {
            0x3fff
        };
        assert(addr & 0x7fff == addr % 0x8000) by (bit_vector);
        assert(addr & 0x3fff == addr % 0x4000) by (bit_vector);
        addr & mask
    }

    /// A CPU write reaches no PRG memory.
    pub fn cpu_map_write(&self, addr: u16) -> (r: Option<u16>)
        ensures
            r is None,
    {
        None
    }

    /// The CHR offset of a PPU read of `addr`: the address itself.
    pub fn ppu_map_read(&self, addr: u16) -> (r: u16)
        ensures
            r == addr,
    {
        addr
    }

    /// A PPU write reaches no CHR memory.
    pub fn ppu_map_write(&self, addr: u16) -> (r: Option<u16>)
        ensures
            r is None,
    {
        None
    }
}

} // verus!
