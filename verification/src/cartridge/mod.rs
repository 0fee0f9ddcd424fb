//! Game cartridges: the iNES header, PRG/CHR memories and the bank-switching mappers.
pub mod mapper_000;
pub mod mapper_001;
pub mod mapper_002;
pub mod mapper_003;
pub mod mapper_004;
pub mod mapper_007;
pub mod mapper_066;
pub mod mapper_nrom;

use vstd::prelude::*;

use self::mapper_000::Mapper000;
use self::mapper_001::{Mapper001, Mapper001State};
use self::mapper_002::Mapper002;
use self::mapper_003::Mapper003;
use self::mapper_004::{Mapper004, Mapper004State};
use self::mapper_007::Mapper007;
use self::mapper_066::Mapper066;

verus! {

/// How the four logical nametables are backed by VRAM.
#[derive(Clone, Copy, Debug, PartialEq, Eq, Structural)]
pub enum Mirroring {
    Horizontal,
    Vertical,
    FourScreen,
    OneScreenLower,
    OneScreenUpper,
}

/// Why a ROM image was refused.
#[derive(Clone, Copy, Debug, PartialEq, Eq, Structural)]
pub enum RomParserError {
    /// The image is shorter than its header, or than the banks its header announces.
    TooShort,
    /// The image does not start with `NES\x1A`.
    InvalidMagicBytes,
    /// The header names a mapper this emulator does not implement.
    MapperNotImplemented,
}

/// Where a CPU read of cartridge space is served from.
#[derive(Clone, Copy, Debug, PartialEq, Eq, Structural)]
pub enum CartridgeReadTarget {
    /// A byte of the mapper's work RAM, already read.
    PrgRam(u8),
    /// An index into PRG ROM.
    PrgRom(usize),
}

/// The four magic bytes `NES\x1A`.
pub open spec fn magic_bytes() -> Seq<u8> {
    seq![0x4eu8, 0x45u8, 0x53u8, 0x1au8]
}

/// Flags 6: mirroring (bit 0).
pub const FLAGS6_MIRRORING: u8 = 0x01;
/// Flags 6: battery-backed PRG RAM (bit 1).
pub const FLAGS6_PRG_RAM: u8 = 0x02;
/// Flags 6: a 512-byte trainer precedes PRG ROM (bit 2).
pub const FLAGS6_TRAINER: u8 = 0x04;
/// Flags 6: four-screen VRAM, which overrides the mirroring bit (bit 3).
pub const FLAGS6_FOUR_SCREEN: u8 = 0x08;

/// The 16-byte iNES header.
#[derive(Clone, Copy, Debug, PartialEq, Eq, Structural)]
pub struct INesHeader {
    pub mapper_id: u8,
    /// PRG ROM size in 16 KiB banks.
    pub prg_size: u8,
    /// CHR ROM size in 8 KiB banks (0 means the cartridge has 8 KiB of CHR RAM).
    pub chr_size: u8,
    /// Byte 6, its four known flag bits.
    pub flags6: u8,
    /// Byte 7, its four known flag bits.
    pub flags7: u8,
    /// Byte 8, the PRG RAM size.
    pub flags8: u8,
    /// Byte 9, its TV system bit.
    pub flags9: u8,
    /// Byte 10, its four known flag bits.
    pub flags10: u8,
}

/// The header read from `data`, or why it cannot be read.
pub open spec fn parse_header(data: Seq<u8>) -> Result<INesHeader, RomParserError> {
    if data.len() < 16 {
        Err(RomParserError::TooShort)
    } else if data.subrange(0, 4) != magic_bytes() {
        Err(RomParserError::InvalidMagicBytes)
    } else {
        Ok(
            INesHeader {
                mapper_id: (data[6] as int / 16 + (data[7] as int / 16) * 16) as u8,
                prg_size: data[4],
                chr_size: data[5],
                flags6: (data[6] as int % 16) as u8,
                flags7: (data[7] as int % 16) as u8,
                flags8: data[8],
                flags9: (data[9] as int % 2) as u8,
                flags10: (data[10] as int % 4 + (data[10] as int / 16 % 4) * 16) as u8,
            },
        )
    }
}

impl INesHeader {
    /// Reads the header at the start of `data`.
    pub fn try_from(data: &[u8]) -> (r: Result<INesHeader, RomParserError>)
        ensures
            r == parse_header(data@),
    {
        if data.len() < 16 {
            return Err(RomParserError::TooShort);
        }
        if data[0] != 0x4e || data[1] != 0x45 || data[2] != 0x53 || data[3] != 0x1a {
            assert(data@.subrange(0, 4) != magic_bytes()) by {
                if data@.subrange(0, 4) == magic_bytes() {
                    assert(data@.subrange(0, 4)[0] == data@[0]);
                    assert(data@.subrange(0, 4)[1] == data@[1]);
                    assert(data@.subrange(0, 4)[2] == data@[2]);
                    assert(data@.subrange(0, 4)[3] == data@[3]);
                }
            }
            return Err(RomParserError::InvalidMagicBytes);
        }
        assert(data@.subrange(0, 4) =~= magic_bytes());
        let d6 = data[6];
        let d7 = data[7];
        let d10 = data[10];
        let d9 = data[9];
        proof {
            assert((d6 >> 4u8) | (d7 & 0xf0) == d6 / 16 + (d7 / 16) * 16) by (bit_vector);
            crate::bits::lemma_byte_bits(d6);
            crate::bits::lemma_byte_bits(d7);
            crate::bits::lemma_byte_bits(d9);
            crate::bits::lemma_byte_bits(d10);
        }
        Ok(
            INesHeader {
                mapper_id: (d6 >> 4u8) | (d7 & 0xf0),
                prg_size: data[4],
                chr_size: data[5],
                flags6: d6 & 0x0f,
                flags7: d7 & 0x0f,
                flags8: data[8],
                flags9: d9 & 0x01,
                flags10: d10 & 0x33,
            },
        )
    }
}

/// The mirroring announced by a header: four-screen, else vertical when bit 0 is set,
/// else horizontal.
pub open spec fn header_mirroring(h: INesHeader) -> Mirroring {
    if (h.flags6 as int / 8) % 2 == 1 {
        Mirroring::FourScreen
    } else if h.flags6 as int % 2 == 1 {
        Mirroring::Vertical
    } else {
        Mirroring::Horizontal
    }
}

/// A header whose PRG bank count its mapper can work with: mappers 1 and 2 need at
/// least one bank, mapper 4 between 1 and 127.
pub open spec fn header_banks_ok(h: INesHeader) -> bool {
    &&& (h.mapper_id == 1 || h.mapper_id == 2) ==> h.prg_size >= 1
    &&& h.mapper_id == 4 ==> 1 <= h.prg_size <= 127
}

/// A ROM image on which loading does not need banks its mapper cannot handle.
pub open spec fn rom_banks_ok(rom: Seq<u8>) -> bool {
    match parse_header(rom) {
        Ok(h) => header_banks_ok(h),
        Err(_) => true,
    }
}

/// Size of a PRG ROM bank.
pub const PRG_BANK_SIZE: usize = 16384;
/// Size of a CHR ROM bank.
pub const CHR_BANK_SIZE: usize = 8192;

/// Offset of PRG ROM in the image: after the header, and after the trainer if any.
pub open spec fn prg_start(h: INesHeader) -> int {
    if (h.flags6 as int / 4) % 2 == 1 {
        528int
    } else {
        16int
    }
}

/// The mapper selected by a header, in its power-on state.
pub enum MapperKind {
    Nrom(Mapper000),
    Mmc1(Mapper001),
    Uxrom(Mapper002),
    Cnrom(Mapper003),
    Mmc3(Mapper004),
    Axrom(Mapper007),
    Gxrom(Mapper066),
}

/// A mapper's state, as the contracts see it.
pub enum MapperState {
    Nrom(Mapper000),
    Mmc1(Mapper001State),
    Uxrom(Mapper002),
    Cnrom(Mapper003),
    Mmc3(Mapper004State),
    Axrom(Mapper007),
    Gxrom(Mapper066),
}

impl View for MapperKind {
    type V = MapperState;

    open spec fn view(&self) -> MapperState {
        match self {
            MapperKind::Nrom(m) => MapperState::Nrom(*m),
            MapperKind::Mmc1(m) => MapperState::Mmc1(m@),
            MapperKind::Uxrom(m) => MapperState::Uxrom(*m),
            MapperKind::Cnrom(m) => MapperState::Cnrom(*m),
            MapperKind::Mmc3(m) => MapperState::Mmc3(m@),
            MapperKind::Axrom(m) => MapperState::Axrom(*m),
            MapperKind::Gxrom(m) => MapperState::Gxrom(*m),
        }
    }
}

impl MapperState {
    /// The power-on mapper for a header, if it is implemented.
    pub open spec fn initial(h: INesHeader) -> Option<MapperState> {
        let mirroring = header_mirroring(h);
        if h.mapper_id == 0 {
            Some(MapperState::Nrom(Mapper000::spec_new(h.prg_size, mirroring)))
        } else if h.mapper_id == 1 {
            Some(MapperState::Mmc1(Mapper001State::initial(h.prg_size)))
        } else if h.mapper_id == 2 {
            Some(MapperState::Uxrom(Mapper002::spec_new(h.prg_size, mirroring)))
        } else if h.mapper_id == 3 {
            Some(MapperState::Cnrom(Mapper003::spec_new(h.prg_size, mirroring)))
        } else if h.mapper_id == 4 {
            Some(MapperState::Mmc3(Mapper004State::initial(h.prg_size, mirroring)))
        } else if h.mapper_id == 7 {
            Some(MapperState::Axrom(Mapper007::spec_new()))
        } else if h.mapper_id == 66 {
            Some(MapperState::Gxrom(Mapper066::spec_new(mirroring)))
        } else {
            None
        }
    }

    /// Where a CPU read of `addr` lands.
    pub open spec fn cpu_target(self, addr: u16) -> CartridgeReadTarget {
        match self {
            MapperState::Nrom(m) => m.cpu_target(addr),
            MapperState::Mmc1(m) => m.cpu_target(addr),
            MapperState::Uxrom(m) => m.cpu_target(addr),
            MapperState::Cnrom(m) => m.cpu_target(addr),
            MapperState::Mmc3(m) => m.cpu_target(addr),
            MapperState::Axrom(m) => m.cpu_target(addr),
            MapperState::Gxrom(m) => m.cpu_target(addr),
        }
    }

    /// The mapper after a CPU write.
    pub open spec fn after_cpu_write(self, addr: u16, data: u8) -> MapperState {
        match self {
            MapperState::Nrom(m) => MapperState::Nrom(m.after_cpu_write(addr, data)),
            MapperState::Mmc1(m) => MapperState::Mmc1(m.after_cpu_write(addr, data)),
            MapperState::Uxrom(m) => MapperState::Uxrom(m.after_cpu_write(addr, data)),
            MapperState::Cnrom(m) => MapperState::Cnrom(m.after_cpu_write(addr, data)),
            MapperState::Mmc3(m) => MapperState::Mmc3(m.after_cpu_write(addr, data)),
            MapperState::Axrom(m) => MapperState::Axrom(m.after_cpu_write(addr, data)),
            MapperState::Gxrom(m) => MapperState::Gxrom(m.after_cpu_write(addr, data)),
        }
    }

    /// The CHR index a PPU read of `addr` lands on.
    pub open spec fn ppu_target(self, addr: u16) -> usize {
        match self {
            MapperState::Nrom(m) => m.ppu_target(addr),
            MapperState::Mmc1(m) => m.ppu_target(addr),
            MapperState::Uxrom(m) => m.ppu_target(addr),
            MapperState::Cnrom(m) => m.ppu_target(addr),
            MapperState::Mmc3(m) => m.ppu_target(addr),
            MapperState::Axrom(m) => m.ppu_target(addr),
            MapperState::Gxrom(m) => m.ppu_target(addr),
        }
    }

    /// The mapper after a PPU read of `addr` (only MMC3 watches these).
    pub open spec fn after_ppu_read(self, addr: u16) -> MapperState {
        match self {
            MapperState::Mmc3(m) => MapperState::Mmc3(m.after_ppu_read(addr)),
            _ => self,
        }
    }

    /// The CHR index a PPU write of `addr` lands on, if CHR is writable.
    pub open spec fn ppu_write_target(self, addr: u16) -> Option<usize> {
        match self {
            MapperState::Nrom(m) => m.ppu_write_target(addr),
            MapperState::Mmc1(m) => Some(m.ppu_write_target(addr)),
            MapperState::Uxrom(m) => m.ppu_write_target(addr),
            MapperState::Cnrom(m) => m.ppu_write_target(addr),
            MapperState::Mmc3(m) => None,
            MapperState::Axrom(m) => m.ppu_write_target(addr),
            MapperState::Gxrom(m) => m.ppu_write_target(addr),
        }
    }

    /// The current nametable arrangement.
    pub open spec fn mirroring(self) -> Mirroring {
        match self {
            MapperState::Nrom(m) => m.spec_mirroring(),
            MapperState::Mmc1(m) => m.mirroring(),
            MapperState::Uxrom(m) => m.spec_mirroring(),
            MapperState::Cnrom(m) => m.spec_mirroring(),
            MapperState::Mmc3(m) => m.mirroring,
            MapperState::Axrom(m) => m.spec_mirroring(),
            MapperState::Gxrom(m) => m.spec_mirroring(),
        }
    }

    /// Whether the mapper raises an IRQ.
    pub open spec fn irq(self) -> bool {
        match self {
            MapperState::Mmc3(m) => m.irq_active,
            _ => false,
        }
    }

    /// The mapper with its IRQ acknowledged.
    pub open spec fn irq_cleared(self) -> MapperState {
        match self {
            MapperState::Mmc3(m) => MapperState::Mmc3(Mapper004State { irq_active: false, ..m }),
            _ => self,
        }
    }

    /// The battery-backed RAM, for the mappers that have one.
    pub open spec fn sram(self) -> Option<Seq<u8>> {
        match self {
            MapperState::Mmc1(m) => Some(m.ram),
            MapperState::Mmc3(m) => Some(m.ram),
            _ => None,
        }
    }

    /// The mapper with saved RAM `save` loaded over the start of its work RAM.
    pub open spec fn with_save(self, save: Seq<u8>) -> MapperState {
        match self {
            MapperState::Mmc1(m) => MapperState::Mmc1(
                Mapper001State {
                    ram: Seq::new(
                        0x8000,
                        |i: int|
                            if i < save.len() {
                                save[i]
                            } else {
                                m.ram[i]
                            },
                    ),
                    ..m
                },
            ),
            MapperState::Mmc3(m) => MapperState::Mmc3(
                Mapper004State {
                    ram: Seq::new(
                        0x2000,
                        |i: int|
                            if i < save.len() {
                                save[i]
                            } else {
                                m.ram[i]
                            },
                    ),
                    ..m
                },
            ),
            _ => self,
        }
    }

    /// The PRG bank seen at `addr`, for the debugger.
    pub open spec fn prg_bank_at(self, addr: u16) -> Option<u8> {
        match self {
            MapperState::Nrom(m) => m.prg_bank_at(addr),
            MapperState::Mmc1(m) => m.prg_bank_at(addr),
            MapperState::Uxrom(m) => m.prg_bank_at(addr),
            MapperState::Cnrom(m) => m.prg_bank_at(addr),
            MapperState::Mmc3(m) => m.prg_bank_at(addr),
            MapperState::Axrom(m) => m.prg_bank_at(addr),
            MapperState::Gxrom(m) => m.prg_bank_at(addr),
        }
    }
}

/// A cartridge: header, PRG ROM (used by the CPU), CHR memory (used by the PPU) and the
/// mapper that switches banks.
pub struct Cartridge {
    header: INesHeader,
    prg_memory: Vec<u8>,
    chr_memory: Vec<u8>,
    mapper: MapperKind,
}

/// A cartridge as the contracts see it.
pub struct CartridgeState {
    pub header: INesHeader,
    pub prg: Seq<u8>,
    pub chr: Seq<u8>,
    pub mapper: MapperState,
}

impl View for Cartridge {
    type V = CartridgeState;

    closed spec fn view(&self) -> CartridgeState {
        CartridgeState {
            header: self.header,
            prg: self.prg_memory@,
            chr: self.chr_memory@,
            mapper: self.mapper@,
        }
    }
}

/// The byte a PRG ROM index reads; indices past the end of PRG ROM read 0.
pub open spec fn rom_byte(mem: Seq<u8>, i: usize) -> u8 {
    if i < mem.len() {
        mem[i as int]
    } else {
        0
    }
}

impl CartridgeState {
    /// The byte a CPU read of `addr` returns.
    pub open spec fn prg_read(self, addr: u16) -> u8 {
        match self.mapper.cpu_target(addr) {
            CartridgeReadTarget::PrgRam(d) => d,
            CartridgeReadTarget::PrgRom(i) => rom_byte(self.prg, i),
        }
    }

    /// The cartridge after a CPU write.
    pub open spec fn after_prg_write(self, addr: u16, data: u8) -> CartridgeState {
        CartridgeState { mapper: self.mapper.after_cpu_write(addr, data), ..self }
    }

    /// The byte a PPU read of `addr` returns.
    pub open spec fn chr_read(self, addr: u16) -> u8 {
        rom_byte(self.chr, self.mapper.ppu_target(addr))
    }

    /// The cartridge after a PPU read of `addr`.
    pub open spec fn after_chr_read(self, addr: u16) -> CartridgeState {
        CartridgeState { mapper: self.mapper.after_ppu_read(addr), ..self }
    }

    /// The cartridge after a PPU write; writes the mapper refuses, or past the end of CHR
    /// memory, change nothing.
    pub open spec fn after_chr_write(self, addr: u16, data: u8) -> CartridgeState {
        match self.mapper.ppu_write_target(addr) {
            Some(i) => if i < self.chr.len() {
                CartridgeState { chr: self.chr.update(i as int, data), ..self }
            } else {
                self
            },
            None => self,
        }
    }

    /// The state right after loading `rom`, with `save` over the work RAM.
    pub open spec fn loaded(rom: Seq<u8>, save: Option<Seq<u8>>) -> Result<
        CartridgeState,
        RomParserError,
    > {
        match parse_header(rom) {
            Err(e) => Err(e),
            Ok(h) => {
                match MapperState::initial(h) {
                    None => Err(RomParserError::MapperNotImplemented),
                    Some(m) => {
                        let start = prg_start(h);
                        let prg_len = PRG_BANK_SIZE * h.prg_size;
                        let chr_len = CHR_BANK_SIZE * h.chr_size;
                        if rom.len() < start + prg_len + chr_len {
                            Err(RomParserError::TooShort)
                        } else {
                            Ok(
                                CartridgeState {
                                    header: h,
                                    prg: rom.subrange(start, start + prg_len),
                                    chr: if h.chr_size == 0 {
                                        Seq::new(CHR_BANK_SIZE as nat, |i: int| 0u8)
                                    } else {
                                        rom.subrange(start + prg_len, start + prg_len + chr_len)
                                    },
                                    mapper: match save {
                                        Some(s) => m.with_save(s),
                                        None => m,
                                    },
                                },
                            )
                        }
                    },
                }
            },
        }
    }
}

/// Copies `rom[start..start + len]`.
fn copy_range(rom: &[u8], start: usize, len: usize) -> (r: Vec<u8>)
    requires
        start + len <= rom@.len(),
    ensures
        r@ == rom@.subrange(start as int, start + len),
{
    let mut v: Vec<u8> = Vec::with_capacity(len);
    let mut i: usize = 0;
    while i < len
        invariant
            start + len <= rom@.len(),
            rom@.len() == rom.len(),
            i <= len,
            v@ == rom@.subrange(start as int, start + i),
        decreases len - i,
    {
        v.push(rom[start + i]);
        i = i + 1;
        assert(v@ =~= rom@.subrange(start as int, start + i));
    }
    v
}

impl Cartridge {
    /// Parses an iNES image and builds the cartridge it describes; `save_data`, if
    /// given, is loaded over the start of the mapper's work RAM.
    pub fn load(rom: &[u8], save_data: Option<&[u8]>) -> (r: Result<Cartridge, RomParserError>)
        requires
            rom_banks_ok(rom@),
        ensures
            match (r, CartridgeState::loaded(
                rom@,
                match save_data {
                    Some(s) => Some(s@),
                    None => None,
                },
            )) {
                (Ok(c), Ok(s)) => c@ == s,
                (Err(e), Err(f)) => e == f,
                _ => false,
            },
    {
        let header = match INesHeader::try_from(rom) {
            Ok(h) => h,
            Err(e) => return Err(e),
        };
        proof {
            let f = header.flags6;
            assert((f & FLAGS6_FOUR_SCREEN) != 0 <==> (f / 8) % 2 == 1) by {
                crate::bits::lemma_byte_bits(f);
            }
            assert((f & FLAGS6_MIRRORING) != 0 <==> f % 2 == 1) by {
                crate::bits::lemma_byte_bits(f);
            }
            assert((f & FLAGS6_TRAINER) != 0 <==> (f / 4) % 2 == 1) by {
                crate::bits::lemma_byte_bits(f);
            }
        }
        let mirroring = if (header.flags6 & FLAGS6_FOUR_SCREEN) != 0 {
            Mirroring::FourScreen
        } else if (header.flags6 & FLAGS6_MIRRORING) != 0 {
            Mirroring::Vertical
        } else {
            Mirroring::Horizontal
        };
        let mut mapper = if header.mapper_id == 0 {
            MapperKind::Nrom(Mapper000::new(header.prg_size, mirroring))
        } else if header.mapper_id == 1 {
            MapperKind::Mmc1(Mapper001::new(header.prg_size))
        } else if header.mapper_id == 2 {
            MapperKind::Uxrom(Mapper002::new(header.prg_size, mirroring))
        } else if header.mapper_id == 3 {
            MapperKind::Cnrom(Mapper003::new(header.prg_size, mirroring))
        } else if header.mapper_id == 4 {
            MapperKind::Mmc3(Mapper004::new(header.prg_size, mirroring))
        } else if header.mapper_id == 7 {
            MapperKind::Axrom(Mapper007::new())
        } else if header.mapper_id == 66 {
            MapperKind::Gxrom(Mapper066::new(mirroring))
        } else {
            return Err(RomParserError::MapperNotImplemented);
        };
        let start: usize = if (header.flags6 & FLAGS6_TRAINER) != 0 {
            528
        } else {
            16
        };
        let prg_len = PRG_BANK_SIZE * (header.prg_size as usize);
        let chr_len = CHR_BANK_SIZE * (header.chr_size as usize);
        if rom.len() < start + prg_len + chr_len {
            return Err(RomParserError::TooShort);
        }
        let prg_memory = copy_range(rom, start, prg_len);
        let chr_memory = if header.chr_size == 0 {
            let z = vec![0u8; CHR_BANK_SIZE];
            assert(z@ =~= Seq::new(CHR_BANK_SIZE as nat, |i: int| 0u8));
            z
        } else {
            copy_range(rom, start + prg_len, chr_len)
        };
        if let Some(save) = save_data {
            match &mut mapper {
                MapperKind::Mmc1(m) => m.load_sram(save),
                MapperKind::Mmc3(m) => m.load_sram(save),
                _ => {},
            }
        }
        Ok(Cartridge { header, prg_memory, chr_memory, mapper })
    }

    /// The header the cartridge was loaded with.
    pub fn header(&self) -> (r: INesHeader)
        ensures
            r == self@.header,
    {
        self.header
    }

    /// The current nametable arrangement, as the mapper sets it.
    pub fn mirroring(&self) -> (r: Mirroring)
        ensures
            r == self@.mapper.mirroring(),
    {
        match &self.mapper {
            MapperKind::Nrom(m) => m.mirroring(),
            MapperKind::Mmc1(m) => m.mirroring(),
            MapperKind::Uxrom(m) => m.mirroring(),
            MapperKind::Cnrom(m) => m.mirroring(),
            MapperKind::Mmc3(m) => m.mirroring(),
            MapperKind::Axrom(m) => m.mirroring(),
            MapperKind::Gxrom(m) => m.mirroring(),
        }
    }

    /// A CPU read of cartridge space.
    pub fn read_prg_mem(&self, addr: u16) -> (r: u8)
        ensures
            r == self@.prg_read(addr),
    {
        let target = match &self.mapper {
            MapperKind::Nrom(m) => m.cpu_map_read(addr),
            MapperKind::Mmc1(m) => m.cpu_map_read(addr),
            MapperKind::Uxrom(m) => m.cpu_map_read(addr),
            MapperKind::Cnrom(m) => m.cpu_map_read(addr),
            MapperKind::Mmc3(m) => m.cpu_map_read(addr),
            MapperKind::Axrom(m) => m.cpu_map_read(addr),
            MapperKind::Gxrom(m) => m.cpu_map_read(addr),
        };
        match target {
            CartridgeReadTarget::PrgRom(i) => {
                if i < self.prg_memory.len() {
                    self.prg_memory[i]
                } else {
                    0
                }
            },
            CartridgeReadTarget::PrgRam(data) => data,
        }
    }

    /// A CPU write to cartridge space, which only the mapper sees.
    pub fn write_prg_mem(&mut self, addr: u16, data: u8)
        ensures
            final(self)@ == old(self)@.after_prg_write(addr, data),
    {
        match &mut self.mapper {
            MapperKind::Nrom(m) => m.cpu_map_write(addr, data),
            MapperKind::Mmc1(m) => m.cpu_map_write(addr, data),
            MapperKind::Uxrom(m) => m.cpu_map_write(addr, data),
            MapperKind::Cnrom(m) => m.cpu_map_write(addr, data),
            MapperKind::Mmc3(m) => m.cpu_map_write(addr, data),
            MapperKind::Axrom(m) => m.cpu_map_write(addr, data),
            MapperKind::Gxrom(m) => m.cpu_map_write(addr, data),
        }
    }

    /// A PPU read of pattern memory.
    pub fn read_chr_mem(&mut self, addr: u16) -> (r: u8)
        ensures
            r == old(self)@.chr_read(addr),
            final(self)@ == old(self)@.after_chr_read(addr),
    {
        let i = match &mut self.mapper {
            MapperKind::Nrom(m) => m.ppu_map_read(addr),
            MapperKind::Mmc1(m) => m.ppu_map_read(addr),
            MapperKind::Uxrom(m) => m.ppu_map_read(addr),
            MapperKind::Cnrom(m) => m.ppu_map_read(addr),
            MapperKind::Mmc3(m) => m.ppu_map_read(addr),
            MapperKind::Axrom(m) => m.ppu_map_read(addr),
            MapperKind::Gxrom(m) => m.ppu_map_read(addr),
        };
        if i < self.chr_memory.len() {
            self.chr_memory[i]
        } else {
            0
        }
    }

    /// A PPU write of pattern memory, if the mapper allows it.
    pub fn write_chr_mem(&mut self, addr: u16, data: u8)
        ensures
            final(self)@ == old(self)@.after_chr_write(addr, data),
    {
        let target = match &self.mapper {
            MapperKind::Nrom(m) => m.ppu_map_write(addr),
            MapperKind::Mmc1(m) => m.ppu_map_write(addr),
            MapperKind::Uxrom(m) => m.ppu_map_write(addr),
            MapperKind::Cnrom(m) => m.ppu_map_write(addr),
            MapperKind::Mmc3(m) => m.ppu_map_write(addr),
            MapperKind::Axrom(m) => m.ppu_map_write(addr),
            MapperKind::Gxrom(m) => m.ppu_map_write(addr),
        };
        if let Some(i) = target {
            if i < self.chr_memory.len() {
                self.chr_memory.set(i, data);
            }
        }
    }

    /// Returns whether the mapper raised an IRQ, and acknowledges it.
    pub fn take_irq_set_state(&mut self) -> (r: bool)
        ensures
            r == old(self)@.mapper.irq(),
            final(self)@ == (CartridgeState { mapper: old(self)@.mapper.irq_cleared(), ..old(self)@ }),
    {
        match &mut self.mapper {
            MapperKind::Mmc3(m) => {
                let state = m.irq_state();
                m.irq_clear();
                state
            },
            _ => false,
        }
    }

    /// The battery-backed RAM to persist, for the mappers that have one.
    pub fn get_save_data(&self) -> (r: Option<&[u8]>)
        ensures
            match (r, self@.mapper.sram()) {
                (Some(d), Some(s)) => d@ == s,
                (None, None) => true,
                _ => false,
            },
    {
        match &self.mapper {
            MapperKind::Mmc1(m) => Some(m.get_sram()),
            MapperKind::Mmc3(m) => Some(m.get_sram()),
            _ => None,
        }
    }

    /// The PRG bank seen at `addr`, for the debugger.
    pub fn get_prg_bank(&self, addr: u16) -> (r: Option<u8>)
        ensures
            r == self@.mapper.prg_bank_at(addr),
    {
        match &self.mapper {
            MapperKind::Nrom(m) => m.get_prg_bank(addr),
            MapperKind::Mmc1(m) => m.get_prg_bank(addr),
            MapperKind::Uxrom(m) => m.get_prg_bank(addr),
            MapperKind::Cnrom(m) => m.get_prg_bank(addr),
            MapperKind::Mmc3(m) => m.get_prg_bank(addr),
            MapperKind::Axrom(m) => m.get_prg_bank(addr),
            MapperKind::Gxrom(m) => m.get_prg_bank(addr),
        }
    }

    /// The PRG ROM contents.
    pub fn prg_memory(&self) -> (r: &[u8])
        ensures
            r@ == self@.prg,
    {
        self.prg_memory.as_slice()
    }
}

/// An image that does not start with `NES\x1A` is refused as such.
pub proof fn lemma_bad_magic_refused(rom: Seq<u8>, save: Option<Seq<u8>>)
    requires
        rom.len() >= 16,
        rom.subrange(0, 4) != magic_bytes(),
    ensures
        CartridgeState::loaded(rom, save) == Err::<CartridgeState, RomParserError>(
            RomParserError::InvalidMagicBytes,
        ),
{
}

/// Saved RAM given at load time is what the cartridge's battery RAM then holds, from its
/// first byte on.
pub proof fn lemma_save_roundtrip(rom: Seq<u8>, save: Seq<u8>)
    requires
        save.len() <= 0x2000,
    ensures
        CartridgeState::loaded(rom, Some(save)) matches Ok(c) ==> (c.mapper.sram() matches Some(
            ram,
        ) ==> forall|i: int| 0 <= i < save.len() ==> #[trigger] ram[i] == save[i]),
{
}

/// Whether loading `rom` stays clear of the bank counts its mapper cannot handle (see
/// [`rom_banks_ok`]); callers check it before [`Cartridge::load`].
pub fn rom_banks_supported(rom: &[u8]) -> (r: bool)
    ensures
        r == rom_banks_ok(rom@),
{
    match INesHeader::try_from(rom) {
        Ok(h) => {
            (h.mapper_id != 1 && h.mapper_id != 2 || h.prg_size >= 1) && (h.mapper_id != 4 || (1
                <= h.prg_size && h.prg_size <= 127))
        },
        Err(_) => true,
    }
}

} // verus!
