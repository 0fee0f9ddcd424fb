//! The two buses: what the PPU sees (pattern memory and nametables) and what the CPU
//! sees (RAM, PPU registers, controllers and cartridge space).
use vstd::prelude::*;

use crate::cartridge::{Cartridge, CartridgeState, Mirroring};
use crate::ppu::Ppu;
use crate::RAM_SIZE;

verus! {

/// Size of the nametable VRAM, enough for four screens.
pub const NAME_TABLES_SIZE: usize = 1024 * 4;

/// The VRAM index backing a nametable address, for a given arrangement. Only the low 12
/// bits of the address matter.
///
/// Horizontal: `$2000`/`$2400` share the first kilobyte, `$2800`/`$2C00` the second.
/// Vertical: `$2000`/`$2800` share the first kilobyte, `$2400`/`$2C00` the second.
pub open spec fn name_table_index(addr: u16, m: Mirroring) -> int {
    let a = addr as int % 0x1000;
    match m {
        Mirroring::Horizontal => a % 0x400 + ((a / 0x800) % 2) * 0x400,
        Mirroring::Vertical => a % 0x800,
        Mirroring::FourScreen => a,
        Mirroring::OneScreenLower => a % 0x400,
        Mirroring::OneScreenUpper => a % 0x400 + 0x400,
    }
}

/// The PPU's bus: the cartridge's pattern memory and the nametable VRAM.
pub struct PpuBus {
    cartridge: Cartridge,
    name_tables: [u8; NAME_TABLES_SIZE],
}

/// The PPU bus as the contracts see it.
pub struct PpuBusState {
    pub cart: CartridgeState,
    pub name_tables: Seq<u8>,
}

impl View for PpuBus {
    type V = PpuBusState;

    closed spec fn view(&self) -> PpuBusState {
        PpuBusState { cart: self.cartridge@, name_tables: self.name_tables@ }
    }
}

impl PpuBusState {
    /// The byte a nametable read of `addr` returns.
    pub open spec fn name_table_read(self, addr: u16) -> u8 {
        self.name_tables[name_table_index(addr, self.cart.mapper.mirroring())]
    }

    /// The bus after a nametable write.
    pub open spec fn after_name_table_write(self, addr: u16, data: u8) -> PpuBusState {
        PpuBusState {
            name_tables: self.name_tables.update(
                name_table_index(addr, self.cart.mapper.mirroring()),
                data,
            ),
            ..self
        }
    }

    /// The byte a pattern memory read of `addr` returns.
    pub open spec fn chr_read(self, addr: u16) -> u8 {
        self.cart.chr_read(addr)
    }

    /// The bus after a pattern memory read.
    pub open spec fn after_chr_read(self, addr: u16) -> PpuBusState {
        PpuBusState { cart: self.cart.after_chr_read(addr), ..self }
    }

    /// The bus after a pattern memory write.
    pub open spec fn after_chr_write(self, addr: u16, data: u8) -> PpuBusState {
        PpuBusState { cart: self.cart.after_chr_write(addr, data), ..self }
    }
}

proof fn lemma_name_table_index_bound(addr: u16, m: Mirroring)
    ensures
        0 <= name_table_index(addr, m) < NAME_TABLES_SIZE,
{
}

impl PpuBus {
    /// A bus over `cartridge` with zeroed VRAM.
    pub fn new(cartridge: Cartridge) -> (r: Self)
        ensures
            r@.cart == cartridge@,
            r@.name_tables == Seq::new(NAME_TABLES_SIZE as nat, |i: int| 0u8),
    {
        let r = PpuBus { cartridge, name_tables: [0u8; NAME_TABLES_SIZE] };
        assert(r@.name_tables =~= Seq::new(NAME_TABLES_SIZE as nat, |i: int| 0u8));
        r
    }

    /// The cartridge.
    pub fn cartridge(&self) -> (r: &Cartridge)
        ensures
            r@ == self@.cart,
    {
        &self.cartridge
    }

    /// The cartridge, mutably.
    pub fn cartridge_mut(&mut self) -> (r: &mut Cartridge)
        ensures
            r@ == old(self)@.cart,
            final(self)@ == (PpuBusState { cart: final(r)@, ..old(self)@ }),
    {
        &mut self.cartridge
    }

    /// A raw VRAM byte, by index.
    pub fn vram(&self, i: usize) -> (r: u8)
        requires
            i < NAME_TABLES_SIZE,
        ensures
            r == self@.name_tables[i as int],
    {
        self.name_tables[i]
    }

    /// Overwrites a raw VRAM byte, by index.
    pub fn set_vram(&mut self, i: usize, data: u8)
        requires
            i < NAME_TABLES_SIZE,
        ensures
            final(self)@ == (PpuBusState {
                name_tables: old(self)@.name_tables.update(i as int, data),
                ..old(self)@
            }),
    {
        self.name_tables[i] = data;
        assert(self@.name_tables =~= old(self)@.name_tables.update(i as int, data));
    }

    /// The VRAM index a nametable address maps to under the cartridge's mirroring.
    fn name_table_addr(&self, addr: u16) -> (r: usize)
        ensures
            r == name_table_index(addr, self@.cart.mapper.mirroring()),
            r < NAME_TABLES_SIZE,
    {
        let a = addr % 0x1000;
        match self.cartridge.mirroring() {
            Mirroring::Horizontal => ((a % 0x400) + ((a / 0x800) % 2) * 0x400) as usize,
            Mirroring::Vertical => (a % 0x800) as usize,
            Mirroring::FourScreen => a as usize,
            Mirroring::OneScreenLower => (a % 0x400) as usize,
            Mirroring::OneScreenUpper => (a % 0x400 + 0x400) as usize,
        }
    }

    /// Reads a nametable byte.
    pub fn read_name_tables(&self, addr: u16) -> (r: u8)
        ensures
            r == self@.name_table_read(addr),
    {
        let i = self.name_table_addr(addr);
        self.name_tables[i]
    }

    /// Writes a nametable byte.
    pub fn write_name_tables(&mut self, addr: u16, data: u8)
        ensures
            final(self)@ == old(self)@.after_name_table_write(addr, data),
    {
        let i = self.name_table_addr(addr);
        self.name_tables[i] = data;
        assert(self@.name_tables =~= old(self)@.name_tables.update(i as int, data));
    }

    /// Reads a pattern memory byte through the mapper.
    pub fn read_chr_mem(&mut self, addr: u16) -> (r: u8)
        ensures
            r == old(self)@.chr_read(addr),
            final(self)@ == old(self)@.after_chr_read(addr),
    {
        self.cartridge.read_chr_mem(addr)
    }

    /// Writes a pattern memory byte through the mapper.
    pub fn write_chr_mem(&mut self, addr: u16, data: u8)
        ensures
            final(self)@ == old(self)@.after_chr_write(addr, data),
    {
        self.cartridge.write_chr_mem(addr, data)
    }
}


/// The CPU's bus: work RAM, the PPU's registers, the two controllers and, through the PPU
/// bus, the cartridge.
pub struct CpuBus {
    controller1: u8,
    controller2: u8,
    controller_state: bool,
    controller1_snapshot: u8,
    controller2_snapshot: u8,
    ram: [u8; 0x0800],
    ppu: Ppu,
    ppu_bus: PpuBus,
}

/// The CPU bus as the contracts see it.
pub struct CpuBusState {
    pub controller1: u8,
    pub controller2: u8,
    pub controller_state: bool,
    pub controller1_snapshot: u8,
    pub controller2_snapshot: u8,
    pub ram: Seq<u8>,
    pub ppu: Ppu,
    pub ppu_bus: PpuBusState,
}

impl View for CpuBus {
    type V = CpuBusState;

    closed spec fn view(&self) -> CpuBusState {
        CpuBusState {
            controller1: self.controller1,
            controller2: self.controller2,
            controller_state: self.controller_state,
            controller1_snapshot: self.controller1_snapshot,
            controller2_snapshot: self.controller2_snapshot,
            ram: self.ram@,
            ppu: self.ppu,
            ppu_bus: self.ppu_bus@,
        }
    }
}

impl CpuBusState {
    /// A bus over a cartridge in state `cart`: fresh PPU, zeroed RAM and name tables,
    /// idle controllers.
    pub open spec fn fresh(cart: CartridgeState) -> CpuBusState {
        CpuBusState {
            controller1: 0,
            controller2: 0,
            controller_state: false,
            controller1_snapshot: 0,
            controller2_snapshot: 0,
            ram: Seq::new(RAM_SIZE as nat, |i: int| 0u8),
            ppu: Ppu::initial(),
            ppu_bus: PpuBusState {
                cart,
                name_tables: Seq::new(NAME_TABLES_SIZE as nat, |i: int| 0u8),
            },
        }
    }

    /// The bus after one PPU dot over the PPU's bus ([`Ppu::spec_clock`]).
    pub open spec fn ppu_clocked(self) -> CpuBusState {
        let (p, b) = self.ppu.spec_clock(self.ppu_bus);
        CpuBusState { ppu: p, ppu_bus: b, ..self }
    }

    /// The bus with the PPU's pending NMI taken.
    pub open spec fn nmi_taken(self) -> CpuBusState {
        CpuBusState { ppu: self.ppu.nmi_taken(), ..self }
    }

    /// The bus with the cartridge's pending IRQ taken.
    pub open spec fn irq_taken(self) -> CpuBusState {
        CpuBusState {
            ppu_bus: PpuBusState {
                cart: CartridgeState { mapper: self.ppu_bus.cart.mapper.irq_cleared(), ..self.ppu_bus.cart },
                ..self.ppu_bus
            },
            ..self
        }
    }

    /// The well-formedness every reachable state keeps.
    pub open spec fn wf(self) -> bool {
        &&& self.ram.len() == RAM_SIZE
        &&& self.ppu.wf()
    }

    /// The byte a CPU read of `addr` returns, and the bus afterwards.
    ///
    /// `$0000..=$1FFF` is RAM mirrored every 2 KiB; `$2000..=$3FFF` the PPU registers;
    /// `$4016`/`$4017` read bit 0 of the controller snapshots and shift them left;
    /// the rest of `$4000..=$401F` reads 0; `$4020..` is cartridge space.
    pub closed spec fn read_result(self, addr: u16) -> (u8, CpuBusState) {
        if addr <= 0x1FFF {
            (self.ram[addr as int % 0x800], self)
        } else if addr <= 0x3FFF {
            let (v, p, b) = self.ppu.after_read(self.ppu_bus, addr);
            (v, CpuBusState { ppu: p, ppu_bus: b, ..self })
        } else if addr == 0x4016 {
            (
                self.controller1_snapshot % 2,
                CpuBusState {
                    controller1_snapshot: ((self.controller1_snapshot as int * 2) % 256) as u8,
                    ..self
                },
            )
        } else if addr == 0x4017 {
            (
                self.controller2_snapshot % 2,
                CpuBusState {
                    controller2_snapshot: ((self.controller2_snapshot as int * 2) % 256) as u8,
                    ..self
                },
            )
        } else if addr <= 0x401F {
            (0, self)
        } else {
            (self.ppu_bus.cart.prg_read(addr), self)
        }
    }

    /// The byte a CPU read of `addr` returns.
    pub open spec fn peek(self, addr: u16) -> u8 {
        self.read_result(addr).0
    }

    /// The bus after a CPU read of `addr`.
    pub open spec fn after_read(self, addr: u16) -> CpuBusState {
        self.read_result(addr).1
    }

    /// The bytes an OAM DMA from page `page` reads, from offset `i` on, and the bus
    /// afterwards.
    pub open spec fn dma_reads(self, page: u8, i: nat) -> (Seq<u8>, CpuBusState)
        decreases 256 - i,
    {
        if i >= 256 {
            (Seq::empty(), self)
        } else {
            let (v, next) = self.read_result((page as int * 256 + i) as u16);
            let (rest, last) = next.dma_reads(page, i + 1);
            (seq![v] + rest, last)
        }
    }

    /// The bus after latching the controllers when `data` sets the strobe bit.
    pub open spec fn after_strobe(self, data: u8, both: bool) -> CpuBusState {
        let strobe = data % 2 == 1;
        CpuBusState {
            controller_state: strobe,
            controller1_snapshot: if strobe && both {
                self.controller1
            } else {
                self.controller1_snapshot
            },
            controller2_snapshot: if strobe {
                self.controller2
            } else {
                self.controller2_snapshot
            },
            ..self
        }
    }

    /// The bus after a CPU write of `data` at `addr`.
    ///
    /// `$4014` copies the 256 bytes of page `data` into OAM; `$4016` strobes both
    /// controllers, `$4017` the second; other APU and I/O registers ignore writes.
    pub closed spec fn after_write(self, addr: u16, data: u8) -> CpuBusState {
        if addr <= 0x1FFF {
            CpuBusState { ram: self.ram.update(addr as int % 0x800, data), ..self }
        } else if addr <= 0x3FFF {
            let (p, b) = self.ppu.after_write(self.ppu_bus, addr, data);
            CpuBusState { ppu: p, ppu_bus: b, ..self }
        } else if addr == 0x4014 {
            let (bytes, read) = self.dma_reads(data, 0);
            CpuBusState { ppu: read.ppu.after_oam_dma(bytes), ..read }
        } else if addr == 0x4016 {
            self.after_strobe(data, true)
        } else if addr == 0x4017 {
            self.after_strobe(data, false)
        } else if addr <= 0x401F {
            self
        } else {
            CpuBusState {
                ppu_bus: PpuBusState {
                    cart: self.ppu_bus.cart.after_prg_write(addr, data),
                    ..self.ppu_bus
                },
                ..self
            }
        }
    }
}

proof fn lemma_dma_reads_wf(s: CpuBusState, page: u8, i: nat)
    requires
        s.wf(),
    ensures
        s.dma_reads(page, i).1.wf(),
        s.dma_reads(page, i).0.len() == if i >= 256 {
            0
        } else {
            256 - i
        },
    decreases 256 - i,
{
    if i < 256 {
        let next = s.read_result((page as int * 256 + i) as u16).1;
        lemma_read_result_wf(s, (page as int * 256 + i) as u16);
        lemma_dma_reads_wf(next, page, i + 1);
    }
}

/// Reads and writes keep the bus well formed.
pub proof fn lemma_read_result_wf(s: CpuBusState, addr: u16)
    requires
        s.wf(),
    ensures
        s.read_result(addr).1.wf(),
{
    if 0x2000 <= addr <= 0x3FFF {
        s.ppu.lemma_after_read_wf(s.ppu_bus, addr);
    }
}

impl CpuBus {
    /// A bus over `cartridge` with a fresh PPU, zeroed RAM and idle controllers.
    pub fn new(cartridge: Cartridge) -> (r: Self)
        ensures
            r@ == CpuBusState::fresh(cartridge@),
            r@.wf(),
            r@.controller1 == 0 && r@.controller2 == 0,
            r@.controller1_snapshot == 0 && r@.controller2_snapshot == 0,
            !r@.controller_state,
            r@.ram == Seq::new(RAM_SIZE as nat, |i: int| 0u8),
            r@.ppu == Ppu::initial(),
            r@.ppu_bus.cart == cartridge@,
            r@.ppu_bus.name_tables == Seq::new(NAME_TABLES_SIZE as nat, |i: int| 0u8),
    {
        let r = CpuBus {
            controller1: 0,
            controller2: 0,
            controller_state: false,
            controller1_snapshot: 0,
            controller2_snapshot: 0,
            ram: [0u8; 0x0800],
            ppu: Ppu::new(),
            ppu_bus: PpuBus::new(cartridge),
        };
        assert(r@.ram =~= Seq::new(RAM_SIZE as nat, |i: int| 0u8));
        r
    }

    /// The PPU.
    pub fn ppu(&self) -> (r: &Ppu)
        ensures
            *r == self@.ppu,
    {
        &self.ppu
    }

    /// The PPU bus.
    pub fn ppu_bus(&self) -> (r: &PpuBus)
        ensures
            r@ == self@.ppu_bus,
    {
        &self.ppu_bus
    }

    /// Sets the buttons held on the first controller (A in bit 7 down to Right in bit 0).
    pub fn set_controller1(&mut self, state: u8)
        ensures
            final(self)@ == (CpuBusState { controller1: state, ..old(self)@ }),
    {
        self.controller1 = state;
    }

    /// Sets the buttons held on the second controller.
    pub fn set_controller2(&mut self, state: u8)
        ensures
            final(self)@ == (CpuBusState { controller2: state, ..old(self)@ }),
    {
        self.controller2 = state;
    }

    /// Writes work RAM, mirrored every 2 KiB.
    pub fn write_ram(&mut self, addr: u16, data: u8)
        ensures
            final(self)@ == (CpuBusState {
                ram: old(self)@.ram.update(addr as int % 0x800, data),
                ..old(self)@
            }),
    {
        self.ram[(addr % RAM_SIZE) as usize] = data;
        assert(self@.ram =~= old(self)@.ram.update(addr as int % 0x800, data));
    }

    /// Reads work RAM, mirrored every 2 KiB.
    pub fn read_ram(&self, addr: u16) -> (r: u8)
        ensures
            r == self@.ram[addr as int % 0x800],
    {
        self.ram[(addr % RAM_SIZE) as usize]
    }

    /// Writes a PPU register.
    pub fn write_ppu_register(&mut self, addr: u16, data: u8)
        requires
            old(self)@.wf(),
        ensures
            final(self)@ == (CpuBusState {
                ppu: old(self)@.ppu.after_write(old(self)@.ppu_bus, addr, data).0,
                ppu_bus: old(self)@.ppu.after_write(old(self)@.ppu_bus, addr, data).1,
                ..old(self)@
            }),
            final(self)@.wf(),
    {
        self.ppu.write(&mut self.ppu_bus, addr, data);
    }

    /// Reads a PPU register.
    pub fn read_ppu_register(&mut self, addr: u16) -> (r: u8)
        requires
            old(self)@.wf(),
        ensures
            r == old(self)@.ppu.after_read(old(self)@.ppu_bus, addr).0,
            final(self)@ == (CpuBusState {
                ppu: old(self)@.ppu.after_read(old(self)@.ppu_bus, addr).1,
                ppu_bus: old(self)@.ppu.after_read(old(self)@.ppu_bus, addr).2,
                ..old(self)@
            }),
            final(self)@.wf(),
    {
        self.ppu.read(&mut self.ppu_bus, addr)
    }

    /// Latches the first controller's buttons.
    pub fn controller1_take_snapshot(&mut self)
        ensures
            final(self)@ == (CpuBusState {
                controller1_snapshot: old(self)@.controller1,
                ..old(self)@
            }),
    {
        self.controller1_snapshot = self.controller1;
    }

    /// Reads the first controller's snapshot: the read gives bit 0 of the snapshot (the
    /// mask `0x80 >> 7` is 1) and the snapshot moves one bit left.
    pub fn read_controller1_snapshot(&mut self) -> (r: u8)
        ensures
            r == old(self)@.controller1_snapshot % 2,
            final(self)@ == (CpuBusState {
                controller1_snapshot: ((old(self)@.controller1_snapshot as int * 2) % 256) as u8,
                ..old(self)@
            }),
    {
        let s = self.controller1_snapshot;
        proof {
            crate::bits::lemma_byte_bits(s);
        }
        let data = s & 0x01;
        self.controller1_snapshot = s << 1u8;
        data
    }

    /// Latches the second controller's buttons.
    pub fn controller2_take_snapshot(&mut self)
        ensures
            final(self)@ == (CpuBusState {
                controller2_snapshot: old(self)@.controller2,
                ..old(self)@
            }),
    {
        self.controller2_snapshot = self.controller2;
    }

    /// Reads the second controller's snapshot: the read gives bit 0 of the snapshot and
    /// the snapshot moves one bit left.
    pub fn read_controller2_snapshot(&mut self) -> (r: u8)
        ensures
            r == old(self)@.controller2_snapshot % 2,
            final(self)@ == (CpuBusState {
                controller2_snapshot: ((old(self)@.controller2_snapshot as int * 2) % 256) as u8,
                ..old(self)@
            }),
    {
        let s = self.controller2_snapshot;
        proof {
            crate::bits::lemma_byte_bits(s);
        }
        let data = s & 0x01;
        self.controller2_snapshot = s << 1u8;
        data
    }

    /// The strobe register at `$4016`: while bit 0 is set, both controllers are latched.
    fn controller1_write(&mut self, data: u8)
        ensures
            final(self)@ == old(self)@.after_strobe(data, true),
    {
        self.controller_state = data % 2 == 1;
        if self.controller_state {
            self.controller1_take_snapshot();
            self.controller2_take_snapshot();
        }
    }

    /// A strobe written at `$4017` latches the second controller only.
    fn controller2_write(&mut self, data: u8)
        ensures
            final(self)@ == old(self)@.after_strobe(data, false),
    {
        self.controller_state = data % 2 == 1;
        if self.controller_state {
            self.controller2_take_snapshot();
        }
    }

    /// Writes cartridge space.
    pub fn write_prg_mem(&mut self, addr: u16, data: u8)
        ensures
            final(self)@ == (CpuBusState {
                ppu_bus: PpuBusState {
                    cart: old(self)@.ppu_bus.cart.after_prg_write(addr, data),
                    ..old(self)@.ppu_bus
                },
                ..old(self)@
            }),
    {
        self.ppu_bus.cartridge.write_prg_mem(addr, data);
    }

    /// Clocks the PPU over its bus for one dot; see [`CpuBusState::ppu_clocked`] and
    /// [`Ppu::clocked`].
    pub fn clock_ppu(&mut self)
        requires
            old(self)@.wf(),
        ensures
            final(self)@ == old(self)@.ppu_clocked(),
            old(self)@.ppu.clocked(old(self)@.ppu_bus, final(self)@.ppu, final(self)@.ppu_bus),
            final(self)@.wf(),
    {
        self.ppu.clock(&mut self.ppu_bus);
    }

    /// Whether the PPU has an NMI pending; clears it.
    pub fn take_vblank_nmi(&mut self) -> (r: bool)
        requires
            old(self)@.wf(),
        ensures
            r == old(self)@.ppu.spec_nmi_pending(),
            final(self)@ == old(self)@.nmi_taken(),
            final(self)@.wf(),
    {
        let r = self.ppu.take_vblank_nmi_set_state();
        proof {
            old(self)@.ppu.lemma_nmi_taken_wf();
        }
        r
    }

    /// Whether the cartridge has an IRQ pending; clears it.
    pub fn take_irq(&mut self) -> (r: bool)
        requires
            old(self)@.wf(),
        ensures
            r == old(self)@.ppu_bus.cart.mapper.irq(),
            final(self)@ == old(self)@.irq_taken(),
            final(self)@.wf(),
    {
        self.ppu_bus.cartridge_mut().take_irq_set_state()
    }

    /// Resets the PPU.
    pub fn reset_ppu(&mut self)
        ensures
            final(self)@ == (CpuBusState { ppu: Ppu::initial(), ..old(self)@ }),
            final(self)@.ram.len() == old(self)@.ram.len(),
    {
        self.ppu.reset();
    }

    /// Reads cartridge space.
    pub fn read_prg_mem(&self, addr: u16) -> (r: u8)
        ensures
            r == self@.ppu_bus.cart.prg_read(addr),
    {
        self.ppu_bus.cartridge.read_prg_mem(addr)
    }

    /// A CPU read.
    pub fn read(&mut self, addr: u16) -> (r: u8)
        requires
            old(self)@.wf(),
        ensures
            r == old(self)@.peek(addr),
            final(self)@ == old(self)@.after_read(addr),
            final(self)@.wf(),
    {
        if addr <= 0x1FFF {
            self.read_ram(addr)
        } else if addr <= 0x3FFF {
            self.read_ppu_register(addr)
        } else if addr == 0x4016 {
            self.read_controller1_snapshot()
        } else if addr == 0x4017 {
            self.read_controller2_snapshot()
        } else if addr <= 0x401F {
            0
        } else {
            self.read_prg_mem(addr)
        }
    }

    /// A CPU write.
    pub fn write(&mut self, addr: u16, data: u8)
        requires
            old(self)@.wf(),
        ensures
            final(self)@ == old(self)@.after_write(addr, data),
            final(self)@.wf(),
    {
        if addr <= 0x1FFF {
            self.write_ram(addr, data);
        } else if addr <= 0x3FFF {
            self.write_ppu_register(addr, data);
        } else if addr == 0x4014 {
            // OAM DMA: copy page `data` into OAM.
            let page_begin = (data as u16) * 256;
            let mut buffer = [0u8; 256];
            let mut offset: u16 = 0;
            let ghost start = self@;
            proof {
                lemma_dma_reads_wf(start, data, 0);
            }
            while offset < 256
                invariant
                    offset <= 256,
                    page_begin == data as int * 256,
                    self@.wf(),
                    buffer@.subrange(0, offset as int) + self@.dma_reads(data, offset as nat).0
                        == start.dma_reads(data, 0).0,
                    self@.dma_reads(data, offset as nat).1 == start.dma_reads(data, 0).1,
                decreases 256 - offset,
            {
                let ghost before = self@;
                let ghost before_buffer = buffer@;
                let v = self.read(page_begin + offset);
                buffer[offset as usize] = v;
                proof {
                    let (rest, last) = before.dma_reads(data, offset as nat);
                    assert(rest == seq![v] + self@.dma_reads(data, (offset + 1) as nat).0);
                    assert(buffer@.subrange(0, offset + 1) =~= before_buffer.subrange(
                        0,
                        offset as int,
                    ) + seq![v]);
                    assert(buffer@.subrange(0, offset + 1) + self@.dma_reads(
                        data,
                        (offset + 1) as nat,
                    ).0 =~= before_buffer.subrange(0, offset as int) + rest);
                }
                offset = offset + 1;
            }
            proof {
                assert(buffer@.subrange(0, 256) =~= buffer@);
                assert(self@.dma_reads(data, 256).0 =~= Seq::<u8>::empty());
                assert(buffer@ =~= start.dma_reads(data, 0).0);
            }
            let ghost read = self@;
            proof {
                read.ppu.lemma_after_oam_dma_wf(buffer@);
            }
            self.ppu.write_oam_dma(&buffer);
        } else if addr == 0x4016 {
            self.controller1_write(data);
        } else if addr == 0x4017 {
            self.controller2_write(data);
        } else if addr <= 0x401F {
            // APU and I/O registers: writes are ignored.
        } else {
            self.write_prg_mem(addr, data);
        }
    }
}
/// Horizontal arrangement: `$2000` and `$2400` are one kilobyte of VRAM, and `$2800`
/// and `$2C00` another.
pub proof fn lemma_horizontal_mirroring(addr: u16)
    requires
        0x2000 <= addr < 0x3000,
        addr % 0x800 < 0x400,
    ensures
        name_table_index(addr, Mirroring::Horizontal) == name_table_index(
            (addr + 0x400) as u16,
            Mirroring::Horizontal,
        ),
        addr < 0x2800 ==> name_table_index(addr, Mirroring::Horizontal) != name_table_index(
            (addr + 0x800) as u16,
            Mirroring::Horizontal,
        ),
{
}

/// Vertical arrangement: `$2000` and `$2800` are one kilobyte of VRAM, and `$2400`
/// and `$2C00` another.
pub proof fn lemma_vertical_mirroring(addr: u16)
    requires
        0x2000 <= addr < 0x2800,
    ensures
        name_table_index(addr, Mirroring::Vertical) == name_table_index(
            (addr + 0x800) as u16,
            Mirroring::Vertical,
        ),
        addr % 0x800 < 0x400 ==> name_table_index(addr, Mirroring::Vertical) != name_table_index(
            (addr + 0x400) as u16,
            Mirroring::Vertical,
        ),
{
}

/// A nametable write is seen by a read of any address that mirrors it, and by no read
/// of an address that does not.
pub proof fn lemma_name_table_write_read(s: PpuBusState, w: u16, r: u16, data: u8)
    requires
        s.name_tables.len() == NAME_TABLES_SIZE,
    ensures
        s.after_name_table_write(w, data).name_table_read(r) == if name_table_index(
            w,
            s.cart.mapper.mirroring(),
        ) == name_table_index(r, s.cart.mapper.mirroring()) {
            data
        } else {
            s.name_table_read(r)
        },
{
    lemma_name_table_index_bound(w, s.cart.mapper.mirroring());
    lemma_name_table_index_bound(r, s.cart.mapper.mirroring());
}

/// Work RAM is mirrored every 2 KiB below `$2000`, and reading it changes nothing.
pub proof fn lemma_ram_mirror(b: CpuBusState, addr: u16)
    requires
        addr < 0x1800,
    ensures
        b.peek(addr) == b.peek((addr + 0x800) as u16),
        b.after_read(addr) == b,
{
}

/// Reading cartridge space changes nothing on the bus.
pub(crate) proof fn lemma_cart_read_keeps(b: CpuBusState, addr: u16)
    requires
        addr >= 0x4020,
    ensures
        b.after_read(addr) == b,
        b.peek(addr) == b.ppu_bus.cart.prg_read(addr),
{
}

/// A RAM write is seen by later reads of the same cell, through any mirror, and leaves
/// the other cells as they were.
pub proof fn lemma_ram_write_read(b: CpuBusState, w: u16, r: u16, data: u8)
    requires
        b.wf(),
        w < 0x2000,
        r < 0x2000,
    ensures
        b.after_write(w, data).peek(r) == if w % 0x800 == r % 0x800 {
            data
        } else {
            b.peek(r)
        },
        b.after_write(w, data).wf(),
        b.after_write(w, data).ppu_bus == b.ppu_bus,
{
}

/// The values of `n` successive reads of `addr`.
pub open spec fn serial_reads(b: CpuBusState, addr: u16, n: nat) -> Seq<u8>
    decreases n,
{
    if n == 0 {
        Seq::empty()
    } else {
        seq![b.peek(addr)] + serial_reads(b.after_read(addr), addr, (n - 1) as nat)
    }
}

proof fn lemma_serial_reads_shift(b: CpuBusState, n: nat)
    requires
        n <= 8,
    ensures
        serial_reads(b, 0x4016, n).len() == n,
        forall|k: int|
            0 <= k < n ==> #[trigger] serial_reads(b, 0x4016, n)[k] == if k == 0 {
                b.controller1_snapshot % 2
            } else {
                0
            },
    decreases n,
{
    if n > 0 {
        let next = b.after_read(0x4016);
        assert(next.controller1_snapshot % 2 == 0);
        lemma_serial_reads_shift(next, (n - 1) as nat);
        if n > 1 {
            lemma_serial_reads_shift_zero(next, (n - 1) as nat);
        }
        assert forall|k: int| 0 <= k < n implies #[trigger] serial_reads(b, 0x4016, n)[k] == if k
            == 0 {
            b.controller1_snapshot % 2
        } else {
            0
        } by {
            if k > 0 {
                assert(serial_reads(b, 0x4016, n)[k] == serial_reads(next, 0x4016, (n - 1) as nat)[k
                    - 1]);
            }
        }
    }
}

proof fn lemma_serial_reads_len(b: CpuBusState, addr: u16, n: nat)
    ensures
        serial_reads(b, addr, n).len() == n,
    decreases n,
{
    if n > 0 {
        lemma_serial_reads_len(b.after_read(addr), addr, (n - 1) as nat);
    }
}

proof fn lemma_serial_reads_shift_zero(b: CpuBusState, n: nat)
    requires
        b.controller1_snapshot % 2 == 0,
        n <= 8,
    ensures
        forall|k: int| 0 <= k < n ==> #[trigger] serial_reads(b, 0x4016, n)[k] == 0,
    decreases n,
{
    if n > 0 {
        let next = b.after_read(0x4016);
        lemma_serial_reads_len(next, 0x4016, (n - 1) as nat);
        lemma_serial_reads_shift_zero(next, (n - 1) as nat);
        assert forall|k: int| 0 <= k < n implies #[trigger] serial_reads(b, 0x4016, n)[k] == 0 by {
            if k > 0 {
                assert(serial_reads(b, 0x4016, n)[k] == serial_reads(next, 0x4016, (n - 1) as nat)[k
                    - 1]);
            }
        }
    }
}

/// The controller protocol as the bus implements it: a write with bit 0 set at `$4016`
/// latches the pads; the first read of `$4016` then gives bit 0 of the first pad's
/// buttons, and the next seven give 0 (each read shifts the snapshot left and reads its
/// bit 0).
pub proof fn lemma_controller_protocol(b: CpuBusState, data: u8)
    requires
        data % 2 == 1,
    ensures
        serial_reads(b.after_write(0x4016, data), 0x4016, 8).len() == 8,
        serial_reads(b.after_write(0x4016, data), 0x4016, 8)[0] == b.controller1 % 2,
        forall|k: int|
            1 <= k < 8 ==> #[trigger] serial_reads(b.after_write(0x4016, data), 0x4016, 8)[k] == 0,
{
    let s0 = b.after_write(0x4016, data);
    assert(s0.controller1_snapshot == b.controller1);
    lemma_serial_reads_shift(s0, 8);
}

/// Whether two buses have the PPU at the same dot.
pub open spec fn same_dot(a: CpuBusState, b: CpuBusState) -> bool {
    &&& a.ppu.spec_cycle() == b.ppu.spec_cycle()
    &&& a.ppu.spec_scanline() == b.ppu.spec_scanline()
}

/// A CPU read leaves the PPU at its dot.
pub broadcast proof fn lemma_read_keeps_dot(b: CpuBusState, addr: u16)
    ensures
        same_dot(b, (#[trigger] b.read_result(addr)).1),
{
    crate::ppu::lemma_access_keeps_dot(b.ppu, b.ppu_bus, addr, 0, Seq::empty());
}

proof fn lemma_dma_reads_keep_dot(b: CpuBusState, page: u8, i: nat)
    ensures
        same_dot(b, b.dma_reads(page, i).1),
    decreases 256 - i,
{
    if i < 256 {
        let a = (page as int * 256 + i) as u16;
        lemma_read_keeps_dot(b, a);
        lemma_dma_reads_keep_dot(b.read_result(a).1, page, i + 1);
    }
}

/// A CPU write (an OAM DMA among them) leaves the PPU at its dot.
pub broadcast proof fn lemma_write_keeps_dot(b: CpuBusState, addr: u16, data: u8)
    ensures
        same_dot(b, #[trigger] b.after_write(addr, data)),
{
    crate::ppu::lemma_access_keeps_dot(b.ppu, b.ppu_bus, addr, data, Seq::empty());
    if addr == 0x4014 {
        lemma_dma_reads_keep_dot(b, data, 0);
        let (bytes, read) = b.dma_reads(data, 0);
        crate::ppu::lemma_access_keeps_dot(read.ppu, read.ppu_bus, addr, data, bytes);
    }
}

} // verus!
