//! MMC3: 8 KiB PRG banks, 1 KiB CHR banks and a scanline counter that raises IRQs.
use vstd::prelude::*;

use super::{CartridgeReadTarget, Mirroring};

verus! {

/// Mapper 4 (MMC3).
pub struct Mapper004 {
    prg_banks: u8,
    prg_bank_selector: [u8; 4],
    chr_bank_selector: [u8; 8],
    mirroring: Mirroring,
    prg_mode: bool,
    chr_inversion: bool,
    register: [u8; 8],
    target_register: u8,
    ram_data: [u8; 0x2000],
    last_chr_bank_bit: bool,
    irq_enabled: bool,
    irq_active: bool,
    irq_reload: bool,
    irq_counter: u8,
    irq_latch: u8,
}

/// The state of an MMC3 mapper, with its arrays as sequences.
pub struct Mapper004State {
    pub prg_banks: u8,
    pub prg_bank_selector: Seq<u8>,
    pub chr_bank_selector: Seq<u8>,
    pub mirroring: Mirroring,
    pub prg_mode: bool,
    pub chr_inversion: bool,
    pub register: Seq<u8>,
    pub target_register: u8,
    pub ram: Seq<u8>,
    pub last_chr_bank_bit: bool,
    pub irq_enabled: bool,
    pub irq_active: bool,
    pub irq_reload: bool,
    pub irq_counter: u8,
    pub irq_latch: u8,
}

impl Mapper004State {
    /// The power-on state.
    pub open spec fn initial(prg_banks: u8, mirroring: Mirroring) -> Self {
    Mapper004State {
            prg_banks,
            prg_bank_selector: seq![0u8, 0u8, 0u8, (prg_banks * 2 - 1) as u8],
            chr_bank_selector: Seq::new(8, |i: int| 0u8),
            mirroring,
            prg_mode: false,
            chr_inversion: false,
            register: Seq::new(8, |i: int| 0u8),
            target_register: 0,
            ram: Seq::new(0x2000, |i: int| 0u8),
            last_chr_bank_bit: false,
            irq_enabled: false,
            irq_active: false,
            irq_reload: false,
            irq_counter: 0,
            irq_latch: 0,
        }
    }

    /// Index of the second-to-last 8 KiB PRG bank.
    pub open spec fn second_last_bank(self) -> u8 {
        (self.prg_banks * 2 - 2) as u8
    }

    /// Index of the last 8 KiB PRG bank.
    pub open spec fn last_bank(self) -> u8 {
        (self.prg_banks * 2 - 1) as u8
    }

    /// Where a CPU read of `addr` lands: work RAM at `$6000..=$7FFF`, one of four 8 KiB
    /// PRG windows above, and PRG offset 0 below `$6000`.
    pub open spec fn cpu_target(self, addr: u16) -> CartridgeReadTarget {
        if 0x6000 <= addr <= 0x7FFF {
            CartridgeReadTarget::PrgRam(self.ram[addr as int % 0x2000])
        } else if addr >= 0x8000 {
            let window = (addr as int - 0x8000) / 0x2000;
            CartridgeReadTarget::PrgRom(
                (self.prg_bank_selector[window] as int * 0x2000 + addr as int % 0x2000) as usize,
            )
        } else {
            CartridgeReadTarget::PrgRom(0)
        }
    }

    /// PRG and CHR bank selections derived from the bank registers `reg`.
    pub open spec fn with_banks(self, reg: Seq<u8>) -> Self {
        Self {
            register: reg,
            prg_bank_selector: if self.prg_mode {
                seq![self.second_last_bank(), reg[7] % 64, reg[6] % 64, self.last_bank()]
            } else {
                seq![reg[6] % 64, reg[7] % 64, self.second_last_bank(), self.last_bank()]
            },
            chr_bank_selector: if self.chr_inversion {
                seq![
                    reg[2],
                    reg[3],
                    reg[4],
                    reg[5],
                    (reg[0] - reg[0] % 2) as u8,
                    ((reg[0] + 1) % 256) as u8,
                    (reg[1] - reg[1] % 2) as u8,
                    ((reg[1] + 1) % 256) as u8,
                ]
            } else {
                seq![
                    (reg[0] - reg[0] % 2) as u8,
                    ((reg[0] + 1) % 256) as u8,
                    (reg[1] - reg[1] % 2) as u8,
                    ((reg[1] + 1) % 256) as u8,
                    reg[2],
                    reg[3],
                    reg[4],
                    reg[5],
                ]
            },
            ..self
        }
    }

    /// The state after a CPU write of `data` at `addr`. Even and odd addresses in each
    /// 8 KiB range select different registers.
    pub open spec fn after_cpu_write(self, addr: u16, data: u8) -> Self {
        let even = addr % 2 == 0;
        if 0x6000 <= addr <= 0x7FFF {
            Self { ram: self.ram.update(addr as int % 0x2000, data), ..self }
        } else if 0x8000 <= addr <= 0x9FFF {
            if even {
                Self {
                    target_register: data % 8,
                    prg_mode: (data as int / 64) % 2 == 1,
                    chr_inversion: data >= 0x80,
                    ..self
                }
            } else {
                self.with_banks(self.register.update(self.target_register as int, data))
            }
        } else if 0xA000 <= addr <= 0xBFFF {
            if even && self.mirroring != Mirroring::FourScreen {
                Self {
                    mirroring: if data % 2 == 0 {
                        Mirroring::Vertical
                    } else {
                        Mirroring::Horizontal
                    },
                    ..self
                }
            } else {
                self
            }
        } else if 0xC000 <= addr <= 0xDFFF {
            if even {
                Self { irq_latch: data, ..self }
            } else {
                Self { irq_reload: true, ..self }
            }
        } else if 0xE000 <= addr {
            if even {
                Self { irq_enabled: false, irq_active: false, ..self }
            } else {
                Self { irq_enabled: true, ..self }
            }
        } else {
            self
        }
    }

    /// The state after the PPU reads `addr`: a rising edge of address bit 12 clocks the
    /// scanline counter, which reloads from the latch when it is zero or a reload is
    /// pending and otherwise counts down; reaching zero while enabled raises the IRQ.
    pub open spec fn after_ppu_read(self, addr: u16) -> Self {
        let bank_bit = (addr as int / 0x1000) % 2 == 1;
        let clocked = if !self.last_chr_bank_bit && bank_bit {
            let counted = if self.irq_counter == 0 || self.irq_reload {
                Self { irq_counter: self.irq_latch, irq_reload: false, ..self }
            } else {
                Self { irq_counter: (self.irq_counter - 1) as u8, ..self }
            };
            if counted.irq_counter == 0 && counted.irq_enabled {
                Self { irq_active: true, ..counted }
            } else {
                counted
            }
        } else {
            self
        };
        Self { last_chr_bank_bit: bank_bit, ..clocked }
    }

    /// The CHR index of a PPU read of `addr`: one of eight 1 KiB windows below `$2000`,
    /// and 0 above.
    pub open spec fn ppu_target(self, addr: u16) -> usize {
        if addr < 0x2000 {
            (self.chr_bank_selector[addr as int / 0x400] as int * 0x400 + addr as int % 0x400) as usize
        } else {
            0
        }
    }

    /// The 16 KiB bank seen at `addr`, as half of the selected 8 KiB bank.
    pub open spec fn prg_bank_at(self, addr: u16) -> Option<u8> {
        if addr < 0x8000 {
            None
        } else {
            Some(self.prg_bank_selector[(addr as int - 0x8000) / 0x2000] / 2)
        }
    }

    /// The well-formedness every reachable state keeps.
    pub open spec fn wf(self) -> bool {
        &&& 1 <= self.prg_banks <= 127
        &&& self.target_register < 8
        &&& self.prg_bank_selector.len() == 4
        &&& self.chr_bank_selector.len() == 8
        &&& self.register.len() == 8
        &&& self.ram.len() == 0x2000
    }
}

impl View for Mapper004 {
    type V = Mapper004State;

    closed spec fn view(&self) -> Mapper004State {
        Mapper004State {
            prg_banks: self.prg_banks,
            prg_bank_selector: self.prg_bank_selector@,
            chr_bank_selector: self.chr_bank_selector@,
            mirroring: self.mirroring,
            prg_mode: self.prg_mode,
            chr_inversion: self.chr_inversion,
            register: self.register@,
            target_register: self.target_register,
            ram: self.ram_data@,
            last_chr_bank_bit: self.last_chr_bank_bit,
            irq_enabled: self.irq_enabled,
            irq_active: self.irq_active,
            irq_reload: self.irq_reload,
            irq_counter: self.irq_counter,
            irq_latch: self.irq_latch,
        }
    }
}

impl Mapper004 {
    #[verifier::type_invariant]
    spec fn inv(self) -> bool {
        self@.wf()
    }

    /// Power-on state: the last PRG bank is mapped at `$E000`, everything else at 0.
    pub fn new(prg_banks: u8, mirroring: Mirroring) -> (r: Self)
        requires
            1 <= prg_banks <= 127,
        ensures
            r@ == Mapper004State::initial(prg_banks, mirroring),
    {
        let r = Self {
            prg_banks,
            prg_bank_selector: [0u8, 0u8, 0u8, prg_banks * 2 - 1],
            chr_bank_selector: [0u8; 8],
            mirroring,
            prg_mode: false,
            chr_inversion: false,
            register: [0u8; 8],
            target_register: 0,
            ram_data: [0u8; 0x2000],
            last_chr_bank_bit: false,
            irq_enabled: false,
            irq_active: false,
            irq_reload: false,
            irq_counter: 0,
            irq_latch: 0,
        };
        assert(r@.prg_bank_selector =~= seq![0u8, 0u8, 0u8, (prg_banks * 2 - 1) as u8]);
        assert(r@.chr_bank_selector =~= Seq::new(8, |i: int| 0u8));
        assert(r@.register =~= Seq::new(8, |i: int| 0u8));
        assert(r@.ram =~= Seq::new(0x2000, |i: int| 0u8));
        r
    }

    /// Maps a CPU read.
    pub fn cpu_map_read(&self, addr: u16) -> (r: CartridgeReadTarget)
        ensures
            r == self@.cpu_target(addr),
    {
        if 0x6000 <= addr && addr <= 0x7FFF {
            CartridgeReadTarget::PrgRam(self.ram_data[(addr % 0x2000) as usize])
        } else if 0x8000 <= addr && addr <= 0x9FFF {
            CartridgeReadTarget::PrgRom(
                (self.prg_bank_selector[0] as usize) * 0x2000 + (addr % 0x2000) as usize,
            )
        } else if 0xA000 <= addr && addr <= 0xBFFF {
            CartridgeReadTarget::PrgRom(
                (self.prg_bank_selector[1] as usize) * 0x2000 + (addr % 0x2000) as usize,
            )
        } else if 0xC000 <= addr && addr <= 0xDFFF {
            CartridgeReadTarget::PrgRom(
                (self.prg_bank_selector[2] as usize) * 0x2000 + (addr % 0x2000) as usize,
            )
        } else if 0xE000 <= addr {
            CartridgeReadTarget::PrgRom(
                (self.prg_bank_selector[3] as usize) * 0x2000 + (addr % 0x2000) as usize,
            )
        } else {
            CartridgeReadTarget::PrgRom(0)
        }
    }

    /// Recomputes the bank selections from the bank registers.
    fn update_banks(&mut self)
        requires
            old(self)@.wf(),
        ensures
            final(self)@ == old(self)@.with_banks(old(self)@.register),
            final(self)@.wf(),
    {
        let second_last = self.prg_banks * 2 - 2;
        let last = self.prg_banks * 2 - 1;
        if self.prg_mode {
            self.prg_bank_selector[0] = second_last;
            self.prg_bank_selector[2] = self.register[6] % 64;
        } else {
            self.prg_bank_selector[0] = self.register[6] % 64;
            self.prg_bank_selector[2] = second_last;
        }
        self.prg_bank_selector[1] = self.register[7] % 64;
        self.prg_bank_selector[3] = last;
        let r0 = self.register[0];
        let r1 = self.register[1];
        proof {
            assert(r0 & 0xFE == r0 - r0 % 2) by {
                crate::bits::lemma_byte_bits(r0);
            }
            assert(r1 & 0xFE == r1 - r1 % 2) by {
                crate::bits::lemma_byte_bits(r1);
            }
        }
        if self.chr_inversion {
            self.chr_bank_selector[0] = self.register[2];
            self.chr_bank_selector[1] = self.register[3];
            self.chr_bank_selector[2] = self.register[4];
            self.chr_bank_selector[3] = self.register[5];
            self.chr_bank_selector[4] = r0 & 0xFE;
            self.chr_bank_selector[5] = r0.wrapping_add(1);
            self.chr_bank_selector[6] = r1 & 0xFE;
            self.chr_bank_selector[7] = r1.wrapping_add(1);
        } else {
            self.chr_bank_selector[0] = r0 & 0xFE;
            self.chr_bank_selector[1] = r0.wrapping_add(1);
            self.chr_bank_selector[2] = r1 & 0xFE;
            self.chr_bank_selector[3] = r1.wrapping_add(1);
            self.chr_bank_selector[4] = self.register[2];
            self.chr_bank_selector[5] = self.register[3];
            self.chr_bank_selector[6] = self.register[4];
            self.chr_bank_selector[7] = self.register[5];
        }
        assert(self@.prg_bank_selector =~= old(self)@.with_banks(
            old(self)@.register,
        ).prg_bank_selector);
        assert(self@.chr_bank_selector =~= old(self)@.with_banks(
            old(self)@.register,
        ).chr_bank_selector);
    }

    /// Handles a CPU write: work RAM, bank select/data, mirroring, IRQ latch/reload and
    /// IRQ disable/enable, depending on the address range and its parity.
    #[verifier::rlimit(40)]
    pub fn cpu_map_write(&mut self, addr: u16, data: u8)
        ensures
            final(self)@ == old(self)@.after_cpu_write(addr, data),
    {
        proof {
            use_type_invariant(&*self);
            assert(addr & 0x01 == 0 <==> addr % 2 == 0) by {
                crate::bits::lemma_word_bits(addr);
            }
            assert(data & 0x07 == data % 8 && ((data & 0x40) == 0x40 <==> (data / 64) % 2 == 1)
                && ((data & 0x80) == 0x80 <==> data >= 0x80) && data & 0x01 == data % 2) by {
                crate::bits::lemma_byte_bits(data);
            }
        }
        if 0x6000 <= addr && addr <= 0x7FFF {
            self.ram_data[(addr % 0x2000) as usize] = data;
            assert(self@.ram =~= old(self)@.ram.update(addr as int % 0x2000, data));
        } else if 0x8000 <= addr && addr <= 0x9FFF {
            if (addr & 0x01) == 0 {
                self.target_register = data & 0x07;
                self.prg_mode = (data & 0x40) == 0x40;
                self.chr_inversion = (data & 0x80) == 0x80;
            } else {
                let t = self.target_register as usize;
                self.register[t] = data;
                assert(self@.register =~= old(self)@.register.update(t as int, data));
                self.update_banks();
            }
        } else if 0xA000 <= addr && addr <= 0xBFFF {
            if (addr & 0x01) == 0 {
                match self.mirroring {
                    Mirroring::FourScreen => {},
                    _ => {
                        self.mirroring = if data & 0x01 == 0 {
                            Mirroring::Vertical
                        } else {
                            Mirroring::Horizontal
                        };
                    },
                }
            }
        } else if 0xC000 <= addr && addr <= 0xDFFF {
            if (addr & 0x01) == 0 {
                self.irq_latch = data;
            } else {
                self.irq_reload = true;
            }
        } else if 0xE000 <= addr {
            if (addr & 0x01) == 0 {
                self.irq_enabled = false;
                self.irq_active = false;
            } else {
                self.irq_enabled = true;
            }
        }
    }

    /// Maps a PPU read and clocks the scanline counter on rising edges of address bit 12.
    pub fn ppu_map_read(&mut self, addr: u16) -> (r: usize)
        ensures
            r == old(self)@.ppu_target(addr),
            final(self)@ == old(self)@.after_ppu_read(addr),
    {
        proof {
            use_type_invariant(&*self);
        }
        proof {
            crate::bits::lemma_word_bits(addr);
        }
        let chr_bank_bit = addr & 0x1000 == 0x1000;
        if !self.last_chr_bank_bit && chr_bank_bit {
            if self.irq_counter == 0 || self.irq_reload {
                self.irq_counter = self.irq_latch;
                self.irq_reload = false;
            } else {
                self.irq_counter = self.irq_counter - 1;
            }
            if self.irq_counter == 0 && self.irq_enabled {
                self.irq_active = true;
            }
        }
        self.last_chr_bank_bit = chr_bank_bit;
        if addr < 0x2000 {
            let window = (addr / 0x400) as usize;
            (self.chr_bank_selector[window] as usize) * 0x0400 + (addr % 0x400) as usize
        } else {
            0
        }
    }

    /// CHR is ROM: writes are refused.
    pub fn ppu_map_write(&self, addr: u16) -> (r: Option<usize>)
        ensures
            r is None,
    {
        None
    }

    /// The current nametable arrangement.
    pub fn mirroring(&self) -> (r: Mirroring)
        ensures
            r == self@.mirroring,
    {
        self.mirroring
    }

    /// Whether the mapper is raising its IRQ line.
    pub fn irq_state(&self) -> (r: bool)
        ensures
            r == self@.irq_active,
    {
        self.irq_active
    }

    /// Acknowledges the IRQ.
    pub fn irq_clear(&mut self)
        ensures
            final(self)@ == (Mapper004State { irq_active: false, ..old(self)@ }),
    {
        proof {
            use_type_invariant(&*self);
        }
        self.irq_active = false;
    }

    /// The battery-backed work RAM.
    pub fn get_sram(&self) -> (r: &[u8])
        ensures
            r@ == self@.ram,
    {
        self.ram_data.as_slice()
    }

    /// Loads saved work RAM: the first `min(len, 0x2000)` bytes of `data`.
    pub fn load_sram(&mut self, data: &[u8])
        ensures
            final(self)@ == (Mapper004State {
                ram: Seq::new(
                    0x2000,
                    |i: int|
                        if i < data@.len() {
                            data@[i]
                        } else {
                            old(self)@.ram[i]
                        },
                ),
                ..old(self)@
            }),
    {
        proof {
            use_type_invariant(&*self);
        }
        let n = if data.len() < 0x2000 {
            data.len()
        } else {
            0x2000
        };
        let mut i: usize = 0;
        while i < n
            invariant
                n <= data@.len(),
                n <= 0x2000,
                i <= n,
                self@ == (Mapper004State { ram: self@.ram, ..old(self)@ }),
                old(self)@.wf(),
                forall|j: int|
                    0 <= j < 0x2000 ==> #[trigger] self@.ram[j] == if j < i {
                        data@[j]
                    } else {
                        old(self)@.ram[j]
                    },
                self@.ram.len() == 0x2000,
            decreases n - i,
        {
            self.ram_data[i] = data[i];
            i = i + 1;
        }
        assert(self@.ram =~= Seq::new(
            0x2000,
            |i: int|
                if i < data@.len() {
                    data@[i]
                } else {
                    old(self)@.ram[i]
                },
        ));
    }

    /// The 16 KiB bank seen at `addr`.
    pub fn get_prg_bank(&self, addr: u16) -> (r: Option<u8>)
        ensures
            r == self@.prg_bank_at(addr),
    {
        if addr < 0x8000 {
            None
        } else {
            let window = ((addr - 0x8000) / 0x2000) as usize;
            Some(self.prg_bank_selector[window] / 2)
        }
    }
}

impl Mapper004State {
    /// One scanline as the counter sees it: a pattern fetch below `$1000`, then one at or
    /// above it (a rising edge of address bit 12).
    pub open spec fn scanline_clocked(self) -> Self {
        self.after_ppu_read(0x0000).after_ppu_read(0x1000)
    }

    /// The state after `k` scanlines.
    pub open spec fn scanlines_clocked(self, k: nat) -> Self
        decreases k,
    {
        if k == 0 {
            self
        } else {
            self.scanlines_clocked((k - 1) as nat).scanline_clocked()
        }
    }
}

proof fn lemma_mmc3_countdown(m: Mapper004State, n: u8, k: nat)
    requires
        m.irq_reload,
        m.irq_latch == n,
        n >= 1,
        m.irq_enabled,
        !m.irq_active,
        1 <= k <= n as nat + 1,
    ensures
        m.scanlines_clocked(k).irq_counter == n - (k - 1),
        !m.scanlines_clocked(k).irq_reload,
        m.scanlines_clocked(k).irq_latch == n,
        m.scanlines_clocked(k).irq_enabled,
        m.scanlines_clocked(k).irq_active == (k == n as nat + 1),
    decreases k,
{
    if k > 1 {
        lemma_mmc3_countdown(m, n, (k - 1) as nat);
    } else {
        assert(m.scanlines_clocked(0) == m);
    }
}

/// The MMC3 scanline IRQ: with the IRQ enabled and a reload pending (a write to
/// `$C001`), a latch of `n` raises the IRQ at the `n + 1`-th scanline, and not before.
pub proof fn lemma_mmc3_irq_timing(m: Mapper004State, n: u8)
    requires
        m.irq_reload,
        m.irq_latch == n,
        n >= 1,
        m.irq_enabled,
        !m.irq_active,
    ensures
        m.scanlines_clocked(n as nat + 1).irq_active,
        forall|k: nat| k <= n ==> !(#[trigger] m.scanlines_clocked(k)).irq_active,
{
    lemma_mmc3_countdown(m, n, n as nat + 1);
    assert forall|k: nat| k <= n implies !(#[trigger] m.scanlines_clocked(k)).irq_active by {
        if k == 0 {
            assert(m.scanlines_clocked(0) == m);
        } else {
            lemma_mmc3_countdown(m, n, k);
        }
    }
}

/// MMC3 PRG banking: after a bank select (`$8000`, even) naming register `sel % 8` and a
/// bank data write (`$8001`, odd) of `v`, R7 chooses the 8 KiB bank at `$A000-$BFFF` in
/// both PRG modes, R6 the bank at `$8000-$9FFF` in mode 0 and at `$C000-$DFFF` in mode 1
/// (bit 6 of the select), and `$E000-$FFFF` always shows the last bank.
pub proof fn lemma_mmc3_prg_windows(
    m: Mapper004State,
    sel_addr: u16,
    sel: u8,
    data_addr: u16,
    v: u8,
    a: u16,
)
    requires
        m.wf(),
        0x8000 <= sel_addr <= 0x9FFF && sel_addr % 2 == 0,
        0x8000 <= data_addr <= 0x9FFF && data_addr % 2 == 1,
        a >= 0x8000,
    ensures
        ({
            let m2 = m.after_cpu_write(sel_addr, sel).after_cpu_write(data_addr, v);
            let banked = CartridgeReadTarget::PrgRom(((v % 64) as int * 0x2000 + a % 0x2000) as usize);
            &&& (sel % 8 == 7 && 0xA000 <= a <= 0xBFFF) ==> m2.cpu_target(a) == banked
            &&& (sel % 8 == 6 && (sel / 64) % 2 == 0 && a <= 0x9FFF) ==> m2.cpu_target(a) == banked
            &&& (sel % 8 == 6 && (sel / 64) % 2 == 1 && 0xC000 <= a <= 0xDFFF) ==> m2.cpu_target(a)
                == banked
            &&& 0xE000 <= a ==> m2.cpu_target(a) == CartridgeReadTarget::PrgRom(
                (m.last_bank() as int * 0x2000 + a % 0x2000) as usize,
            )
        }),
{
    let m1 = m.after_cpu_write(sel_addr, sel);
    assert(m1.register == m.register && m1.target_register == sel % 8);
}

} // verus!
