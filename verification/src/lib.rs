//! A NES emulator core: the 6502 CPU, the PPU, cartridges with their mappers and the
//! buses that connect them, each operation proved against a model of the hardware.
pub mod bits;
pub mod apu;
pub mod bus;
pub mod cartridge;
pub mod cpu;
pub mod debugger;
pub mod input;
pub mod ppu;
pub mod rgb_palette;
pub mod server;
pub mod session;

use vstd::prelude::*;
use crate::bus::{same_dot, CpuBus, CpuBusState};
use crate::ppu::timing::{dots_to_frame, lemma_dots_to_frame_decrease};
use crate::cartridge::{rom_banks_ok, Cartridge, CartridgeState, RomParserError};
use crate::cpu::disassembler::{disassemble, lines_view, spec_disassembly, DisassemblyLine};
use crate::cpu::Cpu;
use crate::ppu::registers::{has_all, MaskReg, MASK_EMPHASISE_BLUE, MASK_EMPHASISE_GREEN, MASK_EMPHASISE_RED};
use crate::ppu::{Ppu, PpuFrame, FRAME_SIZE};
pub use crate::rgb_palette::RGB_PALETTE;

verus! {

/// Size of the console's internal work RAM, in bytes.
pub const RAM_SIZE: u16 = 0x0800;

/// The privilege a session's program is granted: `Ring0` for the development console,
/// `Ring3` for players.
#[derive(Clone, Copy, Debug, PartialEq, Eq, Structural)]
pub enum ExecutionMode {
    Ring0,
    Ring3,
}

/// The whole console: CPU, buses, PPU and cartridge, and the master clock's phase.
pub struct Emulator {
    cpu: Cpu,
    bus: CpuBus,
    clock_count: u8,
}

/// The emulator as the contracts see it.
pub struct EmulatorState {
    pub cpu: Cpu,
    pub bus: CpuBusState,
    pub clock_count: u8,
}

impl View for Emulator {
    type V = EmulatorState;

    closed spec fn view(&self) -> EmulatorState {
        EmulatorState { cpu: self.cpu, bus: self.bus@, clock_count: self.clock_count }
    }
}

impl EmulatorState {
    /// The well-formedness every emulator keeps.
    pub open spec fn wf(self) -> bool {
        self.bus.wf()
    }
}

/// The CPU's half of a master clock, on the bus `b` left by the PPU's dot: between
/// instructions a pending NMI is taken first, else a pending cartridge IRQ, and the CPU
/// is clocked.
pub open spec fn cpu_phase(cpu: Cpu, b: CpuBusState) -> (Cpu, CpuBusState) {
    if cpu.cycles == 0 && b.ppu.spec_nmi_pending() {
        let (c1, b1) = cpu.spec_nmi(b.nmi_taken());
        c1.spec_clock(b1)
    } else if cpu.cycles == 0 && b.ppu_bus.cart.mapper.irq() {
        let (c1, b1) = cpu.spec_irq(b.irq_taken());
        c1.spec_clock(b1)
    } else {
        cpu.spec_clock(b)
    }
}

/// One master clock from `s`, given the bus `mid` after the PPU's dot: the CPU runs on
/// every third clock.
pub open spec fn after_master_clock(s: EmulatorState, mid: CpuBusState) -> EmulatorState {
    if s.clock_count % 3 == 0 {
        let (c, b) = cpu_phase(s.cpu, mid);
        EmulatorState { cpu: c, bus: b, clock_count: 1 }
    } else {
        EmulatorState { cpu: s.cpu, bus: mid, clock_count: (s.clock_count + 1) as u8 }
    }
}

/// The clock phase after `n` master clocks from phase `c`.
pub open spec fn phase_after(c: u8, n: nat) -> u8
    decreases n,
{
    if n == 0 {
        c
    } else {
        let p = phase_after(c, (n - 1) as nat);
        if p % 3 == 0 {
            1
        } else {
            (p + 1) as u8
        }
    }
}

/// The clock phase moves on as [`after_master_clock`] says, whatever the PPU did.
pub proof fn lemma_phase_step(s: EmulatorState, mid: CpuBusState)
    ensures
        after_master_clock(s, mid).clock_count == phase_after(s.clock_count, 1),
        s.clock_count % 3 == 0 ==> after_master_clock(s, mid).cpu == cpu_phase(s.cpu, mid).0,
        s.clock_count % 3 != 0 ==> after_master_clock(s, mid).cpu == s.cpu,
{
    assert(phase_after(s.clock_count, 0) == s.clock_count);
}

/// CPU cadence: from phase 0 (after `new` or `reset`), the phase before master clock
/// `i` (counting from 1) is a multiple of 3 exactly when `i - 1` is, so the CPU runs on
/// clocks 1, 4, 7, ... and the PPU on every clock.
pub proof fn lemma_cpu_every_third_clock(n: nat)
    ensures
        phase_after(0, n) % 3 == n % 3,
        phase_after(0, n) <= 3,
    decreases n,
{
    if n > 0 {
        lemma_cpu_every_third_clock((n - 1) as nat);
    }
}

/// The CPU's half of a master clock leaves the PPU at the dot its own half reached.
pub proof fn lemma_master_clock_keeps_dot(s: EmulatorState, mid: CpuBusState)
    ensures
        same_dot(mid, after_master_clock(s, mid).bus),
{
    crate::ppu::lemma_access_keeps_dot(mid.ppu, mid.ppu_bus, 0, 0, Seq::empty());
    crate::cpu::lemma_cpu_keeps_dot(s.cpu, mid);
    let (c1, b1) = s.cpu.spec_nmi(mid.nmi_taken());
    crate::cpu::lemma_cpu_keeps_dot(s.cpu, mid.nmi_taken());
    crate::cpu::lemma_cpu_keeps_dot(c1, b1);
    let (c2, b2) = s.cpu.spec_irq(mid.irq_taken());
    crate::cpu::lemma_cpu_keeps_dot(s.cpu, mid.irq_taken());
    crate::cpu::lemma_cpu_keeps_dot(c2, b2);
}

/// Whether the PPU has just completed a frame (dot 256 of scanline 239).
pub open spec fn frame_ready(s: EmulatorState) -> bool {
    s.bus.ppu.spec_cycle() == 256 && s.bus.ppu.spec_scanline() == 239
}

/// How many dots, at most, until the next completed frame.
pub open spec fn frame_distance(s: EmulatorState) -> nat {
    dots_to_frame(s.bus.ppu.spec_cycle(), s.bus.ppu.spec_scanline())
}

/// The state after one master clock.
pub open spec fn next_state(s: EmulatorState) -> EmulatorState {
    after_master_clock(s, s.bus.ppu_clocked())
}

/// The state after `n` master clocks.
pub open spec fn states_after(s: EmulatorState, n: nat) -> EmulatorState
    decreases n,
{
    if n == 0 {
        s
    } else {
        next_state(states_after(s, (n - 1) as nat))
    }
}

/// RESET on `s`: the CPU's reset sequence, then a fresh PPU and the clock phase at 0.
pub open spec fn after_reset(s: EmulatorState) -> EmulatorState {
    let (c, b) = s.cpu.spec_reset(s.bus);
    EmulatorState { cpu: c, bus: CpuBusState { ppu: Ppu::initial(), ..b }, clock_count: 0 }
}

/// The bytes the CPU reads from `start` to `end` inclusive, one read each in order, and
/// the bus afterwards.
pub open spec fn dump(b: CpuBusState, start: u16, end: u16) -> (Seq<u8>, CpuBusState)
    decreases end - start,
{
    if start > end {
        (Seq::empty(), b)
    } else {
        let (v, b1) = b.read_result(start);
        if start == end {
            (seq![v], b1)
        } else {
            let (rest, b2) = dump(b1, (start + 1) as u16, end);
            (seq![v] + rest, b2)
        }
    }
}

proof fn lemma_dump_wf(b: CpuBusState, start: u16, end: u16)
    requires
        b.wf(),
    ensures
        dump(b, start, end).1.wf(),
    decreases end - start,
{
    if start <= end {
        crate::bus::lemma_read_result_wf(b, start);
        if start < end {
            lemma_dump_wf(b.read_result(start).1, (start + 1) as u16, end);
        }
    }
}

impl Emulator {
    /// The console with cartridge image `rom` inserted (and its battery-backed RAM loaded
    /// from `save_data`), after RESET.
    pub fn new(rom: &[u8], save_data: Option<&[u8]>) -> (r: Result<Self, RomParserError>)
        requires
            rom_banks_ok(rom@),
        ensures
            match (r, CartridgeState::loaded(
                rom@,
                match save_data {
                    Some(s) => Some(s@),
                    None => None,
                },
            )) {
                (Ok(e), Ok(cart)) => e@.wf() && e@ == after_reset(
                    EmulatorState {
                        cpu: Cpu::spec_zeroed(),
                        bus: CpuBusState::fresh(cart),
                        clock_count: 0,
                    },
                ),
                (Err(e), Err(f)) => e == f,
                _ => false,
            },
    {
        let cartridge = match Cartridge::load(rom, save_data) {
            Ok(c) => c,
            Err(e) => return Err(e),
        };
        let mut emulator = Emulator { cpu: Cpu::new(), bus: CpuBus::new(cartridge), clock_count: 0 };
        emulator.reset();
        Ok(emulator)
    }

    /// Advances the console by one PPU dot; the CPU runs on every third. Between CPU
    /// instructions a pending NMI from the PPU is taken first, else a pending IRQ from
    /// the cartridge. Returns the finished frame when the PPU has just completed one.
    pub fn clock(&mut self) -> (r: Option<&PpuFrame>)
        requires
            old(self)@.wf(),
        ensures
            final(self)@.wf(),
            final(self)@ == after_master_clock(old(self)@, old(self)@.bus.ppu_clocked()),
            old(self)@.bus.ppu.clocked(
                old(self)@.bus.ppu_bus,
                old(self)@.bus.ppu_clocked().ppu,
                old(self)@.bus.ppu_clocked().ppu_bus,
            ),
            same_dot(old(self)@.bus.ppu_clocked(), final(self)@.bus),
            match r {
                Some(f) => final(self)@.bus.ppu.spec_cycle() == 256
                    && final(self)@.bus.ppu.spec_scanline() == 239
                    && f@ == final(self)@.bus.ppu.spec_frame(),
                None => !(final(self)@.bus.ppu.spec_cycle() == 256
                    && final(self)@.bus.ppu.spec_scanline() == 239),
            },
    {
        // The PPU runs on every master clock.
        self.bus.clock_ppu();
        let ghost mid = self.bus@;
        proof {
            if !mid.ppu.spec_nmi_pending() {
                mid.ppu.lemma_nmi_taken_idle();
                assert(mid.nmi_taken() == mid);
            }
            if !mid.ppu_bus.cart.mapper.irq() {
                assert(mid.irq_taken() == mid);
            }
        }
        // The CPU runs three times slower.
        if self.clock_count % 3 == 0 {
            self.clock_count = 0;
            if self.cpu.cycles == 0 && self.bus.take_vblank_nmi() {
                self.cpu.nmi(&mut self.bus);
                self.cpu.clock(&mut self.bus);
            } else if self.cpu.cycles == 0 && self.bus.take_irq() {
                self.cpu.irq(&mut self.bus);
                self.cpu.clock(&mut self.bus);
            } else {
                self.cpu.clock(&mut self.bus);
            }
        }
        self.clock_count = self.clock_count.wrapping_add(1);
        assert(self@ == after_master_clock(old(self)@, mid));
        proof {
            lemma_master_clock_keeps_dot(old(self)@, mid);
        }
        self.bus.ppu().ready_frame()
    }

    /// Runs the console until the PPU completes a frame, and returns that frame: the
    /// state is the first one, one or more master clocks on, at which a frame is complete.
    pub fn run_until_frame(&mut self) -> (r: PpuFrame)
        requires
            old(self)@.wf(),
        ensures
            final(self)@.wf(),
            frame_ready(final(self)@),
            r@ == final(self)@.bus.ppu.spec_frame(),
            exists|n: nat|
                n >= 1 && final(self)@ == states_after(old(self)@, n) && forall|k: nat|
                    1 <= k < n ==> !frame_ready(#[trigger] states_after(old(self)@, k)),
    {
        let ghost start = self@;
        let ghost mut n: nat = 0;
        loop
            invariant
                self@.wf(),
                self@ == states_after(start, n),
                start == old(self)@,
                n == 0 || !frame_ready(self@),
                forall|k: nat| 1 <= k < n ==> !frame_ready(#[trigger] states_after(start, k)),
            decreases frame_distance(self@),
        {
            let ghost before = self@;
            proof {
                before.bus.ppu.lemma_wf_dot();
                lemma_dots_to_frame_decrease(
                    before.bus.ppu.spec_cycle(),
                    before.bus.ppu.spec_scanline(),
                    before.bus.ppu.spec_odd_frame(),
                    crate::ppu::rendering_on(before.bus.ppu.spec_mask()),
                );
            }
            let frame = match self.clock() {
                Some(f) => Some(*f),
                None => None,
            };
            proof {
                n = n + 1;
            }
            match frame {
                Some(f) => {
                    return f;
                },
                None => {},
            }
        }
    }

    /// The PPU's mask register, which the frame converters need for color emphasis.
    pub fn get_ppu_mask_reg(&mut self) -> (r: MaskReg)
        ensures
            r == old(self)@.bus.ppu.spec_mask(),
            final(self)@ == old(self)@,
    {
        self.bus.ppu().mask_reg()
    }

    /// Sets the buttons held on the first controller.
    pub fn set_controller1(&mut self, state: u8)
        requires
            old(self)@.wf(),
        ensures
            final(self)@.wf(),
            final(self)@ == (EmulatorState {
                bus: CpuBusState { controller1: state, ..old(self)@.bus },
                ..old(self)@
            }),
    {
        self.bus.set_controller1(state);
    }

    /// Sets the buttons held on the second controller.
    pub fn set_controller2(&mut self, state: u8)
        requires
            old(self)@.wf(),
        ensures
            final(self)@.wf(),
            final(self)@ == (EmulatorState {
                bus: CpuBusState { controller2: state, ..old(self)@.bus },
                ..old(self)@
            }),
    {
        self.bus.set_controller2(state);
    }

    /// RESET: the CPU's reset sequence, a fresh PPU, and the clock phase at 0.
    pub fn reset(&mut self)
        requires
            old(self)@.wf(),
        ensures
            final(self)@.wf(),
            final(self)@ == after_reset(old(self)@),
    {
        self.cpu.reset(&mut self.bus);
        self.bus.reset_ppu();
        proof {
            Ppu::lemma_initial_wf();
        }
        self.clock_count = 0;
    }

    /// The cartridge's battery-backed RAM, for cartridges that have one.
    pub fn get_save_data(&self) -> (r: Option<&[u8]>)
        ensures
            match (r, self@.bus.ppu_bus.cart.mapper.sram()) {
                (Some(d), Some(s)) => d@ == s,
                (None, None) => true,
                _ => false,
            },
    {
        self.bus.ppu_bus().cartridge().get_save_data()
    }

    /// The disassembly of cartridge space from `$4020`. The range arguments are not
    /// used: the whole cartridge space is listed.
    pub fn disassemble(&self, start: u16, end: u16) -> (r: Vec<(Option<u8>, u16, String)>)
        ensures
            lines_view(r@) == spec_disassembly(self@.bus.ppu_bus.cart, 0x4020),
    {
        disassemble(self.bus.ppu_bus().cartridge(), 0x4020)
    }

    /// The bytes from `start` to `end` inclusive, as the CPU reads them (reads of
    /// registers with side effects have their effects).
    pub fn mem_dump(&mut self, start: u16, end: u16) -> (r: Vec<u8>)
        requires
            old(self)@.wf(),
        ensures
            final(self)@.wf(),
            r@ == dump(old(self)@.bus, start, end).0,
            final(self)@ == (EmulatorState { bus: dump(old(self)@.bus, start, end).1, ..old(self)@ }),
    {
        let mut data: Vec<u8> = Vec::new();
        if start > end {
            return data;
        }
        let mut addr = start;
        let ghost b0 = self.bus@;
        loop
            invariant
                start <= addr <= end,
                self.bus@.wf(),
                self.cpu == old(self).cpu,
                self.clock_count == old(self).clock_count,
                b0 == old(self)@.bus,
                data@ + dump(self.bus@, addr, end).0 == dump(b0, start, end).0,
                dump(self.bus@, addr, end).1 == dump(b0, start, end).1,
            decreases end - addr,
        {
            let ghost before = self.bus@;
            let v = self.bus.read(addr);
            data.push(v);
            if addr == end {
                proof {
                    assert(data@ =~= dump(b0, start, end).0);
                }
                return data;
            }
            proof {
                assert(data@ + dump(self.bus@, (addr + 1) as u16, end).0 =~= dump(b0, start, end).0);
            }
            addr = addr + 1;
        }
    }

    /// The CPU's registers.
    pub fn cpu(&self) -> (r: &Cpu)
        ensures
            *r == self@.cpu,
    {
        &self.cpu
    }
}

/// Bytes of a frame as RGB.
pub const RGB_FRAME_SIZE: usize = 184320;

/// Bytes of a frame as RGBA or ARGB.
pub const RGBA_FRAME_SIZE: usize = 245760;

/// A color channel dimmed by emphasis: 85%, rounded down.
pub open spec fn spec_deemphasize(c: u8) -> u8 {
    (c as int * 85 / 100) as u8
}

/// A color channel brightened by emphasis: 110%, rounded down, at most 255.
pub open spec fn spec_emphasize(c: u8) -> u8 {
    if c as int * 11 / 10 > 255 {
        255
    } else {
        (c as int * 11 / 10) as u8
    }
}

/// Channel `k` (0 red, 1 green, 2 blue) of palette entry `i`, whose value is `c`, under
/// the emphasis bits of mask register value `mask`. With no emphasis, or for entries
/// `$0F` and `$3F`, nothing changes; with all three bits every channel is dimmed;
/// otherwise the emphasized channels are brightened and the others dimmed.
pub open spec fn emphasis_channel(mask: u8, i: int, k: int, c: u8) -> u8 {
    let r = has_all(mask, MASK_EMPHASISE_RED);
    let g = has_all(mask, MASK_EMPHASISE_GREEN);
    let b = has_all(mask, MASK_EMPHASISE_BLUE);
    if !(r || g || b) || i == 0x0F || i >= 0x3F {
        c
    } else if r && g && b {
        spec_deemphasize(c)
    } else if (k == 0 && r) || (k == 1 && g) || (k == 2 && b) {
        spec_emphasize(c)
    } else {
        spec_deemphasize(c)
    }
}

/// Channel `k` of the color that pixel value `pixel` shows under mask value `mask`.
pub open spec fn pixel_channel(mask: u8, pixel: u8, k: int) -> u8 {
    emphasis_channel(mask, pixel as int % 64, k, RGB_PALETTE@[pixel as int % 64]@[k])
}

/// Where channel `k` of pixel `j` lands in a frame with `width` bytes per pixel.
pub open spec fn byte_index(j: int, k: int, width: int) -> int {
    j * width + k
}

/// Dims a color channel to 85%.
pub fn deemphasize_color(color: u8) -> (r: u8)
    ensures
        r == spec_deemphasize(color),
{
    ((color as u16 * 85) / 100) as u8
}

/// Brightens a color channel to 110%, saturating at 255.
pub fn emphasize_color(color: u8) -> (r: u8)
    ensures
        r == spec_emphasize(color),
{
    let emphasized = (color as u16 * 11) / 10;
    if emphasized > 255 {
        255
    } else {
        emphasized as u8
    }
}

/// Applies the mask register's color emphasis to `new_palette`; see [`emphasis_channel`].
pub fn apply_emphasis(mask_reg: MaskReg, new_palette: &mut [[u8; 3]; 64])
    ensures
        forall|i: int, k: int|
            0 <= i < 64 && 0 <= k < 3 ==> #[trigger] final(new_palette)@[i]@[k] == emphasis_channel(
                mask_reg.spec_bits(),
                i,
                k,
                old(new_palette)@[i]@[k],
            ),
{
    let r = mask_reg.contains(MASK_EMPHASISE_RED);
    let g = mask_reg.contains(MASK_EMPHASISE_GREEN);
    let b = mask_reg.contains(MASK_EMPHASISE_BLUE);
    if !r && !g && !b {
        return;
    }
    let all = r && g && b;
    let mut i: usize = 0;
    while i < 0x3F
        invariant
            i <= 0x3F,
            r == has_all(mask_reg.spec_bits(), MASK_EMPHASISE_RED),
            g == has_all(mask_reg.spec_bits(), MASK_EMPHASISE_GREEN),
            b == has_all(mask_reg.spec_bits(), MASK_EMPHASISE_BLUE),
            all == (r && g && b),
            r || g || b,
            forall|j: int, k: int|
                0 <= j < 64 && 0 <= k < 3 ==> #[trigger] new_palette@[j]@[k] == if j < i {
                    emphasis_channel(mask_reg.spec_bits(), j, k, old(new_palette)@[j]@[k])
                } else {
                    old(new_palette)@[j]@[k]
                },
        decreases 0x3F - i,
    {
        // Color $0F (black) is left alone.
        if i != 0x0F {
            let colors = new_palette[i];
            let c0 = if r && !all {
                emphasize_color(colors[0])
            } else {
                deemphasize_color(colors[0])
            };
            let c1 = if g && !all {
                emphasize_color(colors[1])
            } else {
                deemphasize_color(colors[1])
            };
            let c2 = if b && !all {
                emphasize_color(colors[2])
            } else {
                deemphasize_color(colors[2])
            };
            new_palette[i] = [c0, c1, c2];
        }
        i = i + 1;
    }
}

/// Converts a frame of palette indices to RGB bytes, three per pixel, with the mask
/// register's color emphasis.
pub fn frame_to_rgb(mask_reg: MaskReg, frame: &PpuFrame, output: &mut [u8; RGB_FRAME_SIZE])
    ensures
        forall|j: int, k: int|
            0 <= j < FRAME_SIZE && 0 <= k < 3 ==> final(output)@[#[trigger] byte_index(j, k, 3)]
                == pixel_channel(mask_reg.spec_bits(), frame@[j], k),
{
    let mut palette = RGB_PALETTE;
    apply_emphasis(mask_reg, &mut palette);
    let mut i: usize = 0;
    while i < FRAME_SIZE
        invariant
            i <= FRAME_SIZE,
            forall|p: int, k: int|
                0 <= p < 64 && 0 <= k < 3 ==> #[trigger] palette@[p]@[k] == emphasis_channel(
                    mask_reg.spec_bits(),
                    p,
                    k,
                    RGB_PALETTE@[p]@[k],
                ),
            forall|j: int, k: int|
                0 <= j < i && 0 <= k < 3 ==> output@[#[trigger] byte_index(j, k, 3)]
                    == pixel_channel(mask_reg.spec_bits(), frame@[j], k),
        decreases FRAME_SIZE - i,
    {
        let f = palette[(frame[i] % 64) as usize];
        output[i * 3] = f[0];
        output[i * 3 + 1] = f[1];
        output[i * 3 + 2] = f[2];
        proof {
            assert forall|j: int, k: int| 0 <= j < i + 1 && 0 <= k < 3 implies output@[
                #[trigger] byte_index(j, k, 3)] == pixel_channel(mask_reg.spec_bits(), frame@[j], k) by {
                if j == i {
                    assert(palette@[frame@[j] as int % 64]@[k] == pixel_channel(mask_reg.spec_bits(), frame@[j], k));
                }
            }
        }
        i = i + 1;
    }
}

/// Converts a frame of palette indices to RGBA bytes, four per pixel (alpha 255), with
/// the mask register's color emphasis.
pub fn frame_to_rgba(mask_reg: MaskReg, frame: &PpuFrame, output: &mut [u8; RGBA_FRAME_SIZE])
    ensures
        forall|j: int, k: int|
            0 <= j < FRAME_SIZE && 0 <= k < 3 ==> final(output)@[#[trigger] byte_index(j, k, 4)]
                == pixel_channel(mask_reg.spec_bits(), frame@[j], k),
        forall|j: int| 0 <= j < FRAME_SIZE ==> final(output)@[#[trigger] byte_index(j, 3, 4)] == 0xff,
{
    let mut palette = RGB_PALETTE;
    apply_emphasis(mask_reg, &mut palette);
    let mut i: usize = 0;
    while i < FRAME_SIZE
        invariant
            i <= FRAME_SIZE,
            forall|p: int, k: int|
                0 <= p < 64 && 0 <= k < 3 ==> #[trigger] palette@[p]@[k] == emphasis_channel(
                    mask_reg.spec_bits(),
                    p,
                    k,
                    RGB_PALETTE@[p]@[k],
                ),
            forall|j: int, k: int|
                0 <= j < i && 0 <= k < 3 ==> output@[#[trigger] byte_index(j, k, 4)]
                    == pixel_channel(mask_reg.spec_bits(), frame@[j], k),
            forall|j: int| 0 <= j < i ==> output@[#[trigger] byte_index(j, 3, 4)] == 0xff,
        decreases FRAME_SIZE - i,
    {
        let f = palette[(frame[i] % 64) as usize];
        output[i * 4] = f[0];
        output[i * 4 + 1] = f[1];
        output[i * 4 + 2] = f[2];
        // Opaque.
        output[i * 4 + 3] = 0xff;
        proof {
            assert forall|j: int, k: int| 0 <= j < i + 1 && 0 <= k < 3 implies output@[
                #[trigger] byte_index(j, k, 4)] == pixel_channel(mask_reg.spec_bits(), frame@[j], k) by {
                if j == i {
                    assert(palette@[frame@[j] as int % 64]@[k] == pixel_channel(mask_reg.spec_bits(), frame@[j], k));
                }
            }
            assert forall|j: int| 0 <= j < i + 1 implies output@[#[trigger] byte_index(j, 3, 4)] == 0xff by {
            }
        }
        i = i + 1;
    }
}

/// Converts a frame of palette indices to bytes in B, G, R, A order, four per pixel
/// (alpha 255), with the mask register's color emphasis.
pub fn frame_to_argb(mask_reg: MaskReg, frame: &PpuFrame, output: &mut [u8; RGBA_FRAME_SIZE])
    ensures
        forall|j: int, k: int|
            0 <= j < FRAME_SIZE && 0 <= k < 3 ==> final(output)@[#[trigger] byte_index(j, 2 - k, 4)]
                == pixel_channel(mask_reg.spec_bits(), frame@[j], k),
        forall|j: int| 0 <= j < FRAME_SIZE ==> final(output)@[#[trigger] byte_index(j, 3, 4)] == 0xff,
{
    let mut palette = RGB_PALETTE;
    apply_emphasis(mask_reg, &mut palette);
    let mut i: usize = 0;
    while i < FRAME_SIZE
        invariant
            i <= FRAME_SIZE,
            forall|p: int, k: int|
                0 <= p < 64 && 0 <= k < 3 ==> #[trigger] palette@[p]@[k] == emphasis_channel(
                    mask_reg.spec_bits(),
                    p,
                    k,
                    RGB_PALETTE@[p]@[k],
                ),
            forall|j: int, k: int|
                0 <= j < i && 0 <= k < 3 ==> output@[#[trigger] byte_index(j, 2 - k, 4)]
                    == pixel_channel(mask_reg.spec_bits(), frame@[j], k),
            forall|j: int| 0 <= j < i ==> output@[#[trigger] byte_index(j, 3, 4)] == 0xff,
        decreases FRAME_SIZE - i,
    {
        let f = palette[(frame[i] % 64) as usize];
        output[i * 4] = f[2];
        output[i * 4 + 1] = f[1];
        output[i * 4 + 2] = f[0];
        // Opaque.
        output[i * 4 + 3] = 0xff;
        proof {
            assert forall|j: int, k: int| 0 <= j < i + 1 && 0 <= k < 3 implies output@[
                #[trigger] byte_index(j, 2 - k, 4)] == pixel_channel(mask_reg.spec_bits(), frame@[j], k) by {
                if j == i {
                    assert(palette@[frame@[j] as int % 64]@[k] == pixel_channel(mask_reg.spec_bits(), frame@[j], k));
                }
            }
            assert forall|j: int| 0 <= j < i + 1 implies output@[#[trigger] byte_index(j, 3, 4)] == 0xff by {
            }
        }
        i = i + 1;
    }
}

} // verus!
