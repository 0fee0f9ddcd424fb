//! The picture processing unit: registers, sprite evaluation and the pixel pipeline.
pub mod registers;
pub mod sprites;
pub mod timing;

use vstd::prelude::*;

use self::registers::{
    coarse_x_of, coarse_y_of, fine_y_of, nametable_of,
    bit, has_all, pow2_u8, ControlReg, MaskReg, StatusReg, VramAddr, CTRL_GENERATE_NMI,
    MASK_GREYSCALE, MASK_LEFTMOST_8PXL_BACKGROUND, MASK_LEFTMOST_8PXL_SPRITE, MASK_SHOW_BACKGROUND,
    MASK_SHOW_SPRITES, STATUS_SPRITE_OVERFLOW, STATUS_SPRITE_ZERO_HIT, STATUS_VBLANK_STARTED,
};
use self::sprites::{SpriteEvalutationState, SpriteXCounter, SpriteZeroHitState};
use crate::bus::{PpuBus, PpuBusState};

verus! {

broadcast use vstd::array::group_array_axioms;

/// Width of a frame in pixels.
pub const FRAME_WIDTH: usize = 256;
/// Height of a frame in pixels.
pub const FRAME_HEIGHT: usize = 240;
/// Number of pixels in a frame.
pub const FRAME_SIZE: usize = 61440;

/// A frame: one palette index per pixel, row by row.
pub type PpuFrame = [u8; FRAME_SIZE];

/// Whether bit `i` of a 16-bit value is set.
pub open spec fn bit16(v: u16, i: int) -> bool {
    (v as int / pow2_16(i)) % 2 == 1
}

/// `2^i` for `0 <= i < 16`.
pub open spec fn pow2_16(i: int) -> int
    decreases i,
{
    if i <= 0 {
        1
    } else {
        2 * pow2_16(i - 1)
    }
}

/// The palette RAM slot a palette address uses: the first entry of every group of four
/// is shared between background and sprites.
pub open spec fn palette_slot(addr: u16) -> int {
    if addr % 4 == 0 {
        addr as int % 16
    } else {
        addr as int % 32
    }
}

/// `b` with its bits in reverse order.
pub open spec fn reversed(b: u8) -> u8 {
    (bit_val(b, 0) * 128 + bit_val(b, 1) * 64 + bit_val(b, 2) * 32 + bit_val(b, 3) * 16
        + bit_val(b, 4) * 8 + bit_val(b, 5) * 4 + bit_val(b, 6) * 2 + bit_val(b, 7)) as u8
}

/// Bit `i` of `b`, as 0 or 1.
pub open spec fn bit_val(b: u8, i: int) -> int {
    (b as int / pow2_u8(i)) % 2
}

/// Reverses the bit order of a byte.
pub fn reverse_bits(b: u8) -> (r: u8)
    ensures
        r == reversed(b),
{
    let r = ((b & 1) << 7u8) | ((b & 2) << 5u8) | ((b & 4) << 3u8) | ((b & 8) << 1u8) | ((b
        & 16) >> 1u8) | ((b & 32) >> 3u8) | ((b & 64) >> 5u8) | ((b & 128) >> 7u8);
    assert(r == (b % 2) * 128 + ((b / 2) % 2) * 64 + ((b / 4) % 2) * 32 + ((b / 8) % 2) * 16 + ((b
        / 16) % 2) * 8 + ((b / 32) % 2) * 4 + ((b / 64) % 2) * 2 + (b / 128) % 2) by (bit_vector)
        requires
            r == ((b & 1) << 7u8) | ((b & 2) << 5u8) | ((b & 4) << 3u8) | ((b & 8) << 1u8) | ((b
                & 16) >> 1u8) | ((b & 32) >> 3u8) | ((b & 64) >> 5u8) | ((b & 128) >> 7u8),
    ;
    r
}

/// The picture processing unit.
pub struct Ppu {
    // Internal memory
    palette_table: [u8; 32],
    oam_data: [u8; 256],
    secondary_oam: [u8; 32],
    // Rendering pipeline
    pattern_pipeline: [u16; 2],
    palette_pipeline: [u16; 2],
    sprites_pipeline: [u8; 16],
    sprites_attributes: [u8; 8],
    sprites_x_counter: [SpriteXCounter; 8],
    sprite_evaluation_state: SpriteEvalutationState,
    oam_pointer: u8,
    secondary_oam_pointer: u8,
    oam_latch: u8,
    oam_temp_y_buffer: u8,
    oam_temp_tile_buffer: u8,
    // Registers
    ctrl_reg: ControlReg,
    mask_reg: MaskReg,
    status_reg: StatusReg,
    oam_addr_reg: u8,
    vram_addr: VramAddr,
    temp_vram_addr: VramAddr,
    fine_x: u8,
    write_latch: bool,
    // Timing and output
    cycle_count: u16,
    scanline: i16,
    frame: PpuFrame,
    vblank_nmi_set: bool,
    last_data_on_bus: u8,
    sprite_zero_hit_state: SpriteZeroHitState,
    is_odd_frame: bool,
    // Buffers for cycle-accurate reads
    nt_buffer: u8,
    at_buffer: u8,
    bg_lo_buffer: u8,
    bg_hi_buffer: u8,
}

impl Ppu {
    /// The well-formedness every reachable state keeps.
    pub closed spec fn wf(self) -> bool {
        &&& self.fine_x < 8
        &&& self.cycle_count <= 340
        &&& -1 <= self.scanline <= 260
        &&& self.oam_pointer <= 64
        &&& self.secondary_oam_pointer <= 8
        &&& match self.sprite_evaluation_state {
            SpriteEvalutationState::Idle => true,
            SpriteEvalutationState::CheckY => self.oam_pointer < 64 && self.secondary_oam_pointer
                < 8,
            SpriteEvalutationState::CopyOam(m) => 1 <= m <= 3 && self.oam_pointer < 64
                && self.secondary_oam_pointer < 8,
            SpriteEvalutationState::EvaluateOverflow(m) => self.oam_pointer < 64 && m
                <= self.oam_pointer,
        }
        &&& self.sprite_zero_hit_state.wf()
        &&& forall|i: int| 0 <= i < 8 ==> (#[trigger] self.sprites_x_counter[i]).wf()
    }

    /// The dot within the scanline (0..=340).
    pub closed spec fn spec_cycle(self) -> u16 {
        self.cycle_count
    }

    /// The scanline (-1 is the pre-render line).
    pub closed spec fn spec_scanline(self) -> i16 {
        self.scanline
    }

    /// The rendered frame.
    pub closed spec fn spec_frame(self) -> Seq<u8> {
        self.frame@
    }

    /// The status register.
    pub closed spec fn spec_status(self) -> StatusReg {
        self.status_reg
    }

    /// The control register.
    pub closed spec fn spec_ctrl(self) -> ControlReg {
        self.ctrl_reg
    }

    /// The mask register.
    pub closed spec fn spec_mask(self) -> MaskReg {
        self.mask_reg
    }

    /// The VRAM address used by PPUDATA.
    pub closed spec fn spec_vram_addr(self) -> VramAddr {
        self.vram_addr
    }

    /// The temporary VRAM address written by PPUSCROLL and PPUADDR.
    pub closed spec fn spec_temp_vram_addr(self) -> VramAddr {
        self.temp_vram_addr
    }

    /// The write toggle shared by PPUSCROLL and PPUADDR.
    pub closed spec fn spec_write_latch(self) -> bool {
        self.write_latch
    }

    /// The OAM address.
    pub closed spec fn spec_oam_addr(self) -> u8 {
        self.oam_addr_reg
    }

    /// Object attribute memory.
    pub closed spec fn spec_oam(self) -> Seq<u8> {
        self.oam_data@
    }

    /// Palette RAM.
    pub closed spec fn spec_palette(self) -> Seq<u8> {
        self.palette_table@
    }

    /// Whether an NMI is pending for the CPU.
    pub closed spec fn spec_nmi_pending(self) -> bool {
        self.vblank_nmi_set
    }

    /// Whether the frame in progress is an odd one.
    pub closed spec fn spec_odd_frame(self) -> bool {
        self.is_odd_frame
    }

    /// The buffered byte returned by the next PPUDATA read below `$3F00`.
    pub closed spec fn spec_read_buffer(self) -> u8 {
        self.last_data_on_bus
    }

    /// The power-on state.
    pub closed spec fn initial() -> Ppu {
        Ppu {
            palette_table: vstd::array::spec_array_fill_for_copy_type(0u8),
            oam_data: vstd::array::spec_array_fill_for_copy_type(0u8),
            secondary_oam: vstd::array::spec_array_fill_for_copy_type(0xffu8),
            pattern_pipeline: vstd::array::spec_array_fill_for_copy_type(0u16),
            palette_pipeline: vstd::array::spec_array_fill_for_copy_type(0u16),
            sprites_pipeline: vstd::array::spec_array_fill_for_copy_type(0u8),
            sprites_attributes: vstd::array::spec_array_fill_for_copy_type(0u8),
            sprites_x_counter: vstd::array::spec_array_fill_for_copy_type(
                SpriteXCounter::WontRender,
            ),
            sprite_evaluation_state: SpriteEvalutationState::Idle,
            oam_pointer: 0,
            secondary_oam_pointer: 0,
            oam_latch: 0,
            oam_temp_y_buffer: 0,
            oam_temp_tile_buffer: 0,
            ctrl_reg: ControlReg::spec_from_bits(0),
            mask_reg: MaskReg::spec_from_bits(0),
            status_reg: StatusReg::spec_from_bits(0),
            oam_addr_reg: 0,
            vram_addr: VramAddr::spec_new(),
            temp_vram_addr: VramAddr::spec_new(),
            fine_x: 0,
            write_latch: false,
            cycle_count: 0,
            scanline: -1i16,
            frame: vstd::array::spec_array_fill_for_copy_type(0u8),
            vblank_nmi_set: false,
            last_data_on_bus: 0,
            sprite_zero_hit_state: SpriteZeroHitState::Idle,
            is_odd_frame: false,
            nt_buffer: 0,
            at_buffer: 0,
            bg_lo_buffer: 0,
            bg_hi_buffer: 0,
        }
    }

    /// How far a PPUDATA access moves the VRAM address.
    pub open spec fn vram_step(self) -> int {
        if bit(self.spec_ctrl().spec_bits(), 2) {
            32
        } else {
            1
        }
    }

    /// This state with no NMI pending.
    pub closed spec fn nmi_taken(self) -> Ppu {
        Ppu { vblank_nmi_set: false, ..self }
    }

    /// This state with status register `status`.
    pub closed spec fn with_status(self, status: StatusReg) -> Ppu {
        Ppu { status_reg: status, ..self }
    }

    /// This state with the VRAM address advanced by one PPUDATA step (inside 15 bits).
    pub closed spec fn incremented(self) -> Ppu {
        Ppu {
            vram_addr: self.vram_addr.spec_with_value(
                ((self.vram_addr.value() + self.vram_step()) % 0x8000) as u16,
            ),
            ..self
        }
    }

    /// The state of the PPU and its bus after the CPU writes `data` to register `addr`
    /// (mirrored every 8 bytes).
    #[verifier::opaque]
    pub closed spec fn after_write(self, bus: PpuBusState, addr: u16, data: u8) -> (
        Ppu,
        PpuBusState,
    ) {
        let reg = addr % 8;
        if reg == 0 {
            let was_enabled = has_all(self.ctrl_reg.spec_bits(), CTRL_GENERATE_NMI);
            let in_vblank = has_all(self.status_reg.spec_bits(), STATUS_VBLANK_STARTED);
            (
                Ppu {
                    ctrl_reg: ControlReg::spec_from_bits(data),
                    temp_vram_addr: self.temp_vram_addr.spec_set_nametable((data % 4) as u16),
                    vblank_nmi_set: if !was_enabled && data >= 0x80 && in_vblank {
                        true
                    } else {
                        self.vblank_nmi_set
                    },
                    ..self
                },
                bus,
            )
        } else if reg == 1 {
            (Ppu { mask_reg: MaskReg::spec_from_bits(data), ..self }, bus)
        } else if reg == 2 {
            (self, bus)
        } else if reg == 3 {
            (Ppu { oam_addr_reg: data, ..self }, bus)
        } else if reg == 4 {
            (
                Ppu {
                    oam_data: vstd::array::spec_array_update(
                        self.oam_data,
                        self.oam_addr_reg as int,
                        data,
                    ),
                    oam_addr_reg: ((self.oam_addr_reg + 1) % 256) as u8,
                    ..self
                },
                bus,
            )
        } else if reg == 5 {
            if self.write_latch {
                (
                    Ppu {
                        temp_vram_addr: self.temp_vram_addr.spec_set_coarse_y(
                            (data / 8) as u16,
                        ).spec_set_fine_y((data % 8) as u16),
                        write_latch: false,
                        ..self
                    },
                    bus,
                )
            } else {
                (
                    Ppu {
                        temp_vram_addr: self.temp_vram_addr.spec_set_coarse_x((data / 8) as u16),
                        fine_x: data % 8,
                        write_latch: true,
                        ..self
                    },
                    bus,
                )
            }
        } else if reg == 6 {
            if self.write_latch {
                let t = self.temp_vram_addr.spec_with_value(
                    (self.temp_vram_addr.value() as int / 256 * 256 + data) as u16,
                );
                (Ppu { temp_vram_addr: t, vram_addr: t, write_latch: false, ..self }, bus)
            } else {
                let t = self.temp_vram_addr.spec_with_value(
                    ((data as int % 64) * 256 + self.temp_vram_addr.value() as int % 256) as u16,
                );
                (Ppu { temp_vram_addr: t, write_latch: true, ..self }, bus)
            }
        } else {
            let a = (self.vram_addr.value() as int % 0x4000) as u16;
            let p = self.incremented();
            if a < 0x2000 {
                (p, bus.after_chr_write(a, data))
            } else if a < 0x3000 {
                (p, bus.after_name_table_write(a, data))
            } else if a < 0x3F00 {
                (p, bus)
            } else {
                (
                    Ppu {
                        palette_table: vstd::array::spec_array_update(
                            p.palette_table,
                            palette_slot(a),
                            data,
                        ),
                        ..p
                    },
                    bus,
                )
            }
        }
    }

    /// The value the CPU reads from register `addr`, with the PPU and bus afterwards.
    #[verifier::opaque]
    pub closed spec fn after_read(self, bus: PpuBusState, addr: u16) -> (u8, Ppu, PpuBusState) {
        let reg = addr % 8;
        if reg == 2 {
            (
                self.status_reg.spec_bits() | (self.last_data_on_bus & 0x1F),
                Ppu {
                    status_reg: StatusReg::spec_from_bits(
                        self.status_reg.spec_bits() & !STATUS_VBLANK_STARTED,
                    ),
                    write_latch: false,
                    ..self
                },
                bus,
            )
        } else if reg == 4 {
            (self.oam_data@[self.oam_addr_reg as int], self, bus)
        } else if reg == 7 {
            let a = (self.vram_addr.value() as int % 0x4000) as u16;
            let p = self.incremented();
            if a < 0x2000 {
                (
                    self.last_data_on_bus,
                    Ppu { last_data_on_bus: bus.chr_read(a), ..p },
                    bus.after_chr_read(a),
                )
            } else if a < 0x3000 {
                (
                    self.last_data_on_bus,
                    Ppu { last_data_on_bus: bus.name_table_read(a), ..p },
                    bus,
                )
            } else if a < 0x3F00 {
                (0, p, bus)
            } else {
                let color = self.palette_table@[palette_slot(a)];
                (
                    if has_all(self.mask_reg.spec_bits(), MASK_GREYSCALE) {
                        color & 0x30
                    } else {
                        color
                    },
                    p,
                    bus,
                )
            }
        } else {
            (0, self, bus)
        }
    }

    /// Register reads keep the PPU well formed.
    pub proof fn lemma_after_read_wf(self, bus: PpuBusState, addr: u16)
        requires
            self.wf(),
        ensures
            self.after_read(bus, addr).1.wf(),
    {
        reveal(Ppu::after_read);
    }

    /// A well-formed PPU is at a dot of its frame: dot 0 to 340 of scanline -1 to 260.
    pub proof fn lemma_wf_dot(self)
        requires
            self.wf(),
        ensures
            self.spec_cycle() <= 340,
            -1 <= self.spec_scanline() <= 260,
    {
    }

    /// The power-on state is well formed.
    pub proof fn lemma_initial_wf()
        ensures
            Ppu::initial().wf(),
    {
    }

    /// Taking the NMI when none is pending changes nothing.
    pub proof fn lemma_nmi_taken_idle(self)
        requires
            !self.spec_nmi_pending(),
        ensures
            self.nmi_taken() == self,
    {
    }

    /// Taking the NMI keeps the PPU well formed.
    pub proof fn lemma_nmi_taken_wf(self)
        requires
            self.wf(),
        ensures
            self.nmi_taken().wf(),
            !self.nmi_taken().spec_nmi_pending(),
    {
    }

    /// OAM DMA keeps the PPU well formed.
    pub proof fn lemma_after_oam_dma_wf(self, buffer: Seq<u8>)
        requires
            self.wf(),
        ensures
            self.after_oam_dma(buffer).wf(),
    {
    }

    /// The PPU after a 256-byte OAM DMA transfer: the bytes land in OAM from the OAM
    /// address on, wrapping, and the address comes back to where it was.
    pub closed spec fn after_oam_dma(self, buffer: Seq<u8>) -> Ppu {
        Ppu { oam_data: oam_fill(self.oam_data, buffer, self.oam_addr_reg, 0), ..self }
    }
}

/// `oam` with `buffer[k]` written at `(start + k) % 256` for every `k` from `i` to 255.
pub open spec fn oam_fill(oam: [u8; 256], buffer: Seq<u8>, start: u8, i: nat) -> [u8; 256]
    decreases 256 - i,
{
    if i >= 256 {
        oam
    } else {
        oam_fill(
            vstd::array::spec_array_update(oam, (start as int + i) % 256, buffer[i as int]),
            buffer,
            start,
            i + 1,
        )
    }
}


/// The dot, scanline and frame parity that follow one PPU clock: 341 dots per scanline,
/// scanlines -1 to 260, and on odd frames with rendering enabled the first dot of the
/// pre-render line is skipped.
pub open spec fn next_timing(cycle: u16, scanline: i16, odd: bool, rendering: bool) -> (
    u16,
    i16,
    bool,
) {
    if cycle + 1 >= 341 {
        if scanline + 1 >= 261 {
            (
                if odd && rendering {
                    1u16
                } else {
                    0u16
                },
                -1i16,
                !odd,
            )
        } else {
            (0u16, (scanline + 1) as i16, odd)
        }
    } else {
        ((cycle + 1) as u16, scanline, odd)
    }
}

/// Whether vertical blanking has started, per a status register value.
pub open spec fn in_vblank(status: StatusReg) -> bool {
    has_all(status.spec_bits(), STATUS_VBLANK_STARTED)
}

/// Whether background or sprites are shown, per a mask register value.
pub open spec fn rendering_on(mask: MaskReg) -> bool {
    has_all(mask.spec_bits(), MASK_SHOW_BACKGROUND) || has_all(mask.spec_bits(), MASK_SHOW_SPRITES)
}

/// The index of pixel `(x, y)` in a frame.
pub open spec fn pixel_index(x: int, y: int) -> int {
    y * 256 + x
}

/// What a bus keeps while the PPU renders: nametables, PRG and CHR memory and the header
/// (the mapper may watch the pattern fetches).
pub open spec fn bus_contents_kept(a: PpuBusState, b: PpuBusState) -> bool {
    &&& b.name_tables == a.name_tables
    &&& b.cart.prg == a.cart.prg
    &&& b.cart.chr == a.cart.chr
    &&& b.cart.header == a.cart.header
}

proof fn lemma_status_bits(b: u8)
    ensures
        has_all(b | STATUS_SPRITE_ZERO_HIT, STATUS_VBLANK_STARTED) == has_all(
            b,
            STATUS_VBLANK_STARTED,
        ),
        has_all(b | STATUS_SPRITE_OVERFLOW, STATUS_VBLANK_STARTED) == has_all(
            b,
            STATUS_VBLANK_STARTED,
        ),
        has_all(b | STATUS_VBLANK_STARTED, STATUS_VBLANK_STARTED),
        !has_all(b & !STATUS_VBLANK_STARTED, STATUS_VBLANK_STARTED),
        has_all((b & !STATUS_SPRITE_ZERO_HIT) & !STATUS_SPRITE_OVERFLOW, STATUS_VBLANK_STARTED)
            == has_all(b, STATUS_VBLANK_STARTED),
{
    lemma_vblank_bit(b);
}

proof fn lemma_vblank_bit(b: u8)
    by (bit_vector)
    ensures
        ((b | 0x40) & 0x80 == 0x80) == (b & 0x80 == 0x80),
        ((b | 0x20) & 0x80 == 0x80) == (b & 0x80 == 0x80),
        (b | 0x80) & 0x80 == 0x80,
        (b & !0x80u8) & 0x80 != 0x80,
        (((b & !0x40u8) & !0x20u8) & 0x80 == 0x80) == (b & 0x80 == 0x80),
{
}

impl Ppu {
    /// The power-on state.
    pub fn new() -> (r: Self)
        ensures
            r == Ppu::initial(),
            r.wf(),
    {
        let r = Ppu {
            palette_table: [0u8; 32],
            oam_data: [0u8; 256],
            secondary_oam: [0xffu8; 32],
            pattern_pipeline: [0u16; 2],
            palette_pipeline: [0u16; 2],
            sprites_pipeline: [0u8; 16],
            sprites_attributes: [0u8; 8],
            sprites_x_counter: [SpriteXCounter::WontRender; 8],
            sprite_evaluation_state: SpriteEvalutationState::Idle,
            oam_pointer: 0,
            secondary_oam_pointer: 0,
            oam_latch: 0,
            oam_temp_y_buffer: 0,
            oam_temp_tile_buffer: 0,
            ctrl_reg: ControlReg::empty(),
            mask_reg: MaskReg::empty(),
            status_reg: StatusReg::empty(),
            oam_addr_reg: 0,
            vram_addr: VramAddr::new(),
            temp_vram_addr: VramAddr::new(),
            fine_x: 0,
            write_latch: false,
            cycle_count: 0,
            scanline: -1,
            frame: [0u8; FRAME_SIZE],
            vblank_nmi_set: false,
            last_data_on_bus: 0,
            sprite_zero_hit_state: SpriteZeroHitState::Idle,
            is_odd_frame: false,
            nt_buffer: 0,
            at_buffer: 0,
            bg_lo_buffer: 0,
            bg_hi_buffer: 0,
        };
        proof {
            ControlReg::lemma_from_bits(0);
            MaskReg::lemma_from_bits(0);
            StatusReg::lemma_from_bits(0);
            assert(r.ctrl_reg == ControlReg::spec_from_bits(0));
            assert(r.mask_reg == MaskReg::spec_from_bits(0));
            assert(r.status_reg == StatusReg::spec_from_bits(0));
        }
        r
    }

    /// Back to the power-on state.
    pub fn reset(&mut self)
        ensures
            *final(self) == Ppu::initial(),
            final(self).wf(),
    {
        *self = Ppu::new();
    }

    /// Returns whether an NMI is pending, and clears it.
    pub fn take_vblank_nmi_set_state(&mut self) -> (r: bool)
        ensures
            r == old(self).spec_nmi_pending(),
            *final(self) == old(self).nmi_taken(),
    {
        let state = self.vblank_nmi_set;
        self.vblank_nmi_set = false;
        state
    }

    /// The mask register.
    pub fn mask_reg(&self) -> (r: MaskReg)
        ensures
            r == self.spec_mask(),
    {
        self.mask_reg
    }

    /// The status register.
    pub fn status_reg(&self) -> (r: StatusReg)
        ensures
            r == self.spec_status(),
    {
        self.status_reg
    }

    /// Replaces the status register.
    pub fn set_status_reg(&mut self, status: StatusReg)
        ensures
            *final(self) == old(self).with_status(status),
    {
        self.status_reg = status;
    }

    /// The VRAM address used by PPUDATA.
    pub fn vram_addr(&self) -> (r: VramAddr)
        ensures
            r == self.spec_vram_addr(),
    {
        self.vram_addr
    }

    /// Moves the VRAM address by one PPUDATA step.
    fn increment_vram_addr(&mut self)
        ensures
            *final(self) == old(self).incremented(),
    {
        let inc_step = self.ctrl_reg.vram_addr_increment();
        let v = self.vram_addr.get();
        let nv = v.wrapping_add(inc_step as u16) & 0x7fff;
        proof {
            let s = inc_step as u16;
            assert(s <= 32 ==> ((v as int + s as int) % 65536) as u16 & 0x7fff == (v as int
                + s as int) % 0x8000) by (bit_vector);
        }
        self.vram_addr.set(nv);
    }

    /// A CPU write to PPU register `addr` (mirrored every 8 bytes).
    #[verifier::rlimit(50)]
    pub fn write(&mut self, bus: &mut PpuBus, addr: u16, data: u8)
        requires
            old(self).wf(),
        ensures
            (*final(self), final(bus)@) == old(self).after_write(old(bus)@, addr, data),
            final(self).wf(),
    {
        proof {
            reveal(Ppu::after_write);
        }
        let reg = addr % 8;
        if reg == 0 {
            let prewrite_generate_nmi = self.ctrl_reg.contains(CTRL_GENERATE_NMI);
            self.ctrl_reg.write(data);
            self.temp_vram_addr.set_nametable((data & 0b11) as u16);
            assert(data & 0b11 == data % 4 && (has_all(data, 0x80) <==> data >= 0x80)) by {
                crate::bits::lemma_byte_bits(data);
            }
            let postwrite_generate_nmi = self.ctrl_reg.contains(CTRL_GENERATE_NMI);
            let is_in_vblank = self.status_reg.contains(STATUS_VBLANK_STARTED);
            if !prewrite_generate_nmi && postwrite_generate_nmi && is_in_vblank {
                self.vblank_nmi_set = true;
            }
        } else if reg == 1 {
            self.mask_reg.write(data);
        } else if reg == 2 {
            // The status register is read-only.
        } else if reg == 3 {
            self.oam_addr_reg = data;
        } else if reg == 4 {
            self.oam_data[self.oam_addr_reg as usize] = data;
            self.oam_addr_reg = self.oam_addr_reg.wrapping_add(1);
            assert(self.oam_data =~= vstd::array::spec_array_update(
                old(self).oam_data,
                old(self).oam_addr_reg as int,
                data,
            ));
        } else if reg == 5 {
            assert(data >> 3u8 == data / 8 && data & 0b111 == data % 8) by {
                crate::bits::lemma_byte_bits(data);
            }
            if self.write_latch {
                self.temp_vram_addr.set_coarse_y((data >> 3u8) as u16);
                self.temp_vram_addr.set_fine_y((data & 0b111) as u16);
            } else {
                self.temp_vram_addr.set_coarse_x((data >> 3u8) as u16);
                self.fine_x = data & 0b111;
            }
            self.write_latch = !self.write_latch;
        } else if reg == 6 {
            let t = self.temp_vram_addr.get();
            if self.write_latch {
                let value = (t & 0xff00) | (data as u16);
                assert((t & 0xff00) | (data as u16) == t / 256 * 256 + data) by {
                    crate::bits::lemma_word_bits(t);
                    crate::bits::lemma_or_low_byte(t & 0xff00, data as u16);
                }
                self.temp_vram_addr.set(value);
                self.vram_addr = self.temp_vram_addr;
            } else {
                let value = (t & 0x00ff) | (((data & 0x3f) as u16) << 8u16);
                assert(data & 0x3f == data % 64 && (t & 0x00ff) | (((data & 0x3f) as u16) << 8u16)
                    == (data % 64) * 256 + t % 256) by {
                    let d = (data & 0x3f) as u16;
                    crate::bits::lemma_byte_bits(data);
                    crate::bits::lemma_word_bits(t);
                    crate::bits::lemma_or_low_byte(0, d);
                    crate::bits::lemma_or_low_byte((d * 256) as u16, t & 0x00ff);
                }
                self.temp_vram_addr.set(value);
            }
            self.write_latch = !self.write_latch;
        } else {
            let write_addr = self.vram_addr.get() & 0x3fff;
            assert(write_addr == self.vram_addr.value() % 0x4000) by {
                crate::bits::lemma_word_bits(self.vram_addr.value());
            }
            self.increment_vram_addr();
            if write_addr < 0x2000 {
                bus.write_chr_mem(write_addr, data);
            } else if write_addr < 0x3000 {
                bus.write_name_tables(write_addr, data);
            } else if write_addr < 0x3F00 {
                // Nothing is mapped at $3000..=$3EFF.
            } else {
                assert(write_addr & 0b11 == write_addr % 4 && write_addr & 0x0f == write_addr % 16
                    && write_addr & 0x1f == write_addr % 32) by {
                    crate::bits::lemma_word_bits(write_addr);
                }
                let slot = if write_addr & 0b11 == 0 {
                    (write_addr & 0x0f) as usize
                } else {
                    (write_addr & 0x1f) as usize
                };
                self.palette_table[slot] = data;
                assert(self.palette_table =~= vstd::array::spec_array_update(
                    old(self).incremented().palette_table,
                    palette_slot(write_addr),
                    data,
                ));
            }
        }
    }

    /// Copies a page of memory into OAM, starting at the OAM address and wrapping.
    pub fn write_oam_dma(&mut self, buffer: &[u8; 256])
        ensures
            *final(self) == old(self).after_oam_dma(buffer@),
    {
        let start = self.oam_addr_reg;
        let mut i: usize = 0;
        while i < 256
            invariant
                i <= 256,
                self.oam_addr_reg as int == (start as int + i) % 256,
                *self == (Ppu { oam_data: self.oam_data, oam_addr_reg: self.oam_addr_reg, ..*old(self) }),
                oam_fill(self.oam_data, buffer@, start, i as nat) == oam_fill(
                    old(self).oam_data,
                    buffer@,
                    start,
                    0,
                ),
            decreases 256 - i,
        {
            let ghost before = self.oam_data;
            self.oam_data[self.oam_addr_reg as usize] = buffer[i];
            assert(self.oam_data =~= vstd::array::spec_array_update(
                before,
                (start as int + i) % 256,
                buffer@[i as int],
            ));
            self.oam_addr_reg = self.oam_addr_reg.wrapping_add(1);
            i = i + 1;
        }
    }

    /// A CPU read of PPU register `addr` (mirrored every 8 bytes).
    pub fn read(&mut self, bus: &mut PpuBus, addr: u16) -> (r: u8)
        requires
            old(self).wf(),
        ensures
            (r, *final(self), final(bus)@) == old(self).after_read(old(bus)@, addr),
            final(self).wf(),
    {
        proof {
            reveal(Ppu::after_read);
        }
        let reg = addr % 8;
        if reg == 2 {
            let snapshot = self.status_reg.read() | (self.last_data_on_bus & 0x1F);
            self.status_reg.remove(STATUS_VBLANK_STARTED);
            self.write_latch = false;
            snapshot
        } else if reg == 4 {
            self.oam_data[self.oam_addr_reg as usize]
        } else if reg == 7 {
            let read_addr = self.vram_addr.get() & 0x3fff;
            proof {
                let v = self.vram_addr.value();
                crate::bits::lemma_word_bits(v);
            }
            self.increment_vram_addr();
            if read_addr < 0x2000 {
                let data = self.last_data_on_bus;
                self.last_data_on_bus = bus.read_chr_mem(read_addr);
                data
            } else if read_addr < 0x3000 {
                let data = self.last_data_on_bus;
                self.last_data_on_bus = bus.read_name_tables(read_addr);
                data
            } else if read_addr < 0x3F00 {
                0
            } else {
                proof {
                    crate::bits::lemma_word_bits(read_addr);
                }
                let color = if read_addr & 0b11 == 0 {
                    self.palette_table[(read_addr & 0x0f) as usize]
                } else {
                    self.palette_table[(read_addr & 0x1f) as usize]
                };
                if self.mask_reg.contains(MASK_GREYSCALE) {
                    color & 0x30
                } else {
                    color
                }
            }
        } else {
            0
        }
    }

    /// The frame, once the last visible pixel has been drawn (dot 256 of scanline 239).
    pub fn ready_frame(&self) -> (r: Option<&PpuFrame>)
        ensures
            match r {
                Some(f) => self.spec_cycle() == 256 && self.spec_scanline() == 239 && f@
                    == self.spec_frame(),
                None => !(self.spec_cycle() == 256 && self.spec_scanline() == 239),
            },
    {
        if self.cycle_count == 256 && self.scanline == 239 {
            Some(&self.frame)
        } else {
            None
        }
    }

    /// Whether background or sprites are shown.
    fn rendering_enabled(&self) -> (r: bool)
        ensures
            r == rendering_on(self.mask_reg),
    {
        self.mask_reg.contains(MASK_SHOW_BACKGROUND) || self.mask_reg.contains(MASK_SHOW_SPRITES)
    }
}

impl Ppu {
    /// What the rendering steps leave alone: the CPU-visible registers and memories and
    /// the timing.
    pub closed spec fn regs_kept(a: Ppu, b: Ppu) -> bool {
        &&& b.ctrl_reg == a.ctrl_reg
        &&& b.mask_reg == a.mask_reg
        &&& b.oam_addr_reg == a.oam_addr_reg
        &&& b.oam_data == a.oam_data
        &&& b.palette_table == a.palette_table
        &&& b.temp_vram_addr == a.temp_vram_addr
        &&& b.fine_x == a.fine_x
        &&& b.write_latch == a.write_latch
        &&& b.last_data_on_bus == a.last_data_on_bus
        &&& b.vblank_nmi_set == a.vblank_nmi_set
        &&& b.cycle_count == a.cycle_count
        &&& b.scanline == a.scanline
        &&& b.is_odd_frame == a.is_odd_frame
    }

    /// The 2-bit sprite pattern value at the head of sprite `i`'s shift registers.
    pub closed spec fn sprite_pattern(self, i: int) -> int {
        (self.sprites_pipeline@[8 + i] as int % 2) * 2 + self.sprites_pipeline@[i] as int % 2
    }

    /// The attribute byte of sprite `i` of the current line.
    pub closed spec fn sprite_attributes(self, i: int) -> u8 {
        self.sprites_attributes@[i]
    }

    /// Whether sprite `i` is drawing an opaque pixel now.
    pub closed spec fn sprite_opaque(self, i: int) -> bool {
        self.sprites_x_counter@[i] is Rendering && self.sprite_pattern(i) != 0
    }

    /// The pixel sprite `i` would draw: its color, whether it is behind the background
    /// and whether it is sprite 0.
    pub closed spec fn sprite_color(self, i: int) -> (u8, bool, bool) {
        let attributes = self.sprites_attributes@[i];
        (
            self.palette_table@[16 + 4 * (attributes as int % 4) + self.sprite_pattern(i)],
            (attributes as int / 32) % 2 == 1,
            i == 0,
        )
    }

    /// The background pixel at the head of the pipelines, selected by fine X: whether it
    /// is transparent, and its color (the backdrop color when it is).
    pub closed spec fn background_pixel(self) -> (bool, u8) {
        let shift = 15 - self.fine_x;
        let pat = (if bit16(self.pattern_pipeline@[1], shift) {
            2int
        } else {
            0int
        }) + (if bit16(self.pattern_pipeline@[0], shift) {
            1int
        } else {
            0int
        });
        let pal = (if bit16(self.palette_pipeline@[1], shift) {
            2int
        } else {
            0int
        }) + (if bit16(self.palette_pipeline@[0], shift) {
            1int
        } else {
            0int
        });
        (
            pat == 0,
            self.palette_table@[if pat == 0 {
                0
            } else {
                pal * 4 + pat
            }],
        )
    }
}

proof fn lemma_bit16(v: u16, s: u16)
    requires
        s < 16,
    ensures
        ((v & (1u16 << s)) >> s) as u8 == (if bit16(v, s as int) {
            1u8
        } else {
            0u8
        }),
{
    assert(pow2_16(s as int) == 1u16 << s) by {
        lemma_pow2_16_shl(s);
    }
    let p = 1u16 << s;
    assert(((v & p) >> s) as u8 == (v / p) % 2) by (bit_vector)
        requires
            p == 1u16 << s,
            s < 16,
    ;
}

proof fn lemma_pow2_16_shl(s: u16)
    requires
        s < 16,
    ensures
        pow2_16(s as int) == 1u16 << s,
    decreases s,
{
    if s == 0 {
        assert(1u16 << 0u16 == 1) by (bit_vector);
    } else {
        lemma_pow2_16_shl((s - 1) as u16);
        let t = (s - 1) as u16;
        assert(t < 15 ==> 1u16 << (t + 1) as u16 == 2 * (1u16 << t)) by (bit_vector);
    }
}

/// A sprite's position counter after one pixel: a pending sprite counts down to its
/// first pixel, a drawing sprite counts its 8 pixels.
pub open spec fn sprite_counter_step(c: SpriteXCounter) -> SpriteXCounter {
    match c {
        SpriteXCounter::NotRendered(x) => if x - 1 == 0 {
            SpriteXCounter::Rendering(0)
        } else {
            SpriteXCounter::NotRendered((x - 1) as u8)
        },
        SpriteXCounter::Rendering(f) => if f + 1 == 8 {
            SpriteXCounter::Rendered
        } else {
            SpriteXCounter::Rendering((f + 1) as u8)
        },
        _ => c,
    }
}

impl Ppu {
    /// Sprite `i` during the per-pixel sprite scan: its counter advances and, while it
    /// draws, its shift registers move on; it gives its pixel when no earlier sprite gave
    /// one and its pixel is opaque.
    pub closed spec fn sprite_scan_step(self, i: int, pixel: Option<(u8, bool, bool)>) -> (
        Option<(u8, bool, bool)>,
        Ppu,
    ) {
        let c = self.sprites_x_counter@[i];
        match c {
            SpriteXCounter::NotRendered(_) => (
                pixel,
                Ppu {
                    sprites_x_counter: vstd::array::spec_array_update(
                        self.sprites_x_counter,
                        i,
                        sprite_counter_step(c),
                    ),
                    ..self
                },
            ),
            SpriteXCounter::Rendering(_) => (
                if pixel is None && self.sprite_pattern(i) != 0 {
                    Some(self.sprite_color(i))
                } else {
                    pixel
                },
                Ppu {
                    sprites_x_counter: vstd::array::spec_array_update(
                        self.sprites_x_counter,
                        i,
                        sprite_counter_step(c),
                    ),
                    sprites_pipeline: vstd::array::spec_array_update(
                        vstd::array::spec_array_update(
                            self.sprites_pipeline,
                            i,
                            self.sprites_pipeline@[i] / 2,
                        ),
                        8 + i,
                        self.sprites_pipeline@[8 + i] / 2,
                    ),
                    ..self
                },
            ),
            _ => (pixel, self),
        }
    }

    /// The per-pixel sprite scan from sprite `i` on, with `pixel` found so far.
    pub closed spec fn sprite_scan(self, i: nat, pixel: Option<(u8, bool, bool)>) -> (
        Option<(u8, bool, bool)>,
        Ppu,
    )
        decreases 8 - i,
    {
        if i >= 8 {
            (pixel, self)
        } else {
            let (px, p) = self.sprite_scan_step(i as int, pixel);
            p.sprite_scan(i + 1, px)
        }
    }
}

impl Ppu {
    /// The state with pixel (`x`, `y`) of the frame set to `color` (greyed out in
    /// greyscale mode); positions past the end of the frame change nothing.
    pub closed spec fn with_pixel(self, x: int, y: int, color: u8) -> Ppu {
        Ppu {
            frame: if pixel_index(x, y) < FRAME_SIZE {
                vstd::array::spec_array_update(
                    self.frame,
                    pixel_index(x, y),
                    if has_all(self.mask_reg.spec_bits(), MASK_GREYSCALE) {
                        color & 0x30
                    } else {
                        color
                    },
                )
            } else {
                self.frame
            },
            ..self
        }
    }

    /// The state after drawing the pixel at the current dot, when it is visible: the
    /// first opaque sprite pixel unless it is behind an opaque background pixel, else the
    /// background (or the backdrop). An opaque sprite 0 pixel over an opaque background,
    /// left of the last column, arms the sprite 0 hit.
    pub closed spec fn spec_render_pixel(self) -> Ppu {
        if self.scanline < 0 || self.scanline > 239 || self.cycle_count < 1 || self.cycle_count
            > 256 {
            self
        } else {
            let x = self.cycle_count - 1;
            let y = self.scanline as int;
            let mask = self.mask_reg.spec_bits();
            let (bg_transparent, bg_color) = if has_all(mask, MASK_SHOW_BACKGROUND) && (x >= 8
                || has_all(mask, MASK_LEFTMOST_8PXL_BACKGROUND)) {
                self.background_pixel()
            } else {
                (true, self.palette_table@[0])
            };
            let (sprite_pixel, s1) = if has_all(mask, MASK_SHOW_SPRITES) {
                let (px, p) = self.sprite_scan(0, None);
                (if x >= 8 || has_all(mask, MASK_LEFTMOST_8PXL_SPRITE) {
                    px
                } else {
                    None
                }, p)
            } else {
                (None, self)
            };
            match sprite_pixel {
                Some((color, behind, zero)) => if bg_transparent {
                    s1.with_pixel(x, y, color)
                } else {
                    let s2 = if s1.sprite_zero_hit_state is OnCurrentScanline && zero && x != 255 {
                        Ppu { sprite_zero_hit_state: SpriteZeroHitState::Delay(2), ..s1 }
                    } else {
                        s1
                    };
                    if behind {
                        s2.with_pixel(x, y, bg_color)
                    } else {
                        s2.with_pixel(x, y, color)
                    }
                },
                None => s1.with_pixel(x, y, bg_color),
            }
        }
    }
}

impl Ppu {
    /// The base of the background pattern table selected by PPUCTRL.
    pub closed spec fn bg_pattern_base(self) -> int {
        if bit(self.ctrl_reg.spec_bits(), 4) {
            0x1000
        } else {
            0
        }
    }

    /// One dot of background fetching, on a rendering dot: the nametable byte (step 1),
    /// the attribute byte (step 3), the low and high pattern bytes (steps 5 and 7) of the
    /// next tile; at step 7 the tile is fed into the low halves of the shift registers and
    /// the VRAM address moves to the next tile, and at dot 256 to the next row.
    pub closed spec fn spec_bg_load(self, bus: PpuBusState) -> (Ppu, PpuBusState) {
        let step = (self.cycle_count - 1) % 8;
        let v = self.vram_addr.value();
        if step == 1 {
            let address = (v as int % 0x1000 + 0x2000) as u16;
            (Ppu { nt_buffer: bus.name_table_read(address), ..self }, bus)
        } else if step == 3 {
            let address = (0x23c0 + nametable_of(v) * 1024 + (coarse_y_of(v) / 4) * 8 + coarse_x_of(v)
                / 4) as u16;
            (Ppu { at_buffer: bus.name_table_read(address), ..self }, bus)
        } else if step == 5 {
            let address = (self.bg_pattern_base() + self.nt_buffer * 16 + fine_y_of(v)) as u16;
            (Ppu { bg_lo_buffer: bus.chr_read(address), ..self }, bus.after_chr_read(address))
        } else if step == 7 {
            let address = (self.bg_pattern_base() + self.nt_buffer * 16 + 8 + fine_y_of(v)) as u16;
            let hi = bus.chr_read(address);
            let at = self.at_buffer;
            let bits = if (coarse_y_of(v) / 2) % 2 == 0 {
                if (coarse_x_of(v) / 2) % 2 == 0 {
                    at % 4
                } else {
                    (at / 4) % 4
                }
            } else {
                if (coarse_x_of(v) / 2) % 2 == 0 {
                    (at / 16) % 4
                } else {
                    (at / 64) % 4
                }
            };
            let bits_lo: u16 = if bits % 2 == 1 {
                0xff
            } else {
                0
            };
            let bits_hi: u16 = if bits / 2 == 1 {
                0xff
            } else {
                0
            };
            let moved = self.vram_addr.spec_increment_coarse_x();
            (
                Ppu {
                    bg_hi_buffer: hi,
                    pattern_pipeline: vstd::array::spec_array_update(
                        vstd::array::spec_array_update(
                            self.pattern_pipeline,
                            0,
                            self.pattern_pipeline@[0] | (self.bg_lo_buffer as u16),
                        ),
                        1,
                        self.pattern_pipeline@[1] | (hi as u16),
                    ),
                    palette_pipeline: vstd::array::spec_array_update(
                        vstd::array::spec_array_update(
                            self.palette_pipeline,
                            0,
                            self.palette_pipeline@[0] | bits_lo,
                        ),
                        1,
                        self.palette_pipeline@[1] | bits_hi,
                    ),
                    vram_addr: if self.cycle_count == 256 {
                        moved.spec_increment_fine_y()
                    } else {
                        moved
                    },
                    ..self
                },
                bus.after_chr_read(address),
            )
        } else {
            (self, bus)
        }
    }
}

impl Ppu {
    /// The sprite height selected by PPUCTRL: 8 or 16.
    pub closed spec fn sprite_height(self) -> u8 {
        if bit(self.ctrl_reg.spec_bits(), 5) {
            16
        } else {
            8
        }
    }

    /// Whether a sprite whose top is at `top` covers the current scanline.
    pub closed spec fn on_scanline(self, top: u8) -> bool {
        ((self.scanline - top + 256) % 256) < self.sprite_height()
    }

    /// One dot of sprite evaluation (dots 65..=256): on odd dots a byte of OAM is
    /// latched; on even dots the state machine acts on it.
    pub closed spec fn spec_sprite_evaluation(self) -> Ppu {
        let cycle = self.cycle_count;
        match self.sprite_evaluation_state {
            SpriteEvalutationState::Idle => self,
            SpriteEvalutationState::CheckY => if cycle % 2 == 1 {
                Ppu { oam_latch: self.oam_data@[self.oam_pointer * 4], ..self }
            } else {
                let sp = self.secondary_oam_pointer;
                let copied = Ppu {
                    secondary_oam: vstd::array::spec_array_update(
                        self.secondary_oam,
                        (sp << 2u8) as int,
                        self.oam_latch,
                    ),
                    ..self
                };
                if self.on_scanline(self.oam_latch) {
                    Ppu {
                        sprite_evaluation_state: SpriteEvalutationState::CopyOam(1),
                        sprite_zero_hit_state: if self.oam_pointer == 0 {
                            match self.sprite_zero_hit_state {
                                SpriteZeroHitState::Idle => SpriteZeroHitState::IsInOam,
                                SpriteZeroHitState::OnCurrentScanline(_) =>
                                    SpriteZeroHitState::OnCurrentScanline(true),
                                z => z,
                            }
                        } else {
                            self.sprite_zero_hit_state
                        },
                        ..copied
                    }
                } else {
                    let next = (self.oam_pointer + 1) as u8;
                    Ppu {
                        oam_pointer: next,
                        sprite_evaluation_state: if next == 64 {
                            SpriteEvalutationState::Idle
                        } else {
                            SpriteEvalutationState::CheckY
                        },
                        ..copied
                    }
                }
            },
            SpriteEvalutationState::CopyOam(m) => if cycle % 2 == 1 {
                Ppu { oam_latch: self.oam_data@[self.oam_pointer * 4 + m], ..self }
            } else {
                let sp = self.secondary_oam_pointer;
                let copied = Ppu {
                    secondary_oam: vstd::array::spec_array_update(
                        self.secondary_oam,
                        ((sp << 2u8) | m) as int,
                        self.oam_latch,
                    ),
                    ..self
                };
                if m == 3 {
                    let op = (self.oam_pointer + 1) as u8;
                    let sp2 = (sp + 1) as u8;
                    Ppu {
                        oam_pointer: op,
                        secondary_oam_pointer: sp2,
                        sprite_evaluation_state: if op == 64 {
                            SpriteEvalutationState::Idle
                        } else if sp2 < 8 {
                            SpriteEvalutationState::CheckY
                        } else {
                            SpriteEvalutationState::EvaluateOverflow(0)
                        },
                        ..copied
                    }
                } else {
                    Ppu {
                        sprite_evaluation_state: SpriteEvalutationState::CopyOam((m + 1) as u8),
                        ..copied
                    }
                }
            },
            SpriteEvalutationState::EvaluateOverflow(m) => if cycle % 2 == 1 {
                Ppu {
                    oam_latch: self.oam_data@[((self.oam_pointer << 2u8) | m) as int],
                    ..self
                }
            } else if self.on_scanline(self.oam_latch) {
                Ppu {
                    status_reg: StatusReg::spec_from_bits(
                        self.status_reg.spec_bits() | STATUS_SPRITE_OVERFLOW,
                    ),
                    sprite_evaluation_state: SpriteEvalutationState::Idle,
                    ..self
                }
            } else {
                let op = (self.oam_pointer + 1) as u8;
                Ppu {
                    oam_pointer: op,
                    sprite_evaluation_state: if op == 64 {
                        SpriteEvalutationState::Idle
                    } else {
                        SpriteEvalutationState::EvaluateOverflow((m + 1) as u8)
                    },
                    ..self
                }
            },
        }
    }

    /// The pattern address of row `y` of the sprite being fetched, for `plane` (0 low,
    /// 8 high), with its attributes `attributes` and tile `tile`.
    pub closed spec fn sprite_pattern_addr(self, y: u16, plane: u16, attributes: u8, tile: u16) -> u16 {
        let flip_y = (attributes / 128) % 2 == 1;
        if self.sprite_height() == 8 {
            let bank: u16 = if bit(self.ctrl_reg.spec_bits(), 3) {
                0x1000
            } else {
                0
            };
            let flipped_y = if flip_y {
                ((7 - y + 65536) % 65536) as u16
            } else {
                y
            };
            bank | plane | (tile << 4u16) | flipped_y
        } else {
            let bank: u16 = if tile % 2 == 1 {
                0x1000
            } else {
                0x0000
            };
            let flipped_y = if flip_y {
                ((15 - y + 65536) % 65536) as u16
            } else {
                y
            };
            let flipped_y = if flipped_y >= 8 {
                ((flipped_y + 8) % 65536) as u16
            } else {
                flipped_y
            };
            bank | plane | ((tile & 0xfffe) << 4u16) | flipped_y
        }
    }

    /// One dot of sprite work on a visible scanline: secondary OAM cleared on dots
    /// 1..=64, sprite evaluation on dots 65..=256, and on dots 257..=320 the selected
    /// sprites' Y, tile, attributes and X read back from secondary OAM and their two
    /// pattern bytes fetched (mirrored unless flipped horizontally).
    pub closed spec fn spec_sprites_load(self, bus: PpuBusState) -> (Ppu, PpuBusState) {
        let cycle = self.cycle_count;
        if cycle == 0 {
            (
                Ppu {
                    sprite_evaluation_state: SpriteEvalutationState::CheckY,
                    oam_pointer: 0,
                    secondary_oam_pointer: 0,
                    ..self
                },
                bus,
            )
        } else if cycle <= 64 {
            if cycle % 2 == 0 {
                (
                    Ppu {
                        secondary_oam: vstd::array::spec_array_update(
                            self.secondary_oam,
                            (cycle - 1) / 2,
                            0xff,
                        ),
                        ..self
                    },
                    bus,
                )
            } else {
                (self, bus)
            }
        } else if cycle <= 256 {
            (self.spec_sprite_evaluation(), bus)
        } else if cycle <= 320 {
            let sprite_idx = ((cycle - 257) / 8) as u8;
            let sprite_cycle = ((cycle - 1) % 8) as u8;
            let y = ((self.scanline - self.oam_temp_y_buffer + 65536) % 65536) as u16;
            if sprite_cycle <= 3 {
                let entry = self.secondary_oam@[((sprite_idx << 2u8) | sprite_cycle) as int];
                if sprite_cycle == 0 {
                    (Ppu { oam_temp_y_buffer: entry, ..self }, bus)
                } else if sprite_cycle == 1 {
                    (Ppu { oam_temp_tile_buffer: entry, ..self }, bus)
                } else if sprite_cycle == 2 {
                    (
                        Ppu {
                            sprites_attributes: vstd::array::spec_array_update(
                                self.sprites_attributes,
                                sprite_idx as int,
                                entry,
                            ),
                            ..self
                        },
                        bus,
                    )
                } else {
                    (
                        Ppu {
                            sprites_x_counter: vstd::array::spec_array_update(
                                self.sprites_x_counter,
                                sprite_idx as int,
                                if y >= self.sprite_height() {
                                    SpriteXCounter::WontRender
                                } else if entry == 0 {
                                    SpriteXCounter::Rendering(0)
                                } else {
                                    SpriteXCounter::NotRendered(entry)
                                },
                            ),
                            ..self
                        },
                        bus,
                    )
                }
            } else if sprite_cycle == 5 || sprite_cycle == 7 {
                let plane: u16 = if sprite_cycle == 5 {
                    0
                } else {
                    8
                };
                let attributes = self.sprites_attributes@[sprite_idx as int];
                let address = self.sprite_pattern_addr(
                    y,
                    plane,
                    attributes,
                    self.oam_temp_tile_buffer as u16,
                );
                let fetched = bus.chr_read(address);
                let pattern = if (attributes / 64) % 2 == 1 {
                    fetched
                } else {
                    reversed(fetched)
                };
                (
                    Ppu {
                        sprites_pipeline: vstd::array::spec_array_update(
                            self.sprites_pipeline,
                            if sprite_cycle == 5 {
                                sprite_idx as int
                            } else {
                                8 + sprite_idx
                            },
                            pattern,
                        ),
                        ..self
                    },
                    bus.after_chr_read(address),
                )
            } else {
                (self, bus)
            }
        } else {
            (self, bus)
        }
    }
}

impl Ppu {
    /// Writes a pixel of the frame, greyed out in greyscale mode; positions past the end of
    /// the frame are ignored.
    fn set_pixel(&mut self, x: u16, y: u16, color: u8)
        ensures
            *final(self) == old(self).with_pixel(x as int, y as int, color),
    {
        let color = if self.mask_reg.contains(MASK_GREYSCALE) {
            color & 0x30
        } else {
            color
        };
        let idx = y as usize * FRAME_WIDTH + x as usize;
        if idx < FRAME_SIZE {
            self.frame[idx] = color;
            assert(self.frame =~= vstd::array::spec_array_update(
                old(self).frame,
                pixel_index(x as int, y as int),
                color,
            ));
        }
    }

    /// The background pixel selected by fine X.
    fn get_background_pixel(&self) -> (r: (bool, u8))
        requires
            self.wf(),
        ensures
            r == self.background_pixel(),
    {
        let fine_x = 15 - self.fine_x as u16;
        proof {
            lemma_bit16(self.pattern_pipeline[0], fine_x);
            lemma_bit16(self.pattern_pipeline[1], fine_x);
            lemma_bit16(self.palette_pipeline[0], fine_x);
            lemma_bit16(self.palette_pipeline[1], fine_x);
        }
        let lo = ((self.pattern_pipeline[0] & (1u16 << fine_x)) >> fine_x) as u8;
        let hi = ((self.pattern_pipeline[1] & (1u16 << fine_x)) >> fine_x) as u8;
        let background_pat = hi * 2 + lo;
        let lo = ((self.palette_pipeline[0] & (1u16 << fine_x)) >> fine_x) as u8;
        let hi = ((self.palette_pipeline[1] & (1u16 << fine_x)) >> fine_x) as u8;
        let background_pal = hi * 2 + lo;
        let palette_index = if background_pat == 0 {
            0
        } else {
            background_pal * 4 + background_pat
        };
        (background_pat == 0, self.palette_table[palette_index as usize])
    }

    /// Advances every loaded sprite by one pixel and returns the pixel of the first sprite
    /// (lowest index) that draws an opaque pixel now.
    fn get_sprite_pixel(&mut self) -> (r: Option<(u8, bool, bool)>)
        requires
            old(self).wf(),
        ensures
            (r, *final(self)) == old(self).sprite_scan(0, None),
            final(self).wf(),
            Ppu::regs_kept(*old(self), *final(self)),
            final(self).status_reg == old(self).status_reg,
            final(self).vram_addr == old(self).vram_addr,
            final(self).frame == old(self).frame,
            final(self).sprite_zero_hit_state == old(self).sprite_zero_hit_state,
            final(self).sprite_evaluation_state == old(self).sprite_evaluation_state,
            final(self).oam_pointer == old(self).oam_pointer,
            final(self).secondary_oam_pointer == old(self).secondary_oam_pointer,
            r is None <==> forall|i: int| 0 <= i < 8 ==> !old(self).sprite_opaque(i),
            forall|k: int|
                0 <= k < 8 && old(self).sprite_opaque(k) && (forall|j: int|
                    0 <= j < k ==> !old(self).sprite_opaque(j)) ==> r == Some(
                    old(self).sprite_color(k),
                ),
    {
        let mut pixel: Option<(u8, bool, bool)> = None;
        let mut sprite_idx: usize = 0;
        while sprite_idx < 8
            invariant
                sprite_idx <= 8,
                self.wf(),
                Ppu::regs_kept(*old(self), *self),
                self.status_reg == old(self).status_reg,
                self.vram_addr == old(self).vram_addr,
                self.frame == old(self).frame,
                self.sprite_zero_hit_state == old(self).sprite_zero_hit_state,
                self.sprite_evaluation_state == old(self).sprite_evaluation_state,
                self.oam_pointer == old(self).oam_pointer,
                self.secondary_oam_pointer == old(self).secondary_oam_pointer,
                self.sprites_attributes == old(self).sprites_attributes,
                forall|i: int|
                    sprite_idx <= i < 8 ==> self.sprites_x_counter@[i]
                        == old(self).sprites_x_counter@[i],
                forall|i: int|
                    (sprite_idx <= i < 8 || 8 + sprite_idx <= i < 16) ==> #[trigger] self.sprites_pipeline@[i]
                        == old(self).sprites_pipeline@[i],
                self.sprite_scan(sprite_idx as nat, pixel) == old(self).sprite_scan(0, None),
                pixel is None <==> forall|i: int|
                    0 <= i < sprite_idx ==> !old(self).sprite_opaque(i),
                forall|k: int|
                    0 <= k < sprite_idx && old(self).sprite_opaque(k) && (forall|j: int|
                        0 <= j < k ==> !old(self).sprite_opaque(j)) ==> pixel == Some(
                        old(self).sprite_color(k),
                    ),
            decreases 8 - sprite_idx,
        {
            let ghost before = *self;
            let ghost pixel_before = pixel;
            assert(before.sprites_x_counter@[sprite_idx as int].wf());
            assert(self.sprites_pipeline@[sprite_idx as int] == old(
                self,
            ).sprites_pipeline@[sprite_idx as int]);
            assert(self.sprites_pipeline@[8 + sprite_idx] == old(
                self,
            ).sprites_pipeline@[8 + sprite_idx]);
            assert(self.sprites_x_counter@[sprite_idx as int] == old(
                self,
            ).sprites_x_counter@[sprite_idx as int]);
            match self.sprites_x_counter[sprite_idx] {
                SpriteXCounter::NotRendered(x) => {
                    let x = x - 1;
                    if x == 0 {
                        self.sprites_x_counter[sprite_idx] = SpriteXCounter::Rendering(0);
                    } else {
                        self.sprites_x_counter[sprite_idx] = SpriteXCounter::NotRendered(x);
                    }
                },
                SpriteXCounter::Rendering(fine_x) => {
                    let fine_x = fine_x + 1;
                    if fine_x == 8 {
                        self.sprites_x_counter[sprite_idx] = SpriteXCounter::Rendered;
                    } else {
                        self.sprites_x_counter[sprite_idx] = SpriteXCounter::Rendering(fine_x);
                    }
                    if pixel.is_none() {
                        let attributes = self.sprites_attributes[sprite_idx];
                        let behind_background = (attributes >> 5u8) & 1 == 1;
                        let palette_idx = attributes & 0b11;
                        let lo = self.sprites_pipeline[sprite_idx] & 0b1;
                        let hi = self.sprites_pipeline[8 + sprite_idx] & 0b1;
                        proof {
                            let l = self.sprites_pipeline[sprite_idx as int];
                            let h = self.sprites_pipeline[8 + sprite_idx];
                            crate::bits::lemma_byte_bits(l);
                            crate::bits::lemma_byte_bits(h);
                            crate::bits::lemma_byte_bits(attributes);
                        }
                        let sprite_pat = hi * 2 + lo;
                        if sprite_pat != 0 {
                            let color = self.palette_table[16 + 4 * (palette_idx as usize)
                                + (sprite_pat as usize)];
                            pixel = Some((color, behind_background, sprite_idx == 0));
                        }
                    }
                    proof {
                        crate::bits::lemma_byte_bits(self.sprites_pipeline[sprite_idx as int]);
                        crate::bits::lemma_byte_bits(self.sprites_pipeline[8 + sprite_idx]);
                    }
                    self.sprites_pipeline[sprite_idx] = self.sprites_pipeline[sprite_idx] >> 1u8;
                    self.sprites_pipeline[8 + sprite_idx] = self.sprites_pipeline[8 + sprite_idx]
                        >> 1u8;
                },
                _ => {},
            }
            assert(forall|i: int|
                0 <= i < 8 && i != sprite_idx ==> self.sprites_x_counter@[i]
                    == before.sprites_x_counter@[i]);
            assert(before.sprite_scan_step(sprite_idx as int, pixel_before) == (pixel, *self));
            assert(pixel_before is Some ==> pixel == pixel_before);
            assert(pixel_before is None && pixel is None ==> !old(self).sprite_opaque(
                sprite_idx as int,
            ));
            assert(pixel_before is None && pixel is Some ==> old(self).sprite_opaque(
                sprite_idx as int,
            ) && pixel == Some(old(self).sprite_color(sprite_idx as int)));
            sprite_idx = sprite_idx + 1;
        }
        pixel
    }

    /// Draws the pixel at the current dot, if it is visible: the first opaque sprite pixel
    /// unless it is behind an opaque background pixel, else the background. An opaque
    /// sprite 0 pixel over an opaque background arms the sprite 0 hit.
    fn render_pixel(&mut self)
        requires
            old(self).wf(),
        ensures
            *final(self) == old(self).spec_render_pixel(),
            final(self).wf(),
            Ppu::regs_kept(*old(self), *final(self)),
            final(self).status_reg == old(self).status_reg,
            final(self).vram_addr == old(self).vram_addr,
            final(self).sprite_evaluation_state == old(self).sprite_evaluation_state,
            final(self).oam_pointer == old(self).oam_pointer,
            final(self).secondary_oam_pointer == old(self).secondary_oam_pointer,
            forall|i: int|
                0 <= i < FRAME_SIZE && i != pixel_index(
                    old(self).cycle_count - 1,
                    old(self).scanline as int,
                ) ==> final(self).frame@[i] == old(self).frame@[i],
            (old(self).scanline < 0 || old(self).scanline > 239 || old(self).cycle_count < 1
                || old(self).cycle_count > 256) ==> *final(self) == *old(self),
    {
        if self.scanline < 0 || self.scanline > 239 || self.cycle_count < 1 || self.cycle_count
            > 256 {
            return ;
        }
        let x = self.cycle_count - 1;
        let y = self.scanline as u16;
        let (background_transparent, background_color) = if self.mask_reg.contains(
            MASK_SHOW_BACKGROUND,
        ) && (x >= 8 || self.mask_reg.contains(MASK_LEFTMOST_8PXL_BACKGROUND)) {
            self.get_background_pixel()
        } else {
            (true, self.palette_table[0])
        };
        let sprite_pixel = if self.mask_reg.contains(MASK_SHOW_SPRITES) {
            let sprite_pixel = self.get_sprite_pixel();
            if x >= 8 || self.mask_reg.contains(MASK_LEFTMOST_8PXL_SPRITE) {
                sprite_pixel
            } else {
                None
            }
        } else {
            None
        };
        if let Some((sprite_color, behind_background, is_sprite_zero)) = sprite_pixel {
            if background_transparent {
                self.set_pixel(x, y, sprite_color);
            } else {
                if let SpriteZeroHitState::OnCurrentScanline(_) = self.sprite_zero_hit_state {
                    if is_sprite_zero && x != 255 {
                        self.sprite_zero_hit_state = SpriteZeroHitState::Delay(2);
                    }
                }
                if behind_background {
                    self.set_pixel(x, y, background_color);
                } else {
                    self.set_pixel(x, y, sprite_color);
                }
            }
        } else {
            self.set_pixel(x, y, background_color);
        }
    }
}

proof fn lemma_small_index(p: u8, m: u8)
    by (bit_vector)
    requires
        p < 8,
        m < 4,
    ensures
        ((p << 2u8) | m) < 32,
        (p << 2u8) < 32,
{
}

impl Ppu {
    /// One cycle of background fetching: every 8 dots the nametable byte, the attribute
    /// byte and the two pattern bytes of the next tile are fetched, then loaded into the
    /// low halves of the shift registers, and the VRAM address moves to the next tile
    /// (and to the next row at dot 256).
    fn bg_load_cycle(&mut self, bus: &mut PpuBus)
        requires
            old(self).wf(),
            1 <= old(self).cycle_count <= 340,
        ensures
            (*final(self), final(bus)@) == old(self).spec_bg_load(old(bus)@),
            final(self).wf(),
            Ppu::regs_kept(*old(self), *final(self)),
            final(self).status_reg == old(self).status_reg,
            final(self).frame == old(self).frame,
            final(self).sprites_x_counter == old(self).sprites_x_counter,
            final(self).sprite_evaluation_state == old(self).sprite_evaluation_state,
            final(self).oam_pointer == old(self).oam_pointer,
            final(self).secondary_oam_pointer == old(self).secondary_oam_pointer,
            final(self).sprite_zero_hit_state == old(self).sprite_zero_hit_state,
            bus_contents_kept(old(bus)@, final(bus)@),
    {
        let step = (self.cycle_count - 1) % 8;
        if step == 1 {
            let address = (self.vram_addr.get() % 0x1000) + 0x2000;
            self.nt_buffer = bus.read_name_tables(address);
        } else if step == 3 {
            let nametable = self.vram_addr.nametable();
            let coarse_y = self.vram_addr.coarse_y();
            let coarse_x = self.vram_addr.coarse_x();
            let address = 0x23c0 + nametable * 1024 + (coarse_y / 4) * 8 + coarse_x / 4;
            self.at_buffer = bus.read_name_tables(address);
        } else if step == 5 {
            let bank = self.ctrl_reg.background_pattern_base_addr();
            let fine_y = self.vram_addr.fine_y();
            let lo = bus.read_chr_mem(bank + (self.nt_buffer as u16) * 16 + fine_y);
            self.bg_lo_buffer = lo;
        } else if step == 7 {
            let bank = self.ctrl_reg.background_pattern_base_addr();
            let fine_y = self.vram_addr.fine_y();
            let hi = bus.read_chr_mem(bank + (self.nt_buffer as u16) * 16 + 8 + fine_y);
            self.bg_hi_buffer = hi;
            // Feed the pattern shift registers.
            self.pattern_pipeline[0] = self.pattern_pipeline[0] | (self.bg_lo_buffer as u16);
            self.pattern_pipeline[1] = self.pattern_pipeline[1] | (self.bg_hi_buffer as u16);
            // Feed the palette shift registers with the quadrant's two attribute bits.
            let quadrant_y = (self.vram_addr.coarse_y() / 2) % 2;
            let quadrant_x = (self.vram_addr.coarse_x() / 2) % 2;
            let at = self.at_buffer;
            let bits = if quadrant_y == 0 {
                if quadrant_x == 0 {
                    at % 4
                } else {
                    (at / 4) % 4
                }
            } else {
                if quadrant_x == 0 {
                    (at / 16) % 4
                } else {
                    (at / 64) % 4
                }
            };
            let bits_lo: u16 = if bits % 2 == 1 {
                0xff
            } else {
                0x00
            };
            let bits_hi: u16 = if bits / 2 == 1 {
                0xff
            } else {
                0x00
            };
            self.palette_pipeline[0] = self.palette_pipeline[0] | bits_lo;
            self.palette_pipeline[1] = self.palette_pipeline[1] | bits_hi;
            self.vram_addr.increment_coarse_x();
            if self.cycle_count == 256 {
                self.vram_addr.increment_fine_y();
            }
        }
    }

    /// One cycle of sprite work on a visible scanline: clearing the secondary OAM (dots
    /// 1..=64), evaluating which of the 64 sprites are on the next line and copying up to
    /// 8 of them, with the hardware's overflow detection (dots 65..=256), then fetching
    /// the patterns of the selected sprites (dots 257..=320).
    fn sprites_load_cycle(&mut self, bus: &mut PpuBus)
        requires
            old(self).wf(),
            0 <= old(self).scanline <= 239,
        ensures
            (*final(self), final(bus)@) == old(self).spec_sprites_load(old(bus)@),
            final(self).wf(),
            Ppu::regs_kept(*old(self), *final(self)),
            final(self).vram_addr == old(self).vram_addr,
            final(self).frame == old(self).frame,
            final(self).pattern_pipeline == old(self).pattern_pipeline,
            final(self).palette_pipeline == old(self).palette_pipeline,
            in_vblank(final(self).status_reg) == in_vblank(old(self).status_reg),
            bus_contents_kept(old(bus)@, final(bus)@),
    {
        let cycle = self.cycle_count;
        if cycle == 0 {
            self.sprite_evaluation_state = SpriteEvalutationState::CheckY;
            self.oam_pointer = 0;
            self.secondary_oam_pointer = 0;
        } else if cycle <= 64 {
            if cycle % 2 == 0 {
                self.secondary_oam[((cycle - 1) / 2) as usize] = 0xff;
            }
        } else if cycle <= 256 {
            self.sprite_evaluation_cycle();
        } else if cycle <= 320 {
            self.sprite_fetch_cycle(bus);
        }
    }

    /// One dot of sprite evaluation (dots 65..=256).
    #[verifier::rlimit(40)]
    fn sprite_evaluation_cycle(&mut self)
        requires
            old(self).wf(),
            0 <= old(self).scanline <= 239,
            65 <= old(self).cycle_count <= 256,
        ensures
            *final(self) == old(self).spec_sprite_evaluation(),
            final(self).wf(),
            Ppu::regs_kept(*old(self), *final(self)),
            final(self).vram_addr == old(self).vram_addr,
            final(self).frame == old(self).frame,
            final(self).pattern_pipeline == old(self).pattern_pipeline,
            final(self).palette_pipeline == old(self).palette_pipeline,
            in_vblank(final(self).status_reg) == in_vblank(old(self).status_reg),
    {
        let cycle = self.cycle_count;
        match self.sprite_evaluation_state {
            SpriteEvalutationState::Idle => {},
            SpriteEvalutationState::CheckY => {
                if cycle % 2 == 1 {
                    self.oam_latch = self.oam_data[(self.oam_pointer as usize) * 4];
                } else {
                    let sp = self.secondary_oam_pointer;
                    proof {
                        lemma_small_index(sp, 0);
                    }
                    self.secondary_oam[(sp << 2u8) as usize] = self.oam_latch;
                    let fine_y = (self.scanline as u8).wrapping_sub(self.oam_latch);
                    if fine_y < self.ctrl_reg.sprite_size() {
                        self.sprite_evaluation_state = SpriteEvalutationState::CopyOam(1);
                        if self.oam_pointer == 0 {
                            match self.sprite_zero_hit_state {
                                SpriteZeroHitState::Idle => {
                                    self.sprite_zero_hit_state = SpriteZeroHitState::IsInOam;
                                },
                                SpriteZeroHitState::OnCurrentScanline(_) => {
                                    self.sprite_zero_hit_state =
                                    SpriteZeroHitState::OnCurrentScanline(true);
                                },
                                _ => {},
                            }
                        }
                    } else {
                        self.oam_pointer = self.oam_pointer + 1;
                        if self.oam_pointer == 64 {
                            self.sprite_evaluation_state = SpriteEvalutationState::Idle;
                        }
                    }
                }
            },
            SpriteEvalutationState::CopyOam(m) => {
                if cycle % 2 == 1 {
                    self.oam_latch = self.oam_data[(self.oam_pointer as usize) * 4 + (
                    m as usize)];
                } else {
                    let sp = self.secondary_oam_pointer;
                    proof {
                        lemma_small_index(sp, m);
                    }
                    self.secondary_oam[((sp << 2u8) | m) as usize] = self.oam_latch;
                    if m == 3 {
                        self.oam_pointer = self.oam_pointer + 1;
                        self.secondary_oam_pointer = self.secondary_oam_pointer + 1;
                        if self.oam_pointer == 64 {
                            self.sprite_evaluation_state = SpriteEvalutationState::Idle;
                        } else if self.secondary_oam_pointer < 8 {
                            self.sprite_evaluation_state = SpriteEvalutationState::CheckY;
                        } else {
                            self.sprite_evaluation_state =
                            SpriteEvalutationState::EvaluateOverflow(0);
                        }
                    } else {
                        self.sprite_evaluation_state = SpriteEvalutationState::CopyOam(m + 1);
                    }
                }
            },
            SpriteEvalutationState::EvaluateOverflow(m) => {
                // The hardware's buggy overflow search: `n` and `m` both move on a miss.
                if cycle % 2 == 1 {
                    let p = self.oam_pointer;
                    self.oam_latch = self.oam_data[((p << 2u8) | m) as usize];
                } else {
                    let fine_y = (self.scanline as u8).wrapping_sub(self.oam_latch);
                    if fine_y < self.ctrl_reg.sprite_size() {
                        proof {
                            lemma_status_bits(self.status_reg.spec_bits());
                        }
                        self.status_reg.insert(STATUS_SPRITE_OVERFLOW);
                        self.sprite_evaluation_state = SpriteEvalutationState::Idle;
                    } else {
                        self.oam_pointer = self.oam_pointer + 1;
                        if self.oam_pointer == 64 {
                            self.sprite_evaluation_state = SpriteEvalutationState::Idle;
                        } else {
                            self.sprite_evaluation_state =
                            SpriteEvalutationState::EvaluateOverflow(m + 1);
                        }
                    }
                }
            },
        }
    }

    /// The CHR address of a sprite pattern row; see [`Ppu::sprite_pattern_addr`].
    fn sprite_pattern_address(&self, y: u16, plane: u16, attributes: u8, tile: u16) -> (r: u16)
        ensures
            r == self.sprite_pattern_addr(y, plane, attributes, tile),
    {
        let flip_y = (attributes / 128) % 2 == 1;
        if self.ctrl_reg.sprite_size() == 8 {
            let bank = self.ctrl_reg.sprite_pattern_base_addr();
            let flipped_y = if flip_y {
                7u16.wrapping_sub(y)
            } else {
                y
            };
            bank | plane | (tile << 4u16) | flipped_y
        } else {
            let bank: u16 = if tile % 2 == 1 {
                0x1000
            } else {
                0x0000
            };
            let tile_idx = tile & 0xfffe;
            let flipped_y = if flip_y {
                15u16.wrapping_sub(y)
            } else {
                y
            };
            // The bottom half of a tall sprite is the next tile.
            let flipped_y = if flipped_y >= 8 {
                flipped_y.wrapping_add(8)
            } else {
                flipped_y
            };
            bank | plane | (tile_idx << 4u16) | flipped_y
        }
    }

    /// One dot of sprite pattern fetching (dots 257..=320).
    #[verifier::rlimit(60)]
    fn sprite_fetch_cycle(&mut self, bus: &mut PpuBus)
        requires
            old(self).wf(),
            0 <= old(self).scanline <= 239,
            257 <= old(self).cycle_count <= 320,
        ensures
            (*final(self), final(bus)@) == old(self).spec_sprites_load(old(bus)@),
            final(self).wf(),
            Ppu::regs_kept(*old(self), *final(self)),
            final(self).vram_addr == old(self).vram_addr,
            final(self).frame == old(self).frame,
            final(self).pattern_pipeline == old(self).pattern_pipeline,
            final(self).palette_pipeline == old(self).palette_pipeline,
            in_vblank(final(self).status_reg) == in_vblank(old(self).status_reg),
            bus_contents_kept(old(bus)@, final(bus)@),
    {
        let cycle = self.cycle_count;
        let sprite_idx = ((cycle - 257) / 8) as u8;
        let sprite_cycle = ((cycle - 1) % 8) as u8;
        let y = (self.scanline as u16).wrapping_sub(self.oam_temp_y_buffer as u16);
        if sprite_cycle <= 3 {
            proof {
                lemma_small_index(sprite_idx, sprite_cycle);
            }
            let entry = self.secondary_oam[((sprite_idx << 2u8) | sprite_cycle) as usize];
            if sprite_cycle == 0 {
                self.oam_temp_y_buffer = entry;
            } else if sprite_cycle == 1 {
                self.oam_temp_tile_buffer = entry;
            } else if sprite_cycle == 2 {
                self.sprites_attributes[sprite_idx as usize] = entry;
            } else {
                let x = entry;
                self.sprites_x_counter[sprite_idx as usize] = if y >= (
                self.ctrl_reg.sprite_size() as u16) {
                    SpriteXCounter::WontRender
                } else if x == 0 {
                    SpriteXCounter::Rendering(0)
                } else {
                    SpriteXCounter::NotRendered(x)
                };
            }
        } else if sprite_cycle == 5 || sprite_cycle == 7 {
            // Pattern fetch: low plane at cycle 5, high plane at cycle 7.
            let plane: u16 = if sprite_cycle == 5 {
                0
            } else {
                8
            };
            let attributes = self.sprites_attributes[sprite_idx as usize];
            let flip_x = (attributes / 64) % 2 == 1;
            let tile = self.oam_temp_tile_buffer as u16;
            let address = self.sprite_pattern_address(y, plane, attributes, tile);
            let pattern = bus.read_chr_mem(address);
            let pattern = if flip_x {
                pattern
            } else {
                reverse_bits(pattern)
            };
            if sprite_cycle == 5 {
                self.sprites_pipeline[sprite_idx as usize] = pattern;
            } else {
                self.sprites_pipeline[8 + sprite_idx as usize] = pattern;
            }
        }
    }

    /// The first part of a dot: the timing moves on (341 dots per scanline, scanlines -1
    /// to 260, the first dot of the pre-render line skipped on odd frames while
    /// rendering), sprite 0 tracking moves to the next scanline, a pending sprite 0 hit
    /// counts down, and on the pre-render line the status flags clear (dot 1) and the
    /// vertical scroll is reloaded (dots 280..=304, while rendering).
    pub closed spec fn spec_timing(self) -> Ppu {
        let c = self.cycle_count + 1;
        let wrapped = c >= 341;
        let scanline = if wrapped {
            if self.scanline + 1 >= 261 {
                -1
            } else {
                self.scanline + 1
            }
        } else {
            self.scanline as int
        };
        let new_frame = wrapped && self.scanline + 1 >= 261;
        let cycle = if wrapped {
            if new_frame && self.is_odd_frame && rendering_on(self.mask_reg) {
                1
            } else {
                0
            }
        } else {
            c
        };
        let zero = if wrapped {
            match self.sprite_zero_hit_state {
                SpriteZeroHitState::IsInOam => SpriteZeroHitState::OnCurrentScanline(false),
                SpriteZeroHitState::OnCurrentScanline(next) => if next {
                    SpriteZeroHitState::OnCurrentScanline(false)
                } else {
                    SpriteZeroHitState::Idle
                },
                z => z,
            }
        } else {
            self.sprite_zero_hit_state
        };
        let (zero, status) = match zero {
            SpriteZeroHitState::Delay(x) => if x - 1 == 0 {
                (
                    SpriteZeroHitState::Idle,
                    StatusReg::spec_from_bits(self.status_reg.spec_bits() | STATUS_SPRITE_ZERO_HIT),
                )
            } else {
                (SpriteZeroHitState::Delay((x - 1) as u8), self.status_reg)
            },
            z => (z, self.status_reg),
        };
        let t = Ppu {
            cycle_count: cycle as u16,
            scanline: scanline as i16,
            is_odd_frame: if new_frame {
                !self.is_odd_frame
            } else {
                self.is_odd_frame
            },
            sprite_zero_hit_state: zero,
            status_reg: status,
            ..self
        };
        if t.scanline == -1 && t.cycle_count == 1 {
            Ppu {
                status_reg: StatusReg::spec_from_bits(
                    ((t.status_reg.spec_bits() & !STATUS_SPRITE_ZERO_HIT) & !STATUS_SPRITE_OVERFLOW)
                        & !STATUS_VBLANK_STARTED,
                ),
                ..t
            }
        } else if t.scanline == -1 && 280 <= t.cycle_count <= 304 && rendering_on(t.mask_reg) {
            Ppu { vram_addr: t.vram_addr.spec_reset_y(t.temp_vram_addr), ..t }
        } else {
            t
        }
    }

    /// The fetches of a dot while rendering on a visible or pre-render line: sprite work
    /// (or, on the pre-render line, no sprites), then on fetching dots the shift registers
    /// move and the background fetch runs, and at dot 257 the horizontal scroll reloads.
    pub closed spec fn spec_fetches(self, bus: PpuBusState) -> (Ppu, PpuBusState) {
        let (s, b1) = if self.scanline == -1 {
            (
                Ppu {
                    sprites_x_counter: vstd::array::spec_array_fill_for_copy_type(
                        SpriteXCounter::WontRender,
                    ),
                    ..self
                },
                bus,
            )
        } else {
            self.spec_sprites_load(bus)
        };
        if (s.cycle_count > 0 && s.cycle_count <= 256) || (s.cycle_count >= 321 && s.cycle_count
            <= 336) {
            Ppu {
                pattern_pipeline: vstd::array::spec_array_update(
                    vstd::array::spec_array_update(
                        s.pattern_pipeline,
                        0,
                        s.pattern_pipeline@[0] << 1u16,
                    ),
                    1,
                    s.pattern_pipeline@[1] << 1u16,
                ),
                palette_pipeline: vstd::array::spec_array_update(
                    vstd::array::spec_array_update(
                        s.palette_pipeline,
                        0,
                        s.palette_pipeline@[0] << 1u16,
                    ),
                    1,
                    s.palette_pipeline@[1] << 1u16,
                ),
                ..s
            }.spec_bg_load(b1)
        } else if s.cycle_count == 257 {
            (Ppu { vram_addr: s.vram_addr.spec_reset_x(s.temp_vram_addr), ..s }, b1)
        } else {
            (s, b1)
        }
    }

    /// One PPU dot: timing, the pixel at the current dot, the fetches while rendering, and
    /// at scanline 241 dot 1 the start of vertical blank (with an NMI when enabled).
    pub closed spec fn spec_clock(self, bus: PpuBusState) -> (Ppu, PpuBusState) {
        let r = self.spec_timing().spec_render_pixel();
        let (f, b) = if rendering_on(r.mask_reg) && r.scanline < 240 {
            r.spec_fetches(bus)
        } else {
            (r, bus)
        };
        if f.scanline == 241 && f.cycle_count == 1 {
            (
                Ppu {
                    status_reg: StatusReg::spec_from_bits(
                        f.status_reg.spec_bits() | STATUS_VBLANK_STARTED,
                    ),
                    vblank_nmi_set: if has_all(f.ctrl_reg.spec_bits(), CTRL_GENERATE_NMI) {
                        true
                    } else {
                        f.vblank_nmi_set
                    },
                    ..f
                },
                b,
            )
        } else {
            (f, b)
        }
    }

    /// What one PPU clock from this state over `bus` is known to give: the next state
    /// `next` over `next_bus`.
    pub open spec fn clocked(self, bus: PpuBusState, next: Ppu, next_bus: PpuBusState) -> bool {
        &&& next.wf()
        &&& (next.spec_cycle(), next.spec_scanline(), next.spec_odd_frame()) == next_timing(
            self.spec_cycle(),
            self.spec_scanline(),
            self.spec_odd_frame(),
            rendering_on(self.spec_mask()),
        )
        &&& next.spec_ctrl() == self.spec_ctrl()
        &&& next.spec_mask() == self.spec_mask()
        &&& next.spec_oam_addr() == self.spec_oam_addr()
        &&& next.spec_oam() == self.spec_oam()
        &&& next.spec_palette() == self.spec_palette()
        &&& next.spec_temp_vram_addr() == self.spec_temp_vram_addr()
        &&& next.spec_write_latch() == self.spec_write_latch()
        &&& next.spec_read_buffer() == self.spec_read_buffer()
        &&& in_vblank(next.spec_status()) == if next.spec_scanline() == 241 && next.spec_cycle()
            == 1 {
            true
        } else if next.spec_scanline() == -1 && next.spec_cycle() == 1 {
            false
        } else {
            in_vblank(self.spec_status())
        }
        &&& next.spec_nmi_pending() == (self.spec_nmi_pending() || (next.spec_scanline() == 241
            && next.spec_cycle() == 1 && has_all(self.spec_ctrl().spec_bits(), CTRL_GENERATE_NMI)))
        &&& forall|i: int|
            0 <= i < FRAME_SIZE && i != pixel_index(next.spec_cycle() - 1, next.spec_scanline() as int)
                ==> next.spec_frame()[i] == self.spec_frame()[i]
        &&& bus_contents_kept(bus, next_bus)
    }

    /// The timing part of a dot; see [`Ppu::spec_timing`].
    #[verifier::rlimit(40)]
    fn advance_timing(&mut self)
        requires
            old(self).wf(),
        ensures
            *final(self) == old(self).spec_timing(),
            final(self).wf(),
            (final(self).cycle_count, final(self).scanline, final(self).is_odd_frame)
                == next_timing(
                old(self).cycle_count,
                old(self).scanline,
                old(self).is_odd_frame,
                rendering_on(old(self).mask_reg),
            ),
            final(self).ctrl_reg == old(self).ctrl_reg,
            final(self).mask_reg == old(self).mask_reg,
            final(self).oam_addr_reg == old(self).oam_addr_reg,
            final(self).oam_data == old(self).oam_data,
            final(self).palette_table == old(self).palette_table,
            final(self).temp_vram_addr == old(self).temp_vram_addr,
            final(self).write_latch == old(self).write_latch,
            final(self).last_data_on_bus == old(self).last_data_on_bus,
            final(self).vblank_nmi_set == old(self).vblank_nmi_set,
            final(self).frame == old(self).frame,
            in_vblank(final(self).status_reg) == if final(self).scanline == -1
                && final(self).cycle_count == 1 {
                false
            } else {
                in_vblank(old(self).status_reg)
            },
    {
        self.cycle_count = self.cycle_count + 1;
        if self.cycle_count >= 341 {
            self.cycle_count = 0;
            self.scanline = self.scanline + 1;
            if self.scanline >= 261 {
                self.scanline = -1;
                if self.is_odd_frame && self.rendering_enabled() {
                    self.cycle_count = self.cycle_count + 1;
                }
                self.is_odd_frame = !self.is_odd_frame;
            }
            // Track sprite 0 from one scanline to the next.
            match self.sprite_zero_hit_state {
                SpriteZeroHitState::IsInOam => {
                    self.sprite_zero_hit_state = SpriteZeroHitState::OnCurrentScanline(false);
                },
                SpriteZeroHitState::OnCurrentScanline(next) => {
                    if next {
                        self.sprite_zero_hit_state = SpriteZeroHitState::OnCurrentScanline(false);
                    } else {
                        self.sprite_zero_hit_state = SpriteZeroHitState::Idle;
                    }
                },
                _ => {},
            }
        }
        proof {
            lemma_status_bits(self.status_reg.spec_bits());
        }
        // The sprite 0 hit flag rises 2 dots after the pixel.
        if let SpriteZeroHitState::Delay(x) = self.sprite_zero_hit_state {
            let x = x - 1;
            if x == 0 {
                self.status_reg.insert(STATUS_SPRITE_ZERO_HIT);
                self.sprite_zero_hit_state = SpriteZeroHitState::Idle;
            } else {
                self.sprite_zero_hit_state = SpriteZeroHitState::Delay(x);
            }
        }
        // Pre-render scanline.
        if self.scanline == -1 {
            if self.cycle_count == 1 {
                proof {
                    lemma_status_bits(self.status_reg.spec_bits());
                }
                self.status_reg.remove(STATUS_SPRITE_ZERO_HIT);
                self.status_reg.remove(STATUS_SPRITE_OVERFLOW);
                proof {
                    lemma_status_bits(self.status_reg.spec_bits());
                }
                self.status_reg.remove(STATUS_VBLANK_STARTED);
            } else if self.cycle_count >= 280 && self.cycle_count <= 304 && self.rendering_enabled() {
                let temp = self.temp_vram_addr;
                self.vram_addr.reset_y(&temp);
            }
        }
    }

    /// The fetches of a dot while rendering on a visible or pre-render line; see
    /// [`Ppu::spec_fetches`].
    fn fetch_step(&mut self, bus: &mut PpuBus)
        requires
            old(self).wf(),
            old(self).scanline < 240,
        ensures
            (*final(self), final(bus)@) == old(self).spec_fetches(old(bus)@),
            final(self).wf(),
            Ppu::regs_kept(*old(self), *final(self)),
            final(self).frame == old(self).frame,
            in_vblank(final(self).status_reg) == in_vblank(old(self).status_reg),
            bus_contents_kept(old(bus)@, final(bus)@),
    {
        if self.scanline == -1 {
            // No sprites on the pre-render scanline.
            self.sprites_x_counter = [SpriteXCounter::WontRender; 8];
        } else {
            self.sprites_load_cycle(bus);
        }
        if (self.cycle_count > 0 && self.cycle_count <= 256) || (self.cycle_count >= 321
            && self.cycle_count <= 336) {
            self.pattern_pipeline[0] = self.pattern_pipeline[0] << 1u16;
            self.pattern_pipeline[1] = self.pattern_pipeline[1] << 1u16;
            self.palette_pipeline[0] = self.palette_pipeline[0] << 1u16;
            self.palette_pipeline[1] = self.palette_pipeline[1] << 1u16;
            self.bg_load_cycle(bus);
        } else if self.cycle_count == 257 {
            let temp = self.temp_vram_addr;
            self.vram_addr.reset_x(&temp);
        }
    }

    /// Advances the PPU by one dot: exactly [`Ppu::spec_clock`], with the summary
    /// [`Ppu::clocked`].
    pub fn clock(&mut self, bus: &mut PpuBus)
        requires
            old(self).wf(),
        ensures
            (*final(self), final(bus)@) == old(self).spec_clock(old(bus)@),
            old(self).clocked(old(bus)@, *final(self), final(bus)@),
    {
        self.advance_timing();
        self.render_pixel();
        // The VRAM address only moves while rendering is enabled.
        if self.rendering_enabled() && self.scanline < 240 {
            self.fetch_step(bus);
        }
        if self.scanline == 241 && self.cycle_count == 1 {
            proof {
                lemma_status_bits(self.status_reg.spec_bits());
            }
            self.status_reg.insert(STATUS_VBLANK_STARTED);
            if self.ctrl_reg.contains(CTRL_GENERATE_NMI) {
                self.vblank_nmi_set = true;
            }
        }
    }
}
impl Default for Ppu {
    /// The power-on state.
    fn default() -> (r: Self)
        ensures
            r == Ppu::initial(),
            r.wf(),
    {
        Ppu::new()
    }
}

/// Reading PPUSTATUS returns the vertical blank flag in bit 7, then clears it and
/// resets the address latch; the bus is untouched.
pub proof fn lemma_status_read(p: Ppu, bus: PpuBusState, addr: u16)
    requires
        addr % 8 == 2,
    ensures
        (p.after_read(bus, addr).0 >= 128) == in_vblank(p.spec_status()),
        !in_vblank(p.after_read(bus, addr).1.spec_status()),
        !p.after_read(bus, addr).1.spec_write_latch(),
        p.after_read(bus, addr).2 == bus,
{
    reveal(Ppu::after_read);
    crate::bits::lemma_status_or_low(p.status_reg.spec_bits(), p.last_data_on_bus);
    lemma_status_bits(p.status_reg.spec_bits());
    StatusReg::lemma_from_bits(p.status_reg.spec_bits() & !STATUS_VBLANK_STARTED);
}

/// OAM through OAMADDR and OAMDATA: a byte written at an address is read back there.
pub proof fn lemma_oam_write_read(p: Ppu, bus: PpuBusState, oam_addr: u8, data: u8)
    ensures
        ({
            let (p1, b1) = p.after_write(bus, 0x2003, oam_addr);
            let (p2, b2) = p1.after_write(b1, 0x2004, data);
            let (p3, b3) = p2.after_write(b2, 0x2003, oam_addr);
            p3.after_read(b3, 0x2004).0 == data
        }),
{
    reveal(Ppu::after_write);
    reveal(Ppu::after_read);
}

proof fn lemma_oam_fill(oam: [u8; 256], buffer: Seq<u8>, start: u8, i: nat, j: int)
    requires
        i <= 256,
        0 <= j < 256,
    ensures
        oam_fill(oam, buffer, start, i)@[j] == if (j - start) % 256 >= i {
            buffer[(j - start) % 256]
        } else {
            oam@[j]
        },
    decreases 256 - i,
{
    if i < 256 {
        let slot = (start as int + i) % 256;
        let next = vstd::array::spec_array_update(oam, slot, buffer[i as int]);
        lemma_oam_fill(next, buffer, start, i + 1, j);
        assert((j - start) % 256 == i <==> j == slot);
    }
}

/// OAM DMA lays the page out from OAMADDR on, wrapping: byte `i` of the page lands at
/// `(OAMADDR + i) % 256`.
pub proof fn lemma_oam_dma_layout(p: Ppu, buffer: Seq<u8>, i: int)
    requires
        0 <= i < 256,
    ensures
        p.after_oam_dma(buffer).spec_oam()[(p.spec_oam_addr() + i) % 256] == buffer[i],
{
    let j = (p.oam_addr_reg + i) % 256;
    lemma_oam_fill(p.oam_data, buffer, p.oam_addr_reg, 0, j);
    assert((j - p.oam_addr_reg) % 256 == i);
}

/// A PPUDATA read of a nametable address returns the byte buffered by the previous read
/// and buffers the byte at the address.
pub proof fn lemma_ppudata_buffered_read(p: Ppu, bus: PpuBusState, addr: u16)
    requires
        addr % 8 == 7,
        0x2000 <= p.spec_vram_addr().value() % 0x4000 < 0x3000,
    ensures
        p.after_read(bus, addr).0 == p.spec_read_buffer(),
        p.after_read(bus, addr).1.spec_read_buffer() == bus.name_table_read(
            (p.spec_vram_addr().value() % 0x4000) as u16,
        ),
{
    reveal(Ppu::after_read);
}

/// The first PPUADDR write sets the high six bits of the temporary address.
proof fn lemma_ppuaddr_high(p: Ppu, bus: PpuBusState, d: u8)
    requires
        !p.write_latch,
    ensures
        p.after_write(bus, 0x2006, d) == (
            Ppu {
                temp_vram_addr: p.temp_vram_addr.spec_with_value(
                    ((d as int % 64) * 256 + p.temp_vram_addr.value() as int % 256) as u16,
                ),
                write_latch: true,
                ..p
            },
            bus,
        ),
{
    reveal(Ppu::after_write);
}

/// The second PPUADDR write sets the low byte and copies the address to the VRAM address.
proof fn lemma_ppuaddr_low(p: Ppu, bus: PpuBusState, d: u8)
    requires
        p.write_latch,
    ensures
        ({
            let t = p.temp_vram_addr.spec_with_value(
                (p.temp_vram_addr.value() as int / 256 * 256 + d) as u16,
            );
            p.after_write(bus, 0x2006, d) == (
                Ppu { temp_vram_addr: t, vram_addr: t, write_latch: false, ..p },
                bus,
            )
        }),
{
    reveal(Ppu::after_write);
}

/// PPUADDR takes two writes: with the address latch clear, a write of `hi` then a write
/// of `lo` set the VRAM address (and the temporary address) to `(hi & 0x3F) << 8 | lo`
/// and clear the latch again; the bus is not touched.
pub proof fn lemma_ppuaddr_two_writes(p: Ppu, bus: PpuBusState, hi: u8, lo: u8)
    requires
        !p.spec_write_latch(),
    ensures
        ({
            let (p1, b1) = p.after_write(bus, 0x2006, hi);
            let (p2, b2) = p1.after_write(b1, 0x2006, lo);
            &&& p1.spec_write_latch()
            &&& p2.spec_vram_addr().value() == (hi as int % 64) * 256 + lo
            &&& p2.spec_temp_vram_addr() == p2.spec_vram_addr()
            &&& !p2.spec_write_latch()
            &&& b1 == bus
            &&& b2 == bus
        }),
{
    lemma_ppuaddr_high(p, bus, hi);
    let (p1, b1) = p.after_write(bus, 0x2006, hi);
    let v1 = ((hi as int % 64) * 256 + p.temp_vram_addr.value() as int % 256) as u16;
    p.temp_vram_addr.lemma_spec_with_value(v1);
    lemma_ppuaddr_low(p1, b1, lo);
    let v2 = (p1.temp_vram_addr.value() as int / 256 * 256 + lo) as u16;
    p1.temp_vram_addr.lemma_spec_with_value(v2);
    assert(p1.temp_vram_addr.value() as int / 256 == hi as int % 64);
}

/// Two PPUADDR writes, high byte then low byte, point the VRAM address at `addr`.
proof fn lemma_point_ppuaddr(p: Ppu, bus: PpuBusState, addr: u16)
    requires
        !p.write_latch,
        addr < 0x4000,
    ensures
        ({
            let (p1, b1) = p.after_write(bus, 0x2006, (addr / 256) as u8);
            let (p2, b2) = p1.after_write(b1, 0x2006, (addr % 256) as u8);
            &&& p2.vram_addr.value() == addr
            &&& !p2.write_latch
            &&& b2 == bus
            &&& p2.last_data_on_bus == p.last_data_on_bus
            &&& p2.ctrl_reg == p.ctrl_reg
            &&& p2.mask_reg == p.mask_reg
            &&& p2.palette_table == p.palette_table
        }),
{
    let hi = (addr / 256) as u8;
    let lo = (addr % 256) as u8;
    lemma_ppuaddr_high(p, bus, hi);
    let (p1, b1) = p.after_write(bus, 0x2006, hi);
    p.temp_vram_addr.lemma_spec_with_value(
        ((hi as int % 64) * 256 + p.temp_vram_addr.value() as int % 256) as u16,
    );
    lemma_ppuaddr_low(p1, b1, lo);
    let t = p1.temp_vram_addr.value();
    p1.temp_vram_addr.lemma_spec_with_value((t as int / 256 * 256 + lo) as u16);
}

/// A PPUDATA write at a nametable address stores the byte there and moves the address on.
proof fn lemma_ppudata_write(p: Ppu, bus: PpuBusState, data: u8)
    requires
        0x2000 <= p.vram_addr.value() < 0x3000,
    ensures
        p.after_write(bus, 0x2007, data) == (
            p.incremented(),
            bus.after_name_table_write(p.vram_addr.value(), data),
        ),
{
    reveal(Ppu::after_write);
}

/// A PPUDATA read at a nametable address returns the buffered byte and buffers the byte
/// at the address.
proof fn lemma_ppudata_read(p: Ppu, bus: PpuBusState)
    requires
        0x2000 <= p.vram_addr.value() < 0x3000,
    ensures
        p.after_read(bus, 0x2007) == (
            p.last_data_on_bus,
            Ppu { last_data_on_bus: bus.name_table_read(p.vram_addr.value()), ..p.incremented() },
            bus,
        ),
{
    reveal(Ppu::after_read);
}

/// PPUDATA through PPUADDR: a byte written at a nametable address is read back after
/// pointing PPUADDR at the address again and reading PPUDATA twice; the first read gives
/// the byte buffered before. (The second read is made after the address has moved on by
/// the PPUDATA step, which must stay below `$3000`.)
pub proof fn lemma_ppudata_write_read(p: Ppu, bus: PpuBusState, addr: u16, data: u8)
    requires
        !p.spec_write_latch(),
        0x2000 <= addr,
        addr + p.vram_step() < 0x3000,
        bus.name_tables.len() == crate::bus::NAME_TABLES_SIZE,
    ensures
        ({
            let hi = (addr / 256) as u8;
            let lo = (addr % 256) as u8;
            let (p1, b1) = p.after_write(bus, 0x2006, hi);
            let (p2, b2) = p1.after_write(b1, 0x2006, lo);
            let (p3, b3) = p2.after_write(b2, 0x2007, data);
            let (p4, b4) = p3.after_write(b3, 0x2006, hi);
            let (p5, b5) = p4.after_write(b4, 0x2006, lo);
            let (first, p6, b6) = p5.after_read(b5, 0x2007);
            &&& first == p5.spec_read_buffer()
            &&& p6.after_read(b6, 0x2007).0 == data
        }),
{
    let hi = (addr / 256) as u8;
    let lo = (addr % 256) as u8;
    lemma_point_ppuaddr(p, bus, addr);
    let (p1, b1) = p.after_write(bus, 0x2006, hi);
    let (p2, b2) = p1.after_write(b1, 0x2006, lo);
    lemma_ppudata_write(p2, b2, data);
    let (p3, b3) = p2.after_write(b2, 0x2007, data);
    assert(!p3.write_latch);
    lemma_point_ppuaddr(p3, b3, addr);
    let (p4, b4) = p3.after_write(b3, 0x2006, hi);
    let (p5, b5) = p4.after_write(b4, 0x2006, lo);
    lemma_ppudata_read(p5, b5);
    let (first, p6, b6) = p5.after_read(b5, 0x2007);
    crate::bus::lemma_name_table_write_read(bus, addr, addr, data);
    assert(p6.last_data_on_bus == data);
    p5.vram_addr.lemma_spec_with_value(((p5.vram_addr.value() + p5.vram_step()) % 0x8000) as u16);
    assert(p6.vram_addr.value() == addr + p.vram_step());
    lemma_ppudata_read(p6, b6);
}

/// A PPUDATA write at a palette address stores the byte in its palette slot.
proof fn lemma_palette_write(p: Ppu, bus: PpuBusState, data: u8)
    requires
        0x3F00 <= p.vram_addr.value() < 0x4000,
    ensures
        p.after_write(bus, 0x2007, data) == (
            Ppu {
                palette_table: vstd::array::spec_array_update(
                    p.palette_table,
                    palette_slot(p.vram_addr.value()),
                    data,
                ),
                ..p.incremented()
            },
            bus,
        ),
{
    reveal(Ppu::after_write);
}

/// A PPUDATA read at a palette address returns the slot's byte at once (masked to its
/// grey column in greyscale mode).
proof fn lemma_palette_read(p: Ppu, bus: PpuBusState)
    requires
        0x3F00 <= p.vram_addr.value() < 0x4000,
    ensures
        p.after_read(bus, 0x2007).0 == if has_all(p.mask_reg.spec_bits(), MASK_GREYSCALE) {
            p.palette_table@[palette_slot(p.vram_addr.value())] & 0x30
        } else {
            p.palette_table@[palette_slot(p.vram_addr.value())]
        },
{
    reveal(Ppu::after_read);
}

/// Palette RAM through PPUADDR and PPUDATA: a byte written at palette address `w` is read
/// back, unbuffered, at every address `r` that shares its slot (`$3F10`, `$3F14`, `$3F18`
/// and `$3F1C` are `$3F00`, `$3F04`, `$3F08` and `$3F0C`, and the 32 bytes repeat up to
/// `$3FFF`), masked to its grey column in greyscale mode.
pub proof fn lemma_palette_write_read(p: Ppu, bus: PpuBusState, w: u16, r: u16, data: u8)
    requires
        !p.spec_write_latch(),
        0x3F00 <= w < 0x4000,
        0x3F00 <= r < 0x4000,
        palette_slot(w) == palette_slot(r),
    ensures
        ({
            let (p1, b1) = p.after_write(bus, 0x2006, (w / 256) as u8);
            let (p2, b2) = p1.after_write(b1, 0x2006, (w % 256) as u8);
            let (p3, b3) = p2.after_write(b2, 0x2007, data);
            let (p4, b4) = p3.after_write(b3, 0x2006, (r / 256) as u8);
            let (p5, b5) = p4.after_write(b4, 0x2006, (r % 256) as u8);
            p5.after_read(b5, 0x2007).0 == if has_all(p.spec_mask().spec_bits(), MASK_GREYSCALE) {
                data & 0x30
            } else {
                data
            }
        }),
{
    lemma_point_ppuaddr(p, bus, w);
    let (p1, b1) = p.after_write(bus, 0x2006, (w / 256) as u8);
    let (p2, b2) = p1.after_write(b1, 0x2006, (w % 256) as u8);
    lemma_palette_write(p2, b2, data);
    let (p3, b3) = p2.after_write(b2, 0x2007, data);
    lemma_point_ppuaddr(p3, b3, r);
    let (p4, b4) = p3.after_write(b3, 0x2006, (r / 256) as u8);
    let (p5, b5) = p4.after_write(b4, 0x2006, (r % 256) as u8);
    lemma_palette_read(p5, b5);
}

proof fn lemma_status_cleared(b: u8)
    by (bit_vector)
    ensures
        !has_all(((b & !STATUS_SPRITE_ZERO_HIT) & !STATUS_SPRITE_OVERFLOW) & !STATUS_VBLANK_STARTED,
            STATUS_SPRITE_ZERO_HIT),
        !has_all(((b & !STATUS_SPRITE_ZERO_HIT) & !STATUS_SPRITE_OVERFLOW) & !STATUS_VBLANK_STARTED,
            STATUS_SPRITE_OVERFLOW),
        !has_all(((b & !STATUS_SPRITE_ZERO_HIT) & !STATUS_SPRITE_OVERFLOW) & !STATUS_VBLANK_STARTED,
            STATUS_VBLANK_STARTED),
{
}

/// The pre-render line's first dot clears the status flags: after the clock that
/// reaches dot 1 of scanline -1, sprite 0 hit, sprite overflow and vertical blank are
/// all clear.
pub proof fn lemma_prerender_clears_status(p: Ppu, bus: PpuBusState)
    requires
        p.wf(),
        next_timing(p.spec_cycle(), p.spec_scanline(), p.spec_odd_frame(), rendering_on(p.spec_mask())).0
            == 1,
        next_timing(p.spec_cycle(), p.spec_scanline(), p.spec_odd_frame(), rendering_on(p.spec_mask())).1
            == -1,
    ensures
        !has_all(p.spec_clock(bus).0.spec_status().spec_bits(), STATUS_SPRITE_ZERO_HIT),
        !has_all(p.spec_clock(bus).0.spec_status().spec_bits(), STATUS_SPRITE_OVERFLOW),
        !in_vblank(p.spec_clock(bus).0.spec_status()),
{
    let t = p.spec_timing();
    assert(t.scanline == -1 && t.cycle_count == 1);
    let r = t.spec_render_pixel();
    assert(r == t);
    let (f, b) = if rendering_on(r.mask_reg) && r.scanline < 240 {
        r.spec_fetches(bus)
    } else {
        (r, bus)
    };
    assert(f.status_reg == t.status_reg);
    assert(f.scanline == -1);
    assert(p.spec_clock(bus).0.status_reg == t.status_reg);
    // Before the clearing the status is the old one, or it with sprite 0 hit just raised.
    let bits = p.status_reg.spec_bits();
    let raised = bits | STATUS_SPRITE_ZERO_HIT;
    StatusReg::lemma_from_bits(raised);
    lemma_status_cleared(bits);
    lemma_status_cleared(raised);
    StatusReg::lemma_from_bits(
        ((bits & !STATUS_SPRITE_ZERO_HIT) & !STATUS_SPRITE_OVERFLOW) & !STATUS_VBLANK_STARTED,
    );
    StatusReg::lemma_from_bits(
        ((raised & !STATUS_SPRITE_ZERO_HIT) & !STATUS_SPRITE_OVERFLOW) & !STATUS_VBLANK_STARTED,
    );
}

/// Register reads and writes, OAM DMA and taking the NMI leave the dot counter where it
/// is.
pub proof fn lemma_access_keeps_dot(p: Ppu, bus: PpuBusState, addr: u16, data: u8, buffer: Seq<u8>)
    ensures
        p.after_read(bus, addr).1.spec_cycle() == p.spec_cycle(),
        p.after_read(bus, addr).1.spec_scanline() == p.spec_scanline(),
        p.after_write(bus, addr, data).0.spec_cycle() == p.spec_cycle(),
        p.after_write(bus, addr, data).0.spec_scanline() == p.spec_scanline(),
        p.after_oam_dma(buffer).spec_cycle() == p.spec_cycle(),
        p.after_oam_dma(buffer).spec_scanline() == p.spec_scanline(),
        p.nmi_taken().spec_cycle() == p.spec_cycle(),
        p.nmi_taken().spec_scanline() == p.spec_scanline(),
{
    reveal(Ppu::after_read);
    reveal(Ppu::after_write);
}

/// The first sprite, from `k` on, drawing an opaque pixel at this dot.
pub open spec fn first_opaque_sprite(p: Ppu, k: nat) -> Option<int>
    decreases 8 - k,
{
    if k >= 8 {
        None
    } else if p.sprite_opaque(k as int) {
        Some(k as int)
    } else {
        first_opaque_sprite(p, k + 1)
    }
}

proof fn lemma_first_opaque_agree(p: Ppu, q: Ppu, k: nat)
    requires
        forall|j: int| k <= j < 8 ==> p.sprite_opaque(j) == q.sprite_opaque(j),
    ensures
        first_opaque_sprite(p, k) == first_opaque_sprite(q, k),
        first_opaque_sprite(p, k) matches Some(i) ==> k <= i < 8,
    decreases 8 - k,
{
    if k < 8 {
        lemma_first_opaque_agree(p, q, k + 1);
    }
}

proof fn lemma_sprite_scan_keeps(p: Ppu, k: nat, pixel: Option<(u8, bool, bool)>)
    ensures
        p.sprite_scan(k, pixel).1.mask_reg == p.mask_reg,
        p.sprite_scan(k, pixel).1.frame == p.frame,
    decreases 8 - k,
{
    if k < 8 {
        let (px, p2) = p.sprite_scan_step(k as int, pixel);
        lemma_sprite_scan_keeps(p2, k + 1, px);
    }
}

proof fn lemma_sprite_scan_first(p: Ppu, k: nat, pixel: Option<(u8, bool, bool)>)
    requires
        k <= 8,
    ensures
        p.sprite_scan(k, pixel).0 == match pixel {
            Some(px) => Some(px),
            None => match first_opaque_sprite(p, k) {
                Some(i) => Some(p.sprite_color(i)),
                None => None,
            },
        },
    decreases 8 - k,
{
    if k < 8 {
        let (px, p2) = p.sprite_scan_step(k as int, pixel);
        lemma_sprite_scan_first(p2, k + 1, px);
        assert forall|j: int| k + 1 <= j < 8 implies p2.sprite_opaque(j) == p.sprite_opaque(j)
            && p2.sprite_color(j) == p.sprite_color(j) by {
            assert(p2.sprites_x_counter@[j] == p.sprites_x_counter@[j]);
            assert(p2.sprites_pipeline@[j] == p.sprites_pipeline@[j]);
            assert(p2.sprites_pipeline@[8 + j] == p.sprites_pipeline@[8 + j]);
        }
        lemma_first_opaque_agree(p2, p, k + 1);
        lemma_first_opaque_agree(p, p, k + 1);
    }
}

/// Sprite priority: at a visible dot past the left edge, with background and sprites
/// shown, where the background pixel is opaque and some sprite draws an opaque pixel, the
/// first such sprite decides: its own color (its palette entry for its pattern) is drawn
/// when its priority bit (attribute bit 5) is clear, the background color when it is set.
pub proof fn lemma_sprite_priority(p: Ppu)
    requires
        0 <= p.spec_scanline() <= 239,
        9 <= p.spec_cycle() <= 256,
        has_all(p.spec_mask().spec_bits(), MASK_SHOW_BACKGROUND),
        has_all(p.spec_mask().spec_bits(), MASK_SHOW_SPRITES),
        !p.background_pixel().0,
        first_opaque_sprite(p, 0) is Some,
    ensures
        ({
            let i = first_opaque_sprite(p, 0)->0;
            let attributes = p.sprite_attributes(i);
            let sprite = p.spec_palette()[16 + 4 * (attributes as int % 4) + p.sprite_pattern(i)];
            let drawn = if (attributes as int / 32) % 2 == 1 {
                p.background_pixel().1
            } else {
                sprite
            };
            p.spec_render_pixel().spec_frame()[pixel_index(p.spec_cycle() - 1, p.spec_scanline() as int)]
                == if has_all(p.spec_mask().spec_bits(), MASK_GREYSCALE) {
                drawn & 0x30
            } else {
                drawn
            }
        }),
{
    lemma_sprite_scan_first(p, 0, None);
    lemma_first_opaque_agree(p, p, 0);
    let (px, s1) = p.sprite_scan(0, None);
    lemma_sprite_scan_keeps(p, 0, None);
    assert(pixel_index(p.cycle_count - 1, p.scanline as int) < FRAME_SIZE);
}

} // verus!
