//! The PPU's memory-mapped registers and the internal VRAM address register.
use vstd::prelude::*;

verus! {

// == VRAM address register == //

/// A VRAM address, used to read and write on the PPU bus and during rendering.
///
/// Its 15 low bits are laid out as `yyy NN YYYYY XXXXX`:
/// fine Y (bits 12..=14), nametable (bits 10..=11), coarse Y (bits 5..=9) and
/// coarse X (bits 0..=4). The `latch` selects which half of the address the next
/// `load` writes (high byte first).
#[derive(Clone, Copy)]
pub struct VramAddr {
    value: u16,
    latch: bool,
}

/// Coarse X of a raw VRAM address (bits 0..=4).
pub open spec fn coarse_x_of(v: u16) -> int {
    v as int % 32
}

/// Coarse Y of a raw VRAM address (bits 5..=9).
pub open spec fn coarse_y_of(v: u16) -> int {
    (v as int / 32) % 32
}

/// Nametable of a raw VRAM address (bits 10..=11).
pub open spec fn nametable_of(v: u16) -> int {
    (v as int / 1024) % 4
}

/// Fine Y of a raw VRAM address (bits 12..=14).
pub open spec fn fine_y_of(v: u16) -> int {
    (v as int / 4096) % 8
}

/// Bit 15 of a raw VRAM address, which belongs to no field.
pub open spec fn top_bit_of(v: u16) -> int {
    v as int / 32768
}

/// A raw address is entirely determined by its four fields and its top bit.
pub open spec fn compose_vram(cx: int, cy: int, nt: int, fy: int, top: int) -> int {
    cx + 32 * cy + 1024 * nt + 4096 * fy + 32768 * top
}

/// Every raw address is the composition of its fields.
pub proof fn lemma_vram_fields_compose(v: u16)
    ensures
        v as int == compose_vram(
            coarse_x_of(v),
            coarse_y_of(v),
            nametable_of(v),
            fine_y_of(v),
            top_bit_of(v),
        ),
{
    assert(v == v % 32 + 32 * ((v / 32) % 32) + 1024 * ((v / 1024) % 4) + 4096 * ((v / 4096) % 8)
        + 32768 * (v / 32768)) by (bit_vector);
}

proof fn lemma_field_bits(v: u16)
    ensures
        v & 0x1f == v % 32,
        (v >> 5u16) & 0x1f == (v / 32) % 32,
        (v >> 10u16) & 0x3 == (v / 1024) % 4,
        (v >> 12u16) & 0x7 == (v / 4096) % 8,
{
    crate::bits::lemma_word_bits(v);
}

impl VramAddr {
    /// The raw 16-bit value.
    pub closed spec fn value(self) -> u16 {
        self.value
    }

    /// The write latch used by `load`: `false` means the next write sets the high byte.
    pub closed spec fn latch_state(self) -> bool {
        self.latch
    }

    /// This register holding the raw value `v`, with the same latch.
    pub closed spec fn spec_with_value(self, v: u16) -> Self {
        VramAddr { value: v, ..self }
    }

    /// This register with coarse X set to `v % 32`.
    pub open spec fn spec_set_coarse_x(self, v: u16) -> Self {
        self.spec_with_value(
            compose_vram(
                v as int % 32,
                coarse_y_of(self.value()),
                nametable_of(self.value()),
                fine_y_of(self.value()),
                top_bit_of(self.value()),
            ) as u16,
        )
    }

    /// This register with coarse Y set to `v % 32`.
    pub open spec fn spec_set_coarse_y(self, v: u16) -> Self {
        self.spec_with_value(
            compose_vram(
                coarse_x_of(self.value()),
                v as int % 32,
                nametable_of(self.value()),
                fine_y_of(self.value()),
                top_bit_of(self.value()),
            ) as u16,
        )
    }

    /// This register with the nametable set to `v % 4`.
    pub open spec fn spec_set_nametable(self, v: u16) -> Self {
        self.spec_with_value(
            compose_vram(
                coarse_x_of(self.value()),
                coarse_y_of(self.value()),
                v as int % 4,
                fine_y_of(self.value()),
                top_bit_of(self.value()),
            ) as u16,
        )
    }

    /// This register with fine Y set to `v % 8`.
    pub open spec fn spec_set_fine_y(self, v: u16) -> Self {
        self.spec_with_value(
            compose_vram(
                coarse_x_of(self.value()),
                coarse_y_of(self.value()),
                nametable_of(self.value()),
                v as int % 8,
                top_bit_of(self.value()),
            ) as u16,
        )
    }

    /// The register after moving to the next tile column (see `increment_coarse_x`).
    pub open spec fn spec_increment_coarse_x(self) -> Self {
        if coarse_x_of(self.value()) == 31 {
            let a = self.spec_set_coarse_x(0);
            a.spec_set_nametable(
                ((nametable_of(a.value()) + 1) % 2 + 2 * (nametable_of(a.value()) / 2)) as u16,
            )
        } else {
            self.spec_set_coarse_x((coarse_x_of(self.value()) + 1) as u16)
        }
    }

    /// The register after moving to the next pixel row (see `increment_fine_y`).
    pub open spec fn spec_increment_fine_y(self) -> Self {
        if fine_y_of(self.value()) == 7 {
            let a = self.spec_set_fine_y(0);
            let cy = coarse_y_of(a.value());
            if cy == 29 {
                let b = a.spec_set_coarse_y(0);
                b.spec_set_nametable(((nametable_of(b.value()) + 2) % 4) as u16)
            } else if cy == 31 {
                a.spec_set_coarse_y(0)
            } else {
                a.spec_set_coarse_y((cy + 1) as u16)
            }
        } else {
            self.spec_set_fine_y((fine_y_of(self.value()) + 1) as u16)
        }
    }

    /// The register with the horizontal part copied from `other` (see `reset_x`).
    pub open spec fn spec_reset_x(self, other: Self) -> Self {
        let a = self.spec_set_coarse_x(coarse_x_of(other.value()) as u16);
        a.spec_set_nametable(
            (2 * (nametable_of(a.value()) / 2) + nametable_of(other.value()) % 2) as u16,
        )
    }

    /// The register with the vertical part copied from `other` (see `reset_y`).
    pub open spec fn spec_reset_y(self, other: Self) -> Self {
        let a = self.spec_set_coarse_y(coarse_y_of(other.value()) as u16);
        let b = a.spec_set_fine_y(fine_y_of(other.value()) as u16);
        b.spec_set_nametable(
            (nametable_of(b.value()) % 2 + 2 * (nametable_of(other.value()) / 2)) as u16,
        )
    }

    /// What `spec_with_value` keeps and changes.
    pub proof fn lemma_spec_with_value(self, v: u16)
        ensures
            self.spec_with_value(v).value() == v,
            self.spec_with_value(v).latch_state() == self.latch_state(),
    {
    }

    /// The zero address, latch on the high byte.
    pub closed spec fn spec_new() -> Self {
        VramAddr { value: 0, latch: false }
    }

    /// An address of zero whose latch selects the high byte.
    pub fn new() -> (r: Self)
        ensures
            r == Self::spec_new(),
            r.value() == 0,
            !r.latch_state(),
    {
        VramAddr { value: 0, latch: false }
    }

    /// An address with the given raw value and latch.
    pub fn from_parts(value: u16, latch: bool) -> (r: Self)
        ensures
            r.value() == value,
            r.latch_state() == latch,
    {
        VramAddr { value, latch }
    }

    /// Returns the raw address.
    pub fn get(&self) -> (r: u16)
        ensures
            r == self.value(),
    {
        self.value
    }

    /// Replaces the raw address; the latch is kept.
    pub fn set(&mut self, val: u16)
        ensures
            *final(self) == old(self).spec_with_value(val),
            final(self).value() == val,
            final(self).latch_state() == old(self).latch_state(),
    {
        self.value = val;
    }

    /// Coarse X (tile column).
    pub fn coarse_x(&self) -> (r: u16)
        ensures
            r == coarse_x_of(self.value()),
    {
        proof {
            lemma_field_bits(self.value);
        }
        self.value & 0x1f
    }

    /// Coarse Y (tile row).
    pub fn coarse_y(&self) -> (r: u16)
        ensures
            r == coarse_y_of(self.value()),
    {
        proof {
            lemma_field_bits(self.value);
        }
        (self.value >> 5u16) & 0x1f
    }

    /// Nametable select.
    pub fn nametable(&self) -> (r: u16)
        ensures
            r == nametable_of(self.value()),
    {
        proof {
            lemma_field_bits(self.value);
        }
        (self.value >> 10u16) & 0x3
    }

    /// Fine Y (pixel row inside the tile).
    pub fn fine_y(&self) -> (r: u16)
        ensures
            r == fine_y_of(self.value()),
    {
        proof {
            lemma_field_bits(self.value);
        }
        (self.value >> 12u16) & 0x7
    }

    /// Sets coarse X to `v % 32`, keeping every other bit.
    pub fn set_coarse_x(&mut self, v: u16)
        ensures
            *final(self) == old(self).spec_set_coarse_x(v),
            coarse_x_of(final(self).value()) == v % 32,
            coarse_y_of(final(self).value()) == coarse_y_of(old(self).value()),
            nametable_of(final(self).value()) == nametable_of(old(self).value()),
            fine_y_of(final(self).value()) == fine_y_of(old(self).value()),
            top_bit_of(final(self).value()) == top_bit_of(old(self).value()),
            final(self).latch_state() == old(self).latch_state(),
    {
        let old_v = self.value;
        let new_v = (old_v & !0x1fu16) | (v & 0x1f);
        proof {
            assert(new_v % 32 == v % 32 && (new_v / 32) % 32 == (old_v / 32) % 32 && (new_v
                / 1024) % 4 == (old_v / 1024) % 4 && (new_v / 4096) % 8 == (old_v / 4096) % 8
                && new_v / 32768 == old_v / 32768) by (bit_vector)
                requires new_v == (old_v & !0x1fu16) | (v & 0x1f);
        }
        self.value = new_v;
        proof {
            lemma_vram_fields_compose(new_v);
        }
    }

    /// Sets coarse Y to `v % 32`, keeping every other bit.
    pub fn set_coarse_y(&mut self, v: u16)
        ensures
            *final(self) == old(self).spec_set_coarse_y(v),
            coarse_y_of(final(self).value()) == v % 32,
            coarse_x_of(final(self).value()) == coarse_x_of(old(self).value()),
            nametable_of(final(self).value()) == nametable_of(old(self).value()),
            fine_y_of(final(self).value()) == fine_y_of(old(self).value()),
            top_bit_of(final(self).value()) == top_bit_of(old(self).value()),
            final(self).latch_state() == old(self).latch_state(),
    {
        let old_v = self.value;
        let new_v = (old_v & !0x3e0u16) | ((v & 0x1f) << 5u16);
        proof {
            assert(new_v % 32 == old_v % 32 && (new_v / 32) % 32 == v % 32 && (new_v / 1024)
                % 4 == (old_v / 1024) % 4 && (new_v / 4096) % 8 == (old_v / 4096) % 8 && new_v
                / 32768 == old_v / 32768) by (bit_vector)
                requires new_v == (old_v & !0x3e0u16) | ((v & 0x1f) << 5u16);
        }
        self.value = new_v;
        proof {
            lemma_vram_fields_compose(new_v);
        }
    }

    /// Sets the nametable to `v % 4`, keeping every other bit.
    pub fn set_nametable(&mut self, v: u16)
        ensures
            *final(self) == old(self).spec_set_nametable(v),
            nametable_of(final(self).value()) == v % 4,
            coarse_x_of(final(self).value()) == coarse_x_of(old(self).value()),
            coarse_y_of(final(self).value()) == coarse_y_of(old(self).value()),
            fine_y_of(final(self).value()) == fine_y_of(old(self).value()),
            top_bit_of(final(self).value()) == top_bit_of(old(self).value()),
            final(self).latch_state() == old(self).latch_state(),
    {
        let old_v = self.value;
        let new_v = (old_v & !0xc00u16) | ((v & 0x3) << 10u16);
        proof {
            assert(new_v % 32 == old_v % 32 && (new_v / 32) % 32 == (old_v / 32) % 32 && (new_v
                / 1024) % 4 == v % 4 && (new_v / 4096) % 8 == (old_v / 4096) % 8 && new_v / 32768
                == old_v / 32768) by (bit_vector)
                requires new_v == (old_v & !0xc00u16) | ((v & 0x3) << 10u16);
        }
        self.value = new_v;
        proof {
            lemma_vram_fields_compose(new_v);
        }
    }

    /// Sets fine Y to `v % 8`, keeping every other bit.
    pub fn set_fine_y(&mut self, v: u16)
        ensures
            *final(self) == old(self).spec_set_fine_y(v),
            fine_y_of(final(self).value()) == v % 8,
            coarse_x_of(final(self).value()) == coarse_x_of(old(self).value()),
            coarse_y_of(final(self).value()) == coarse_y_of(old(self).value()),
            nametable_of(final(self).value()) == nametable_of(old(self).value()),
            top_bit_of(final(self).value()) == top_bit_of(old(self).value()),
            final(self).latch_state() == old(self).latch_state(),
    {
        let old_v = self.value;
        let new_v = (old_v & !0x7000u16) | ((v & 0x7) << 12u16);
        proof {
            assert(new_v % 32 == old_v % 32 && (new_v / 32) % 32 == (old_v / 32) % 32 && (new_v
                / 1024) % 4 == (old_v / 1024) % 4 && (new_v / 4096) % 8 == v % 8 && new_v / 32768
                == old_v / 32768) by (bit_vector)
                requires new_v == (old_v & !0x7000u16) | ((v & 0x7) << 12u16);
        }
        self.value = new_v;
        proof {
            lemma_vram_fields_compose(new_v);
        }
    }

    /// Moves to the next tile column; past column 31 it wraps to column 0 of the
    /// horizontally adjacent nametable.
    pub fn increment_coarse_x(&mut self)
        ensures
            *final(self) == old(self).spec_increment_coarse_x(),
            coarse_x_of(old(self).value()) == 31 ==> coarse_x_of(final(self).value()) == 0
                && nametable_of(final(self).value()) == (nametable_of(old(self).value()) + 1) % 2
                + 2 * (nametable_of(old(self).value()) / 2),
            coarse_x_of(old(self).value()) != 31 ==> coarse_x_of(final(self).value())
                == coarse_x_of(old(self).value()) + 1 && nametable_of(final(self).value())
                == nametable_of(old(self).value()),
            coarse_y_of(final(self).value()) == coarse_y_of(old(self).value()),
            fine_y_of(final(self).value()) == fine_y_of(old(self).value()),
            top_bit_of(final(self).value()) == top_bit_of(old(self).value()),
            final(self).latch_state() == old(self).latch_state(),
    {
        if self.coarse_x() == 31 {
            self.set_coarse_x(0);
            let nt = self.nametable();
            let flipped = nt ^ 0b01;
            proof {
                crate::bits::lemma_two_bits_flip(nt);
            }
            self.set_nametable(flipped);
        } else {
            let cx = self.coarse_x();
            self.set_coarse_x(cx + 1);
        }
    }

    /// Moves to the next pixel row; after the last row of a tile it moves to the next
    /// tile row. Row 29 wraps to row 0 of the vertically adjacent nametable, while row 31
    /// wraps to row 0 of the same nametable.
    pub fn increment_fine_y(&mut self)
        ensures
            *final(self) == old(self).spec_increment_fine_y(),
            fine_y_of(old(self).value()) != 7 ==> fine_y_of(final(self).value()) == fine_y_of(
                old(self).value(),
            ) + 1 && coarse_y_of(final(self).value()) == coarse_y_of(old(self).value())
                && nametable_of(final(self).value()) == nametable_of(old(self).value()),
            fine_y_of(old(self).value()) == 7 ==> fine_y_of(final(self).value()) == 0,
            fine_y_of(old(self).value()) == 7 && coarse_y_of(old(self).value()) == 29
                ==> coarse_y_of(final(self).value()) == 0 && nametable_of(final(self).value())
                == (nametable_of(old(self).value()) + 2) % 4,
            fine_y_of(old(self).value()) == 7 && coarse_y_of(old(self).value()) == 31
                ==> coarse_y_of(final(self).value()) == 0 && nametable_of(final(self).value())
                == nametable_of(old(self).value()),
            fine_y_of(old(self).value()) == 7 && coarse_y_of(old(self).value()) != 29
                && coarse_y_of(old(self).value()) != 31 ==> coarse_y_of(final(self).value())
                == coarse_y_of(old(self).value()) + 1 && nametable_of(final(self).value())
                == nametable_of(old(self).value()),
            coarse_x_of(final(self).value()) == coarse_x_of(old(self).value()),
            top_bit_of(final(self).value()) == top_bit_of(old(self).value()),
            final(self).latch_state() == old(self).latch_state(),
    {
        if self.fine_y() == 7 {
            self.set_fine_y(0);
            let coarse_y = self.coarse_y();
            if coarse_y == 29 {
                self.set_coarse_y(0);
                let nt = self.nametable();
                let flipped = nt ^ 0b10;
                proof {
                    crate::bits::lemma_two_bits_flip(nt);
                }
                self.set_nametable(flipped);
            } else if coarse_y == 31 {
                self.set_coarse_y(0);
            } else {
                self.set_coarse_y(coarse_y + 1);
            }
        } else {
            let fy = self.fine_y();
            self.set_fine_y(fy + 1);
        }
    }

    /// Copies the horizontal part (coarse X and the low nametable bit) from `other`.
    pub fn reset_x(&mut self, other: &Self)
        ensures
            *final(self) == old(self).spec_reset_x(*other),
            coarse_x_of(final(self).value()) == coarse_x_of(other.value()),
            nametable_of(final(self).value()) == 2 * (nametable_of(old(self).value()) / 2)
                + nametable_of(other.value()) % 2,
            coarse_y_of(final(self).value()) == coarse_y_of(old(self).value()),
            fine_y_of(final(self).value()) == fine_y_of(old(self).value()),
            top_bit_of(final(self).value()) == top_bit_of(old(self).value()),
            final(self).latch_state() == old(self).latch_state(),
    {
        let cx = other.coarse_x();
        self.set_coarse_x(cx);
        let mine = self.nametable();
        let theirs = other.nametable();
        let nametable = (mine & 0b10) | (theirs & 0b01);
        proof {
            crate::bits::lemma_two_bits_merge(mine, theirs);
        }
        self.set_nametable(nametable);
    }

    /// Copies the vertical part (coarse Y, fine Y and the high nametable bit) from `other`.
    #[verifier::rlimit(40)]
    pub fn reset_y(&mut self, other: &Self)
        ensures
            *final(self) == old(self).spec_reset_y(*other),
            coarse_y_of(final(self).value()) == coarse_y_of(other.value()),
            fine_y_of(final(self).value()) == fine_y_of(other.value()),
            nametable_of(final(self).value()) == nametable_of(old(self).value()) % 2 + 2 * (
            nametable_of(other.value()) / 2),
            coarse_x_of(final(self).value()) == coarse_x_of(old(self).value()),
            top_bit_of(final(self).value()) == top_bit_of(old(self).value()),
            final(self).latch_state() == old(self).latch_state(),
    {
        let cy = other.coarse_y();
        self.set_coarse_y(cy);
        let fy = other.fine_y();
        self.set_fine_y(fy);
        let mine = self.nametable();
        let theirs = other.nametable();
        let nametable = (mine & 0b01) | (theirs & 0b10);
        proof {
            crate::bits::lemma_two_bits_merge(mine, theirs);
        }
        self.set_nametable(nametable);
    }

    /// Writes one byte of the address through the latch: the high byte first, then the
    /// low byte. The result is kept in `0..=0x3FFF`.
    pub fn load(&mut self, data: u8)
        ensures
            !old(self).latch_state() ==> final(self).value() == (data as int % 64) * 256 + old(
                self,
            ).value() % 256,
            old(self).latch_state() ==> final(self).value() == (old(self).value() as int / 256
                % 64) * 256 + data,
            final(self).latch_state() == !old(self).latch_state(),
    {
        let v = self.value;
        let d = data as u16;
        let nv = if self.latch {
            (v & 0xFF00) | d
        } else {
            (v & 0x00FF) | (d << 8u16)
        };
        proof {
            crate::bits::lemma_word_bits(v);
            crate::bits::lemma_or_low_byte(v & 0xFF00, d);
            crate::bits::lemma_or_low_byte((d * 256) as u16, v & 0x00FF);
            let h = v / 256;
            let l = v % 256;
            assert((h * 256 + d) % 0x4000 == (h % 64) * 256 + d) by (nonlinear_arith)
                requires
                    h < 256,
                    d < 256,
            ;
            assert((d * 256 + l) % 0x4000 == (d % 64) * 256 + l) by (nonlinear_arith)
                requires
                    l < 256,
                    d < 256,
            ;
            assert(((v & 0xFF00) | d) % 0x4000 == ((v / 256) % 64) * 256 + d);
            assert(((v & 0x00FF) | (d << 8u16)) % 0x4000 == (d % 64) * 256 + v % 256);
        }
        self.value = nv;
        self.latch = !self.latch;
        self.mirror();
    }

    /// Adds `step` to the address, wrapping inside `0..=0x3FFF`.
    pub fn inc(&mut self, step: u8)
        ensures
            final(self).value() == (old(self).value() as int + step as int) % 0x4000,
            final(self).latch_state() == old(self).latch_state(),
    {
        let v = self.value;
        let nv = v.wrapping_add(step as u16);
        proof {
            let s = step as u16;
            assert(s < 256 ==> ((v as int + s as int) % 65536) as u16 & 0x3FFF == (v as int
                + s as int) % 0x4000) by (bit_vector);
        }
        self.value = nv;
        self.mirror();
    }

    /// Makes the next `load` write the high byte.
    pub fn reset_latch(&mut self)
        ensures
            final(self).value() == old(self).value(),
            !final(self).latch_state(),
    {
        self.latch = false;
    }

    /// Folds the address into the PPU address space `0..=0x3FFF`.
    pub fn mirror(&mut self)
        ensures
            final(self).value() == old(self).value() % 0x4000,
            final(self).latch_state() == old(self).latch_state(),
    {
        let v = self.value;
        proof {
            crate::bits::lemma_word_bits(v);
        }
        self.value = v & 0x3FFF;
    }
}

// == flag registers == //

/// Whether every bit of `mask` is set in `bits`.
pub open spec fn has_all(bits: u8, mask: u8) -> bool {
    bits & mask == mask
}

/// `bits` with the bits of `mask` set when `on`, cleared otherwise.
pub open spec fn with_bits(bits: u8, mask: u8, on: bool) -> u8 {
    if on {
        bits | mask
    } else {
        bits & !mask
    }
}

/// Whether bit `i` (0 = least significant) of `b` is set.
pub open spec fn bit(b: u8, i: int) -> bool {
    (b as int / pow2_u8(i)) % 2 == 1
}

/// `2^i` for the bit positions of a byte.
pub open spec fn pow2_u8(i: int) -> int {
    if i <= 0 {
        1
    } else if i == 1 {
        2
    } else if i == 2 {
        4
    } else if i == 3 {
        8
    } else if i == 4 {
        16
    } else if i == 5 {
        32
    } else if i == 6 {
        64
    } else {
        128
    }
}

/// The PPU control register, `$2000` (PPUCTRL).
#[derive(Clone, Copy)]
pub struct ControlReg {
    bits: u8,
}

/// Base nametable address, low bit.
pub const CTRL_NAMETABLE_ADDR_LO: u8 = 0b0000_0001;
/// Base nametable address, high bit.
pub const CTRL_NAMETABLE_ADDR_HI: u8 = 0b0000_0010;
/// Both base nametable address bits (0 = $2000; 1 = $2400; 2 = $2800; 3 = $2C00).
pub const CTRL_NAMETABLE_ADDR: u8 = 0b0000_0011;
/// VRAM address increment per PPUDATA access (0: add 1, going across; 1: add 32, going down).
pub const CTRL_VRAM_ADDR_INCREMENT: u8 = 0b0000_0100;
/// Sprite pattern table for 8x8 sprites (0: $0000; 1: $1000).
pub const CTRL_SPRITE_PATTERN_ADDR: u8 = 0b0000_1000;
/// Background pattern table (0: $0000; 1: $1000).
pub const CTRL_BACKGROUND_PATTERN_ADDR: u8 = 0b0001_0000;
/// Sprite size (0: 8x8 pixels; 1: 8x16 pixels).
pub const CTRL_SPRITE_SIZE: u8 = 0b0010_0000;
/// PPU master/slave select.
pub const CTRL_MASTER_SLAVE_SELECT: u8 = 0b0100_0000;
/// Generate an NMI at the start of vertical blanking.
pub const CTRL_GENERATE_NMI: u8 = 0b1000_0000;

impl ControlReg {
    /// The raw register value.
    pub closed spec fn spec_bits(self) -> u8 {
        self.bits
    }

    /// The register holding `bits`.
    pub closed spec fn spec_from_bits(bits: u8) -> Self {
        ControlReg { bits }
    }

    /// The register holding `bits` has value `bits`.
    pub proof fn lemma_from_bits(bits: u8)
        ensures
            Self::spec_from_bits(bits).spec_bits() == bits,
    {
    }

    /// The register with every bit cleared.
    pub fn empty() -> (r: Self)
        ensures
            r == Self::spec_from_bits(0),
            r.spec_bits() == 0,
    {
        ControlReg { bits: 0 }
    }

    /// The raw register value.
    pub fn bits(&self) -> (r: u8)
        ensures
            r == self.spec_bits(),
    {
        self.bits
    }

    /// Whether every bit of `mask` is set.
    pub fn contains(&self, mask: u8) -> (r: bool)
        ensures
            r == has_all(self.spec_bits(), mask),
    {
        self.bits & mask == mask
    }

    /// Replaces the whole register.
    pub fn write(&mut self, data: u8)
        ensures
            *final(self) == Self::spec_from_bits(data),
            final(self).spec_bits() == data,
    {
        self.bits = data;
    }

    /// How far PPUDATA accesses move the VRAM address: 32 in vertical mode, 1 otherwise.
    pub fn vram_addr_increment(&self) -> (r: u8)
        ensures
            r == (if bit(self.spec_bits(), 2) {
                32u8
            } else {
                1u8
            }),
    {
        let b = self.bits;
        proof {
            crate::bits::lemma_byte_bits(b);
        }
        if self.contains(CTRL_VRAM_ADDR_INCREMENT) {
            32
        } else {
            1
        }
    }

    /// Base address of the sprite pattern table for 8x8 sprites.
    pub fn sprite_pattern_base_addr(&self) -> (r: u16)
        ensures
            r == (if bit(self.spec_bits(), 3) {
                0x1000u16
            } else {
                0u16
            }),
    {
        let b = self.bits;
        proof {
            crate::bits::lemma_byte_bits(b);
        }
        if self.contains(CTRL_SPRITE_PATTERN_ADDR) {
            0x1000
        } else {
            0x0000
        }
    }

    /// Base address of the background pattern table.
    pub fn background_pattern_base_addr(&self) -> (r: u16)
        ensures
            r == (if bit(self.spec_bits(), 4) {
                0x1000u16
            } else {
                0u16
            }),
    {
        let b = self.bits;
        proof {
            crate::bits::lemma_byte_bits(b);
        }
        if self.contains(CTRL_BACKGROUND_PATTERN_ADDR) {
            0x1000
        } else {
            0x0000
        }
    }

    /// Sprite height in pixels: 16 in 8x16 mode, 8 otherwise.
    pub fn sprite_size(&self) -> (r: u8)
        ensures
            r == (if bit(self.spec_bits(), 5) {
                16u8
            } else {
                8u8
            }),
    {
        let b = self.bits;
        proof {
            crate::bits::lemma_byte_bits(b);
        }
        if self.contains(CTRL_SPRITE_SIZE) {
            16
        } else {
            8
        }
    }

    /// The master/slave select (flag P, bit 6) as 0 or 1.
    pub fn master_slave_select(&self) -> (r: u8)
        ensures
            r == (if bit(self.spec_bits(), 6) {
                1u8
            } else {
                0u8
            }),
    {
        let b = self.bits;
        proof {
            crate::bits::lemma_byte_bits(b);
        }
        if self.contains(CTRL_MASTER_SLAVE_SELECT) {
            1
        } else {
            0
        }
    }
}

/// The PPU status register, `$2002` (PPUSTATUS).
#[derive(Clone, Copy)]
pub struct StatusReg {
    bits: u8,
}

/// Sprite overflow.
pub const STATUS_SPRITE_OVERFLOW: u8 = 0b0010_0000;
/// Sprite 0 hit.
pub const STATUS_SPRITE_ZERO_HIT: u8 = 0b0100_0000;
/// Vertical blank has started.
pub const STATUS_VBLANK_STARTED: u8 = 0b1000_0000;

impl StatusReg {
    /// The raw register value.
    pub closed spec fn spec_bits(self) -> u8 {
        self.bits
    }

    /// The register holding `bits`.
    pub closed spec fn spec_from_bits(bits: u8) -> Self {
        StatusReg { bits }
    }

    /// The register holding `bits` has value `bits`.
    pub proof fn lemma_from_bits(bits: u8)
        ensures
            Self::spec_from_bits(bits).spec_bits() == bits,
    {
    }

    /// The register with every bit cleared.
    pub fn empty() -> (r: Self)
        ensures
            r == Self::spec_from_bits(0),
            r.spec_bits() == 0,
    {
        StatusReg { bits: 0 }
    }

    /// The raw register value.
    pub fn read(&self) -> (r: u8)
        ensures
            r == self.spec_bits(),
    {
        self.bits
    }

    /// Whether every bit of `mask` is set.
    pub fn contains(&self, mask: u8) -> (r: bool)
        ensures
            r == has_all(self.spec_bits(), mask),
    {
        self.bits & mask == mask
    }

    /// Sets the bits of `mask`.
    pub fn insert(&mut self, mask: u8)
        ensures
            *final(self) == Self::spec_from_bits(old(self).spec_bits() | mask),
            final(self).spec_bits() == old(self).spec_bits() | mask,
    {
        self.bits = self.bits | mask;
    }

    /// Clears the bits of `mask`.
    pub fn remove(&mut self, mask: u8)
        ensures
            *final(self) == Self::spec_from_bits(old(self).spec_bits() & !mask),
            final(self).spec_bits() == old(self).spec_bits() & !mask,
    {
        self.bits = self.bits & !mask;
    }

    /// Sets or clears the bits of `mask`.
    pub fn set(&mut self, mask: u8, on: bool)
        ensures
            *final(self) == Self::spec_from_bits(with_bits(old(self).spec_bits(), mask, on)),
            final(self).spec_bits() == with_bits(old(self).spec_bits(), mask, on),
    {
        if on {
            self.insert(mask);
        } else {
            self.remove(mask);
        }
    }
}

/// The PPU mask register, `$2001` (PPUMASK).
#[derive(Clone, Copy)]
pub struct MaskReg {
    bits: u8,
}

/// Greyscale display.
pub const MASK_GREYSCALE: u8 = 0b0000_0001;
/// Show background in the leftmost 8 pixels.
pub const MASK_LEFTMOST_8PXL_BACKGROUND: u8 = 0b0000_0010;
/// Show sprites in the leftmost 8 pixels.
pub const MASK_LEFTMOST_8PXL_SPRITE: u8 = 0b0000_0100;
/// Show background.
pub const MASK_SHOW_BACKGROUND: u8 = 0b0000_1000;
/// Show sprites.
pub const MASK_SHOW_SPRITES: u8 = 0b0001_0000;
/// Emphasize red.
pub const MASK_EMPHASISE_RED: u8 = 0b0010_0000;
/// Emphasize green.
pub const MASK_EMPHASISE_GREEN: u8 = 0b0100_0000;
/// Emphasize blue.
pub const MASK_EMPHASISE_BLUE: u8 = 0b1000_0000;

impl MaskReg {
    /// The raw register value.
    pub closed spec fn spec_bits(self) -> u8 {
        self.bits
    }

    /// The register holding `bits`.
    pub closed spec fn spec_from_bits(bits: u8) -> Self {
        MaskReg { bits }
    }

    /// The register holding `bits` has value `bits`.
    pub proof fn lemma_from_bits(bits: u8)
        ensures
            Self::spec_from_bits(bits).spec_bits() == bits,
    {
    }

    /// The register with every bit cleared.
    pub fn empty() -> (r: Self)
        ensures
            r == Self::spec_from_bits(0),
            r.spec_bits() == 0,
    {
        MaskReg { bits: 0 }
    }

    /// A register holding `bits`.
    pub fn from_bits(bits: u8) -> (r: Self)
        ensures
            r.spec_bits() == bits,
    {
        MaskReg { bits }
    }

    /// The raw register value.
    pub fn bits(&self) -> (r: u8)
        ensures
            r == self.spec_bits(),
    {
        self.bits
    }

    /// Whether every bit of `mask` is set.
    pub fn contains(&self, mask: u8) -> (r: bool)
        ensures
            r == has_all(self.spec_bits(), mask),
    {
        self.bits & mask == mask
    }

    /// Replaces the whole register.
    pub fn write(&mut self, data: u8)
        ensures
            *final(self) == Self::spec_from_bits(data),
            final(self).spec_bits() == data,
    {
        self.bits = data;
    }
}

// == scroll register == //

/// The two scroll positions written through `$2005` (PPUSCROLL), X first then Y.
#[derive(Clone, Copy)]
pub struct ScrollReg {
    scroll_x: u8,
    scroll_y: u8,
    latch: bool,
}

impl ScrollReg {
    /// Horizontal scroll.
    pub closed spec fn spec_x(self) -> u8 {
        self.scroll_x
    }

    /// Vertical scroll.
    pub closed spec fn spec_y(self) -> u8 {
        self.scroll_y
    }

    /// Whether the next write sets the vertical scroll.
    pub closed spec fn spec_latch(self) -> bool {
        self.latch
    }

    /// Both scrolls at zero, next write sets X.
    pub fn new() -> (r: Self)
        ensures
            r.spec_x() == 0,
            r.spec_y() == 0,
            !r.spec_latch(),
    {
        ScrollReg { scroll_x: 0, scroll_y: 0, latch: false }
    }

    /// Writes X then Y, alternately.
    pub fn write(&mut self, data: u8)
        ensures
            old(self).spec_latch() ==> final(self).spec_y() == data && final(self).spec_x()
                == old(self).spec_x(),
            !old(self).spec_latch() ==> final(self).spec_x() == data && final(self).spec_y()
                == old(self).spec_y(),
            final(self).spec_latch() == !old(self).spec_latch(),
    {
        if self.latch {
            self.scroll_y = data;
        } else {
            self.scroll_x = data;
        }
        self.latch = !self.latch;
    }

    /// Makes the next write set X.
    pub fn reset_latch(&mut self)
        ensures
            final(self).spec_x() == old(self).spec_x(),
            final(self).spec_y() == old(self).spec_y(),
            !final(self).spec_latch(),
    {
        self.latch = false;
    }

    /// Horizontal scroll.
    pub fn scroll_x(&self) -> (r: u8)
        ensures
            r == self.spec_x(),
    {
        self.scroll_x
    }

    /// Vertical scroll.
    pub fn scroll_y(&self) -> (r: u8)
        ensures
            r == self.spec_y(),
    {
        self.scroll_y
    }
}

impl Default for VramAddr {
    /// Address 0, latch on the high byte.
    fn default() -> (r: Self)
        ensures
            r.value() == 0,
            !r.latch_state(),
    {
        VramAddr::new()
    }
}

impl Default for ControlReg {
    /// Every bit clear.
    fn default() -> (r: Self)
        ensures
            r.spec_bits() == 0,
    {
        ControlReg::empty()
    }
}

impl Default for StatusReg {
    /// Every bit clear.
    fn default() -> (r: Self)
        ensures
            r.spec_bits() == 0,
    {
        StatusReg::empty()
    }
}

impl Default for MaskReg {
    /// Every bit clear.
    fn default() -> (r: Self)
        ensures
            r.spec_bits() == 0,
    {
        MaskReg::empty()
    }
}

} // verus!
