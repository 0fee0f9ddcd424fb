//! Facts relating the bit operations the hardware is described with to arithmetic,
//! which the rest of the proofs reason in.
use vstd::prelude::*;
use crate::ppu::registers::{has_all, with_bits};

verus! {

/// Masks, shifts and single-bit tests of a byte, as arithmetic.
pub proof fn lemma_byte_bits(b: u8)
    by (bit_vector)
    ensures
        b & 0x01 == b % 2,
        b & 0x03 == b % 4,
        b & 0x07 == b % 8,
        b & 0x0f == b % 16,
        b & 0x1f == b % 32,
        b & 0x3f == b % 64,
        b & 0xf0 == (b / 16) * 16,
        b & 0xfe == b - b % 2,
        b & 0x33 == b % 4 + (b / 16 % 4) * 16,
        (b & 0x30) >> 4u8 == (b / 16) % 4,
        (b & 0x80) >> 7u8 == b / 128,
        b >> 1u8 == b / 2,
        b >> 3u8 == b / 8,
        b >> 4u8 == b / 16,
        b << 1u8 == ((b * 2) % 256) as u8,
        (b & 0x01 == 0x01) == (b % 2 == 1),
        (b & 0x02 == 0x02) == ((b / 2) % 2 == 1),
        (b & 0x04 == 0x04) == ((b / 4) % 2 == 1),
        (b & 0x08 == 0x08) == ((b / 8) % 2 == 1),
        (b & 0x10 == 0x10) == ((b / 16) % 2 == 1),
        (b & 0x20 == 0x20) == ((b / 32) % 2 == 1),
        (b & 0x40 == 0x40) == ((b / 64) % 2 == 1),
        (b & 0x80 == 0x80) == (b >= 0x80),
        (b & 0x01 != 0) == (b % 2 == 1),
        (b & 0x04 != 0) == ((b / 4) % 2 == 1),
        (b & 0x08 != 0) == ((b / 8) % 2 == 1),
        (b & 0x10 != 0) == ((b / 16) % 2 == 1),
        ((b >> 5u8) & 1 == 1) == ((b / 32) % 2 == 1),
{
}

/// Masks, shifts and single-bit tests of a 16-bit word, as arithmetic.
pub proof fn lemma_word_bits(v: u16)
    by (bit_vector)
    ensures
        v & 0x01 == v % 2,
        v & 0x03 == v % 4,
        v & 0x0f == v % 16,
        v & 0x1f == v % 32,
        v & 0x00ff == v % 256,
        v & 0x3fff == v % 0x4000,
        v & 0x7fff == v % 0x8000,
        v & 0xff00 == (v / 256) * 256,
        v & 0x6000 == 0x2000 * ((v / 0x2000) % 4),
        (v >> 5u16) & 0x1f == (v / 32) % 32,
        (v >> 10u16) & 0x3 == (v / 1024) % 4,
        (v >> 12u16) & 0x7 == (v / 4096) % 8,
        (v & 0x01 == 0) == (v % 2 == 0),
        (v & 0x1000 == 0x1000) == ((v / 0x1000) % 2 == 1),
        (v & 0x8000 == 0x8000) == (v >= 0x8000),
{
}

/// A word with a clear low byte, or'ed with a byte, is their sum.
pub proof fn lemma_or_low_byte(hi: u16, lo: u16)
    by (bit_vector)
    requires
        hi % 256 == 0,
        lo < 256,
    ensures
        hi | lo == hi + lo,
        lo | hi == hi + lo,
        lo << 8u16 == lo * 256,
{
}

/// Flipping the horizontal or vertical nametable bit of a two-bit nametable number.
pub proof fn lemma_two_bits_flip(a: u16)
    by (bit_vector)
    requires
        a < 4,
    ensures
        a ^ 0b01u16 == (a + 1) % 2 + 2 * (a / 2),
        a ^ 0b10u16 == (a + 2) % 4,
{
}

/// Merging the horizontal bit of one nametable number with the vertical bit of another.
pub proof fn lemma_two_bits_merge(a: u16, b: u16)
    by (bit_vector)
    requires
        a < 4,
        b < 4,
    ensures
        (a & 0b10u16) | (b & 0b01u16) == 2 * (a / 2) + b % 2,
        (a & 0b01u16) | (b & 0b10u16) == a % 2 + 2 * (b / 2),
{
}

/// The status byte a PPUSTATUS read returns keeps bit 7 of the status register: the
/// stale bus bits are only the low five.
pub proof fn lemma_status_or_low(status: u8, stale: u8)
    by (bit_vector)
    ensures
        ((status | (stale & 0x1F)) >= 128) == (status & 0x80 == 0x80),
{
}

/// Setting or clearing one flag bit sets that flag as asked and keeps every other flag.
pub proof fn lemma_flag_update(p: u8, m: u8, n: u8, on: bool)
    by (bit_vector)
    requires
        m == 1 || m == 2 || m == 4 || m == 8 || m == 16 || m == 32 || m == 64 || m == 128,
        n == 1 || n == 2 || n == 4 || n == 8 || n == 16 || n == 32 || n == 64 || n == 128,
    ensures
        has_all(with_bits(p, m, on), m) == on,
        m != n ==> has_all(with_bits(p, m, on), n) == has_all(p, n),
{
}

} // verus!
