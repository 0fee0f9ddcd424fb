//! The cadence of the PPU's dot counter: 341 dots per scanline, scanlines -1 to 260,
//! and the first dot of the pre-render line skipped on odd frames while rendering.
use vstd::prelude::*;
use super::next_timing;

verus! {

/// The timing after `n` dots from `(cycle, scanline, odd)`, with rendering held on or
/// off throughout.
pub open spec fn timing_after(n: nat, cycle: u16, scanline: i16, odd: bool, rendering: bool) -> (
    u16,
    i16,
    bool,
)
    decreases n,
{
    if n == 0 {
        (cycle, scanline, odd)
    } else {
        let (c, s, o) = next_timing(cycle, scanline, odd, rendering);
        timing_after((n - 1) as nat, c, s, o, rendering)
    }
}

/// The position of a dot in its frame, counted from the first dot of the pre-render line.
pub open spec fn dot_index(cycle: u16, scanline: i16) -> int {
    (scanline + 1) * 341 + cycle
}

/// The dot at position `i` of a frame.
pub open spec fn dot_at(i: int) -> (u16, i16) {
    ((i % 341) as u16, (i / 341 - 1) as i16)
}

/// The last position of a frame (dot 340 of scanline 260).
pub open spec fn last_dot() -> int {
    262int * 341 - 1
}

/// The position at which a frame is complete (dot 256 of scanline 239).
pub open spec fn frame_done_dot() -> int {
    240int * 341 + 256
}

proof fn lemma_dot_at(i: int)
    requires
        0 <= i <= last_dot(),
    ensures
        0 <= dot_at(i).0 <= 340,
        -1 <= dot_at(i).1 <= 260,
        dot_index(dot_at(i).0, dot_at(i).1) == i,
        i < last_dot() ==> next_timing(dot_at(i).0, dot_at(i).1, false, false).0 == dot_at(i + 1).0
            && next_timing(dot_at(i).0, dot_at(i).1, false, false).1 == dot_at(i + 1).1,
{
}

proof fn lemma_next_inside(i: int, odd: bool, rendering: bool)
    requires
        0 <= i < last_dot(),
    ensures
        next_timing(dot_at(i).0, dot_at(i).1, odd, rendering) == (dot_at(i + 1).0, dot_at(i + 1).1, odd),
{
    lemma_dot_at(i);
}

proof fn lemma_timing_split(a: nat, b: nat, cycle: u16, scanline: i16, odd: bool, rendering: bool)
    ensures
        timing_after(a + b, cycle, scanline, odd, rendering) == ({
            let (c, s, o) = timing_after(a, cycle, scanline, odd, rendering);
            timing_after(b, c, s, o, rendering)
        }),
    decreases a,
{
    if a > 0 {
        let (c, s, o) = next_timing(cycle, scanline, odd, rendering);
        lemma_timing_split((a - 1) as nat, b, c, s, o, rendering);
        assert((a + b - 1) as nat == (a - 1) as nat + b);
    }
}

/// Within a frame the timing moves one position per dot.
proof fn lemma_advance_inside(k: nat, i: int, odd: bool, rendering: bool)
    requires
        0 <= i,
        i + k <= last_dot(),
    ensures
        timing_after(k, dot_at(i).0, dot_at(i).1, odd, rendering) == (
            dot_at(i + k).0,
            dot_at(i + k).1,
            odd,
        ),
    decreases k,
{
    if k > 0 {
        lemma_next_inside(i, odd, rendering);
        lemma_advance_inside((k - 1) as nat, i + 1, odd, rendering);
        assert(i + 1 + (k - 1) == i + k);
    }
}

/// Frame cadence: from the dot at which a frame is complete (dot 256 of scanline 239),
/// the timing comes back to that dot after 341 × 262 dots, one fewer on an odd frame
/// while rendering, with the odd-frame flag flipped, and does not pass it in between.
pub proof fn lemma_frame_period(odd: bool, rendering: bool)
    ensures
        ({
            let period: nat = if odd && rendering {
                89341
            } else {
                89342
            };
            &&& timing_after(period, 256, 239, odd, rendering) == (256u16, 239i16, !odd)
            &&& forall|k: nat|
                0 < k < period ==> {
                    let t = #[trigger] timing_after(k, 256, 239, odd, rendering);
                    !(t.0 == 256 && t.1 == 239)
                }
        }),
{
    let skip: int = if odd && rendering {
        1
    } else {
        0
    };
    let period: nat = (89342 - skip) as nat;
    let start = frame_done_dot();
    let to_end: nat = (last_dot() - start) as nat;
    assert(dot_at(start) == (256u16, 239i16));
    // To the end of the frame.
    lemma_advance_inside(to_end, start, odd, rendering);
    assert(dot_at(last_dot()) == (340u16, 260i16));
    // The wrap to the pre-render line, skipping its first dot on odd rendering frames.
    assert(timing_after(0, skip as u16, -1i16, !odd, rendering) == (skip as u16, -1i16, !odd));
    assert(timing_after(1, 340, 260, odd, rendering) == (skip as u16, -1i16, !odd));
    assert(dot_at(skip) == (skip as u16, -1i16));
    // Through the next frame to the same dot.
    let back: nat = (start - skip) as nat;
    lemma_advance_inside(back, skip, !odd, rendering);
    lemma_timing_split(to_end, 1, 256, 239, odd, rendering);
    lemma_timing_split(to_end + 1, back, 256, 239, odd, rendering);
    assert(to_end + 1 + back == period);
    assert forall|k: nat| 0 < k < period implies {
        let t = #[trigger] timing_after(k, 256, 239, odd, rendering);
        !(t.0 == 256 && t.1 == 239)
    } by {
        if k <= to_end {
            lemma_advance_inside(k, start, odd, rendering);
            lemma_dot_at(start + k);
        } else {
            let j: nat = (k - to_end - 1) as nat;
            lemma_timing_split(to_end + 1, j, 256, 239, odd, rendering);
            assert(to_end + 1 + j == k);
            lemma_advance_inside(j, skip, !odd, rendering);
            lemma_dot_at(skip + j);
        }
    }
}

/// How many dots, at most, from `(cycle, scanline)` to the next completed frame: a full
/// frame from the completing dot itself.
pub open spec fn dots_to_frame(cycle: u16, scanline: i16) -> nat {
    let i = dot_index(cycle, scanline);
    if i == frame_done_dot() {
        89342
    } else {
        ((frame_done_dot() - i + 89342) % 89342) as nat
    }
}

/// Each dot brings the next completed frame closer, until it is reached.
pub proof fn lemma_dots_to_frame_decrease(cycle: u16, scanline: i16, odd: bool, rendering: bool)
    requires
        cycle <= 340,
        -1 <= scanline <= 260,
    ensures
        ({
            let t = next_timing(cycle, scanline, odd, rendering);
            !(t.0 == 256 && t.1 == 239) ==> dots_to_frame(t.0, t.1) < dots_to_frame(
                cycle,
                scanline,
            )
        }),
{
}

} // verus!
