//! State machines of sprite evaluation and rendering.
use vstd::prelude::*;

verus! {

/// State machine for the sprite evaluation phase.
#[derive(Clone, Copy, Debug, PartialEq, Eq, Structural)]
pub enum SpriteEvalutationState {
    /// Idle until the end of the evaluation, once all 64 sprites have been evaluated.
    Idle,
    /// Copy the Y value from one OAM to the other and check whether the sprite is on the
    /// scanline. Takes 2 cycles.
    CheckY,
    /// Copy the 3 remaining values from one OAM to the other, 2 cycles per value. The
    /// inner value is the index of the next byte to copy.
    CopyOam(u8),
    /// All 8 sprite slots are taken; look (in the hardware's buggy way) for an overflow.
    /// The inner value is the `m` register.
    EvaluateOverflow(u8),
}

impl Default for SpriteEvalutationState {
    /// The initial state.
    fn default() -> (r: Self)
        ensures
            r == SpriteEvalutationState::Idle,
    {
        SpriteEvalutationState::Idle
    }
}

/// State of a sprite on the current scanline.
#[derive(Clone, Copy, Debug, PartialEq, Eq, Structural)]
pub enum SpriteXCounter {
    /// The sprite is not on the scanline at all (fewer than 8 sprites are).
    WontRender,
    /// The sprite has not started yet; the inner value counts the pixels left before it.
    NotRendered(u8),
    /// The sprite is being drawn; the inner value counts the pixels drawn.
    Rendering(u8),
    /// The sprite is fully drawn.
    Rendered,
}

impl Default for SpriteXCounter {
    /// The initial state.
    fn default() -> (r: Self)
        ensures
            r == SpriteXCounter::WontRender,
    {
        SpriteXCounter::WontRender
    }
}

impl SpriteXCounter {
    /// The counter values the renderer can meet: a pending sprite has pixels left before
    /// it, a drawing sprite has drawn fewer than 8.
    pub open spec fn wf(self) -> bool {
        match self {
            SpriteXCounter::NotRendered(x) => x >= 1,
            SpriteXCounter::Rendering(f) => f < 8,
            _ => true,
        }
    }
}

/// State of the sprite 0 hit detection.
#[derive(Clone, Copy, Debug, PartialEq, Eq, Structural)]
pub enum SpriteZeroHitState {
    /// Nothing to track.
    Idle,
    /// Sprite 0 has been copied to secondary OAM.
    IsInOam,
    /// Sprite 0 is drawn on the current scanline; the inner value tells whether it is also
    /// in the secondary OAM for the next one.
    OnCurrentScanline(bool),
    /// The hit flag is raised 2 cycles after the pixel; the inner value counts the cycles
    /// left.
    Delay(u8),
}

impl Default for SpriteZeroHitState {
    /// The initial state.
    fn default() -> (r: Self)
        ensures
            r == SpriteZeroHitState::Idle,
    {
        SpriteZeroHitState::Idle
    }
}

impl SpriteZeroHitState {
    /// A pending delay has at least one cycle left.
    pub open spec fn wf(self) -> bool {
        match self {
            SpriteZeroHitState::Delay(x) => x >= 1,
            _ => true,
        }
    }
}

} // verus!
