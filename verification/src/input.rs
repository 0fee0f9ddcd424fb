//! Keyboard input for the first controller: which key is which button, and the button
//! state after a key goes down or up.
use vstd::prelude::*;

verus! {

/// Button A (bit 7).
pub const BUTTON_A: u8 = 0x80;
/// Button B.
pub const BUTTON_B: u8 = 0x40;
/// Select.
pub const BUTTON_SELECT: u8 = 0x20;
/// Start.
pub const BUTTON_START: u8 = 0x10;
/// Up on the pad.
pub const BUTTON_UP: u8 = 0x08;
/// Down on the pad.
pub const BUTTON_DOWN: u8 = 0x04;
/// Left on the pad.
pub const BUTTON_LEFT: u8 = 0x02;
/// Right on the pad.
pub const BUTTON_RIGHT: u8 = 0x01;

/// The key code of the left arrow key.
pub const KEY_LEFT_ARROW: u32 = 0x25;
/// The key code of the up arrow key.
pub const KEY_UP_ARROW: u32 = 0x26;
/// The key code of the right arrow key.
pub const KEY_RIGHT_ARROW: u32 = 0x27;
/// The key code of the down arrow key.
pub const KEY_DOWN_ARROW: u32 = 0x28;
/// The key code of the A key.
pub const KEY_A: u32 = 0x41;
/// The key code of the S key.
pub const KEY_S: u32 = 0x53;
/// The key code of the X key.
pub const KEY_X: u32 = 0x58;
/// The key code of the Z key.
pub const KEY_Z: u32 = 0x5a;

/// The button a key code stands for: X is A, Z is B, A is Select, S is Start, and the
/// arrow keys are the pad.
pub open spec fn spec_key_button(key_code: u32) -> Option<u8> {
    if key_code == 0x58 {
        Some(BUTTON_A)
    } else if key_code == 0x5a {
        Some(BUTTON_B)
    } else if key_code == 0x41 {
        Some(BUTTON_SELECT)
    } else if key_code == 0x53 {
        Some(BUTTON_START)
    } else if key_code == 0x28 {
        Some(BUTTON_DOWN)
    } else if key_code == 0x25 {
        Some(BUTTON_LEFT)
    } else if key_code == 0x27 {
        Some(BUTTON_RIGHT)
    } else if key_code == 0x26 {
        Some(BUTTON_UP)
    } else {
        None
    }
}

/// The button state after the key `key_code` goes down (`pressed`) or up: its button
/// is set or cleared; other keys change nothing.
pub open spec fn spec_controller_after_key(state: u8, key_code: u32, pressed: bool) -> u8 {
    match spec_key_button(key_code) {
        Some(b) => if pressed {
            state | b
        } else {
            state & !b
        },
        None => state,
    }
}

/// The button a key code stands for; see [`spec_key_button`].
pub fn key_button(key_code: u32) -> (r: Option<u8>)
    ensures
        r == spec_key_button(key_code),
{
    match key_code {
        0x58 => Some(BUTTON_A),
        0x5a => Some(BUTTON_B),
        0x41 => Some(BUTTON_SELECT),
        0x53 => Some(BUTTON_START),
        0x28 => Some(BUTTON_DOWN),
        0x25 => Some(BUTTON_LEFT),
        0x27 => Some(BUTTON_RIGHT),
        0x26 => Some(BUTTON_UP),
        _ => None,
    }
}

/// The button state after a key goes down or up; see [`spec_controller_after_key`].
pub fn controller_after_key(state: u8, key_code: u32, pressed: bool) -> (r: u8)
    ensures
        r == spec_controller_after_key(state, key_code, pressed),
{
    match key_button(key_code) {
        Some(b) => if pressed {
            state | b
        } else {
            state & !b
        },
        None => state,
    }
}

proof fn lemma_single_bit(state: u8, b: u8, i: u8)
    by (bit_vector)
    requires
        b == 1 || b == 2 || b == 4 || b == 8 || b == 16 || b == 32 || b == 64 || b == 128,
        i < 8,
    ensures
        ((state | b) >> i) & 1 == (if (1u8 << i) == b { 1 } else { (state >> i) & 1 }),
        ((state & !b) >> i) & 1 == (if (1u8 << i) == b { 0 } else { (state >> i) & 1 }),
{
}

/// A key touches only its own button: pressing sets that bit, releasing clears it, and
/// every other bit keeps its value.
pub proof fn lemma_key_touches_own_button(state: u8, key_code: u32, pressed: bool, i: u8)
    requires
        spec_key_button(key_code) is Some,
        i < 8,
    ensures
        ({
            let b = spec_key_button(key_code)->0;
            let r = spec_controller_after_key(state, key_code, pressed);
            (r >> i) & 1 == if (1u8 << i) == b {
                if pressed {
                    1u8
                } else {
                    0u8
                }
            } else {
                (state >> i) & 1
            }
        }),
{
    lemma_single_bit(state, spec_key_button(key_code)->0, i);
}

/// Each arrow key is the pad direction of its name, and the letter keys are X for A, Z for
/// B, A for Select and S for Start: from any button state, pressing a key sets exactly that
/// button's bit and releasing it clears exactly that bit.
pub proof fn lemma_key_names(state: u8)
    ensures
        spec_key_button(KEY_LEFT_ARROW) == Some(BUTTON_LEFT),
        spec_key_button(KEY_UP_ARROW) == Some(BUTTON_UP),
        spec_key_button(KEY_RIGHT_ARROW) == Some(BUTTON_RIGHT),
        spec_key_button(KEY_DOWN_ARROW) == Some(BUTTON_DOWN),
        spec_key_button(KEY_X) == Some(BUTTON_A),
        spec_key_button(KEY_Z) == Some(BUTTON_B),
        spec_key_button(KEY_A) == Some(BUTTON_SELECT),
        spec_key_button(KEY_S) == Some(BUTTON_START),
        spec_controller_after_key(state, KEY_LEFT_ARROW, true) == state | 0x02,
        spec_controller_after_key(state, KEY_UP_ARROW, true) == state | 0x08,
        spec_controller_after_key(state, KEY_RIGHT_ARROW, true) == state | 0x01,
        spec_controller_after_key(state, KEY_DOWN_ARROW, true) == state | 0x04,
        spec_controller_after_key(state, KEY_LEFT_ARROW, false) == state & !0x02u8,
        spec_controller_after_key(state, KEY_UP_ARROW, false) == state & !0x08u8,
        spec_controller_after_key(state, KEY_RIGHT_ARROW, false) == state & !0x01u8,
        spec_controller_after_key(state, KEY_DOWN_ARROW, false) == state & !0x04u8,
{
}

/// The arrow keys, and no other key, drive the pad: a key's button is one of the four
/// direction bits (the low nibble) exactly when the key is an arrow key.
pub proof fn lemma_arrows_are_the_pad(key_code: u32)
    ensures
        (spec_key_button(key_code) is Some && spec_key_button(key_code)->0 < 0x10) <==> (
        KEY_LEFT_ARROW <= key_code <= KEY_DOWN_ARROW),
{
}

/// No two keys share a button.
pub proof fn lemma_keys_distinct_buttons(k1: u32, k2: u32)
    requires
        spec_key_button(k1) is Some,
        spec_key_button(k2) is Some,
        k1 != k2,
    ensures
        spec_key_button(k1)->0 != spec_key_button(k2)->0,
{
}

} // verus!
