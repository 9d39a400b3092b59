//! Virtual key codes and key transition values.
//!
//! The remapper looks at five trigger keys (CapsLock and the letters
//! H, J, K, L) and injects six others (the two Control keys and the four
//! arrow keys). The two sets are disjoint, which is what keeps injected
//! events from re-triggering the remap logic.

use vstd::prelude::*;

verus! {

/// Virtual key code of the CapsLock key.
pub const CAPS_LOCK: u16 = 0x14;
/// Virtual key code of the left Control key.
pub const LEFT_CTRL: u16 = 0xA2;
/// Virtual key code of the right Control key.
pub const RIGHT_CTRL: u16 = 0xA3;
/// Virtual key code of the letter H.
pub const KEY_H: u16 = 0x48;
/// Virtual key code of the letter J.
pub const KEY_J: u16 = 0x4A;
/// Virtual key code of the letter K.
pub const KEY_K: u16 = 0x4B;
/// Virtual key code of the letter L.
pub const KEY_L: u16 = 0x4C;
/// Virtual key code of the left arrow key.
pub const ARROW_LEFT: u16 = 0x25;
/// Virtual key code of the up arrow key.
pub const ARROW_UP: u16 = 0x26;
/// Virtual key code of the right arrow key.
pub const ARROW_RIGHT: u16 = 0x27;
/// Virtual key code of the down arrow key.
pub const ARROW_DOWN: u16 = 0x28;

/// Message code the OS delivers with an ordinary key press.
pub const MSG_KEY_DOWN: u32 = 0x0100;
/// Message code the OS delivers with an ordinary key release.
pub const MSG_KEY_UP: u32 = 0x0101;
/// Message code the OS delivers with a system key press (an Alt chord).
pub const MSG_SYS_KEY_DOWN: u32 = 0x0104;
/// Message code the OS delivers with a system key release.
pub const MSG_SYS_KEY_UP: u32 = 0x0105;

/// Which way a key moved: pressed or released.
#[derive(Clone, Copy, Debug, PartialEq, Eq, Structural)]
pub enum Direction {
    Down,
    Up,
}

/// One keyboard transition: a virtual key code together with a direction.
/// This is both what the hook hands to the state machine and the shape of
/// the synthetic events the state machine asks to have injected.
#[derive(Clone, Copy, Debug, PartialEq, Eq, Structural)]
pub struct KeyEvent {
    pub vk: u16,
    pub direction: Direction,
}

/// The arrow key that a letter is remapped to while Control is active,
/// or `None` for every key that is not H, J, K or L.
pub open spec fn spec_arrow_for(vk: u16) -> Option<u16> {
    if vk == KEY_H {
        Some(ARROW_LEFT)
    } else if vk == KEY_J {
        Some(ARROW_DOWN)
    } else if vk == KEY_K {
        Some(ARROW_UP)
    } else if vk == KEY_L {
        Some(ARROW_RIGHT)
    } else {
        None
    }
}

/// Executable form of [`spec_arrow_for`].
pub fn arrow_for(vk: u16) -> (r: Option<u16>)
    ensures
        r == spec_arrow_for(vk),
{
    if vk == KEY_H {
        Some(ARROW_LEFT)
    } else if vk == KEY_J {
        Some(ARROW_DOWN)
    } else if vk == KEY_K {
        Some(ARROW_UP)
    } else if vk == KEY_L {
        Some(ARROW_RIGHT)
    } else {
        None
    }
}

/// The direction a hook message code stands for, or `None` for a message
/// that is no key transition at all.
pub open spec fn spec_direction_of_message(msg: u32) -> Option<Direction> {
    if msg == MSG_KEY_DOWN || msg == MSG_SYS_KEY_DOWN {
        Some(Direction::Down)
    } else if msg == MSG_KEY_UP || msg == MSG_SYS_KEY_UP {
        Some(Direction::Up)
    } else {
        None
    }
}

/// Decodes the transition kind out of a raw hook message code: down for
/// key-down and system-key-down, up for key-up and system-key-up, nothing
/// for anything else.
pub fn direction_of_message(msg: u32) -> (r: Option<Direction>)
    ensures
        r == spec_direction_of_message(msg),
{
    if msg == MSG_KEY_DOWN || msg == MSG_SYS_KEY_DOWN {
        Some(Direction::Down)
    } else if msg == MSG_KEY_UP || msg == MSG_SYS_KEY_UP {
        Some(Direction::Up)
    } else {
        None
    }
}

/// The keys whose transitions the remapper may rewrite.
pub open spec fn is_trigger_code(vk: u16) -> bool {
    vk == CAPS_LOCK || spec_arrow_for(vk) is Some
}

/// The only virtual key codes that ever appear in injected events.
pub open spec fn is_injected_code(vk: u16) -> bool {
    ||| vk == LEFT_CTRL
    ||| vk == RIGHT_CTRL
    ||| vk == ARROW_LEFT
    ||| vk == ARROW_DOWN
    ||| vk == ARROW_UP
    ||| vk == ARROW_RIGHT
}

/// The injected codes are disjoint from the trigger codes, so a synthetic
/// event fed back through the hook can never be remapped again.
pub proof fn lemma_injected_never_triggers(vk: u16)
    requires
        is_injected_code(vk),
    ensures
        !is_trigger_code(vk),
{
}

} // verus!
