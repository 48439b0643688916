//! Which modifiers are held, followed from the key events themselves.

use crate::events::keyboard::with_flag;
use crate::events::keyboard::ALT;
use crate::events::keyboard::CTRL;
use crate::events::keyboard::SHIFT;
use crate::events::keyboard::SUPER;
use crate::events::Modifiers;
use vstd::prelude::*;

verus! {

pub const KEY_LEFTCTRL: u16 = 29;

pub const KEY_LEFTSHIFT: u16 = 42;

pub const KEY_RIGHTSHIFT: u16 = 54;

pub const KEY_LEFTALT: u16 = 56;

pub const KEY_RIGHTCTRL: u16 = 97;

pub const KEY_RIGHTALT: u16 = 100;

pub const KEY_LEFTMETA: u16 = 125;

pub const KEY_RIGHTMETA: u16 = 126;

/// One flag for each modifier. The left and the right key of a modifier set
/// and clear the same flag.
#[derive(Debug, Clone, Copy, PartialEq, Eq, Structural)]
pub struct ModifierState {
    pub ctrl: bool,
    pub alt: bool,
    pub shift: bool,
    pub super_key: bool,
}

/// The flags after a key has gone down or up.
pub open spec fn modifier_update(s: ModifierState, key_code: u16, pressed: bool) -> ModifierState {
    if key_code == KEY_LEFTCTRL || key_code == KEY_RIGHTCTRL {
        ModifierState { ctrl: pressed, ..s }
    } else if key_code == KEY_LEFTALT || key_code == KEY_RIGHTALT {
        ModifierState { alt: pressed, ..s }
    } else if key_code == KEY_LEFTSHIFT || key_code == KEY_RIGHTSHIFT {
        ModifierState { shift: pressed, ..s }
    } else if key_code == KEY_LEFTMETA || key_code == KEY_RIGHTMETA {
        ModifierState { super_key: pressed, ..s }
    } else {
        s
    }
}

/// The bit pattern of the flags.
pub open spec fn modifier_bits(s: ModifierState) -> u8 {
    with_flag(
        with_flag(with_flag(with_flag(0, CTRL, s.ctrl), ALT, s.alt), SHIFT, s.shift),
        SUPER,
        s.super_key,
    )
}

impl ModifierState {
    /// No modifier is held.
    pub fn new() -> (r: Self)
        ensures
            r == (ModifierState { ctrl: false, alt: false, shift: false, super_key: false }),
    {
        Self { ctrl: false, alt: false, shift: false, super_key: false }
    }

    pub fn to_modifiers(&self) -> (r: Modifiers)
        ensures
            r@ == modifier_bits(*self),
    {
        Modifiers::new().with_ctrl(self.ctrl).with_alt(self.alt).with_shift(self.shift).with_super(
            self.super_key,
        )
    }

    /// Follows a key that has gone down (`pressed`) or not.
    pub fn update_key(&mut self, key_code: u16, pressed: bool)
        ensures
            *final(self) == modifier_update(*old(self), key_code, pressed),
    {
        if key_code == KEY_LEFTCTRL || key_code == KEY_RIGHTCTRL {
            self.ctrl = pressed;
        } else if key_code == KEY_LEFTALT || key_code == KEY_RIGHTALT {
            self.alt = pressed;
        } else if key_code == KEY_LEFTSHIFT || key_code == KEY_RIGHTSHIFT {
            self.shift = pressed;
        } else if key_code == KEY_LEFTMETA || key_code == KEY_RIGHTMETA {
            self.super_key = pressed;
        }
    }
}

impl Default for ModifierState {
    fn default() -> (r: Self)
        ensures
            r == (ModifierState { ctrl: false, alt: false, shift: false, super_key: false }),
    {
        Self::new()
    }
}

} // verus!
