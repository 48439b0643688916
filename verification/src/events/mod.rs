//! The events that flow through the daemon.

use crate::clock::now;
use std::time::Instant;
use vstd::prelude::*;

pub mod keyboard;
pub mod window;

pub use keyboard::{KeyCode, KeyEvent, KeyState, Modifiers};
pub use window::{WindowEvent, WindowInfo};

verus! {

/// An event for the virtual keyboard to inject.
#[derive(Debug, Clone, PartialEq, Eq)]
pub struct VirtualKeyEvent {
    pub key_code: KeyCode,
    pub state: KeyState,
    pub modifiers: Modifiers,
    pub timestamp: Instant,
}

/// What a virtual key event says, apart from the time it was made.
pub struct VirtualKeyView {
    pub code: u16,
    pub state: KeyState,
    pub modifier_bits: u8,
}

impl View for VirtualKeyEvent {
    type V = VirtualKeyView;

    open spec fn view(&self) -> VirtualKeyView {
        VirtualKeyView {
            code: self.key_code.0,
            state: self.state,
            modifier_bits: self.modifiers@,
        }
    }
}

impl VirtualKeyEvent {
    /// An event stamped with the current time.
    pub fn new(key_code: KeyCode, state: KeyState, modifiers: Modifiers) -> (r: Self)
        ensures
            r.key_code == key_code,
            r.state == state,
            r.modifiers == modifiers,
    {
        Self { key_code, state, modifiers, timestamp: now() }
    }

    pub fn press(key_code: KeyCode, modifiers: Modifiers) -> (r: Self)
        ensures
            r.key_code == key_code,
            r.state == KeyState::Pressed,
            r.modifiers == modifiers,
    {
        Self::new(key_code, KeyState::Pressed, modifiers)
    }

    pub fn release(key_code: KeyCode, modifiers: Modifiers) -> (r: Self)
        ensures
            r.key_code == key_code,
            r.state == KeyState::Released,
            r.modifiers == modifiers,
    {
        Self::new(key_code, KeyState::Released, modifiers)
    }
}

} // verus!
