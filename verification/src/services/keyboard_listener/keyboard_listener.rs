//! From raw input events to key events. The listener follows the modifiers
//! and stamps each key event with the modifiers held at that moment; the
//! repeat scheduler gets every key event.

use crate::clock::now;
use crate::events::keyboard::device_ids::LISTENER_VIRTUAL_KEYBOARD;
use crate::events::KeyCode;
use crate::events::KeyEvent;
use crate::events::KeyState;
use crate::services::keyboard_listener::modifier_state::modifier_bits;
use crate::services::keyboard_listener::modifier_state::modifier_update;
use crate::services::keyboard_listener::modifier_state::ModifierState;
use vstd::prelude::*;

verus! {

/// The type of the input events that report keys.
pub const EV_KEY: u16 = 1;

/// An input event as the kernel reports it: type, code and value.
#[derive(Debug, Clone, Copy, PartialEq, Eq, Structural)]
pub struct RawInputEvent {
    pub event_type: u16,
    pub code: u16,
    pub value: i32,
}

/// The key state that the value of a key event stands for: 0 is a release, 1
/// a press, 2 a repeat of the hardware.
pub open spec fn key_state_of(value: i32) -> Option<KeyState> {
    if value == 0 {
        Some(KeyState::Released)
    } else if value == 1 {
        Some(KeyState::Pressed)
    } else if value == 2 {
        Some(KeyState::Repeat)
    } else {
        None
    }
}

/// Whether a raw event gives a key event: it reports a key and its value
/// stands for a key state.
pub open spec fn gives_key_event(raw: RawInputEvent) -> bool {
    raw.event_type == EV_KEY && key_state_of(raw.value) is Some
}

/// The state of the listener: the modifiers it has seen go down, and the
/// identifier of the device it reads.
pub struct RealKeyboardListener {
    modifier_state: ModifierState,
    device_id: u8,
}

impl RealKeyboardListener {
    /// The modifiers that the listener takes to be held.
    pub closed spec fn held(&self) -> ModifierState {
        self.modifier_state
    }

    /// The identifier that the listener stamps on its events.
    pub closed spec fn device(&self) -> u8 {
        self.device_id
    }

    /// A listener that has seen no key yet.
    pub fn new() -> (r: Self)
        ensures
            r.held() == (ModifierState { ctrl: false, alt: false, shift: false, super_key: false }),
            r.device() == LISTENER_VIRTUAL_KEYBOARD,
    {
        Self { modifier_state: ModifierState::new(), device_id: LISTENER_VIRTUAL_KEYBOARD }
    }

    /// Takes a raw event. An event that reports a key with a known value
    /// updates the modifiers, where a press counts as held and anything else
    /// as not, and gives a key event with the modifiers after the update.
    /// Any other event gives nothing and changes nothing.
    pub fn process_key_event(&mut self, raw: RawInputEvent) -> (r: Option<KeyEvent>)
        ensures
            final(self).device() == old(self).device(),
            match r {
                Some(event) => {
                    &&& gives_key_event(raw)
                    &&& final(self).held() == modifier_update(
                        old(self).held(),
                        raw.code,
                        raw.value == 1,
                    )
                    &&& event.key_code.0 == raw.code
                    &&& Some(event.state) == key_state_of(raw.value)
                    &&& event.modifiers@ == modifier_bits(final(self).held())
                    &&& event.device_id == old(self).device()
                },
                None => !gives_key_event(raw) && final(self).held() == old(self).held(),
            },
    {
        if raw.event_type != EV_KEY {
            return None;
        }
        let state = if raw.value == 0 {
            KeyState::Released
        } else if raw.value == 1 {
            KeyState::Pressed
        } else if raw.value == 2 {
            KeyState::Repeat
        } else {
            return None;
        };
        self.modifier_state.update_key(raw.code, state == KeyState::Pressed);
        Some(
            KeyEvent {
                key_code: KeyCode(raw.code),
                state,
                modifiers: self.modifier_state.to_modifiers(),
                timestamp: now(),
                device_id: self.device_id,
            },
        )
    }
}

} // verus!
