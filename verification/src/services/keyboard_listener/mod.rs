//! What the keyboard listener computes between reading a raw event and
//! handing a key event to the repeat scheduler. It makes no decision about
//! repetition and filters nothing.

pub mod key_mapping;
pub mod keyboard_listener;
pub mod modifier_state;

pub use keyboard_listener::RealKeyboardListener;
