//! The parts of the daemon: the repeat scheduler and what it reads.

pub mod key_repeater;
pub mod keyboard_listener;
pub mod keycode_map;
pub mod registry;
pub mod repeater_task;
pub mod virtual_device;
pub mod repeater_laws;
pub mod window_context;
pub mod window_detector;

pub use key_repeater::KeyRepeater;
