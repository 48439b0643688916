//! Tables between key codes and key names.

pub mod evdev_to_key_name;
pub mod key_name_to_evdev_code;
