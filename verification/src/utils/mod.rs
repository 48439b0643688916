//! Helpers for the start of the daemon: the choice of the keyboard device and
//! the advice on access rights.

pub mod device_finder;
pub mod permissions;

pub use device_finder::DeviceFinder;
