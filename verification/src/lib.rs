//! Key-repeat daemon core: decides which held keys are repeated, schedules the
//! repeat timers and follows the focused window.

pub mod clock;
pub mod config;
pub mod error;
pub mod events;
pub mod hashing;
pub mod mappings;
pub mod services;
pub mod text;
pub mod utils;
pub mod words;
