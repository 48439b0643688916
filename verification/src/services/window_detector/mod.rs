//! Detection of the active window. Nothing here decides about repetition:
//! the detector finds out which window has the focus and reports a change.

pub mod dry_run;
pub mod kdotool;
pub mod sway;
pub mod window_detector;
pub mod wmctrl;
pub mod xdotool;

pub use window_detector::{DesktopEnvironment, RealWindowDetector, WorkingMethod};
