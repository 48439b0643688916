//! What the X11 window tool prints, read.

use crate::events::WindowInfo;
use crate::text::trim;
use crate::text::trimmed;
use vstd::prelude::*;
use vstd::string::StringExecFns;

verus! {

/// The class that the tool reports: its output for the class name, trimmed,
/// or `Unknown` where it could not be run.
pub open spec fn x11_class(class_output: Option<Seq<char>>) -> Seq<char> {
    match class_output {
        Some(output) => trimmed(output),
        None => "Unknown"@,
    }
}

pub struct XdotoolDetector;

impl XdotoolDetector {
    pub fn new() -> Self {
        Self
    }

    /// The active window from what the tool printed for the window name and,
    /// where it ran, for the class name. Both are trimmed.
    pub fn get_active_window(&self, title_output: &str, class_output: Option<&str>) -> (r:
        WindowInfo)
        ensures
            r.title@ == trimmed(title_output@),
            r.class@ == x11_class(
                match class_output {
                    Some(output) => Some(output@),
                    None => None,
                },
            ),
            r.pid is None,
            r.geometry is None,
    {
        let title = trim(title_output);
        let class = match class_output {
            Some(output) => trim(output),
            None => String::from_str("Unknown"),
        };
        WindowInfo::new(title).with_class(class)
    }
}

} // verus!
