//! The window detector of a dry run: it asks no desktop and makes up a
//! window change at every turn, going round a short list of windows.

use crate::events::window::WindowEventType;
use crate::events::WindowEvent;
use crate::events::WindowInfo;
use vstd::prelude::*;
use vstd::string::StringExecFns;

verus! {

/// The number of made-up windows.
pub const FAKE_WINDOW_COUNT: usize = 4;

/// The seconds between two made-up window changes.
pub const FAKE_WINDOW_INTERVAL_SECS: u64 = 10;

/// The title of the made-up window at a place of the round.
pub open spec fn fake_title(index: int) -> Seq<char> {
    if index == 0 {
        "Terminal - dry_run"@
    } else if index == 1 {
        "Browser - dry_run"@
    } else if index == 2 {
        "Editor - dry_run"@
    } else {
        "Game - dry_run"@
    }
}

pub struct DryRunDetector {
    window_index: usize,
}

impl DryRunDetector {
    /// The place of the round at which the detector stands.
    pub closed spec fn index(&self) -> int {
        self.window_index as int
    }

    /// A detector at the start of the round.
    pub fn new() -> (r: Self)
        ensures
            r.index() == 0,
    {
        Self { window_index: 0 }
    }

    /// The next made-up change of focus: to the window at this place of the
    /// round, of class `DryRun`. The detector moves one place on and begins
    /// again after the last.
    pub fn next_event(&mut self) -> (r: WindowEvent)
        ensures
            final(self).index() == if old(self).index() + 1 < FAKE_WINDOW_COUNT {
                old(self).index() + 1
            } else {
                0
            },
            r.event_type == WindowEventType::FocusChanged,
            r.window.title@ == fake_title(old(self).index()),
            r.window.class@ == "DryRun"@,
            r.window.pid is None,
            r.window.geometry is None,
    {
        let title = if self.window_index == 0 {
            "Terminal - dry_run"
        } else if self.window_index == 1 {
            "Browser - dry_run"
        } else if self.window_index == 2 {
            "Editor - dry_run"
        } else {
            "Game - dry_run"
        };
        let window = WindowInfo::new(String::from_str(title)).with_class(String::from_str("DryRun"));
        self.window_index = if self.window_index < FAKE_WINDOW_COUNT - 1 {
            self.window_index + 1
        } else {
            0
        };
        WindowEvent::new(window, WindowEventType::FocusChanged)
    }
}

} // verus!
