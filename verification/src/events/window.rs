//! Windows and the events that report a change of the focused window.

use crate::clock::now;
use crate::text::concat_str;
use crate::text::decimal;
use crate::text::u64_to_string;
use crate::text::is_substring;
use crate::text::lowercase;
use crate::text::str_contains;
use crate::text::to_lowercase;
use std::time::Instant;
use vstd::prelude::*;
use vstd::string::StringExecFns;

verus! {

/// Position and size of a window.
#[derive(Debug, Clone, Copy, PartialEq, Eq, Hash, Structural)]
pub struct WindowGeometry {
    pub x: i32,
    pub y: i32,
    pub width: u32,
    pub height: u32,
}

/// What is known of a window.
#[derive(Debug, Clone, PartialEq, Eq, Hash)]
pub struct WindowInfo {
    pub title: String,
    pub class: String,
    pub pid: Option<u32>,
    pub geometry: Option<WindowGeometry>,
}

/// A window with this title and class matches `pattern`: the pattern is empty,
/// or its lower-case form occurs in the lower-case title or class.
pub open spec fn window_matches(title: Seq<char>, class: Seq<char>, pattern: Seq<char>) -> bool {
    pattern.len() == 0 || is_substring(lowercase(pattern), lowercase(title)) || is_substring(
        lowercase(pattern),
        lowercase(class),
    )
}

/// A window with this title and class matches one of `patterns`; an empty list
/// is matched by every window.
pub open spec fn window_matches_any(
    title: Seq<char>,
    class: Seq<char>,
    patterns: Seq<Seq<char>>,
) -> bool {
    patterns.len() == 0 || exists|i: int|
        0 <= i < patterns.len() && window_matches(title, class, #[trigger] patterns[i])
}

/// How a window is written: the title in quotes, then the class in brackets
/// where it has one.
pub open spec fn window_text(title: Seq<char>, class: Seq<char>) -> Seq<char> {
    if class.len() == 0 {
        "\""@ + title + "\""@
    } else {
        "\""@ + title + "\" ("@ + class + ")"@
    }
}

impl WindowInfo {
    pub fn new(title: String) -> (r: Self)
        ensures
            r.title == title,
            r.class@.len() == 0,
            r.pid is None,
            r.geometry is None,
    {
        Self { title, class: String::new(), pid: None, geometry: None }
    }

    pub fn with_class(self, class: String) -> (r: Self)
        ensures
            r == (Self { class, ..self }),
    {
        let mut w = self;
        w.class = class;
        w
    }

    pub fn with_pid(self, pid: u32) -> (r: Self)
        ensures
            r == (Self { pid: Some(pid), ..self }),
    {
        let mut w = self;
        w.pid = Some(pid);
        w
    }

    /// A copy of the window.
    pub fn duplicate(&self) -> (r: Self)
        ensures
            r == *self,
    {
        Self {
            title: self.title.clone(),
            class: self.class.clone(),
            pid: self.pid,
            geometry: self.geometry,
        }
    }

    /// Whether the window matches a pattern, letter case aside.
    pub fn matches_pattern(&self, pattern: &str) -> (r: bool)
        ensures
            r == window_matches(self.title@, self.class@, pattern@),
    {
        if pattern.is_empty() {
            return true;
        }
        let pattern_lower = to_lowercase(pattern);
        let title_lower = to_lowercase(self.title.as_str());
        let class_lower = to_lowercase(self.class.as_str());
        str_contains(title_lower.as_str(), pattern_lower.as_str()) || str_contains(
            class_lower.as_str(),
            pattern_lower.as_str(),
        )
    }

    /// Whether the window matches one of the patterns.
    pub fn matches_any_pattern(&self, patterns: &[String]) -> (r: bool)
        ensures
            r == window_matches_any(self.title@, self.class@, patterns.deep_view()),
    {
        if patterns.len() == 0 {
            return true;
        }
        let ghost list = patterns.deep_view();
        let mut i: usize = 0;
        while i < patterns.len()
            invariant
                i <= patterns.len(),
                list == patterns.deep_view(),
                forall|j: int| 0 <= j < i ==> !window_matches(self.title@, self.class@, list[j]),
            decreases patterns.len() - i,
        {
            assert(list[i as int] == patterns@[i as int]@);
            if self.matches_pattern(patterns[i].as_str()) {
                return true;
            }
            i += 1;
        }
        false
    }

    /// The window written out for a log line.
    pub fn display_string(&self) -> (r: String)
        ensures
            r@ == window_text(self.title@, self.class@),
    {
        let mut out = concat_str("\"", self.title.as_str());
        if self.class.as_str().is_empty() {
            out.append("\"");
        } else {
            out.append("\" (");
            out.append(self.class.as_str());
            out.append(")");
        }
        out
    }
}

/// The kind of change that a window event reports.
#[derive(Debug, Clone, Copy, PartialEq, Eq, Hash, Structural)]
pub enum WindowEventType {
    FocusChanged,
    Created,
    Destroyed,
    TitleChanged,
    GeometryChanged,
}

/// The name of a kind of window event.
pub open spec fn event_type_name(event_type: WindowEventType) -> Seq<char> {
    match event_type {
        WindowEventType::FocusChanged => "FocusChanged"@,
        WindowEventType::Created => "Created"@,
        WindowEventType::Destroyed => "Destroyed"@,
        WindowEventType::TitleChanged => "TitleChanged"@,
        WindowEventType::GeometryChanged => "GeometryChanged"@,
    }
}

/// How a window event is written for a log line: its kind, the window, and
/// its age in milliseconds.
pub open spec fn window_event_text(
    event_type: WindowEventType,
    title: Seq<char>,
    class: Seq<char>,
    age_ms: u64,
) -> Seq<char> {
    event_type_name(event_type) + ": "@ + window_text(title, class) + " ("@ + decimal(
        age_ms as nat,
    ) + "ms ago)"@
}

/// A change of the active window.
#[derive(Debug, Clone, PartialEq, Eq)]
pub struct WindowEvent {
    pub window: WindowInfo,
    pub timestamp: Instant,
    pub event_type: WindowEventType,
}

impl WindowEvent {
    /// An event stamped with the current time.
    pub fn new(window: WindowInfo, event_type: WindowEventType) -> (r: Self)
        ensures
            r.window == window,
            r.event_type == event_type,
    {
        Self { window, timestamp: now(), event_type }
    }

    /// The event written out for a log line, with its age in milliseconds.
    pub fn display_string(&self, age_ms: u64) -> (r: String)
        ensures
            r@ == window_event_text(self.event_type, self.window.title@, self.window.class@, age_ms),
    {
        let mut out = String::from_str(
            match self.event_type {
                WindowEventType::FocusChanged => "FocusChanged",
                WindowEventType::Created => "Created",
                WindowEventType::Destroyed => "Destroyed",
                WindowEventType::TitleChanged => "TitleChanged",
                WindowEventType::GeometryChanged => "GeometryChanged",
            },
        );
        out.append(": ");
        out.append(self.window.display_string().as_str());
        out.append(" (");
        out.append(u64_to_string(age_ms).as_str());
        out.append("ms ago)");
        out
    }

    pub fn focus_changed(window: WindowInfo) -> (r: Self)
        ensures
            r.window == window,
            r.event_type == WindowEventType::FocusChanged,
    {
        Self::new(window, WindowEventType::FocusChanged)
    }
}

} // verus!
