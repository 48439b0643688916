//! The detector of the active window, as a state machine. Its caller runs the
//! window-query backends and the clock: it hands the detector what has
//! happened and carries out what the detector answers.
//!
//! The detector probes the backends in an order that depends on the desktop
//! environment until one answers, queries that one at every tick, probes
//! again from the top when a query fails, and waits before the next round
//! when no backend answers.

use crate::config::Config;
use crate::error::AhkError;
use crate::error::AhkErrorView;
use crate::events::window::WindowEventType;
use crate::events::WindowEvent;
use crate::events::WindowInfo;
use crate::text::concat_str;
use crate::text::is_substring;
use crate::text::lowercase;
use crate::text::str_contains;
use crate::text::str_eq;
use crate::text::to_lowercase;
use vstd::prelude::*;

verus! {

#[derive(Debug, Clone, Copy, PartialEq, Eq, Structural)]
pub enum DesktopEnvironment {
    KDE,
    GNOME,
    X11Generic,
    WaylandGeneric,
    Unknown,
}

/// A backend that can tell the active window.
#[derive(Debug, Clone, Copy, PartialEq, Eq, Structural)]
pub enum WorkingMethod {
    Kdotool,
    Xdotool,
    Wmctrl,
    Sway,
}

/// How the detector learns of focus changes.
#[derive(Debug, Clone, Copy, PartialEq, Eq, Structural)]
pub enum DetectionMode {
    /// Over the session bus where the desktop offers it, else by polling.
    Subscription,
    /// By polling at a fixed interval.
    Polling,
    /// The configuration named a mode that does not exist.
    Unknown,
}

/// The wait before the next round of probes while no backend has ever
/// answered, in milliseconds.
pub const FIRST_PROBE_RETRY_MS: u64 = 5000;

/// The wait before the next round of probes after a backend that had answered
/// fell silent and no other took its place, in milliseconds.
pub const DEGRADED_RETRY_MS: u64 = 10000;

/// The desktop that the session variables name: the current desktop where its
/// lower-case form contains `kde` or `gnome`, else the session type where it
/// is `wayland` or `x11`.
pub open spec fn desktop_of_session(
    current_desktop: Option<Seq<char>>,
    session_type: Option<Seq<char>>,
) -> Option<DesktopEnvironment> {
    if current_desktop is Some && is_substring("kde"@, lowercase(current_desktop->0)) {
        Some(DesktopEnvironment::KDE)
    } else if current_desktop is Some && is_substring("gnome"@, lowercase(current_desktop->0)) {
        Some(DesktopEnvironment::GNOME)
    } else if session_type == Some("wayland"@) {
        Some(DesktopEnvironment::WaylandGeneric)
    } else if session_type == Some("x11"@) {
        Some(DesktopEnvironment::X11Generic)
    } else {
        None
    }
}

/// The desktop that the running processes tell of.
pub open spec fn desktop_of_processes(
    kwin_running: bool,
    gnome_shell_running: bool,
) -> DesktopEnvironment {
    if kwin_running {
        DesktopEnvironment::KDE
    } else if gnome_shell_running {
        DesktopEnvironment::GNOME
    } else {
        DesktopEnvironment::Unknown
    }
}

/// The order in which the backends are probed in a desktop environment.
pub open spec fn probe_ladder(env: DesktopEnvironment) -> Seq<WorkingMethod> {
    match env {
        DesktopEnvironment::KDE => seq![
            WorkingMethod::Kdotool,
            WorkingMethod::Xdotool,
            WorkingMethod::Wmctrl,
            WorkingMethod::Sway,
        ],
        DesktopEnvironment::WaylandGeneric => seq![
            WorkingMethod::Sway,
            WorkingMethod::Kdotool,
            WorkingMethod::Xdotool,
            WorkingMethod::Wmctrl,
        ],
        DesktopEnvironment::X11Generic => seq![
            WorkingMethod::Xdotool,
            WorkingMethod::Wmctrl,
            WorkingMethod::Kdotool,
            WorkingMethod::Sway,
        ],
        DesktopEnvironment::GNOME => seq![
            WorkingMethod::Xdotool,
            WorkingMethod::Wmctrl,
            WorkingMethod::Sway,
            WorkingMethod::Kdotool,
        ],
        DesktopEnvironment::Unknown => seq![
            WorkingMethod::Sway,
            WorkingMethod::Xdotool,
            WorkingMethod::Wmctrl,
            WorkingMethod::Kdotool,
        ],
    }
}

/// The detection mode that a configuration string names.
pub open spec fn detection_mode_of(mode: Seq<char>) -> DetectionMode {
    if mode == "dbus"@ {
        DetectionMode::Subscription
    } else if mode == "polling"@ {
        DetectionMode::Polling
    } else {
        DetectionMode::Unknown
    }
}

/// A window differs from the last known one: none is known, or the title or
/// the class is another.
pub open spec fn window_changed(current: Option<WindowInfo>, new_window: WindowInfo) -> bool {
    match current {
        Some(known) => known.title@ != new_window.title@ || known.class@ != new_window.class@,
        None => true,
    }
}

/// Where the detector stands.
#[derive(Debug, Clone, Copy, PartialEq, Eq, Structural)]
pub enum DetectorState {
    /// Nothing has been tried yet.
    Unprobed,
    /// The session bus is being opened.
    Connecting,
    /// The backend at this place of the ladder is being probed.
    ProbingBackend { index: usize },
    /// A backend answers. Either the next tick is awaited or the answer to a
    /// query.
    Active { method: WorkingMethod, awaiting_answer: bool },
    /// No backend answers; the next round of probes is awaited.
    Degraded,
    /// The detector cannot run: the detection mode is unknown.
    Failed,
}

/// What has happened since the last answer of the detector.
#[derive(Debug, Clone)]
pub enum DetectorEvent {
    /// The detector is started.
    Start,
    /// The session bus was opened, or could not be.
    Connected(bool),
    /// The probed backend works, or does not.
    ProbeResult(bool),
    /// The wait has ended.
    Tick,
    /// The queried backend has told the active window, or has failed.
    QueryResult(Option<WindowInfo>),
}

/// What the detector asks for.
#[derive(Debug, Clone)]
pub enum DetectorAction {
    /// Open the session bus and report whether that worked.
    Connect,
    /// Probe the backend and report whether it works.
    Probe(WorkingMethod),
    /// Ask the backend for the active window and report the answer.
    Query(WorkingMethod),
    /// Wait this many milliseconds, then tick.
    Wait { millis: u64 },
    /// Hand the change of the active window to the repeat scheduler.
    Report(WindowEvent),
    /// Give up with this error.
    Fail(AhkError),
}

/// An action in plain values.
pub enum ActionView {
    Connect,
    Probe(WorkingMethod),
    Query(WorkingMethod),
    Wait { millis: u64 },
    Report { window: WindowInfo, event_type: WindowEventType },
    Fail(AhkErrorView),
}

impl View for DetectorAction {
    type V = ActionView;

    open spec fn view(&self) -> ActionView {
        match *self {
            DetectorAction::Connect => ActionView::Connect,
            DetectorAction::Probe(method) => ActionView::Probe(method),
            DetectorAction::Query(method) => ActionView::Query(method),
            DetectorAction::Wait { millis } => ActionView::Wait { millis },
            DetectorAction::Report(event) => ActionView::Report {
                window: event.window,
                event_type: event.event_type,
            },
            DetectorAction::Fail(error) => ActionView::Fail(error@),
        }
    }
}

/// The views of a list of actions, in order.
pub open spec fn action_views(actions: Seq<DetectorAction>) -> Seq<ActionView> {
    Seq::new(actions.len(), |i: int| actions[i]@)
}

/// The detector in plain values.
pub struct DetectorView {
    pub env: DesktopEnvironment,
    /// The detection mode as the configuration spells it.
    pub mode: Seq<char>,
    pub poll_interval_ms: u64,
    /// The window that was reported last.
    pub current: Option<WindowInfo>,
    /// The backend that answered last.
    pub working_method: Option<WorkingMethod>,
    /// Whether the session bus is open.
    pub subscribed: bool,
    pub state: DetectorState,
}

/// The text of the error for an unknown detection mode.
pub open spec fn unknown_mode_text(mode: Seq<char>) -> Seq<char> {
    "Неизвестный режим детекции: "@ + mode
}

/// The detector starts at the top of the ladder.
pub open spec fn begin_probing(d: DetectorView) -> (DetectorView, Seq<ActionView>) {
    (
        DetectorView { state: DetectorState::ProbingBackend { index: 0 }, ..d },
        seq![ActionView::Probe(probe_ladder(d.env)[0])],
    )
}

/// The wait before the next round of probes.
pub open spec fn retry_wait(d: DetectorView) -> u64 {
    if d.working_method is None {
        FIRST_PROBE_RETRY_MS
    } else {
        DEGRADED_RETRY_MS
    }
}

/// One step of the detector.
///
/// - Started, it opens the session bus where the mode asks for it and the
///   desktop is KDE or GNOME, fails on an unknown mode, and else probes.
/// - The bus opened or not, it probes; without the bus it polls all the same.
/// - A backend that works becomes the active one and is queried at once. One
///   that does not gives way to the next of the ladder, and the last to a
///   wait.
/// - After a wait without a backend it probes again from the top.
/// - At a tick it queries the active backend. An answer that differs from
///   the last known window is kept and reported; then the next tick is
///   awaited. A failed query sends it back to the top of the ladder.
/// - What does not belong to the state it is in changes nothing.
pub open spec fn detector_step(d: DetectorView, event: DetectorEvent) -> (
    DetectorView,
    Seq<ActionView>,
) {
    let ladder = probe_ladder(d.env);
    match (d.state, event) {
        (DetectorState::Unprobed, DetectorEvent::Start) => match detection_mode_of(d.mode) {
            DetectionMode::Unknown => (
                DetectorView { state: DetectorState::Failed, ..d },
                seq![ActionView::Fail(AhkErrorView::Internal(unknown_mode_text(d.mode)))],
            ),
            DetectionMode::Subscription => if d.env == DesktopEnvironment::KDE || d.env
                == DesktopEnvironment::GNOME {
                (DetectorView { state: DetectorState::Connecting, ..d }, seq![ActionView::Connect])
            } else {
                begin_probing(d)
            },
            DetectionMode::Polling => begin_probing(d),
        },
        (DetectorState::Connecting, DetectorEvent::Connected(ok)) => begin_probing(
            DetectorView { subscribed: ok, ..d },
        ),
        (DetectorState::ProbingBackend { index }, DetectorEvent::ProbeResult(works)) => if works
            && index < ladder.len() {
            (
                DetectorView {
                    state: DetectorState::Active { method: ladder[index as int], awaiting_answer: true },
                    working_method: Some(ladder[index as int]),
                    ..d
                },
                seq![ActionView::Query(ladder[index as int])],
            )
        } else if index + 1 < ladder.len() {
            (
                DetectorView {
                    state: DetectorState::ProbingBackend { index: (index + 1) as usize },
                    ..d
                },
                seq![ActionView::Probe(ladder[index + 1])],
            )
        } else {
            (
                DetectorView { state: DetectorState::Degraded, ..d },
                seq![ActionView::Wait { millis: retry_wait(d) }],
            )
        },
        (DetectorState::Degraded, DetectorEvent::Tick) => begin_probing(d),
        (DetectorState::Active { method, awaiting_answer }, DetectorEvent::Tick) => if awaiting_answer {
            (d, Seq::empty())
        } else {
            (
                DetectorView {
                    state: DetectorState::Active { method, awaiting_answer: true },
                    ..d
                },
                seq![ActionView::Query(method)],
            )
        },
        (
            DetectorState::Active { method, awaiting_answer },
            DetectorEvent::QueryResult(answer),
        ) => if !awaiting_answer {
            (d, Seq::empty())
        } else {
            match answer {
                Some(window) => if window_changed(d.current, window) {
                    (
                        DetectorView {
                            current: Some(window),
                            state: DetectorState::Active { method, awaiting_answer: false },
                            ..d
                        },
                        seq![
                            ActionView::Report {
                                window,
                                event_type: WindowEventType::FocusChanged,
                            },
                            ActionView::Wait { millis: d.poll_interval_ms },
                        ],
                    )
                } else {
                    (
                        DetectorView {
                            state: DetectorState::Active { method, awaiting_answer: false },
                            ..d
                        },
                        seq![ActionView::Wait { millis: d.poll_interval_ms }],
                    )
                },
                None => begin_probing(d),
            }
        },
        _ => (d, Seq::empty()),
    }
}

/// The desktop that the session variables name, if they name one.
pub fn desktop_from_session(current_desktop: Option<&str>, session_type: Option<&str>) -> (r:
    Option<DesktopEnvironment>)
    ensures
        r == desktop_of_session(
            match current_desktop {
                Some(s) => Some(s@),
                None => None,
            },
            match session_type {
                Some(s) => Some(s@),
                None => None,
            },
        ),
{
    match current_desktop {
        Some(desktop) => {
            let lower = to_lowercase(desktop);
            if str_contains(lower.as_str(), "kde") {
                return Some(DesktopEnvironment::KDE);
            }
            if str_contains(lower.as_str(), "gnome") {
                return Some(DesktopEnvironment::GNOME);
            }
        },
        None => {},
    }
    match session_type {
        Some(session) => {
            if str_eq(session, "wayland") {
                return Some(DesktopEnvironment::WaylandGeneric);
            }
            if str_eq(session, "x11") {
                return Some(DesktopEnvironment::X11Generic);
            }
        },
        None => {},
    }
    None
}

/// The desktop that the running processes tell of.
pub fn desktop_from_processes(kwin_running: bool, gnome_shell_running: bool) -> (r:
    DesktopEnvironment)
    ensures
        r == desktop_of_processes(kwin_running, gnome_shell_running),
{
    if kwin_running {
        DesktopEnvironment::KDE
    } else if gnome_shell_running {
        DesktopEnvironment::GNOME
    } else {
        DesktopEnvironment::Unknown
    }
}

/// The backend at a place of the ladder of a desktop environment.
pub fn ladder_method(env: DesktopEnvironment, index: usize) -> (r: Option<WorkingMethod>)
    ensures
        r == if index < probe_ladder(env).len() {
            Some(probe_ladder(env)[index as int])
        } else {
            None
        },
{
    let ladder = probe_order(env);
    if index < ladder.len() {
        Some(ladder[index])
    } else {
        None
    }
}

/// The order in which the backends are probed in a desktop environment.
pub fn probe_order(env: DesktopEnvironment) -> (r: Vec<WorkingMethod>)
    ensures
        r@ == probe_ladder(env),
{
    let mut order: Vec<WorkingMethod> = Vec::new();
    match env {
        DesktopEnvironment::KDE => {
            order.push(WorkingMethod::Kdotool);
            order.push(WorkingMethod::Xdotool);
            order.push(WorkingMethod::Wmctrl);
            order.push(WorkingMethod::Sway);
        },
        DesktopEnvironment::WaylandGeneric => {
            order.push(WorkingMethod::Sway);
            order.push(WorkingMethod::Kdotool);
            order.push(WorkingMethod::Xdotool);
            order.push(WorkingMethod::Wmctrl);
        },
        DesktopEnvironment::X11Generic => {
            order.push(WorkingMethod::Xdotool);
            order.push(WorkingMethod::Wmctrl);
            order.push(WorkingMethod::Kdotool);
            order.push(WorkingMethod::Sway);
        },
        DesktopEnvironment::GNOME => {
            order.push(WorkingMethod::Xdotool);
            order.push(WorkingMethod::Wmctrl);
            order.push(WorkingMethod::Sway);
            order.push(WorkingMethod::Kdotool);
        },
        DesktopEnvironment::Unknown => {
            order.push(WorkingMethod::Sway);
            order.push(WorkingMethod::Xdotool);
            order.push(WorkingMethod::Wmctrl);
            order.push(WorkingMethod::Kdotool);
        },
    }
    assert(order@ =~= probe_ladder(env));
    order
}

/// The detector of the active window.
#[derive(Debug)]
pub struct RealWindowDetector {
    desktop_env: DesktopEnvironment,
    detection_mode: String,
    poll_interval_ms: u64,
    current_window: Option<WindowInfo>,
    working_method: Option<WorkingMethod>,
    subscribed: bool,
    state: DetectorState,
}

impl View for RealWindowDetector {
    type V = DetectorView;

    closed spec fn view(&self) -> DetectorView {
        DetectorView {
            env: self.desktop_env,
            mode: self.detection_mode@,
            poll_interval_ms: self.poll_interval_ms,
            current: self.current_window,
            working_method: self.working_method,
            subscribed: self.subscribed,
            state: self.state,
        }
    }
}

impl RealWindowDetector {
    /// A detector for a desktop environment, with the detection mode and the
    /// polling interval of a configuration. Nothing has been tried and no
    /// window is known.
    pub fn new(config: &Config, desktop_env: DesktopEnvironment) -> (r: Self)
        ensures
            r@ == (DetectorView {
                env: desktop_env,
                mode: config.window.detection_mode@,
                poll_interval_ms: config.window.polling_interval_ms,
                current: None,
                working_method: None,
                subscribed: false,
                state: DetectorState::Unprobed,
            }),
    {
        Self {
            desktop_env,
            detection_mode: config.window.detection_mode.clone(),
            poll_interval_ms: config.window.polling_interval_ms,
            current_window: None,
            working_method: None,
            subscribed: false,
            state: DetectorState::Unprobed,
        }
    }

    pub fn state(&self) -> (r: DetectorState)
        ensures
            r == self@.state,
    {
        self.state
    }

    pub fn desktop_env(&self) -> (r: DesktopEnvironment)
        ensures
            r == self@.env,
    {
        self.desktop_env
    }

    /// The backend that answered last.
    pub fn working_method(&self) -> (r: Option<WorkingMethod>)
        ensures
            r == self@.working_method,
    {
        self.working_method
    }

    /// Whether the session bus is open.
    pub fn is_subscribed(&self) -> (r: bool)
        ensures
            r == self@.subscribed,
    {
        self.subscribed
    }

    /// The order in which this detector probes the backends.
    pub fn probe_order(&self) -> (r: Vec<WorkingMethod>)
        ensures
            r@ == probe_ladder(self@.env),
    {
        probe_order(self.desktop_env)
    }

    /// Whether a window differs from the last known one.
    pub fn is_window_changed(&self, new_window: &WindowInfo) -> (r: bool)
        ensures
            r == window_changed(self@.current, *new_window),
    {
        match &self.current_window {
            Some(current) => !str_eq(current.title.as_str(), new_window.title.as_str()) || !str_eq(
                current.class.as_str(),
                new_window.class.as_str(),
            ),
            None => true,
        }
    }

    /// Goes to the top of the ladder.
    fn begin_probing(&mut self) -> (actions: Vec<DetectorAction>)
        ensures
            (final(self)@, action_views(actions@)) == begin_probing(old(self)@),
    {
        self.state = DetectorState::ProbingBackend { index: 0 };
        let mut actions: Vec<DetectorAction> = Vec::new();
        match ladder_method(self.desktop_env, 0) {
            Some(method) => {
                actions.push(DetectorAction::Probe(method));
            },
            None => {},
        }
        assert(action_views(actions@) =~= begin_probing(old(self)@).1);
        actions
    }

    /// Takes what has happened and answers with what to do next; see
    /// `detector_step`.
    pub fn step(&mut self, event: DetectorEvent) -> (actions: Vec<DetectorAction>)
        ensures
            (final(self)@, action_views(actions@)) == detector_step(old(self)@, event),
    {
        let ghost before = self@;
        let mut actions: Vec<DetectorAction> = Vec::new();
        match (self.state, event) {
            (DetectorState::Unprobed, DetectorEvent::Start) => {
                let mode = self.detection_mode.as_str();
                if str_eq(mode, "dbus") {
                    if self.desktop_env == DesktopEnvironment::KDE || self.desktop_env
                        == DesktopEnvironment::GNOME {
                        self.state = DetectorState::Connecting;
                        actions.push(DetectorAction::Connect);
                    } else {
                        actions = self.begin_probing();
                    }
                } else if str_eq(mode, "polling") {
                    actions = self.begin_probing();
                } else {
                    let message = concat_str("Неизвестный режим детекции: ", mode);
                    self.state = DetectorState::Failed;
                    actions.push(DetectorAction::Fail(AhkError::Internal(message)));
                }
            },
            (DetectorState::Connecting, DetectorEvent::Connected(ok)) => {
                self.subscribed = ok;
                actions = self.begin_probing();
            },
            (DetectorState::ProbingBackend { index }, DetectorEvent::ProbeResult(works)) => {
                let here = ladder_method(self.desktop_env, index);
                let next = if index < usize::MAX {
                    ladder_method(self.desktop_env, index + 1)
                } else {
                    None
                };
                match (works, here, next) {
                    (true, Some(method), _) => {
                        self.state = DetectorState::Active { method, awaiting_answer: true };
                        self.working_method = Some(method);
                        actions.push(DetectorAction::Query(method));
                    },
                    (_, _, Some(method)) => {
                        self.state = DetectorState::ProbingBackend { index: index + 1 };
                        actions.push(DetectorAction::Probe(method));
                    },
                    _ => {
                        let millis = if self.working_method.is_none() {
                            FIRST_PROBE_RETRY_MS
                        } else {
                            DEGRADED_RETRY_MS
                        };
                        self.state = DetectorState::Degraded;
                        actions.push(DetectorAction::Wait { millis });
                    },
                }
            },
            (DetectorState::Degraded, DetectorEvent::Tick) => {
                actions = self.begin_probing();
            },
            (DetectorState::Active { method, awaiting_answer }, DetectorEvent::Tick) => {
                if !awaiting_answer {
                    self.state = DetectorState::Active { method, awaiting_answer: true };
                    actions.push(DetectorAction::Query(method));
                }
            },
            (
                DetectorState::Active { method, awaiting_answer },
                DetectorEvent::QueryResult(answer),
            ) => {
                if awaiting_answer {
                    match answer {
                        Some(window) => {
                            if self.is_window_changed(&window) {
                                let reported = window.duplicate();
                                self.current_window = Some(window);
                                actions.push(
                                    DetectorAction::Report(WindowEvent::focus_changed(reported)),
                                );
                            }
                            self.state = DetectorState::Active { method, awaiting_answer: false };
                            actions.push(DetectorAction::Wait { millis: self.poll_interval_ms });
                        },
                        None => {
                            actions = self.begin_probing();
                        },
                    }
                }
            },
            _ => {},
        }
        assert(action_views(actions@) =~= detector_step(before, event).1);
        actions
    }
}

/// The ladder of every desktop environment holds each backend once: a round
/// of probes leaves no backend out.
pub proof fn lemma_ladder_is_complete(env: DesktopEnvironment, method: WorkingMethod)
    ensures
        probe_ladder(env).len() == 4,
        probe_ladder(env).no_duplicates(),
        probe_ladder(env).contains(method),
{
    let ladder = probe_ladder(env);
    let at: int = if ladder[0] == method {
        0
    } else if ladder[1] == method {
        1
    } else if ladder[2] == method {
        2
    } else {
        3
    };
    assert(ladder[at] == method);
}

/// An answer to a query is reported exactly when it differs from the last
/// known window, and then it becomes the last known window; either way the
/// detector waits for the next tick.
pub proof fn lemma_report_when_changed(d: DetectorView, method: WorkingMethod, window: WindowInfo)
    requires
        d.state == (DetectorState::Active { method, awaiting_answer: true }),
    ensures
        ({
            let (after, actions) = detector_step(d, DetectorEvent::QueryResult(Some(window)));
            let report = ActionView::Report { window, event_type: WindowEventType::FocusChanged };
            &&& actions.contains(report) <==> window_changed(d.current, window)
            &&& window_changed(d.current, window) ==> after.current == Some(window)
            &&& !window_changed(d.current, window) ==> after.current == d.current
            &&& actions.last() == (ActionView::Wait { millis: d.poll_interval_ms })
            &&& after.state == (DetectorState::Active { method, awaiting_answer: false })
            &&& !window_changed(after.current, window)
        }),
{
    let (after, actions) = detector_step(d, DetectorEvent::QueryResult(Some(window)));
    let report = ActionView::Report { window, event_type: WindowEventType::FocusChanged };
    if window_changed(d.current, window) {
        assert(actions[0] == report);
    }
}

/// Whether the session bus opens or not, the detector goes on to probe the
/// backends: without the bus it polls.
pub proof fn lemma_failed_connection_falls_back(d: DetectorView, connected: bool)
    requires
        d.state == DetectorState::Connecting,
    ensures
        ({
            let (after, actions) = detector_step(d, DetectorEvent::Connected(connected));
            &&& after.state == (DetectorState::ProbingBackend { index: 0 })
            &&& after.subscribed == connected
            &&& actions == seq![ActionView::Probe(probe_ladder(d.env)[0])]
        }),
{
}

/// A round of probes in which no backend answers ends in the wait for the
/// next round: from the top of the ladder, four failures in a row.
pub proof fn lemma_all_probes_fail(d: DetectorView)
    requires
        d.state == (DetectorState::ProbingBackend { index: 0 }),
    ensures
        ({
            let failed = DetectorEvent::ProbeResult(false);
            let (d1, a1) = detector_step(d, failed);
            let (d2, a2) = detector_step(d1, failed);
            let (d3, a3) = detector_step(d2, failed);
            let (d4, a4) = detector_step(d3, failed);
            &&& a1 == seq![ActionView::Probe(probe_ladder(d.env)[1])]
            &&& a2 == seq![ActionView::Probe(probe_ladder(d.env)[2])]
            &&& a3 == seq![ActionView::Probe(probe_ladder(d.env)[3])]
            &&& a4 == seq![ActionView::Wait { millis: retry_wait(d) }]
            &&& d4 == (DetectorView { state: DetectorState::Degraded, ..d })
        }),
{
}

} // verus!
