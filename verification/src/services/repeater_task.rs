//! The timer of one repeated key, as a state machine. Its caller owns the
//! clock and the virtual keyboard: it hands the task what has happened and
//! carries out what the task answers. One cycle is a tap, a press followed at
//! once by a release, and then a sleep of the configured delay.

use crate::events::KeyCode;
use crate::events::KeyState;
use crate::events::Modifiers;
use crate::events::VirtualKeyEvent;
use crate::events::VirtualKeyView;
use vstd::prelude::*;

verus! {

/// Where a task stands in its cycle.
#[derive(Debug, Clone, Copy, PartialEq, Eq, Structural)]
pub enum TaskPhase {
    /// The next tap is due when the clock ticks; a new task starts here.
    Waiting,
    /// The press of a tap was handed out and its outcome is awaited.
    PressPending,
    /// The release of a tap was handed out and its outcome is awaited.
    ReleasePending,
    /// The task has ended, by a cancellation or by a failure.
    Finished,
}

/// What has happened since the last answer of the task.
#[derive(Debug, Clone, Copy, PartialEq, Eq, Structural)]
pub enum TaskInput {
    /// The task was started, or its sleep has ended.
    Tick,
    /// The event that was handed out has been written.
    Sent,
    /// The event that was handed out could not be written.
    SendFailed,
    /// The key went up, or everything is being stopped.
    Cancelled,
}

/// What the task asks for.
#[derive(Debug, Clone)]
pub enum TaskOutput {
    /// Write the event and report the outcome.
    Send(VirtualKeyEvent),
    /// Sleep this many milliseconds, then tick.
    Sleep { millis: u64 },
    /// Write the event, the release of a press that may be out, and end.
    FlushAndFinish(VirtualKeyEvent),
    /// End.
    Finish,
}

/// An answer of a task in plain values.
pub enum TaskOutputView {
    Send(VirtualKeyView),
    Sleep { millis: u64 },
    FlushAndFinish(VirtualKeyView),
    Finish,
}

impl View for TaskOutput {
    type V = TaskOutputView;

    open spec fn view(&self) -> TaskOutputView {
        match *self {
            TaskOutput::Send(event) => TaskOutputView::Send(event@),
            TaskOutput::Sleep { millis } => TaskOutputView::Sleep { millis },
            TaskOutput::FlushAndFinish(event) => TaskOutputView::FlushAndFinish(event@),
            TaskOutput::Finish => TaskOutputView::Finish,
        }
    }
}

/// A task in plain values.
pub struct TaskView {
    pub code: u16,
    pub modifier_bits: u8,
    pub delay_ms: u64,
    pub dry_run: bool,
    pub repeat_count: u64,
    pub phase: TaskPhase,
}

/// The press of the key of a task.
pub open spec fn tap_press(t: TaskView) -> VirtualKeyView {
    VirtualKeyView { code: t.code, state: KeyState::Pressed, modifier_bits: t.modifier_bits }
}

/// The release of the key of a task.
pub open spec fn tap_release(t: TaskView) -> VirtualKeyView {
    VirtualKeyView { code: t.code, state: KeyState::Released, modifier_bits: t.modifier_bits }
}

/// The count of taps after one more; it stops at the largest number.
pub open spec fn next_count(count: u64) -> u64 {
    if count == u64::MAX {
        count
    } else {
        (count + 1) as u64
    }
}

/// One step of a task. A tick while waiting begins a tap, which a dry run
/// only counts. The press written, the release follows; the release written,
/// the task sleeps. A write that fails ends the task. A cancellation ends it
/// too, after the release of a press that was handed out. Whatever else
/// arrives does not belong to the cycle and ends the task as well.
pub open spec fn task_step(t: TaskView, input: TaskInput) -> (TaskView, TaskOutputView) {
    match (t.phase, input) {
        (TaskPhase::Waiting, TaskInput::Tick) => if t.dry_run {
            (
                TaskView { repeat_count: next_count(t.repeat_count), ..t },
                TaskOutputView::Sleep { millis: t.delay_ms },
            )
        } else {
            (
                TaskView {
                    repeat_count: next_count(t.repeat_count),
                    phase: TaskPhase::PressPending,
                    ..t
                },
                TaskOutputView::Send(tap_press(t)),
            )
        },
        (TaskPhase::PressPending, TaskInput::Sent) => (
            TaskView { phase: TaskPhase::ReleasePending, ..t },
            TaskOutputView::Send(tap_release(t)),
        ),
        (TaskPhase::ReleasePending, TaskInput::Sent) => (
            TaskView { phase: TaskPhase::Waiting, ..t },
            TaskOutputView::Sleep { millis: t.delay_ms },
        ),
        (TaskPhase::PressPending, TaskInput::Cancelled) => (
            TaskView { phase: TaskPhase::Finished, ..t },
            TaskOutputView::FlushAndFinish(tap_release(t)),
        ),
        _ => (TaskView { phase: TaskPhase::Finished, ..t }, TaskOutputView::Finish),
    }
}

/// The timer of one repeated key.
#[derive(Debug, Clone)]
pub struct RepeaterTask {
    key_code: KeyCode,
    modifiers: Modifiers,
    delay_ms: u64,
    dry_run: bool,
    repeat_count: u64,
    phase: TaskPhase,
}

impl View for RepeaterTask {
    type V = TaskView;

    closed spec fn view(&self) -> TaskView {
        TaskView {
            code: self.key_code.0,
            modifier_bits: self.modifiers@,
            delay_ms: self.delay_ms,
            dry_run: self.dry_run,
            repeat_count: self.repeat_count,
            phase: self.phase,
        }
    }
}

impl RepeaterTask {
    /// A task for a key and the modifiers it went down with. It waits for its
    /// first tick and has made no tap.
    pub fn new(key_code: KeyCode, modifiers: Modifiers, delay_ms: u64, dry_run: bool) -> (r: Self)
        ensures
            r@ == (TaskView {
                code: key_code.0,
                modifier_bits: modifiers@,
                delay_ms,
                dry_run,
                repeat_count: 0,
                phase: TaskPhase::Waiting,
            }),
    {
        Self { key_code, modifiers, delay_ms, dry_run, repeat_count: 0, phase: TaskPhase::Waiting }
    }

    pub fn phase(&self) -> (r: TaskPhase)
        ensures
            r == self@.phase,
    {
        self.phase
    }

    /// The number of taps begun so far.
    pub fn repeat_count(&self) -> (r: u64)
        ensures
            r == self@.repeat_count,
    {
        self.repeat_count
    }

    pub fn is_finished(&self) -> (r: bool)
        ensures
            r == (self@.phase == TaskPhase::Finished),
    {
        self.phase == TaskPhase::Finished
    }

    /// Takes what has happened and answers with what to do next.
    pub fn step(&mut self, input: TaskInput) -> (output: TaskOutput)
        ensures
            (final(self)@, output@) == task_step(old(self)@, input),
    {
        match (self.phase, input) {
            (TaskPhase::Waiting, TaskInput::Tick) => {
                if self.repeat_count < u64::MAX {
                    self.repeat_count = self.repeat_count + 1;
                }
                if self.dry_run {
                    TaskOutput::Sleep { millis: self.delay_ms }
                } else {
                    self.phase = TaskPhase::PressPending;
                    TaskOutput::Send(VirtualKeyEvent::press(self.key_code, self.modifiers))
                }
            },
            (TaskPhase::PressPending, TaskInput::Sent) => {
                self.phase = TaskPhase::ReleasePending;
                TaskOutput::Send(VirtualKeyEvent::release(self.key_code, self.modifiers))
            },
            (TaskPhase::ReleasePending, TaskInput::Sent) => {
                self.phase = TaskPhase::Waiting;
                TaskOutput::Sleep { millis: self.delay_ms }
            },
            (TaskPhase::PressPending, TaskInput::Cancelled) => {
                self.phase = TaskPhase::Finished;
                TaskOutput::FlushAndFinish(
                    VirtualKeyEvent::release(self.key_code, self.modifiers),
                )
            },
            _ => {
                self.phase = TaskPhase::Finished;
                TaskOutput::Finish
            },
        }
    }
}

/// After a cancellation a task is finished, and a finished task asks for
/// nothing but its end: no press follows a cancellation.
pub proof fn lemma_no_press_after_cancel(t: TaskView, later: TaskInput)
    ensures
        task_step(t, TaskInput::Cancelled).0.phase == TaskPhase::Finished,
        !(task_step(t, TaskInput::Cancelled).1 is Send),
        task_step(task_step(t, TaskInput::Cancelled).0, later).1 == TaskOutputView::Finish,
        task_step(task_step(t, TaskInput::Cancelled).0, later).0.phase == TaskPhase::Finished,
{
}

/// A write that fails ends the task, whichever event it was.
pub proof fn lemma_failure_ends_task(t: TaskView)
    ensures
        task_step(t, TaskInput::SendFailed) == (
            TaskView { phase: TaskPhase::Finished, ..t },
            TaskOutputView::Finish,
        ),
{
}

/// A whole cycle of a task that writes: tick, press, release, sleep; the task
/// then waits again with one tap more on its count.
pub proof fn lemma_tap_cycle(t: TaskView)
    requires
        t.phase == TaskPhase::Waiting,
        !t.dry_run,
    ensures
        ({
            let (t1, o1) = task_step(t, TaskInput::Tick);
            let (t2, o2) = task_step(t1, TaskInput::Sent);
            let (t3, o3) = task_step(t2, TaskInput::Sent);
            &&& o1 == TaskOutputView::Send(tap_press(t))
            &&& o2 == TaskOutputView::Send(tap_release(t))
            &&& o3 == (TaskOutputView::Sleep { millis: t.delay_ms })
            &&& t3 == (TaskView { repeat_count: next_count(t.repeat_count), ..t })
        }),
{
}

} // verus!
