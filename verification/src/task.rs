//! The decision core of the terminal task.
//!
//! The task interleaves three activities: sending a render notification,
//! waiting for the child to exit, and reading from the pty. The embedder
//! performs the awaits and hands the outcome back as an event; this module
//! decides, from state and event alone, what to do next, so that every pty
//! read batch produces exactly one render notification and the loop winds
//! down once the child is gone.

use vstd::prelude::*;

verus! {

/// The task's own state: whether a render notification is owed and whether
/// the child is still considered running.
#[derive(Debug, Clone, Copy, PartialEq, Eq, Structural)]
pub struct TaskState {
    pub must_notify: bool,
    pub running: bool,
}

impl TaskState {
    /// A task starts owing one notification for the initial paint.
    pub fn start() -> (r: TaskState)
        ensures
            r.must_notify,
            r.running,
    {
        TaskState { must_notify: true, running: true }
    }
}

/// What the embedder observed while performing the last action.
#[derive(Debug, Clone, Copy, PartialEq, Eq, Structural)]
pub enum TaskEvent {
    /// The render notification was sent.
    NotifySent,
    /// The child process exited.
    ChildExited,
    /// The child is still running.
    ChildRunning,
    /// A pty read completed and its bytes were parsed into the screen.
    ReadDone,
    /// The pty read failed.
    ReadFailed,
}

/// What the embedder must do next.
#[derive(Debug, Clone, Copy, PartialEq, Eq, Structural)]
pub enum TaskAction {
    /// Send one render notification.
    Notify,
    /// Poll the child's exit status.
    PollChild,
    /// Read from the pty and drive the processor over the bytes read.
    ReadPty,
    /// Kill the child and stop.
    KillAndStop,
    /// Return the child's exit status.
    Stop,
}

/// The next action from the current state: an owed notification is sent
/// before anything else (so the renderer sees a consistent post-batch
/// screen); then the child is polled; reading only happens while running.
pub open spec fn spec_next_action(s: TaskState) -> TaskAction {
    if !s.running {
        TaskAction::Stop
    } else if s.must_notify {
        TaskAction::Notify
    } else {
        TaskAction::PollChild
    }
}

/// The state and follow-up action after an event: a sent notification clears
/// the debt; a finished read owes a new notification; child exit or a read
/// failure stops the loop.
pub open spec fn spec_on_event(s: TaskState, ev: TaskEvent) -> (TaskState, TaskAction) {
    match ev {
        TaskEvent::NotifySent => (
            TaskState { must_notify: false, ..s },
            TaskAction::PollChild,
        ),
        TaskEvent::ChildExited => (TaskState { running: false, ..s }, TaskAction::Stop),
        TaskEvent::ChildRunning => (s, TaskAction::ReadPty),
        TaskEvent::ReadDone => (TaskState { must_notify: true, ..s }, TaskAction::Notify),
        TaskEvent::ReadFailed => (
            TaskState { running: false, ..s },
            TaskAction::KillAndStop,
        ),
    }
}

/// The next action to perform.
pub fn next_action(s: &TaskState) -> (r: TaskAction)
    ensures
        r == spec_next_action(*s),
{
    if !s.running {
        TaskAction::Stop
    } else if s.must_notify {
        TaskAction::Notify
    } else {
        TaskAction::PollChild
    }
}

/// Fold one event into the state and say what to do next.
pub fn on_event(s: TaskState, ev: TaskEvent) -> (r: (TaskState, TaskAction))
    ensures
        r == spec_on_event(s, ev),
{
    match ev {
        TaskEvent::NotifySent => (TaskState { must_notify: false, ..s }, TaskAction::PollChild),
        TaskEvent::ChildExited => (TaskState { running: false, ..s }, TaskAction::Stop),
        TaskEvent::ChildRunning => (s, TaskAction::ReadPty),
        TaskEvent::ReadDone => (TaskState { must_notify: true, ..s }, TaskAction::Notify),
        TaskEvent::ReadFailed => (TaskState { running: false, ..s }, TaskAction::KillAndStop),
    }
}

/// Each completed read batch owes exactly one notification, and it is paid
/// before the next read: after `ReadDone` the next action is `Notify`, and
/// only `NotifySent` clears the debt.
pub proof fn lemma_one_notification_per_batch(s: TaskState, ev: TaskEvent)
    ensures
        ev == TaskEvent::ReadDone ==> spec_on_event(s, ev).0.must_notify && spec_on_event(
            s,
            ev,
        ).1 == TaskAction::Notify,
        spec_on_event(s, ev).0.must_notify && spec_on_event(s, ev).0.running ==> spec_next_action(
            spec_on_event(s, ev).0,
        ) == TaskAction::Notify,
{
}

} // verus!
