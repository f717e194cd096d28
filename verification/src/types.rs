//! Plain data model: views, operation lifecycle states, counters and the
//! progress messages that a worker sends to the interactive thread.

use vstd::prelude::*;
use vstd::view::View as _;

verus! {

/// The screen the interactive thread is currently showing.
#[derive(Debug, Clone, Copy, PartialEq, Eq, Structural)]
pub enum View {
    MainMenu,
    Clean,
    Network,
    Repair,
    Info,
    Optimize,
    WindowsUpdate,
    Privacy,
    BrowserCache,
    SystemLogs,
    RecycleBin,
    StartupOptimizer,
    VisualEffects,
}

/// Where an operation stands in its lifecycle.
///
/// Transitions are monotonic within one operation and follow
/// `Idle -> Starting -> Running -> {Completed | Failed}`.
#[derive(Debug, Clone, Copy, PartialEq, Eq, Structural)]
pub enum OperationState {
    Idle,
    Starting,
    Running,
    Completed,
    Failed,
}

impl OperationState {
    /// A terminal state: nothing follows it within one operation.
    pub open spec fn is_terminal(self) -> bool {
        self is Completed || self is Failed
    }

    /// One legal lifecycle transition.
    pub open spec fn can_step_to(self, next: OperationState) -> bool {
        match self {
            OperationState::Idle => next is Starting,
            OperationState::Starting => next is Running,
            OperationState::Running => next is Completed || next is Failed,
            OperationState::Completed => false,
            OperationState::Failed => false,
        }
    }
}

/// Counters accumulated while an operation deletes things: how many items
/// were removed, how many could not be, and how many bytes were reclaimed.
///
/// Counters start at zero and are never decremented; the UI replaces its
/// copy wholesale on every `StatsUpdate` message.
#[derive(Debug, Clone, Copy, PartialEq, Eq, Structural)]
pub struct CleanStats {
    pub deleted_count: usize,
    pub failed_count: usize,
    pub size_freed: u64,
}

impl Default for CleanStats {
    /// Zero-valued counters, the state at the start of every operation.
    fn default() -> (r: Self)
        ensures
            r.deleted_count == 0,
            r.failed_count == 0,
            r.size_freed == 0,
    {
        CleanStats { deleted_count: 0, failed_count: 0, size_freed: 0 }
    }
}

impl CleanStats {
    /// Counts one successfully removed item of `bytes` bytes.  Saturates at
    /// the numeric limits; counters never decrease.
    pub fn record_deleted(&mut self, bytes: u64)
        ensures
            final(self).deleted_count == if old(self).deleted_count < usize::MAX {
                old(self).deleted_count + 1
            } else {
                usize::MAX as int
            },
            final(self).size_freed == if old(self).size_freed + bytes <= u64::MAX {
                old(self).size_freed + bytes
            } else {
                u64::MAX as int
            },
            final(self).failed_count == old(self).failed_count,
            final(self).deleted_count >= old(self).deleted_count,
            final(self).size_freed >= old(self).size_freed,
    {
        self.deleted_count = self.deleted_count.saturating_add(1);
        self.size_freed = self.size_freed.saturating_add(bytes);
    }

    /// Counts one item that could not be removed.  Saturates at the numeric
    /// limit; counters never decrease.
    pub fn record_failed(&mut self)
        ensures
            final(self).failed_count == if old(self).failed_count < usize::MAX {
                old(self).failed_count + 1
            } else {
                usize::MAX as int
            },
            final(self).deleted_count == old(self).deleted_count,
            final(self).size_freed == old(self).size_freed,
            final(self).failed_count >= old(self).failed_count,
    {
        self.failed_count = self.failed_count.saturating_add(1);
    }
}

/// One message from a worker to the interactive thread.
///
/// A worker emits, per operation, exactly one `Completed`, always last.
#[derive(Debug, Clone, PartialEq)]
pub enum WorkerMessage {
    /// A human-readable line to append to the operation's log.
    Log(String),
    /// The operation's state has moved.
    StateChange(OperationState),
    /// A full replacement snapshot of the accumulated counters.
    StatsUpdate(CleanStats),
    /// A recoverable error description; does not by itself end the operation.
    Error(String),
    /// Terminal sentinel: the worker is done and will send nothing more.
    Completed,
}

/// The mathematical shape of a progress message: strings become character
/// sequences, everything else is carried as is.
pub enum MsgView {
    Log(Seq<char>),
    StateChange(OperationState),
    StatsUpdate(CleanStats),
    Error(Seq<char>),
    Completed,
}

impl vstd::view::View for WorkerMessage {
    type V = MsgView;

    open spec fn view(&self) -> MsgView {
        match self {
            WorkerMessage::Log(s) => MsgView::Log(s@),
            WorkerMessage::StateChange(st) => MsgView::StateChange(*st),
            WorkerMessage::StatsUpdate(c) => MsgView::StatsUpdate(*c),
            WorkerMessage::Error(s) => MsgView::Error(s@),
            WorkerMessage::Completed => MsgView::Completed,
        }
    }
}

/// The views of a batch of messages, in order.
pub open spec fn views_of(ms: Seq<WorkerMessage>) -> Seq<MsgView> {
    ms.map_values(|m: WorkerMessage| m@)
}

} // verus!
