//! The consumer side: the interactive thread's shared state and the
//! non-blocking drain that folds progress messages into it.
//!
//! Once per tick the interactive thread polls the progress channel without
//! blocking and applies what it finds, in arrival order: log lines are
//! appended, the operation state and the counters are overwritten, errors
//! are appended tagged, and the `Completed` sentinel releases the worker
//! slot.  A drain with nothing pending leaves the state untouched.

use crate::channel::try_recv_message;
use crate::types::{views_of, CleanStats, MsgView, OperationState, WorkerMessage};
use crate::worker::{count_completed, last_state};
use vstd::prelude::*;
use vstd::string::StringExecFns;

verus! {

/// The part of the interactive thread's state that progress messages act
/// on, plus the worker slot flag.
pub struct UiState {
    /// The operation's log, oldest line first.
    pub logs: Vec<String>,
    /// The operation's current state as last reported.
    pub state: OperationState,
    /// The counters as last reported, replaced wholesale on every update.
    pub stats: CleanStats,
    /// Whether the single worker slot is occupied.
    pub worker_active: bool,
}

/// The mathematical shape of the consumer state.
pub struct UiView {
    pub logs: Seq<Seq<char>>,
    pub state: OperationState,
    pub stats: CleanStats,
    pub worker_active: bool,
}

impl vstd::view::View for UiState {
    type V = UiView;

    open spec fn view(&self) -> UiView {
        UiView {
            logs: self.logs.deep_view(),
            state: self.state,
            stats: self.stats,
            worker_active: self.worker_active,
        }
    }
}

/// The effect of one progress message on the consumer state.
pub open spec fn apply_msg(u: UiView, m: MsgView) -> UiView {
    match m {
        MsgView::Log(l) => (UiView { logs: u.logs + seq![l], ..u }),
        MsgView::StateChange(s) => (UiView { state: s, ..u }),
        MsgView::StatsUpdate(c) => (UiView { stats: c, ..u }),
        MsgView::Error(e) => (UiView { logs: u.logs + seq!["❌ ERROR: "@ + e], ..u }),
        MsgView::Completed => (UiView { worker_active: false, ..u }),
    }
}

/// The effect of a whole batch of messages, applied in order.
pub open spec fn apply_all(u: UiView, ms: Seq<MsgView>) -> UiView
    decreases ms.len(),
{
    if ms.len() == 0 {
        u
    } else {
        apply_msg(apply_all(u, ms.drop_last()), ms.last())
    }
}

/// The log lines a message sequence makes visible: plain lines for `Log`,
/// tagged lines for `Error`, nothing for the rest — in message order.
pub open spec fn log_lines_of(ms: Seq<MsgView>) -> Seq<Seq<char>>
    decreases ms.len(),
{
    if ms.len() == 0 {
        Seq::empty()
    } else {
        log_lines_of(ms.drop_last()) + match ms.last() {
            MsgView::Log(l) => seq![l],
            MsgView::Error(e) => seq!["❌ ERROR: "@ + e],
            _ => Seq::<Seq<char>>::empty(),
        }
    }
}

/// The consumer observes messages in the exact order the worker produced
/// them: applying a batch appends its log lines in batch order, and leaves
/// the operation state at the batch's last state change.
pub proof fn lemma_observed_in_order(u: UiView, ms: Seq<MsgView>)
    ensures
        apply_all(u, ms).logs =~= u.logs + log_lines_of(ms),
        apply_all(u, ms).state == match last_state(ms) {
            Some(s) => s,
            None => u.state,
        },
    decreases ms.len(),
{
    if ms.len() > 0 {
        lemma_observed_in_order(u, ms.drop_last());
    }
}

/// Once a finished worker's whole trace has been applied, the UI shows the
/// worker's terminal state — `Failed` whenever cancellation was observed —
/// and the `Completed` sentinel has released the worker slot.
pub proof fn lemma_finished_trace_applied(u: UiView, w: crate::worker::OperationWorker)
    requires
        w.wf(),
        w.finished(),
    ensures
        Some(apply_all(u, w.trace()).state) == last_state(w.trace()),
        w.cancelled() ==> apply_all(u, w.trace()).state is Failed,
        !apply_all(u, w.trace()).worker_active,
{
    lemma_observed_in_order(u, w.trace());
    crate::worker::lemma_exactly_one_completed(w);
    assert(apply_all(u, w.trace()) == apply_msg(
        apply_all(u, w.trace().drop_last()),
        w.trace().last(),
    ));
}

impl Default for UiState {
    /// The state before any operation: empty log, `Idle`, zero counters,
    /// worker slot empty.
    fn default() -> (r: Self)
        ensures
            r@.logs =~= Seq::<Seq<char>>::empty(),
            r@.state is Idle,
            r@.stats == (CleanStats { deleted_count: 0, failed_count: 0, size_freed: 0 }),
            !r@.worker_active,
    {
        UiState {
            logs: Vec::new(),
            state: OperationState::Idle,
            stats: CleanStats::default(),
            worker_active: false,
        }
    }
}

impl UiState {
    /// Applies one message; reports whether it was the `Completed` sentinel,
    /// which releases the worker slot.
    pub fn apply_message(&mut self, msg: &WorkerMessage) -> (completed: bool)
        ensures
            final(self)@ == apply_msg(old(self)@, msg@),
            completed == (msg@ is Completed),
    {
        match msg {
            WorkerMessage::Log(l) => {
                self.logs.push(l.clone());
                proof {
                    assert(self.logs.deep_view() =~= old(self).logs.deep_view() + seq![l@]);
                }
                false
            },
            WorkerMessage::StateChange(s) => {
                self.state = *s;
                false
            },
            WorkerMessage::StatsUpdate(c) => {
                self.stats = *c;
                false
            },
            WorkerMessage::Error(e) => {
                let t = String::from_str("❌ ERROR: ").concat(e.as_str());
                proof {
                    assert(t@ =~= "❌ ERROR: "@ + e@);
                }
                self.logs.push(t);
                proof {
                    assert(self.logs.deep_view() =~= old(self).logs.deep_view() + seq![
                        "❌ ERROR: "@ + e@,
                    ]);
                }
                false
            },
            WorkerMessage::Completed => {
                self.worker_active = false;
                true
            },
        }
    }

    /// Applies a drained batch of messages, in the exact order they were
    /// received; reports whether the `Completed` sentinel was among them.
    /// An empty batch leaves the state untouched.
    #[verifier::loop_isolation(false)]
    pub fn drain(&mut self, msgs: &Vec<WorkerMessage>) -> (completed: bool)
        ensures
            final(self)@ == apply_all(old(self)@, views_of(msgs@)),
            completed == (count_completed(views_of(msgs@)) > 0),
    {
        let mut done = false;
        let n = msgs.len();
        for i in 0..n
            invariant
                self@ == apply_all(old(self)@, views_of(msgs@).take(i as int)),
                done == (count_completed(views_of(msgs@).take(i as int)) > 0),
        {
            let c = self.apply_message(&msgs[i]);
            if c {
                done = true;
            }
            proof {
                let vs = views_of(msgs@);
                assert(vs.take(i + 1).drop_last() =~= vs.take(i as int));
                assert(vs.take(i + 1).last() == vs[i as int]);
            }
        }
        proof {
            assert(views_of(msgs@).take(n as int) =~= views_of(msgs@));
        }
        done
    }

    /// One UI tick's worth of polling: receives and applies at most `budget`
    /// messages without ever blocking, stopping early when the channel is
    /// empty.  Whatever arrives is applied in arrival order.
    #[verifier::loop_isolation(false)]
    pub fn pump(
        &mut self,
        receiver: &std::sync::mpsc::Receiver<WorkerMessage>,
        budget: usize,
    ) -> (completed: bool)
        ensures
            exists|ms: Seq<MsgView>|
                final(self)@ == apply_all(old(self)@, ms) && completed == (count_completed(ms)
                    > 0),
    {
        let mut done = false;
        let ghost mut ms: Seq<MsgView> = Seq::empty();
        let mut i: usize = 0;
        while i < budget
            invariant
                self@ == apply_all(old(self)@, ms),
                done == (count_completed(ms) > 0),
                i <= budget,
            decreases budget - i,
        {
            match try_recv_message(receiver) {
                None => {
                    break ;
                },
                Some(m) => {
                    let c = self.apply_message(&m);
                    if c {
                        done = true;
                    }
                    proof {
                        assert((ms + seq![m@]).drop_last() =~= ms);
                        ms = ms + seq![m@];
                    }
                },
            }
            i = i + 1;
        }
        proof {
            assert(self@ == apply_all(old(self)@, ms) && done == (count_completed(ms) > 0));
        }
        done
    }

    /// Tries to occupy the single worker slot.  Succeeds exactly when the
    /// slot is empty; while an operation is active a new launch is rejected
    /// and nothing changes, so at most one worker is ever active.
    pub fn try_launch(&mut self) -> (ok: bool)
        ensures
            ok == !old(self)@.worker_active,
            ok ==> final(self)@ == (UiView { worker_active: true, ..old(self)@ }),
            !ok ==> *final(self) == *old(self),
    {
        if self.worker_active {
            false
        } else {
            self.worker_active = true;
            true
        }
    }

    /// Clears the log and counters for a fresh operation, leaving the worker
    /// slot as it is.
    pub fn reset_for_operation(&mut self)
        ensures
            final(self)@.logs =~= Seq::<Seq<char>>::empty(),
            final(self)@.state is Idle,
            final(self)@.stats == (CleanStats { deleted_count: 0, failed_count: 0, size_freed: 0 }),
            final(self)@.worker_active == old(self)@.worker_active,
    {
        self.logs = Vec::new();
        self.state = OperationState::Idle;
        self.stats = CleanStats::default();
    }
}

} // verus!
