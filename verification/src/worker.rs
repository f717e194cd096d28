//! The operation worker: sequences the steps of one operation's script and
//! produces the ordered stream of progress messages.
//!
//! The worker here is a decision machine.  It never launches a process and
//! never touches a thread: the caller runs each external step, reports what
//! happened, and sends the returned messages down the progress channel in
//! order.  Everything the machine decides — which step comes next, what is
//! emitted when, the terminal state — is verified, including the two
//! protocol laws: exactly one `Completed` per operation, always last, and a
//! `Failed` terminal state whenever cancellation was observed.

use crate::types::{views_of, MsgView, OperationState, WorkerMessage};
use vstd::prelude::*;
use vstd::string::StringExecFns;

verus! {

/// One external command invocation within an operation's script.
pub struct Step {
    /// Program to launch.
    pub program: String,
    /// Arguments handed to the program.
    pub args: Vec<String>,
    /// Log lines announced just before the step runs.
    pub intro: Vec<String>,
    /// Error message emitted if the step fails and the script continues.
    pub failure_note: Option<String>,
    /// Whether this step must succeed for the operation to count as a success.
    pub required: bool,
    /// Fail-fast policy: when true, a failure of this step skips the rest of
    /// the script.
    pub abort_on_failure: bool,
}

/// A fixed, ordered script of steps for one operation kind, with the texts
/// that frame it.
pub struct Script {
    /// Banner log line emitted right after the initial state changes.
    pub banner: String,
    /// The steps, run strictly in order.
    pub steps: Vec<Step>,
    /// Log line emitted when every required step succeeded.
    pub success_log: String,
    /// Error message emitted when some required step failed.
    pub failure_error: String,
}

/// What happened when the caller ran one external step.
pub enum StepOutcome {
    /// The process ran to completion; its captured output, split into lines.
    Ran {
        stdout_lines: Vec<String>,
        stderr_lines: Vec<String>,
        exit_success: bool,
        exit_code: Option<i32>,
    },
    /// The process could not be launched at all.
    LaunchFailed { reason: String },
}

impl StepOutcome {
    /// A step succeeded only if it ran and exited successfully.
    pub open spec fn is_success(self) -> bool {
        self matches StepOutcome::Ran { exit_success: true, .. }
    }
}

/// How many `Completed` sentinels a message sequence holds.
pub open spec fn count_completed(s: Seq<MsgView>) -> nat
    decreases s.len(),
{
    if s.len() == 0 {
        0
    } else {
        count_completed(s.drop_last()) + if s.last() is Completed {
            1nat
        } else {
            0nat
        }
    }
}

/// The state carried by the last `StateChange` in a message sequence, if any:
/// the terminal state a consumer that applies the sequence ends up in.
pub open spec fn last_state(s: Seq<MsgView>) -> Option<OperationState>
    decreases s.len(),
{
    if s.len() == 0 {
        None
    } else if s.last() is StateChange {
        Some(s.last()->StateChange_0)
    } else {
        last_state(s.drop_last())
    }
}

/// Counting `Completed` distributes over concatenation.
pub proof fn lemma_count_completed_add(a: Seq<MsgView>, b: Seq<MsgView>)
    ensures
        count_completed(a + b) == count_completed(a) + count_completed(b),
    decreases b.len(),
{
    if b.len() == 0 {
        assert(a + b =~= a);
    } else {
        assert((a + b).drop_last() =~= a + b.drop_last());
        lemma_count_completed_add(a, b.drop_last());
    }
}

/// The last state change of a concatenation is the second part's, unless the
/// second part has none.
pub proof fn lemma_last_state_add(a: Seq<MsgView>, b: Seq<MsgView>)
    ensures
        last_state(a + b) == if last_state(b) is Some {
            last_state(b)
        } else {
            last_state(a)
        },
    decreases b.len(),
{
    if b.len() == 0 {
        assert(a + b =~= a);
    } else {
        assert((a + b).drop_last() =~= a + b.drop_last());
        lemma_last_state_add(a, b.drop_last());
    }
}

/// Every line as a `Log` message, in order.
pub open spec fn log_views(lines: Seq<Seq<char>>) -> Seq<MsgView> {
    lines.map_values(|l: Seq<char>| MsgView::Log(l))
}

/// The operation states a message sequence announces, in order.
pub open spec fn states_of(s: Seq<MsgView>) -> Seq<OperationState>
    decreases s.len(),
{
    if s.len() == 0 {
        Seq::empty()
    } else {
        states_of(s.drop_last()) + if s.last() is StateChange {
            seq![s.last()->StateChange_0]
        } else {
            Seq::empty()
        }
    }
}

/// A legal lifecycle: each announced state follows from the one before it,
/// starting from `Idle`.
pub open spec fn follows_lifecycle(ss: Seq<OperationState>) -> bool {
    forall|i: int|
        0 <= i < ss.len() ==> (if i == 0 {
            OperationState::Idle
        } else {
            ss[i - 1]
        }).can_step_to(#[trigger] ss[i])
}

/// Projecting states distributes over concatenation.
pub proof fn lemma_states_of_add(a: Seq<MsgView>, b: Seq<MsgView>)
    ensures
        states_of(a + b) =~= states_of(a) + states_of(b),
    decreases b.len(),
{
    if b.len() == 0 {
        assert(a + b =~= a);
    } else {
        assert((a + b).drop_last() =~= a + b.drop_last());
        lemma_states_of_add(a, b.drop_last());
    }
}

/// A sequence with no `StateChange` announces no state.
pub proof fn lemma_states_of_none(s: Seq<MsgView>)
    requires
        forall|i: int| 0 <= i < s.len() ==> !(#[trigger] s[i] is StateChange),
    ensures
        states_of(s) =~= Seq::<OperationState>::empty(),
    decreases s.len(),
{
    if s.len() > 0 {
        lemma_states_of_none(s.drop_last());
    }
}

/// A sequence with no `Completed` counts zero `Completed`s.
pub proof fn lemma_count_completed_zero(s: Seq<MsgView>)
    requires
        forall|i: int| 0 <= i < s.len() ==> !(#[trigger] s[i] is Completed),
    ensures
        count_completed(s) == 0,
    decreases s.len(),
{
    if s.len() > 0 {
        lemma_count_completed_zero(s.drop_last());
    }
}

/// A sequence with no `StateChange` leaves the last observed state alone.
pub proof fn lemma_last_state_none(s: Seq<MsgView>)
    requires
        forall|i: int| 0 <= i < s.len() ==> !(#[trigger] s[i] is StateChange),
    ensures
        last_state(s) is None,
    decreases s.len(),
{
    if s.len() > 0 {
        lemma_last_state_none(s.drop_last());
    }
}

/// The non-empty lines among `lines`, each as a `Log` message, in order.
pub open spec fn kept_log_views(lines: Seq<Seq<char>>) -> Seq<MsgView>
    decreases lines.len(),
{
    if lines.len() == 0 {
        Seq::empty()
    } else {
        kept_log_views(lines.drop_last()) + if lines.last().len() > 0 {
            seq![MsgView::Log(lines.last())]
        } else {
            Seq::empty()
        }
    }
}

/// The non-empty error-stream lines, each tagged and logged, in order.
pub open spec fn kept_err_views(lines: Seq<Seq<char>>) -> Seq<MsgView>
    decreases lines.len(),
{
    if lines.len() == 0 {
        Seq::empty()
    } else {
        kept_err_views(lines.drop_last()) + if lines.last().len() > 0 {
            seq![MsgView::Log("ERROR: "@ + lines.last())]
        } else {
            Seq::empty()
        }
    }
}

/// The arguments joined with single spaces.
pub open spec fn join_spaced(args: Seq<Seq<char>>) -> Seq<char>
    decreases args.len(),
{
    if args.len() == 0 {
        Seq::empty()
    } else if args.len() == 1 {
        args[0]
    } else {
        join_spaced(args.drop_last()) + " "@ + args.last()
    }
}

/// The log line announcing that a command is being launched.
pub open spec fn launch_text(program: Seq<char>, args: Seq<Seq<char>>) -> Seq<char> {
    "Ejecutando: "@ + program + " "@ + join_spaced(args)
}

/// How an exit code is reported in the failure log line.
pub open spec fn code_text(code: Option<i32>) -> Seq<char> {
    match code {
        Some(n) => "Some("@ + crate::text::dec_int(n as int) + ")"@,
        None => "None"@,
    }
}

/// Everything the step runner reports about one finished step, as messages:
/// the captured output lines, the verdict line, and — when the step failed
/// and the script carries a note for that — the note as an `Error`.
pub open spec fn step_report_views(outcome: StepOutcome, failure_note: Option<String>) -> Seq<
    MsgView,
> {
    (match outcome {
        StepOutcome::Ran { stdout_lines, stderr_lines, exit_success, exit_code } => kept_log_views(
            stdout_lines.deep_view(),
        ) + kept_err_views(stderr_lines.deep_view()) + if exit_success {
            seq![MsgView::Log("✓ Comando completado exitosamente"@)]
        } else {
            seq![MsgView::Log("✗ Comando falló con código: "@ + code_text(exit_code))]
        },
        StepOutcome::LaunchFailed { reason } => seq![
            MsgView::Error("Error al ejecutar comando: "@ + reason@),
        ],
    }) + (match failure_note {
        Some(note) => if !outcome.is_success() {
            seq![MsgView::Error(note@)]
        } else {
            Seq::empty()
        },
        None => Seq::empty(),
    })
}

/// The worker decision machine for one operation.
///
/// The caller drives it: `start_messages` first, then, while a step is
/// pending, either `observe_cancellation` (when the cancellation token is
/// set) or `begin_step` / `complete_step` around running the external
/// command, and `finish` once no step is pending.  Every method returns the
/// messages to forward, in order, and the machine records the whole emitted
/// trace in ghost state, over which its invariant and the protocol laws are
/// stated.
pub struct OperationWorker {
    script: Script,
    next_step: usize,
    all_ok: bool,
    started: bool,
    finished: bool,
    trace: Ghost<Seq<MsgView>>,
    cancelled: Ghost<bool>,
}

impl OperationWorker {
    /// The script this worker runs.
    pub closed spec fn script(self) -> Script {
        self.script
    }

    /// Index of the next step to run.
    pub closed spec fn next_step(self) -> int {
        self.next_step as int
    }

    /// Whether every required step so far has succeeded.
    pub closed spec fn all_ok(self) -> bool {
        self.all_ok
    }

    /// Whether the initial state changes and banner were emitted.
    pub closed spec fn started(self) -> bool {
        self.started
    }

    /// Whether the terminal messages were emitted.
    pub closed spec fn finished(self) -> bool {
        self.finished
    }

    /// Every message emitted so far, in order.
    pub closed spec fn trace(self) -> Seq<MsgView> {
        self.trace@
    }

    /// Whether cancellation was observed between steps.
    pub closed spec fn cancelled(self) -> bool {
        self.cancelled@
    }

    /// A step is pending when the machine is running and steps remain.
    pub open spec fn has_pending_step(self) -> bool {
        self.started() && !self.finished() && self.next_step() < self.script().steps.len()
    }

    /// The machine's invariant, preserved by every method.
    pub open spec fn wf(self) -> bool {
        &&& 0 <= self.next_step() <= self.script().steps.len()
        &&& (!self.started() ==> {
            &&& self.trace() =~= Seq::<MsgView>::empty()
            &&& !self.finished()
            &&& self.next_step() == 0
            &&& self.all_ok()
            &&& !self.cancelled()
        })
        &&& (self.finished() ==> self.started())
        &&& (self.cancelled() ==> self.finished())
        &&& (!self.finished() ==> count_completed(self.trace()) == 0)
        &&& (self.finished() ==> {
            &&& count_completed(self.trace()) == 1
            &&& self.trace().len() > 0
            &&& self.trace().last() is Completed
        })
        &&& (self.cancelled() && self.finished() ==> last_state(self.trace()) == Some(
            OperationState::Failed,
        ))
        &&& (self.started() && !self.finished() ==> states_of(self.trace()) =~= seq![
            OperationState::Starting,
            OperationState::Running,
        ])
        &&& (self.finished() ==> (last_state(self.trace()) matches Some(t) && t.is_terminal()
            && states_of(self.trace()) =~= seq![
            OperationState::Starting,
            OperationState::Running,
            t,
        ]))
    }

    /// A fresh worker for `script`: nothing emitted, no step run.
    pub fn new(script: Script) -> (w: Self)
        ensures
            w.wf(),
            !w.started(),
            w.script() == script,
    {
        OperationWorker {
            script,
            next_step: 0,
            all_ok: true,
            started: false,
            finished: false,
            trace: Ghost(Seq::empty()),
            cancelled: Ghost(false),
        }
    }

    /// The opening of the protocol: the operation moves `Starting` then
    /// `Running`, then the script's banner is logged.
    pub fn start_messages(&mut self) -> (msgs: Vec<WorkerMessage>)
        requires
            old(self).wf(),
            !old(self).started(),
        ensures
            final(self).wf(),
            final(self).started(),
            !final(self).finished(),
            !final(self).cancelled(),
            final(self).all_ok(),
            final(self).next_step() == 0,
            final(self).script() == old(self).script(),
            views_of(msgs@) =~= seq![
                MsgView::StateChange(OperationState::Starting),
                MsgView::StateChange(OperationState::Running),
                MsgView::Log(old(self).script().banner@),
            ],
            final(self).trace() =~= views_of(msgs@),
    {
        let mut msgs: Vec<WorkerMessage> = Vec::new();
        msgs.push(WorkerMessage::StateChange(OperationState::Starting));
        msgs.push(WorkerMessage::StateChange(OperationState::Running));
        msgs.push(WorkerMessage::Log(self.script.banner.clone()));
        self.started = true;
        self.trace = Ghost(views_of(msgs@));
        proof {
            reveal_with_fuel(count_completed, 4);
            reveal_with_fuel(states_of, 4);
            assert(views_of(msgs@) =~= seq![
                MsgView::StateChange(OperationState::Starting),
                MsgView::StateChange(OperationState::Running),
                MsgView::Log(old(self).script().banner@),
            ]);
            assert(states_of(views_of(msgs@)) =~= seq![
                OperationState::Starting,
                OperationState::Running,
            ]);
        }
        msgs
    }

    /// Index of the next step to run, if the machine is running and steps
    /// remain.
    pub fn next_step_index(&self) -> (r: Option<usize>)
        ensures
            r == if self.has_pending_step() {
                Some(self.next_step() as usize)
            } else {
                None::<usize>
            },
    {
        if self.started && !self.finished && self.next_step < self.script.steps.len() {
            Some(self.next_step)
        } else {
            None
        }
    }

    /// The pending step's program, for the caller to launch.
    pub fn current_program(&self) -> (r: &String)
        requires
            self.has_pending_step(),
        ensures
            r@ == self.script().steps[self.next_step()].program@,
    {
        &self.script.steps[self.next_step].program
    }

    /// The pending step's argument list, for the caller to launch.
    pub fn current_args(&self) -> (r: &Vec<String>)
        requires
            self.has_pending_step(),
        ensures
            r == self.script().steps[self.next_step()].args,
    {
        &self.script.steps[self.next_step].args
    }

    /// Cancellation was observed between steps: log it, move to `Failed`,
    /// and close the stream with the one `Completed` sentinel.
    pub fn observe_cancellation(&mut self) -> (msgs: Vec<WorkerMessage>)
        requires
            old(self).wf(),
            old(self).started(),
            !old(self).finished(),
        ensures
            final(self).wf(),
            final(self).finished(),
            final(self).cancelled(),
            final(self).script() == old(self).script(),
            views_of(msgs@) =~= seq![
                MsgView::Log("Operación cancelada por el usuario"@),
                MsgView::StateChange(OperationState::Failed),
                MsgView::Completed,
            ],
            final(self).trace() =~= old(self).trace() + views_of(msgs@),
            last_state(final(self).trace()) == Some(OperationState::Failed),
    {
        let mut msgs: Vec<WorkerMessage> = Vec::new();
        msgs.push(WorkerMessage::Log(String::from_str("Operación cancelada por el usuario")));
        msgs.push(WorkerMessage::StateChange(OperationState::Failed));
        msgs.push(WorkerMessage::Completed);
        self.finished = true;
        self.cancelled = Ghost(true);
        proof {
            reveal_with_fuel(count_completed, 4);
            reveal_with_fuel(last_state, 4);
            reveal_with_fuel(states_of, 4);
            assert(views_of(msgs@) =~= seq![
                MsgView::Log("Operación cancelada por el usuario"@),
                MsgView::StateChange(OperationState::Failed),
                MsgView::Completed,
            ]);
            assert(states_of(views_of(msgs@)) =~= seq![OperationState::Failed]);
            lemma_count_completed_add(self.trace@, views_of(msgs@));
            lemma_last_state_add(self.trace@, views_of(msgs@));
            lemma_states_of_add(self.trace@, views_of(msgs@));
        }
        self.trace = Ghost(self.trace@ + views_of(msgs@));
        msgs
    }

    /// All steps are done: report the overall outcome — `Completed` if every
    /// required step succeeded, `Failed` otherwise — and close the stream
    /// with the one `Completed` sentinel.
    pub fn finish(&mut self) -> (msgs: Vec<WorkerMessage>)
        requires
            old(self).wf(),
            old(self).started(),
            !old(self).finished(),
            old(self).next_step() == old(self).script().steps.len(),
        ensures
            final(self).wf(),
            final(self).finished(),
            final(self).cancelled() == old(self).cancelled(),
            final(self).script() == old(self).script(),
            views_of(msgs@) =~= if old(self).all_ok() {
                seq![
                    MsgView::Log(old(self).script().success_log@),
                    MsgView::StateChange(OperationState::Completed),
                    MsgView::Completed,
                ]
            } else {
                seq![
                    MsgView::Error(old(self).script().failure_error@),
                    MsgView::StateChange(OperationState::Failed),
                    MsgView::Completed,
                ]
            },
            final(self).trace() =~= old(self).trace() + views_of(msgs@),
            last_state(final(self).trace()) == Some(
                if old(self).all_ok() {
                    OperationState::Completed
                } else {
                    OperationState::Failed
                },
            ),
    {
        let mut msgs: Vec<WorkerMessage> = Vec::new();
        if self.all_ok {
            msgs.push(WorkerMessage::Log(self.script.success_log.clone()));
            msgs.push(WorkerMessage::StateChange(OperationState::Completed));
        } else {
            msgs.push(WorkerMessage::Error(self.script.failure_error.clone()));
            msgs.push(WorkerMessage::StateChange(OperationState::Failed));
        }
        msgs.push(WorkerMessage::Completed);
        self.finished = true;
        proof {
            reveal_with_fuel(count_completed, 4);
            reveal_with_fuel(last_state, 4);
            reveal_with_fuel(states_of, 4);
            if old(self).all_ok() {
                assert(views_of(msgs@) =~= seq![
                    MsgView::Log(old(self).script().success_log@),
                    MsgView::StateChange(OperationState::Completed),
                    MsgView::Completed,
                ]);
            } else {
                assert(views_of(msgs@) =~= seq![
                    MsgView::Error(old(self).script().failure_error@),
                    MsgView::StateChange(OperationState::Failed),
                    MsgView::Completed,
                ]);
            }
            assert(states_of(views_of(msgs@)) =~= seq![
                if old(self).all_ok() {
                    OperationState::Completed
                } else {
                    OperationState::Failed
                },
            ]);
            lemma_count_completed_add(self.trace@, views_of(msgs@));
            lemma_last_state_add(self.trace@, views_of(msgs@));
            lemma_states_of_add(self.trace@, views_of(msgs@));
        }
        self.trace = Ghost(self.trace@ + views_of(msgs@));
        msgs
    }
}

/// A message that only informs: it neither closes the stream nor moves the
/// operation's state.
pub open spec fn benign(m: MsgView) -> bool {
    m is Log || m is Error
}

impl OperationWorker {
    /// Announces the pending step: its intro lines, then the launch line
    /// naming the command.  The step itself is then run by the caller, which
    /// reports back through `complete_step`.
    #[verifier::loop_isolation(false)]
    pub fn begin_step(&mut self) -> (msgs: Vec<WorkerMessage>)
        requires
            old(self).wf(),
            old(self).has_pending_step(),
        ensures
            final(self).wf(),
            final(self).has_pending_step(),
            !final(self).cancelled(),
            final(self).script() == old(self).script(),
            final(self).next_step() == old(self).next_step(),
            final(self).all_ok() == old(self).all_ok(),
            views_of(msgs@) =~= log_views(
                old(self).script().steps[old(self).next_step()].intro.deep_view(),
            ) + seq![
                MsgView::Log(
                    launch_text(
                        old(self).script().steps[old(self).next_step()].program@,
                        old(self).script().steps[old(self).next_step()].args.deep_view(),
                    ),
                ),
            ],
            final(self).trace() =~= old(self).trace() + views_of(msgs@),
    {
        let idx = self.next_step;
        let mut msgs: Vec<WorkerMessage> = Vec::new();
        let step = &self.script.steps[idx];
        let n = step.intro.len();
        for j in 0..n
            invariant
                views_of(msgs@) =~= log_views(step.intro.deep_view().take(j as int)),
                forall|k: int| 0 <= k < msgs@.len() ==> benign(#[trigger] msgs@[k]@),
        {
            msgs.push(WorkerMessage::Log(step.intro[j].clone()));
            proof {
                let dv = step.intro.deep_view();
                assert(views_of(msgs@) =~= log_views(dv.take(j as int)) + seq![
                    MsgView::Log(dv[j as int]),
                ]);
                assert(log_views(dv.take(j + 1)) =~= log_views(dv.take(j as int)) + seq![
                    MsgView::Log(dv[j as int]),
                ]);
            }
        }
        let mut t = String::from_str("Ejecutando: ");
        t.append(step.program.as_str());
        t.append(" ");
        let m = step.args.len();
        for j in 0..m
            invariant
                t@ =~= "Ejecutando: "@ + step.program@ + " "@ + join_spaced(
                    step.args.deep_view().take(j as int),
                ),
        {
            if j > 0 {
                t.append(" ");
            }
            t.append(step.args[j].as_str());
            proof {
                assert(step.args.deep_view().take(j + 1).drop_last() =~= step.args.deep_view().take(
                    j as int,
                ));
                assert(step.args.deep_view().take(j + 1).last() == step.args.deep_view()[j as int]);
            }
        }
        msgs.push(WorkerMessage::Log(t));
        proof {
            assert(step.intro.deep_view().take(n as int) =~= step.intro.deep_view());
            assert(step.args.deep_view().take(m as int) =~= step.args.deep_view());
            let vs = views_of(msgs@);
            assert forall|k: int| 0 <= k < vs.len() implies !(#[trigger] vs[k] is Completed) && !(
            vs[k] is StateChange) by {
                assert(vs[k] == msgs@[k]@);
                assert(benign(msgs@[k]@));
            }
            lemma_count_completed_zero(vs);
            lemma_last_state_none(vs);
            lemma_states_of_none(vs);
            lemma_count_completed_add(self.trace@, vs);
            lemma_last_state_add(self.trace@, vs);
            lemma_states_of_add(self.trace@, vs);
        }
        self.trace = Ghost(self.trace@ + views_of(msgs@));
        msgs
    }

    /// Takes the caller's report of the step that just ran, forwards its
    /// output and verdict as messages, and moves the script along: the next
    /// step normally, the end of the script when a failed step demands
    /// fail-fast.  The step counts against the overall outcome only when the
    /// script marks it required.
    #[verifier::loop_isolation(false)]
    pub fn complete_step(&mut self, outcome: StepOutcome) -> (msgs: Vec<WorkerMessage>)
        requires
            old(self).wf(),
            old(self).has_pending_step(),
        ensures
            final(self).wf(),
            final(self).started(),
            !final(self).finished(),
            !final(self).cancelled(),
            final(self).script() == old(self).script(),
            final(self).all_ok() == (old(self).all_ok() && (outcome.is_success() || !old(
                self,
            ).script().steps[old(self).next_step()].required)),
            final(self).next_step() == if !outcome.is_success() && old(self).script().steps[old(
                self,
            ).next_step()].abort_on_failure {
                old(self).script().steps.len() as int
            } else {
                old(self).next_step() + 1
            },
            views_of(msgs@) =~= step_report_views(
                outcome,
                old(self).script().steps[old(self).next_step()].failure_note,
            ),
            final(self).trace() =~= old(self).trace() + views_of(msgs@),
    {
        let idx = self.next_step;
        let mut msgs: Vec<WorkerMessage> = Vec::new();
        let success = match &outcome {
            StepOutcome::Ran { exit_success, .. } => *exit_success,
            StepOutcome::LaunchFailed { .. } => false,
        };
        match outcome {
            StepOutcome::Ran { stdout_lines, stderr_lines, exit_success, exit_code } => {
                let n_out = stdout_lines.len();
                for j in 0..n_out
                    invariant
                        views_of(msgs@) =~= kept_log_views(stdout_lines.deep_view().take(j as int)),
                        forall|k: int| 0 <= k < msgs@.len() ==> benign(#[trigger] msgs@[k]@),
                {
                    if !stdout_lines[j].as_str().is_empty() {
                        msgs.push(WorkerMessage::Log(stdout_lines[j].clone()));
                    }
                    proof {
                        let dv = stdout_lines.deep_view();
                        assert(dv.take(j + 1).drop_last() =~= dv.take(j as int));
                        assert(dv.take(j + 1).last() == dv[j as int]);
                        assert(views_of(msgs@) =~= kept_log_views(dv.take(j as int)) + (if dv[j
                            as int].len() > 0 {
                            seq![MsgView::Log(dv[j as int])]
                        } else {
                            Seq::<MsgView>::empty()
                        }));
                    }
                }
                proof {
                    assert(stdout_lines.deep_view().take(n_out as int) =~= stdout_lines.deep_view());
                }
                let n_err = stderr_lines.len();
                for j in 0..n_err
                    invariant
                        views_of(msgs@) =~= kept_log_views(stdout_lines.deep_view())
                            + kept_err_views(stderr_lines.deep_view().take(j as int)),
                        forall|k: int| 0 <= k < msgs@.len() ==> benign(#[trigger] msgs@[k]@),
                {
                    if !stderr_lines[j].as_str().is_empty() {
                        let t = String::from_str("ERROR: ").concat(stderr_lines[j].as_str());
                        msgs.push(WorkerMessage::Log(t));
                    }
                    proof {
                        let so = stdout_lines.deep_view();
                        let se = stderr_lines.deep_view();
                        assert(se.take(j + 1).drop_last() =~= se.take(j as int));
                        assert(se.take(j + 1).last() == se[j as int]);
                        assert(views_of(msgs@) =~= (kept_log_views(so) + kept_err_views(se.take(j
                            as int))) + (if se[j as int].len() > 0 {
                            seq![MsgView::Log("ERROR: "@ + se[j as int])]
                        } else {
                            Seq::<MsgView>::empty()
                        }));
                        assert(kept_err_views(se.take(j + 1)) =~= kept_err_views(se.take(j as int))
                            + (if se[j as int].len() > 0 {
                            seq![MsgView::Log("ERROR: "@ + se[j as int])]
                        } else {
                            Seq::<MsgView>::empty()
                        }));
                    }
                }
                proof {
                    assert(stderr_lines.deep_view().take(n_err as int) =~= stderr_lines.deep_view());
                }
                if exit_success {
                    msgs.push(
                        WorkerMessage::Log(String::from_str("✓ Comando completado exitosamente")),
                    );
                } else {
                    let mut t = String::from_str("✗ Comando falló con código: ");
                    match exit_code {
                        Some(code) => {
                            t.append("Some(");
                            t.append(crate::text::i32_to_dec(code).as_str());
                            t.append(")");
                            proof {
                                assert(t@ =~= "✗ Comando falló con código: "@ + code_text(
                                    Some(code),
                                ));
                            }
                        },
                        None => {
                            t.append("None");
                        },
                    }
                    msgs.push(WorkerMessage::Log(t));
                }
            },
            StepOutcome::LaunchFailed { reason } => {
                let t = String::from_str("Error al ejecutar comando: ").concat(reason.as_str());
                msgs.push(WorkerMessage::Error(t));
            },
        }
        if !success {
            if let Some(note) = &self.script.steps[idx].failure_note {
                msgs.push(WorkerMessage::Error(note.clone()));
            }
        }
        if !success && self.script.steps[idx].abort_on_failure {
            self.next_step = self.script.steps.len();
        } else {
            self.next_step = idx + 1;
        }
        self.all_ok = self.all_ok && (success || !self.script.steps[idx].required);
        proof {
            let vs = views_of(msgs@);
            assert forall|k: int| 0 <= k < vs.len() implies !(#[trigger] vs[k] is Completed) && !(
            vs[k] is StateChange) by {
                assert(vs[k] == msgs@[k]@);
                assert(benign(msgs@[k]@));
            }
            lemma_count_completed_zero(vs);
            lemma_last_state_none(vs);
            lemma_states_of_none(vs);
            lemma_count_completed_add(self.trace@, vs);
            lemma_last_state_add(self.trace@, vs);
            lemma_states_of_add(self.trace@, vs);
        }
        self.trace = Ghost(self.trace@ + views_of(msgs@));
        msgs
    }
}

/// The system-repair script: restore the component store, then check system
/// file integrity.  Best effort — a failed first step is reported and the
/// script continues — but both steps must succeed for the operation to end
/// `Completed`.
pub fn repair_script() -> (s: Script)
    ensures
        s.banner@ == "=== Iniciando Reparación del Sistema ==="@,
        s.steps.len() == 2,
        s.steps[0].program@ == "cmd"@,
        s.steps[0].args.deep_view() =~= seq![
            "/C"@,
            "DISM /Online /Cleanup-Image /RestoreHealth"@,
        ],
        s.steps[0].intro.deep_view() =~= seq![
            "Paso 1/2: Ejecutando DISM..."@,
            "Esto puede tomar entre 5-30 minutos dependiendo del sistema."@,
        ],
        s.steps[0].failure_note matches Some(n) && n@
            == "DISM falló. Continuando con SFC de todas formas..."@,
        s.steps[0].required,
        !s.steps[0].abort_on_failure,
        s.steps[1].program@ == "cmd"@,
        s.steps[1].args.deep_view() =~= seq!["/C"@, "sfc /scannow"@],
        s.steps[1].intro.deep_view() =~= seq![
            "Paso 2/2: Ejecutando SFC..."@,
            "Verificando integridad de archivos del sistema..."@,
        ],
        s.steps[1].failure_note is None,
        s.steps[1].required,
        !s.steps[1].abort_on_failure,
        s.success_log@ == "=== Reparación completada exitosamente ==="@,
        s.failure_error@ == "Reparación completada con errores"@,
{
    let mut args0: Vec<String> = Vec::new();
    args0.push(String::from_str("/C"));
    args0.push(String::from_str("DISM /Online /Cleanup-Image /RestoreHealth"));
    let mut intro0: Vec<String> = Vec::new();
    intro0.push(String::from_str("Paso 1/2: Ejecutando DISM..."));
    intro0.push(String::from_str("Esto puede tomar entre 5-30 minutos dependiendo del sistema."));
    let mut args1: Vec<String> = Vec::new();
    args1.push(String::from_str("/C"));
    args1.push(String::from_str("sfc /scannow"));
    let mut intro1: Vec<String> = Vec::new();
    intro1.push(String::from_str("Paso 2/2: Ejecutando SFC..."));
    intro1.push(String::from_str("Verificando integridad de archivos del sistema..."));
    let mut steps: Vec<Step> = Vec::new();
    steps.push(
        Step {
            program: String::from_str("cmd"),
            args: args0,
            intro: intro0,
            failure_note: Some(
                String::from_str("DISM falló. Continuando con SFC de todas formas..."),
            ),
            required: true,
            abort_on_failure: false,
        },
    );
    steps.push(
        Step {
            program: String::from_str("cmd"),
            args: args1,
            intro: intro1,
            failure_note: None,
            required: true,
            abort_on_failure: false,
        },
    );
    Script {
        banner: String::from_str("=== Iniciando Reparación del Sistema ==="),
        steps,
        success_log: String::from_str("=== Reparación completada exitosamente ==="),
        failure_error: String::from_str("Reparación completada con errores"),
    }
}

/// The update-cache cleanup script: one component-store cleanup pass.
pub fn windows_update_script() -> (s: Script)
    ensures
        s.banner@ == "=== Iniciando Limpieza de Windows Update ==="@,
        s.steps.len() == 1,
        s.steps[0].program@ == "cmd"@,
        s.steps[0].args.deep_view() =~= seq![
            "/C"@,
            "DISM /Online /Cleanup-Image /StartComponentCleanup /ResetBase"@,
        ],
        s.steps[0].intro.deep_view() =~= seq![
            "Ejecutando DISM para limpiar caché..."@,
            "Esta operación puede tardar varios minutos..."@,
        ],
        s.steps[0].failure_note is None,
        s.steps[0].required,
        !s.steps[0].abort_on_failure,
        s.success_log@ == "=== Limpieza completada exitosamente ==="@,
        s.failure_error@ == "Limpieza falló"@,
{
    let mut args0: Vec<String> = Vec::new();
    args0.push(String::from_str("/C"));
    args0.push(String::from_str("DISM /Online /Cleanup-Image /StartComponentCleanup /ResetBase"));
    let mut intro0: Vec<String> = Vec::new();
    intro0.push(String::from_str("Ejecutando DISM para limpiar caché..."));
    intro0.push(String::from_str("Esta operación puede tardar varios minutos..."));
    let mut steps: Vec<Step> = Vec::new();
    steps.push(
        Step {
            program: String::from_str("cmd"),
            args: args0,
            intro: intro0,
            failure_note: None,
            required: true,
            abort_on_failure: false,
        },
    );
    Script {
        banner: String::from_str("=== Iniciando Limpieza de Windows Update ==="),
        steps,
        success_log: String::from_str("=== Limpieza completada exitosamente ==="),
        failure_error: String::from_str("Limpieza falló"),
    }
}

/// A one-step script around an arbitrary command, framed with the given
/// description.
pub fn command_script(command: String, args: Vec<String>, description: String) -> (s: Script)
    ensures
        s.banner@ =~= "=== "@ + description@ + " ==="@,
        s.steps.len() == 1,
        s.steps[0].program@ == command@,
        s.steps[0].args.deep_view() =~= args.deep_view(),
        s.steps[0].intro.len() == 0,
        s.steps[0].failure_note is None,
        s.steps[0].required,
        !s.steps[0].abort_on_failure,
        s.success_log@ =~= "=== "@ + description@ + " completado ==="@,
        s.failure_error@ =~= description@ + " falló"@,
{
    let banner = String::from_str("=== ").concat(description.as_str()).concat(" ===");
    let success_log = String::from_str("=== ").concat(description.as_str()).concat(
        " completado ===",
    );
    let failure_error = description.concat(" falló");
    let mut steps: Vec<Step> = Vec::new();
    steps.push(
        Step {
            program: command,
            args,
            intro: Vec::new(),
            failure_note: None,
            required: true,
            abort_on_failure: false,
        },
    );
    Script { banner, steps, success_log, failure_error }
}

/// Exactly one `Completed` message is emitted per operation, and it is
/// always the last message of the worker's trace.
pub proof fn lemma_exactly_one_completed(w: OperationWorker)
    requires
        w.wf(),
        w.finished(),
    ensures
        count_completed(w.trace()) == 1,
        w.trace().len() > 0,
        w.trace().last() is Completed,
{
}

/// The states a worker announces are monotonic within one operation and
/// follow the lifecycle `Idle -> Starting -> Running -> {Completed | Failed}`.
pub proof fn lemma_states_follow_lifecycle(w: OperationWorker)
    requires
        w.wf(),
    ensures
        follows_lifecycle(states_of(w.trace())),
{
    let ss = states_of(w.trace());
    assert forall|i: int|
        0 <= i < ss.len() implies (if i == 0 {
        OperationState::Idle
    } else {
        ss[i - 1]
    }).can_step_to(#[trigger] ss[i]) by {
        if w.started() {
            assert(ss[0] == OperationState::Starting);
        }
    }
}

/// Once cancellation has been observed by the worker, the terminal state it
/// reports is always `Failed`, never `Completed`.
pub proof fn lemma_cancelled_ends_failed(w: OperationWorker)
    requires
        w.wf(),
        w.finished(),
        w.cancelled(),
    ensures
        last_state(w.trace()) == Some(OperationState::Failed),
{
}

} // verus!
