//! The concurrency-limited consumer loop and the policies around it, modelled
//! as a state machine. The hosting process races three events — a shutdown
//! signal, a task completion, a new delivery — and feeds whichever fires into
//! `consumer_step`; the step says what the next state is and which action to
//! perform (spawn a processing task, or resolve a delivery handle). Deliveries
//! and tasks are identified by the broker's delivery tag, so reconciliation
//! finds the right handle regardless of completion order.

use vstd::prelude::*;
use crate::dispatcher::{spec_dispatch_result, DispatchError, HttpOutcome};

verus! {

/// What one processing task concluded about its message: delivered (a 2xx
/// response in time), permanently undeliverable because the body failed to
/// decode, or a transient dispatch failure.
#[derive(Debug, Clone, Copy, PartialEq, Eq, Structural)]
pub enum TaskOutcome {
    Delivered,
    Malformed,
    DispatchFailed(DispatchError),
}

/// How one processing task ended: with an outcome, or by crashing before it
/// could produce one.
#[derive(Debug, Clone, Copy, PartialEq, Eq, Structural)]
pub enum TaskCompletion {
    Finished(TaskOutcome),
    Crashed,
}

/// What to do with a delivery handle once its task has ended: remove the
/// message permanently, hand it back for redelivery, or leave it to the
/// broker's own redelivery timeout.
#[derive(Debug, Clone, Copy, PartialEq, Eq, Structural)]
pub enum HandleAction {
    Acknowledge,
    RejectAndRequeue,
    LeaveUnresolved,
}

/// The reconciliation policy. A delivered message is removed from the queue;
/// a malformed body is also removed, since it will never become well-formed
/// and requeueing it would loop forever; a transient dispatch failure is
/// requeued for redelivery; a crashed task resolves nothing, leaving the
/// broker's redelivery timeout to recover the message.
pub open spec fn spec_reconcile(c: TaskCompletion) -> HandleAction {
    match c {
        TaskCompletion::Finished(TaskOutcome::Delivered) => HandleAction::Acknowledge,
        TaskCompletion::Finished(TaskOutcome::Malformed) => HandleAction::Acknowledge,
        TaskCompletion::Finished(TaskOutcome::DispatchFailed(_)) => HandleAction::RejectAndRequeue,
        TaskCompletion::Crashed => HandleAction::LeaveUnresolved,
    }
}

/// Maps a task's end to the action owed on its delivery handle, following
/// the reconciliation policy.
pub fn reconcile(c: &TaskCompletion) -> (a: HandleAction)
    ensures
        a == spec_reconcile(*c),
{
    match c {
        TaskCompletion::Finished(TaskOutcome::Delivered) => HandleAction::Acknowledge,
        TaskCompletion::Finished(TaskOutcome::Malformed) => HandleAction::Acknowledge,
        TaskCompletion::Finished(TaskOutcome::DispatchFailed(_)) => HandleAction::RejectAndRequeue,
        TaskCompletion::Crashed => HandleAction::LeaveUnresolved,
    }
}

/// Every task that ran to an outcome resolves its handle exactly one way:
/// acknowledge or reject-and-requeue, never both, never neither. Only a
/// crashed task leaves its handle unresolved.
pub proof fn lemma_completion_resolves_once(c: TaskCompletion)
    ensures
        c is Finished ==> (spec_reconcile(c) == HandleAction::Acknowledge) != (spec_reconcile(c)
            == HandleAction::RejectAndRequeue),
        c is Crashed <==> spec_reconcile(c) == HandleAction::LeaveUnresolved,
{
}

/// A malformed message body is acknowledged, never requeued.
pub proof fn lemma_malformed_is_acknowledged()
    ensures
        spec_reconcile(TaskCompletion::Finished(TaskOutcome::Malformed))
            == HandleAction::Acknowledge,
{
}

/// How far one processing task got with its message: the body failed to
/// decode, so nothing was sent; or a dispatch was attempted and the
/// transport reported this outcome.
#[derive(Debug, Clone, Copy, PartialEq, Eq, Structural)]
pub enum ProcessingEvent {
    BodyMalformed,
    Dispatched(HttpOutcome),
}

/// The outcome a processing task reports for what happened to its message:
/// an undecodable body is permanently undeliverable and never raises past
/// the loop; a dispatched message succeeded exactly when the dispatch did.
pub fn process_outcome(e: &ProcessingEvent) -> (t: TaskOutcome)
    ensures
        *e is BodyMalformed ==> t == TaskOutcome::Malformed,
        *e matches ProcessingEvent::Dispatched(h) ==> t == match spec_dispatch_result(h) {
            Ok(_) => TaskOutcome::Delivered,
            Err(err) => TaskOutcome::DispatchFailed(err),
        },
{
    match e {
        ProcessingEvent::BodyMalformed => TaskOutcome::Malformed,
        ProcessingEvent::Dispatched(h) => match crate::dispatcher::dispatch_result(h) {
            Ok(_) => TaskOutcome::Delivered,
            Err(err) => TaskOutcome::DispatchFailed(err),
        },
    }
}

/// Why the loop stopped taking new deliveries: a shutdown request, or the
/// subscription ending or breaking. The latter two propagate as transport
/// errors once the in-flight work has drained.
#[derive(Debug, Clone, Copy, PartialEq, Eq, Structural)]
pub enum DrainReason {
    ShutdownRequested,
    StreamEnded,
    StreamBroken,
}

/// The subscription stream failed to yield another delivery: it ended, or
/// broke mid-run. Either way the session is over and the supervisor decides
/// whether to restart.
#[derive(Debug, Clone, Copy, PartialEq, Eq, Structural)]
pub enum TransportError {
    StreamEnded,
    StreamBroken,
}

/// Whether the loop is still accepting new deliveries or only draining the
/// tasks already in flight.
#[derive(Debug, Clone, Copy, PartialEq, Eq, Structural)]
pub enum Phase {
    Running,
    Draining(DrainReason),
}

/// The consumer loop's state: the concurrency cap, how many processing tasks
/// are in flight, and whether new deliveries are still accepted.
#[derive(Debug, Clone, Copy, PartialEq, Eq, Structural)]
pub struct LoopState {
    pub max_concurrent: usize,
    pub in_flight: usize,
    pub phase: Phase,
}

impl LoopState {
    /// The loop's invariant: in-flight tasks never exceed the cap.
    pub open spec fn wf(self) -> bool {
        self.in_flight <= self.max_concurrent
    }

    /// A new delivery may be taken only while running and strictly below the
    /// concurrency cap.
    pub open spec fn accepting(self) -> bool {
        self.phase == Phase::Running && self.in_flight < self.max_concurrent
    }

    /// Which events the hosting loop may feed into this state: it polls for
    /// a delivery or for the stream's end only while accepting, and reports a
    /// completion only while something is in flight.
    pub open spec fn admits(self, e: LoopEvent) -> bool {
        match e {
            LoopEvent::DeliveryReady(_) => self.accepting(),
            LoopEvent::StreamEnded => self.accepting(),
            LoopEvent::StreamBroken => self.accepting(),
            LoopEvent::TaskCompleted(_, _) => self.in_flight > 0,
            LoopEvent::ShutdownObserved => true,
        }
    }

    /// Whether a new delivery may be taken now: the hosting loop polls the
    /// subscription only while this holds.
    pub fn can_accept(&self) -> (b: bool)
        ensures
            b == self.accepting(),
    {
        matches!(self.phase, Phase::Running) && self.in_flight < self.max_concurrent
    }

    /// A fresh loop: nothing in flight, accepting deliveries up to the cap.
    pub fn new(max_concurrent: usize) -> (s: LoopState)
        ensures
            s == (LoopState { max_concurrent, in_flight: 0, phase: Phase::Running }),
            s.wf(),
    {
        LoopState { max_concurrent, in_flight: 0, phase: Phase::Running }
    }
}

/// One event the hosting loop observed: the broadcast shutdown signal, the
/// end of a task (identified by its delivery tag), a new delivery, or the
/// subscription ending or breaking.
#[derive(Debug, Clone, Copy, PartialEq, Eq, Structural)]
pub enum LoopEvent {
    ShutdownObserved,
    TaskCompleted(u64, TaskCompletion),
    DeliveryReady(u64),
    StreamEnded,
    StreamBroken,
}

/// What the hosting loop must do after a step: spawn a processing task for
/// the tagged delivery, or resolve the tagged delivery handle.
#[derive(Debug, Clone, Copy, PartialEq, Eq, Structural)]
pub enum LoopAction {
    SpawnTask(u64),
    Resolve(u64, HandleAction),
}

/// What one step concludes: carry on in the given state, perhaps performing
/// an action; or the loop is finished, perhaps with one last handle to
/// resolve, returning cleanly or with the transport error that ended the
/// session.
#[derive(Debug, Clone, Copy, PartialEq, Eq)]
pub enum StepResult {
    Continue(LoopState, Option<LoopAction>),
    Finished(Option<LoopAction>, Result<(), TransportError>),
}

/// The error the loop propagates for the drain reason it finishes under: a
/// shutdown drain returns cleanly, an ended or broken stream is a transport
/// error.
pub open spec fn spec_exit_result(r: DrainReason) -> Result<(), TransportError> {
    match r {
        DrainReason::ShutdownRequested => Ok(()),
        DrainReason::StreamEnded => Err(TransportError::StreamEnded),
        DrainReason::StreamBroken => Err(TransportError::StreamBroken),
    }
}

/// The consumer loop's transition relation. Shutdown and stream events move
/// the loop into a draining phase (or finish it at once when nothing is in
/// flight); a delivery spawns a task while accepting; a completion resolves
/// its handle per the reconciliation policy and finishes the loop when it
/// was the last task of a drain.
pub open spec fn spec_step(s: LoopState, e: LoopEvent) -> StepResult {
    match e {
        LoopEvent::ShutdownObserved => match s.phase {
            Phase::Running => if s.in_flight == 0 {
                StepResult::Finished(None, Ok(()))
            } else {
                StepResult::Continue(
                    LoopState { phase: Phase::Draining(DrainReason::ShutdownRequested), ..s },
                    None,
                )
            },
            // The broadcast is idempotent: a repeated signal during a drain
            // changes nothing, and the supervisor already checks the signal
            // before restarting after a failure.
            Phase::Draining(_) => StepResult::Continue(s, None),
        },
        LoopEvent::DeliveryReady(tag) => StepResult::Continue(
            LoopState { in_flight: (s.in_flight + 1) as usize, ..s },
            Some(LoopAction::SpawnTask(tag)),
        ),
        LoopEvent::StreamEnded => if s.in_flight == 0 {
            StepResult::Finished(None, Err(TransportError::StreamEnded))
        } else {
            StepResult::Continue(
                LoopState { phase: Phase::Draining(DrainReason::StreamEnded), ..s },
                None,
            )
        },
        LoopEvent::StreamBroken => if s.in_flight == 0 {
            StepResult::Finished(None, Err(TransportError::StreamBroken))
        } else {
            StepResult::Continue(
                LoopState { phase: Phase::Draining(DrainReason::StreamBroken), ..s },
                None,
            )
        },
        LoopEvent::TaskCompleted(tag, c) => {
            let action = LoopAction::Resolve(tag, spec_reconcile(c));
            let remaining = (s.in_flight - 1) as usize;
            match s.phase {
                Phase::Running => StepResult::Continue(
                    LoopState { in_flight: remaining, ..s },
                    Some(action),
                ),
                Phase::Draining(r) => if remaining == 0 {
                    StepResult::Finished(Some(action), spec_exit_result(r))
                } else {
                    StepResult::Continue(LoopState { in_flight: remaining, ..s }, Some(action))
                },
            }
        },
    }
}

/// Performs one scheduling step of the consumer loop.
pub fn consumer_step(s: &LoopState, e: &LoopEvent) -> (r: StepResult)
    requires
        s.wf(),
        s.admits(*e),
    ensures
        r == spec_step(*s, *e),
{
    match e {
        LoopEvent::ShutdownObserved => match s.phase {
            Phase::Running => {
                if s.in_flight == 0 {
                    StepResult::Finished(None, Ok(()))
                } else {
                    StepResult::Continue(
                        LoopState {
                            phase: Phase::Draining(DrainReason::ShutdownRequested),
                            ..*s
                        },
                        None,
                    )
                }
            },
            Phase::Draining(_) => StepResult::Continue(*s, None),
        },
        LoopEvent::DeliveryReady(tag) => StepResult::Continue(
            LoopState { in_flight: s.in_flight + 1, ..*s },
            Some(LoopAction::SpawnTask(*tag)),
        ),
        LoopEvent::StreamEnded => {
            if s.in_flight == 0 {
                StepResult::Finished(None, Err(TransportError::StreamEnded))
            } else {
                StepResult::Continue(
                    LoopState { phase: Phase::Draining(DrainReason::StreamEnded), ..*s },
                    None,
                )
            }
        },
        LoopEvent::StreamBroken => {
            if s.in_flight == 0 {
                StepResult::Finished(None, Err(TransportError::StreamBroken))
            } else {
                StepResult::Continue(
                    LoopState { phase: Phase::Draining(DrainReason::StreamBroken), ..*s },
                    None,
                )
            }
        },
        LoopEvent::TaskCompleted(tag, c) => {
            let action = LoopAction::Resolve(*tag, reconcile(c));
            let remaining = s.in_flight - 1;
            match s.phase {
                Phase::Running => StepResult::Continue(
                    LoopState { in_flight: remaining, ..*s },
                    Some(action),
                ),
                Phase::Draining(r) => {
                    if remaining == 0 {
                        let result = match r {
                            DrainReason::ShutdownRequested => Ok(()),
                            DrainReason::StreamEnded => Err(TransportError::StreamEnded),
                            DrainReason::StreamBroken => Err(TransportError::StreamBroken),
                        };
                        StepResult::Finished(Some(action), result)
                    } else {
                        StepResult::Continue(LoopState { in_flight: remaining, ..*s }, Some(action))
                    }
                },
            }
        },
    }
}

/// The concurrency bound is an invariant: every admissible step taken from a
/// well-formed state leaves a well-formed state with the same cap, so the
/// number of in-flight tasks never exceeds `max_concurrent`.
pub proof fn lemma_step_preserves_bound(s: LoopState, e: LoopEvent)
    requires
        s.wf(),
        s.admits(e),
    ensures
        spec_step(s, e) matches StepResult::Continue(next, _) ==> next.wf() && next.max_concurrent
            == s.max_concurrent,
{
}

/// Once the loop has stopped accepting — by shutdown or because the stream
/// is gone — no step ever spawns a new task: new work starts only from the
/// running phase, below the cap.
pub proof fn lemma_no_spawn_while_draining(s: LoopState, e: LoopEvent)
    requires
        s.wf(),
        s.admits(e),
        s.phase is Draining,
    ensures
        !(spec_step(s, e) matches StepResult::Continue(_, Some(a)) && a is SpawnTask),
        !(spec_step(s, e) matches StepResult::Finished(Some(a), _) && a is SpawnTask),
        spec_step(s, e) matches StepResult::Continue(next, _) ==> next.phase == s.phase,
{
}

/// A completed task is reconciled exactly once, on its own delivery tag, per
/// the reconciliation policy — and no other event resolves any handle.
pub proof fn lemma_resolutions_come_from_completions(s: LoopState, e: LoopEvent)
    requires
        s.wf(),
        s.admits(e),
    ensures
        e matches LoopEvent::TaskCompleted(tag, c) ==> ({
            let a = Some(LoopAction::Resolve(tag, spec_reconcile(c)));
            spec_step(s, e) == StepResult::Continue(
                LoopState { in_flight: (s.in_flight - 1) as usize, ..s },
                a,
            ) || spec_step(s, e) == StepResult::Finished(a, spec_exit_result(s.phase->Draining_0))
        }),
        !(e is TaskCompleted) ==> !(spec_step(s, e) matches StepResult::Continue(_, Some(a))
            && a is Resolve) && !(spec_step(s, e) matches StepResult::Finished(Some(a), _)
            && a is Resolve),
{
}

/// Folds a sequence of events into the loop, step by step, for as long as
/// the loop continues; a run that never finishes ends in the state it
/// reached.
pub open spec fn spec_run(s: LoopState, es: Seq<LoopEvent>) -> StepResult
    decreases es.len(),
{
    if es.len() == 0 {
        StepResult::Continue(s, None)
    } else {
        match spec_step(s, es[0]) {
            StepResult::Continue(next, _) => spec_run(next, es.drop_first()),
            r => r,
        }
    }
}

/// An event sequence the hosting loop can actually observe: each event is
/// admitted by the state it meets, and the sequence stops exactly when the
/// loop finishes.
pub open spec fn admissible_run(s: LoopState, es: Seq<LoopEvent>) -> bool
    decreases es.len(),
{
    es.len() == 0 || (s.admits(es[0]) && match spec_step(s, es[0]) {
        StepResult::Continue(next, _) => admissible_run(next, es.drop_first()),
        StepResult::Finished(_, _) => es.len() == 1,
    })
}

/// Every state a run passes through satisfies the loop invariant.
pub open spec fn run_states_wf(s: LoopState, es: Seq<LoopEvent>) -> bool
    decreases es.len(),
{
    es.len() == 0 || match spec_step(s, es[0]) {
        StepResult::Continue(next, _) => next.wf() && run_states_wf(next, es.drop_first()),
        StepResult::Finished(_, _) => true,
    }
}

/// The concurrency cap holds throughout: over any admissible run from a
/// well-formed state, every state the loop passes through keeps its in-flight
/// count at or below `max_concurrent`.
pub proof fn lemma_bound_never_exceeded(s: LoopState, es: Seq<LoopEvent>)
    requires
        s.wf(),
        admissible_run(s, es),
    ensures
        run_states_wf(s, es),
    decreases es.len(),
{
    if es.len() > 0 {
        lemma_step_preserves_bound(s, es[0]);
        match spec_step(s, es[0]) {
            StepResult::Continue(next, _) => {
                lemma_bound_never_exceeded(next, es.drop_first());
            },
            StepResult::Finished(_, _) => {},
        }
    }
}

/// The actions a run emits, in order.
pub open spec fn spec_run_actions(s: LoopState, es: Seq<LoopEvent>) -> Seq<LoopAction>
    decreases es.len(),
{
    if es.len() == 0 {
        Seq::empty()
    } else {
        match spec_step(s, es[0]) {
            StepResult::Continue(next, a) => spec_opt_action(a) + spec_run_actions(
                next,
                es.drop_first(),
            ),
            StepResult::Finished(a, _) => spec_opt_action(a),
        }
    }
}

/// An optional action as a sequence of zero or one actions.
pub open spec fn spec_opt_action(a: Option<LoopAction>) -> Seq<LoopAction> {
    match a {
        Some(x) => seq![x],
        None => Seq::empty(),
    }
}

/// How many of these actions resolve the handle with this tag.
pub open spec fn count_resolutions(actions: Seq<LoopAction>, tag: u64) -> nat
    decreases actions.len(),
{
    if actions.len() == 0 {
        0
    } else {
        (match actions[0] {
            LoopAction::Resolve(t, _) => if t == tag {
                1nat
            } else {
                0
            },
            _ => 0,
        }) + count_resolutions(actions.drop_first(), tag)
    }
}

/// How many of these events report the completion of the task with this tag.
pub open spec fn count_completions(es: Seq<LoopEvent>, tag: u64) -> nat
    decreases es.len(),
{
    if es.len() == 0 {
        0
    } else {
        (match es[0] {
            LoopEvent::TaskCompleted(t, _) => if t == tag {
                1nat
            } else {
                0
            },
            _ => 0,
        }) + count_completions(es.drop_first(), tag)
    }
}

proof fn lemma_count_resolutions_cons(x: LoopAction, rest: Seq<LoopAction>, tag: u64)
    ensures
        count_resolutions(seq![x] + rest, tag) == (match x {
            LoopAction::Resolve(t, _) => if t == tag {
                1nat
            } else {
                0
            },
            _ => 0,
        }) + count_resolutions(rest, tag),
{
    assert((seq![x] + rest).drop_first() =~= rest);
    assert((seq![x] + rest)[0] == x);
}

/// Over any admissible run, the handle of each task is resolved exactly as
/// often as that task completes: once per completion, by the reconciliation
/// policy, and never from any other event — never both resolutions, never
/// none.
pub proof fn lemma_each_completion_resolved_exactly_once(
    s: LoopState,
    es: Seq<LoopEvent>,
    tag: u64,
)
    requires
        s.wf(),
        admissible_run(s, es),
    ensures
        count_resolutions(spec_run_actions(s, es), tag) == count_completions(es, tag),
    decreases es.len(),
{
    if es.len() > 0 {
        match spec_step(s, es[0]) {
            StepResult::Continue(next, a) => {
                lemma_step_preserves_bound(s, es[0]);
                lemma_each_completion_resolved_exactly_once(next, es.drop_first(), tag);
                match a {
                    Some(x) => {
                        lemma_count_resolutions_cons(
                            x,
                            spec_run_actions(next, es.drop_first()),
                            tag,
                        );
                    },
                    None => {
                        assert(Seq::<LoopAction>::empty() + spec_run_actions(
                            next,
                            es.drop_first(),
                        ) =~= spec_run_actions(next, es.drop_first()));
                    },
                }
            },
            StepResult::Finished(a, _) => {
                match a {
                    Some(x) => {
                        lemma_count_resolutions_cons(x, Seq::empty(), tag);
                        assert(seq![x] + Seq::<LoopAction>::empty() =~= seq![x]);
                        assert(spec_run_actions(s, es) =~= seq![x]);
                    },
                    None => {},
                }
            },
        }
    }
}

/// Draining terminates cleanly: when shutdown has been observed with tasks
/// still in flight, the loop accepts nothing further, and once each of those
/// tasks has completed it finishes without error, resolving the last task's
/// handle on the way out.
pub proof fn lemma_shutdown_drains_to_clean_exit(s: LoopState, es: Seq<LoopEvent>)
    requires
        s.wf(),
        s.phase == Phase::Draining(DrainReason::ShutdownRequested),
        s.in_flight > 0,
        es.len() == s.in_flight,
        forall|i: int| 0 <= i < es.len() ==> #[trigger] es[i] is TaskCompleted,
    ensures
        spec_run(s, es) matches StepResult::Finished(a, res) && res == Ok::<(), TransportError>(())
            && a == Some(
            LoopAction::Resolve(es.last()->TaskCompleted_0, spec_reconcile(es.last()->TaskCompleted_1)),
        ),
    decreases es.len(),
{
    if es.len() > 1 {
        let next = LoopState { in_flight: (s.in_flight - 1) as usize, ..s };
        lemma_shutdown_drains_to_clean_exit(next, es.drop_first());
    }
}

} // verus!
