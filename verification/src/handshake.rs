//! Resumable handshakes.
//!
//! A handshake over a non-blocking socket may stop at any step and report
//! that it would block. The caller then owns a continuation and must wait for
//! readiness before it resumes. [`HandshakeProgress`] records where one
//! handshake stands and tells the caller what to do next. The secure channel
//! and the protocol upgrade are both driven this way.

use vstd::prelude::*;

verus! {

/// What one step of a handshake reported.
#[derive(Debug)]
pub enum StepOutcome<M, C, E> {
    /// The handshake is complete and yields the channel.
    Ready(C),
    /// The transport was not ready; the continuation resumes the handshake.
    WouldBlock(M),
    /// The handshake failed for a reason other than readiness.
    Failure(E),
}

/// Where one handshake stands.
#[derive(Debug)]
pub enum HandshakeProgress<M, C, E> {
    /// No step has been made yet.
    NotStarted,
    /// The last step would have blocked and left this continuation.
    InProgress(M),
    /// The handshake finished with this channel.
    Completed(C),
    /// The handshake failed. It is not tried again.
    Failed(E),
}

/// What the caller of a handshake does next.
#[derive(Debug)]
pub enum Directive<M, C, E> {
    /// Make the first step.
    Attempt,
    /// Wait once for readiness, then resume the handshake on the
    /// continuation. Where the wait itself fails, the handshake is over:
    /// see [`HandshakeProgress::wait_failed`].
    WaitThenResume(M),
    /// Stop: the handshake is over with this result.
    Finished(Result<C, E>),
}

impl<M, C, E> Directive<M, C, E> {
    /// What a caller does who follows the directive: one step at the start,
    /// a wait and then a step after a "would block", nothing at the end.
    pub open spec fn operations(self) -> Seq<Operation> {
        match self {
            Directive::Attempt => seq![Operation::Step],
            Directive::WaitThenResume(_) => seq![Operation::Wait, Operation::Step],
            Directive::Finished(_) => Seq::empty(),
        }
    }
}

/// One thing that the caller of a handshake does.
#[derive(Clone, Copy, Debug, PartialEq, Eq, Structural)]
pub enum Operation {
    /// A step of the handshake: the first one, or one on a continuation.
    Step,
    /// A blocking wait on the poller.
    Wait,
}

impl<M, C, E> HandshakeProgress<M, C, E> {
    /// A handshake is over once it completed or failed.
    pub open spec fn is_terminal(self) -> bool {
        self is Completed || self is Failed
    }

    /// The progress after a step that reported `outcome`.
    pub open spec fn after(outcome: StepOutcome<M, C, E>) -> Self {
        match outcome {
            StepOutcome::Ready(channel) => HandshakeProgress::Completed(channel),
            StepOutcome::WouldBlock(continuation) => HandshakeProgress::InProgress(continuation),
            StepOutcome::Failure(error) => HandshakeProgress::Failed(error),
        }
    }

    /// What the caller does next.
    pub open spec fn directed(self) -> Directive<M, C, E> {
        match self {
            HandshakeProgress::NotStarted => Directive::Attempt,
            HandshakeProgress::InProgress(continuation) => Directive::WaitThenResume(continuation),
            HandshakeProgress::Completed(channel) => Directive::Finished(Ok(channel)),
            HandshakeProgress::Failed(error) => Directive::Finished(Err(error)),
        }
    }

    /// What the caller does before the next report.
    pub open spec fn operations(self) -> Seq<Operation> {
        self.directed().operations()
    }

    /// Records what the latest step reported.
    pub fn advance(outcome: StepOutcome<M, C, E>) -> (next: Self)
        ensures
            next == Self::after(outcome),
    {
        match outcome {
            StepOutcome::Ready(channel) => HandshakeProgress::Completed(channel),
            StepOutcome::WouldBlock(continuation) => HandshakeProgress::InProgress(continuation),
            StepOutcome::Failure(error) => HandshakeProgress::Failed(error),
        }
    }

    /// The wait for readiness failed: the handshake is over with `error`, and
    /// the continuation is not resumed.
    pub fn wait_failed(error: E) -> (next: Self)
        ensures
            next == HandshakeProgress::<M, C, E>::Failed(error),
    {
        HandshakeProgress::Failed(error)
    }

    /// Tells the caller what to do next, and hands over what it needs for
    /// that: the continuation to resume, or the result.
    pub fn directive(self) -> (r: Directive<M, C, E>)
        ensures
            r == self.directed(),
    {
        match self {
            HandshakeProgress::NotStarted => Directive::Attempt,
            HandshakeProgress::InProgress(continuation) => Directive::WaitThenResume(continuation),
            HandshakeProgress::Completed(channel) => Directive::Finished(Ok(channel)),
            HandshakeProgress::Failed(error) => Directive::Finished(Err(error)),
        }
    }
}

/// A handshake that was driven against a script of reports.
pub struct Driven<M, C, E> {
    /// Everything the caller did, in order.
    pub operations: Seq<Operation>,
    /// Where the handshake stands at the end.
    pub progress: HandshakeProgress<M, C, E>,
}

/// Drives a handshake from `progress`: the caller does what the progress
/// directs and the step then reports the next of `outcomes`, until the
/// handshake is over or the reports run out.
pub open spec fn drive<M, C, E>(
    progress: HandshakeProgress<M, C, E>,
    outcomes: Seq<StepOutcome<M, C, E>>,
) -> Driven<M, C, E>
    decreases outcomes.len(),
{
    if progress.is_terminal() || outcomes.len() == 0 {
        Driven { operations: Seq::empty(), progress }
    } else {
        let rest = drive(HandshakeProgress::after(outcomes[0]), outcomes.drop_first());
        Driven { operations: progress.operations() + rest.operations, progress: rest.progress }
    }
}

/// How often `operation` occurs in `operations`.
pub open spec fn occurrences(operations: Seq<Operation>, operation: Operation) -> nat
    decreases operations.len(),
{
    if operations.len() == 0 {
        0
    } else if operations[0] == operation {
        1 + occurrences(operations.drop_first(), operation)
    } else {
        occurrences(operations.drop_first(), operation)
    }
}

/// How many steps a handshake takes against a script of reports: one for
/// each report up to the first that is not "would block".
pub open spec fn steps_taken<M, C, E>(outcomes: Seq<StepOutcome<M, C, E>>) -> nat
    decreases outcomes.len(),
{
    if outcomes.len() == 0 {
        0
    } else if outcomes[0] is WouldBlock {
        1 + steps_taken(outcomes.drop_first())
    } else {
        1
    }
}

proof fn occurrences_add(a: Seq<Operation>, b: Seq<Operation>, operation: Operation)
    ensures
        occurrences(a + b, operation) == occurrences(a, operation) + occurrences(b, operation),
    decreases a.len(),
{
    if a.len() == 0 {
        assert(a + b =~= b);
    } else {
        assert((a + b).drop_first() =~= a.drop_first() + b);
        occurrences_add(a.drop_first(), b, operation);
    }
}

/// The shape of every run: what the caller does from a handshake that is not
/// over, against any script of reports.
///
/// A run from the start is a step, then a wait and a step for every further
/// report; a run that resumes begins with the wait. So steps and waits
/// alternate, and with `skew` 0 from the start and 1 when resuming, the
/// operation at `i` is a step exactly where `i + skew` is even.
proof fn run_shape<M, C, E>(
    progress: HandshakeProgress<M, C, E>,
    outcomes: Seq<StepOutcome<M, C, E>>,
)
    requires
        !progress.is_terminal(),
    ensures
        ({
            let run = drive(progress, outcomes).operations;
            let skew: int = if progress is NotStarted { 0 } else { 1 };
            let steps = steps_taken(outcomes);
            &&& occurrences(run, Operation::Step) == steps
            &&& occurrences(run, Operation::Wait) == if steps == 0 { 0 } else { steps - 1 + skew }
            &&& run.len() == if steps == 0 { 0 } else { 2 * steps - 1 + skew }
            &&& forall|i: int|
                0 <= i < run.len() ==> (#[trigger] run[i] == Operation::Step <==> (i + skew) % 2
                    == 0)
        }),
    decreases outcomes.len(),
{
    if outcomes.len() > 0 {
        let next = HandshakeProgress::after(outcomes[0]);
        let rest = drive(next, outcomes.drop_first()).operations;
        let first = progress.operations();
        let run = drive(progress, outcomes).operations;
        assert(run == first + rest);
        occurrences_add(first, rest, Operation::Step);
        occurrences_add(first, rest, Operation::Wait);
        assert(occurrences(first, Operation::Step) == 1 && occurrences(first, Operation::Wait) == (
        if progress is NotStarted { 0nat } else { 1nat })) by {
            reveal_with_fuel(occurrences, 3);
        }
        if outcomes[0] is WouldBlock {
            run_shape(next, outcomes.drop_first());
        } else {
            assert(rest =~= Seq::<Operation>::empty());
        }
    }
}

/// Whether the operation at `i` has a wait right before it.
pub open spec fn waited_before(operations: Seq<Operation>, i: int) -> bool {
    0 < i < operations.len() && operations[i - 1] == Operation::Wait
}

/// Whether the operation at `i` has a step right before it.
pub open spec fn stepped_before(operations: Seq<Operation>, i: int) -> bool {
    0 < i < operations.len() && operations[i - 1] == Operation::Step
}

/// Whether no step but the first is made without a wait right before it, and
/// no wait is made but right after a step.
pub open spec fn well_paired(operations: Seq<Operation>) -> bool {
    &&& forall|i: int|
        0 < i < operations.len() && operations[i] == Operation::Step ==> #[trigger] waited_before(
            operations,
            i,
        )
    &&& forall|i: int|
        0 <= i < operations.len() && operations[i] == Operation::Wait ==> #[trigger] stepped_before(
            operations,
            i,
        )
}

/// Against any script of reports, the caller never makes two steps in a row
/// and never waits twice in a row: every step but the first follows one
/// wait, and every wait follows a step. There is one step for each report
/// up to the first that is not "would block", and one wait fewer.
pub proof fn steps_and_waits_alternate<M, C, E>(outcomes: Seq<StepOutcome<M, C, E>>)
    ensures
        ({
            let run = drive(HandshakeProgress::<M, C, E>::NotStarted, outcomes).operations;
            &&& well_paired(run)
            &&& occurrences(run, Operation::Step) == steps_taken(outcomes)
            &&& outcomes.len() > 0 ==> occurrences(run, Operation::Wait) + 1 == steps_taken(
                outcomes,
            )
            &&& outcomes.len() == 0 ==> run.len() == 0
        }),
{
    run_shape(HandshakeProgress::<M, C, E>::NotStarted, outcomes);
    let run = drive(HandshakeProgress::<M, C, E>::NotStarted, outcomes).operations;
    assert forall|i: int| 0 < i < run.len() && run[i] == Operation::Step implies #[trigger] waited_before(
        run,
        i,
    ) by {
        assert(!(run[i - 1] == Operation::Step));
    }
    assert forall|i: int| 0 <= i < run.len() && run[i] == Operation::Wait implies #[trigger] stepped_before(
        run,
        i,
    ) by {
        assert(i != 0);
        assert(run[i - 1] == Operation::Step);
    }
}

/// Whether the first `count` reports are all "would block".
pub open spec fn blocks_first<M, C, E>(outcomes: Seq<StepOutcome<M, C, E>>, count: nat) -> bool {
    forall|i: int| 0 <= i < count ==> #[trigger] outcomes[i] is WouldBlock
}

proof fn steps_of_blocked_script<M, C, E>(outcomes: Seq<StepOutcome<M, C, E>>, k: nat)
    requires
        outcomes.len() == k + 1,
        blocks_first(outcomes, k),
        !(outcomes[k as int] is WouldBlock),
    ensures
        steps_taken(outcomes) == k + 1,
        drive(HandshakeProgress::after(outcomes[0]), outcomes.drop_first()).progress
            == HandshakeProgress::after(outcomes[k as int]),
    decreases k,
{
    let rest = outcomes.drop_first();
    if k > 0 {
        assert(outcomes[0] is WouldBlock);
        assert forall|i: int| 0 <= i < k - 1 implies #[trigger] rest[i] is WouldBlock by {
            assert(outcomes[i + 1] is WouldBlock);
        }
        steps_of_blocked_script(rest, (k - 1) as nat);
        assert(rest[k - 1] == outcomes[k as int]);
    } else {
        assert(HandshakeProgress::after(outcomes[0]).is_terminal());
    }
}

/// A handshake whose steps would block exactly `k` times and then succeed
/// completes with the channel of the last report after `k` waits and `k + 1`
/// steps, and no step but the first is made without a wait right before it.
pub proof fn completes_after_one_wait_per_block<M, C, E>(
    outcomes: Seq<StepOutcome<M, C, E>>,
    k: nat,
    channel: C,
)
    requires
        outcomes.len() == k + 1,
        blocks_first(outcomes, k),
        outcomes[k as int] == StepOutcome::<M, C, E>::Ready(channel),
    ensures
        ({
            let driven = drive(HandshakeProgress::<M, C, E>::NotStarted, outcomes);
            &&& driven.progress == HandshakeProgress::<M, C, E>::Completed(channel)
            &&& occurrences(driven.operations, Operation::Wait) == k
            &&& occurrences(driven.operations, Operation::Wait) <= k + 1
            &&& occurrences(driven.operations, Operation::Step) == k + 1
            &&& well_paired(driven.operations)
        }),
{
    steps_of_blocked_script(outcomes, k);
    steps_and_waits_alternate(outcomes);
}

/// A failure that is not "would block" ends the handshake at once: after
/// `k` reports of "would block" and one failure the handshake has failed with
/// that error, and the caller has waited `k` times and not once more.
pub proof fn failure_is_not_retried<M, C, E>(outcomes: Seq<StepOutcome<M, C, E>>, k: nat, error: E)
    requires
        outcomes.len() == k + 1,
        blocks_first(outcomes, k),
        outcomes[k as int] == StepOutcome::<M, C, E>::Failure(error),
    ensures
        ({
            let driven = drive(HandshakeProgress::<M, C, E>::NotStarted, outcomes);
            &&& driven.progress == HandshakeProgress::<M, C, E>::Failed(error)
            &&& occurrences(driven.operations, Operation::Wait) == k
            &&& occurrences(driven.operations, Operation::Step) == k + 1
        }),
{
    steps_of_blocked_script(outcomes, k);
    steps_and_waits_alternate(outcomes);
}

} // verus!
