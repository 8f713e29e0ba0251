//! Fixed-interval retry polling: invoke an operation until it reports ready,
//! a fatal fault, or the attempt budget runs out.
//!
//! The operation itself is performed outside the library (it is a network
//! call or a storage read); the library owns every decision: whether to
//! retry, how long to wait, and what the overall run returns. `RetryPoller`
//! is the step-by-step state machine a caller drives with one observed
//! outcome per attempt, and `poll_script` is the whole run over a
//! pre-observed sequence of outcomes.

use vstd::prelude::*;

verus! {

/// What one invocation of the polled operation reported.
#[derive(Clone, Debug, PartialEq, Eq)]
pub enum PollOutcome<T, E> {
    /// The operation finished and produced its value.
    Ready(T),
    /// The operation has not finished; retry after the interval.
    NotYetReady,
    /// The operation failed for good; retrying cannot help.
    Fatal(E),
}

/// Why a polling run ended without a value.
#[derive(Clone, Copy, Debug, PartialEq, Eq)]
pub enum PollError<E> {
    /// The attempt budget was exhausted before the operation was ready.
    Timeout,
    /// The operation reported a fault that retrying cannot repair.
    Fatal(E),
}

/// What the poller asks its driver to do after one attempt.
#[derive(Debug, PartialEq, Eq)]
pub enum PollDecision<T, E> {
    /// The run is over; hand this to the caller.
    Done(Result<T, PollError<E>>),
    /// Suspend for this many interval units, then invoke the operation again.
    WaitThenRetry(u64),
}

/// The result of a whole polling run over the outcomes the operation would
/// report on successive attempts, with at most `budget` attempts made.
pub open spec fn spec_poll<T, E>(outcomes: Seq<PollOutcome<T, E>>, budget: nat) -> Result<
    T,
    PollError<E>,
>
    decreases budget,
{
    if budget == 0 || outcomes.len() == 0 {
        Err(PollError::Timeout)
    } else {
        match outcomes[0] {
            PollOutcome::Ready(v) => Ok(v),
            PollOutcome::Fatal(e) => Err(PollError::Fatal(e)),
            PollOutcome::NotYetReady => spec_poll(outcomes.skip(1), (budget - 1) as nat),
        }
    }
}

/// How many times a run over these outcomes invokes the operation.
pub open spec fn spec_poll_invocations<T, E>(
    outcomes: Seq<PollOutcome<T, E>>,
    budget: nat,
) -> nat
    decreases budget,
{
    if budget == 0 || outcomes.len() == 0 {
        0
    } else {
        match outcomes[0] {
            PollOutcome::NotYetReady => 1 + spec_poll_invocations(
                outcomes.skip(1),
                (budget - 1) as nat,
            ),
            _ => 1,
        }
    }
}

/// Fixed-interval, attempt-bounded polling state. `attempts_made` only ever
/// grows; the run is over once it reaches `max_attempts` or an attempt
/// reports `Ready` or `Fatal`.
pub struct RetryPoller {
    /// How many interval units the driver suspends between attempts.
    pub interval: u64,
    /// The attempt budget; the operation is invoked at most this many times.
    pub max_attempts: u64,
    /// Attempts made so far.
    pub attempts_made: u64,
}

impl RetryPoller {
    /// The poller never counts more attempts than its budget.
    pub open spec fn wf(self) -> bool {
        self.attempts_made <= self.max_attempts
    }

    /// The decision the poller takes after an attempt reports `outcome`,
    /// with `remaining` attempts of the budget still unused before it.
    pub open spec fn spec_decide<T, E>(
        interval: u64,
        remaining: nat,
        outcome: PollOutcome<T, E>,
    ) -> PollDecision<T, E> {
        match outcome {
            PollOutcome::Ready(v) => PollDecision::Done(Ok(v)),
            PollOutcome::Fatal(e) => PollDecision::Done(Err(PollError::Fatal(e))),
            PollOutcome::NotYetReady => if remaining <= 1 {
                PollDecision::Done(Err(PollError::Timeout))
            } else {
                PollDecision::WaitThenRetry(interval)
            },
        }
    }

    /// A fresh poller that has made no attempts yet.
    pub fn new(interval: u64, max_attempts: u64) -> (p: RetryPoller)
        ensures
            p.interval == interval,
            p.max_attempts == max_attempts,
            p.attempts_made == 0,
            p.wf(),
    {
        RetryPoller { interval, max_attempts, attempts_made: 0 }
    }

    /// Record one attempt and decide what happens next. A `Ready` or
    /// `Fatal` outcome ends the run at once, whatever budget remains; a
    /// `NotYetReady` outcome ends it only when this attempt was the last
    /// one the budget allowed.
    pub fn on_outcome<T, E>(&mut self, outcome: PollOutcome<T, E>) -> (d: PollDecision<T, E>)
        requires
            old(self).wf(),
            old(self).attempts_made < old(self).max_attempts,
        ensures
            final(self).wf(),
            final(self).interval == old(self).interval,
            final(self).max_attempts == old(self).max_attempts,
            final(self).attempts_made == old(self).attempts_made + 1,
            d == Self::spec_decide(
                old(self).interval,
                (old(self).max_attempts - old(self).attempts_made) as nat,
                outcome,
            ),
    {
        self.attempts_made = self.attempts_made + 1;
        match outcome {
            PollOutcome::Ready(v) => PollDecision::Done(Ok(v)),
            PollOutcome::Fatal(e) => PollDecision::Done(Err(PollError::Fatal(e))),
            PollOutcome::NotYetReady => {
                if self.attempts_made == self.max_attempts {
                    PollDecision::Done(Err(PollError::Timeout))
                } else {
                    PollDecision::WaitThenRetry(self.interval)
                }
            },
        }
    }
}

/// Run a whole polling loop over the outcomes the operation reports on
/// successive attempts. Returns the run's result, how many attempts were
/// made, and how many interval-long waits occurred. A `Ready` first
/// outcome means no wait at all; a `Fatal` outcome ends the run without
/// touching the remaining budget.
#[verifier::loop_isolation(false)]
pub fn poll_script<T, E>(outcomes: Vec<PollOutcome<T, E>>, interval: u64, max_attempts: u64) -> (r:
    (Result<T, PollError<E>>, u64, u64))
    requires
        max_attempts >= 1,
        outcomes@.len() >= max_attempts,
    ensures
        r.0 == spec_poll(outcomes@, max_attempts as nat),
        r.1 == spec_poll_invocations(outcomes@, max_attempts as nat),
        1 <= r.1 <= max_attempts,
        r.2 == r.1 - 1,
{
    let ghost all = outcomes@;
    let mut remaining = outcomes;
    let mut poller = RetryPoller::new(interval, max_attempts);
    let mut waits: u64 = 0;
    loop
        invariant
            poller.interval == interval,
            poller.max_attempts == max_attempts,
            poller.attempts_made < max_attempts,
            waits == poller.attempts_made,
            remaining@.len() >= max_attempts - poller.attempts_made,
            spec_poll(all, max_attempts as nat) == spec_poll(
                remaining@,
                (max_attempts - poller.attempts_made) as nat,
            ),
            spec_poll_invocations(all, max_attempts as nat) == poller.attempts_made
                + spec_poll_invocations(remaining@, (max_attempts - poller.attempts_made) as nat),
        decreases max_attempts - poller.attempts_made,
    {
        let ghost rem_before = remaining@;
        let ghost b = (max_attempts - poller.attempts_made) as nat;
        let outcome = remaining.remove(0);
        proof {
            assert(rem_before.remove(0) =~= rem_before.skip(1));
        }
        match poller.on_outcome(outcome) {
            PollDecision::Done(result) => {
                proof {
                    assert(rem_before.len() > 0);
                    if rem_before[0] is Ready {
                        assert(spec_poll(rem_before, b) == Ok::<T, PollError<E>>(
                            rem_before[0]->Ready_0,
                        ));
                        assert(spec_poll_invocations(rem_before, b) == 1);
                    } else if rem_before[0] is Fatal {
                        assert(spec_poll(rem_before, b) == Err::<T, PollError<E>>(
                            PollError::Fatal(rem_before[0]->Fatal_0),
                        ));
                        assert(spec_poll_invocations(rem_before, b) == 1);
                    } else {
                        assert(b == 1);
                        assert(spec_poll(rem_before, b) == spec_poll(rem_before.skip(1), 0nat));
                        assert(spec_poll(rem_before.skip(1), 0nat) == Err::<T, PollError<E>>(
                            PollError::Timeout,
                        ));
                        assert(spec_poll_invocations(rem_before, b) == 1 + spec_poll_invocations(
                            rem_before.skip(1),
                            0nat,
                        ));
                        assert(spec_poll_invocations(rem_before.skip(1), 0nat) == 0);
                    }
                }
                return (result, poller.attempts_made, waits);
            },
            PollDecision::WaitThenRetry(_wait) => {
                // The driver would suspend for `interval` units here; the
                // run records the wait and re-invokes the operation.
                waits = waits + 1;
                proof {
                    assert(spec_poll(rem_before, b) == spec_poll(
                        rem_before.skip(1),
                        (b - 1) as nat,
                    ));
                    assert(spec_poll_invocations(rem_before, b) == 1 + spec_poll_invocations(
                        rem_before.skip(1),
                        (b - 1) as nat,
                    ));
                }
            },
        }
    }
}

/// The attempt budget is respected: a run invokes the operation at most
/// `budget` times, and a run that reports a timeout made every attempt the
/// budget allowed without ever seeing a ready outcome.
pub proof fn lemma_poll_budget<T, E>(outcomes: Seq<PollOutcome<T, E>>, budget: nat)
    requires
        outcomes.len() >= budget,
    ensures
        spec_poll_invocations(outcomes, budget) <= budget,
        spec_poll(outcomes, budget) == Err::<T, PollError<E>>(PollError::Timeout) ==> forall|i: int|
            0 <= i < budget ==> !(outcomes[i] is Ready),
    decreases budget,
{
    if budget > 0 && outcomes.len() > 0 {
        match outcomes[0] {
            PollOutcome::NotYetReady => {
                lemma_poll_budget(outcomes.skip(1), (budget - 1) as nat);
                if spec_poll(outcomes, budget) == Err::<T, PollError<E>>(PollError::Timeout) {
                    assert forall|i: int| 0 <= i < budget implies !(outcomes[i] is Ready) by {
                        if i > 0 {
                            assert(outcomes.skip(1)[i - 1] == outcomes[i]);
                        }
                    }
                }
            },
            _ => {},
        }
    }
}

/// A run whose first outcome is ready returns that value after a single
/// invocation, so no wait occurs at all.
pub proof fn lemma_poll_immediate_ready<T, E>(
    outcomes: Seq<PollOutcome<T, E>>,
    budget: nat,
    v: T,
)
    requires
        budget >= 1,
        outcomes.len() >= 1,
        outcomes[0] == PollOutcome::<T, E>::Ready(v),
    ensures
        spec_poll(outcomes, budget) == Ok::<T, PollError<E>>(v),
        spec_poll_invocations(outcomes, budget) == 1,
{
}

/// A fatal outcome ends the run at once: if the first `k` outcomes are not
/// yet ready and outcome `k` is fatal, the run makes exactly `k + 1`
/// invocations — the remaining budget is never consumed — and surfaces the
/// fault unchanged.
pub proof fn lemma_poll_fatal_stops<T, E>(
    outcomes: Seq<PollOutcome<T, E>>,
    budget: nat,
    k: int,
    e: E,
)
    requires
        outcomes.len() >= budget,
        0 <= k < budget,
        forall|i: int| 0 <= i < k ==> outcomes[i] == PollOutcome::<T, E>::NotYetReady,
        outcomes[k] == PollOutcome::<T, E>::Fatal(e),
    ensures
        spec_poll(outcomes, budget) == Err::<T, PollError<E>>(PollError::Fatal(e)),
        spec_poll_invocations(outcomes, budget) == k + 1,
    decreases k,
{
    if k > 0 {
        assert(outcomes[0] == PollOutcome::<T, E>::NotYetReady);
        assert forall|i: int| 0 <= i < k - 1 implies outcomes.skip(1)[i]
            == PollOutcome::<T, E>::NotYetReady by {
            assert(outcomes.skip(1)[i] == outcomes[i + 1]);
        }
        assert(outcomes.skip(1)[k - 1] == outcomes[k]);
        lemma_poll_fatal_stops(outcomes.skip(1), (budget - 1) as nat, k - 1, e);
    }
}

} // verus!

