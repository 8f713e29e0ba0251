//! The validation-task tracker: a second asynchronous job whose progress
//! lives in ledger storage and is observed by polling storage reads rather
//! than an HTTP endpoint.
//!
//! A task is created by a transaction (driven through the transaction
//! pipeline) and advanced by an external worker; the tracker never mutates
//! it. A task is only ever delivered with a usable result reference: a
//! task observed as validated but missing its reference is an inconsistent
//! read and is polled again, never handed to the caller as a success.

use crate::pipeline::{EventKind, EventRecord, TxError, spec_confirm};
use crate::poller::{PollError, PollOutcome, spec_poll, spec_poll_invocations, poll_script};
use vstd::prelude::*;

verus! {

/// Where a validation task stands in ledger storage.
#[derive(Clone, Copy, Debug, PartialEq, Eq, Structural)]
pub enum TaskState {
    /// Created, not yet picked up by the worker.
    Queued,
    /// The worker is processing the task.
    Validating,
    /// Terminal success; the task carries its result reference.
    Validated,
    /// Terminal failure; the worker gave the task up.
    Rejected,
}

/// A validation task as one storage read observed it.
pub struct ValidationTask {
    /// The task identifier assigned at creation.
    pub id: u64,
    /// The observed state.
    pub state: TaskState,
    /// The persisted-content reference, present once the task is
    /// validated.
    pub result_ref: Option<Vec<u8>>,
}

/// Why a validation task will never deliver a result.
#[derive(Clone, Copy, Debug, PartialEq, Eq, Structural)]
pub enum TaskFault {
    /// The worker rejected the task.
    Rejected,
}

/// What one storage observation of a task means to the poller: a
/// validated task with its reference is ready, a rejected task is fatal,
/// and everything else — a queued or validating task, and the
/// inconsistent read of a validated task with no reference — asks for
/// another attempt, so budget exhaustion surfaces as a timeout rather
/// than a success carrying nothing.
pub open spec fn spec_classify_task(t: ValidationTask) -> PollOutcome<Vec<u8>, TaskFault> {
    match t.state {
        TaskState::Rejected => PollOutcome::Fatal(TaskFault::Rejected),
        TaskState::Validated => match t.result_ref {
            Some(r) => PollOutcome::Ready(r),
            None => PollOutcome::NotYetReady,
        },
        _ => PollOutcome::NotYetReady,
    }
}

/// Decide what one observed task state means.
pub fn classify_task(t: ValidationTask) -> (r: PollOutcome<Vec<u8>, TaskFault>)
    ensures
        r == spec_classify_task(t),
{
    match t.state {
        TaskState::Rejected => PollOutcome::Fatal(TaskFault::Rejected),
        TaskState::Validated => match t.result_ref {
            Some(r) => PollOutcome::Ready(r),
            None => PollOutcome::NotYetReady,
        },
        TaskState::Queued => PollOutcome::NotYetReady,
        TaskState::Validating => PollOutcome::NotYetReady,
    }
}

/// The poll outcomes a sequence of task observations denotes, in order.
pub open spec fn spec_task_outcomes(obs: Seq<ValidationTask>) -> Seq<
    PollOutcome<Vec<u8>, TaskFault>,
> {
    obs.map_values(|t: ValidationTask| spec_classify_task(t))
}

/// Await a task's validation over the storage observations reported on
/// successive polls: the persisted-content reference once a poll reports
/// the task validated with its reference present, a fatal error as soon
/// as one reports it rejected, and a timeout when the attempt budget runs
/// out first. Also returns how many polls were made and how many
/// interval-long waits occurred.
#[verifier::loop_isolation(false)]
pub fn await_validated(observations: Vec<ValidationTask>, interval: u64, max_attempts: u64) -> (r:
    (Result<Vec<u8>, PollError<TaskFault>>, u64, u64))
    requires
        max_attempts >= 1,
        observations@.len() >= max_attempts,
    ensures
        r.0 == spec_poll(spec_task_outcomes(observations@), max_attempts as nat),
        r.1 == spec_poll_invocations(spec_task_outcomes(observations@), max_attempts as nat),
        1 <= r.1 <= max_attempts,
        r.2 == r.1 - 1,
{
    let ghost all = observations@;
    let mut remaining = observations;
    let mut outcomes: Vec<PollOutcome<Vec<u8>, TaskFault>> = Vec::new();
    let ghost mut i: int = 0;
    while remaining.len() > 0
        invariant
            0 <= i <= all.len(),
            remaining@ =~= all.skip(i),
            outcomes@.len() == i,
            forall|k: int| 0 <= k < i ==> outcomes@[k] == spec_classify_task(all[k]),
        decreases remaining@.len(),
    {
        let t = remaining.remove(0);
        outcomes.push(classify_task(t));
        proof {
            assert(all.skip(i).remove(0) =~= all.skip(i + 1));
            i = i + 1;
        }
    }
    proof {
        assert(outcomes@ =~= spec_task_outcomes(all));
    }
    poll_script(outcomes, interval, max_attempts)
}

/// A run over observations that never show a validated task with its
/// reference — in particular a task stuck at `validated` with the
/// reference absent — can only end in a timeout or the rejection fault,
/// never in a delivered reference.
pub proof fn lemma_no_reference_no_success(observations: Seq<ValidationTask>, budget: nat)
    requires
        observations.len() >= budget,
        forall|k: int|
            0 <= k < observations.len() ==> !(observations[k].state == TaskState::Validated
                && observations[k].result_ref is Some),
    ensures
        !(spec_poll(spec_task_outcomes(observations), budget) is Ok),
    decreases budget,
{
    let outcomes = spec_task_outcomes(observations);
    if budget > 0 && observations.len() > 0 {
        assert(outcomes[0] == spec_classify_task(observations[0]));
        match outcomes[0] {
            PollOutcome::Ready(_) => {
                assert(false);
            },
            PollOutcome::Fatal(_) => {},
            PollOutcome::NotYetReady => {
                assert forall|k: int| 0 <= k < observations.skip(1).len() implies !(
                observations.skip(1)[k].state == TaskState::Validated && observations.skip(
                    1,
                )[k].result_ref is Some) by {
                    assert(observations.skip(1)[k] == observations[k + 1]);
                }
                assert(spec_task_outcomes(observations.skip(1)) =~= outcomes.skip(1));
                lemma_no_reference_no_success(observations.skip(1), (budget - 1) as nat);
            },
        }
    }
}

/// The task identifier carried by a task-creation receipt's matched
/// event. An event of the right shape without an identifier is the
/// mismatch anomaly: the chain confirmed something, but not what the
/// tracker needs.
pub fn task_id_of_event(ev: &EventRecord) -> (r: Result<u64, TxError>)
    ensures
        ev.kind == EventKind::TaskAdded && ev.task_id is Some ==> r == Ok::<u64, TxError>(
            ev.task_id->0,
        ),
        !(ev.kind == EventKind::TaskAdded && ev.task_id is Some) ==> r == Err::<u64, TxError>(
            TxError::EventMismatch,
        ),
{
    if ev.kind == EventKind::TaskAdded {
        match ev.task_id {
            Some(id) => Ok(id),
            None => Err(TxError::EventMismatch),
        }
    } else {
        Err(TxError::EventMismatch)
    }
}

/// The verdict on a task-creation transaction: the assigned task
/// identifier when the pipeline confirmed a `TaskAdded` event carrying
/// one, and the pipeline's error otherwise.
pub open spec fn spec_create_task(
    submitted: bool,
    finalized: bool,
    events: Option<Seq<EventRecord>>,
) -> Result<u64, TxError> {
    match spec_confirm(submitted, finalized, events, EventKind::TaskAdded) {
        Err(e) => Err(e),
        Ok(ev) => if ev.task_id is Some {
            Ok(ev.task_id->0)
        } else {
            Err(TxError::EventMismatch)
        },
    }
}

/// Run a task-creation attempt from the ledger's answers: drive the
/// transaction pipeline expecting a `TaskAdded` event and extract the
/// assigned task identifier from the matched event.
pub fn create_task(submitted: bool, finalized: bool, fetched: Option<Vec<EventRecord>>) -> (r:
    Result<u64, TxError>)
    ensures
        r == spec_create_task(
            submitted,
            finalized,
            match fetched {
                Some(evs) => Some(evs@),
                None => None,
            },
        ),
{
    let ghost ghost_events: Option<Seq<EventRecord>> = match &fetched {
        Some(evs) => Some(evs@),
        None => None,
    };
    match crate::pipeline::submit_and_confirm(submitted, finalized, fetched, EventKind::TaskAdded) {
        Err(e) => Err(e),
        Ok(ev) => {
            proof {
                crate::pipeline::lemma_first_match_properties(
                    ghost_events->0,
                    EventKind::TaskAdded,
                );
            }
            task_id_of_event(&ev)
        },
    }
}

} // verus!
