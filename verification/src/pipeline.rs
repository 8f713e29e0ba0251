//! The transaction pipeline: sign-and-submit, await finalization, fetch the
//! finalization receipt's events, and resolve the receipt against the event
//! the caller expected.
//!
//! The ledger performs each suspension step outside the library; the
//! library owns the stage bookkeeping and every verdict. A transaction is
//! successful only if the ledger reports finalization *and* the finalized
//! receipt holds a matching event; a finalized receipt without the expected
//! event is a distinct anomaly (`EventMismatch`), never success and never a
//! submission failure.

use vstd::prelude::*;

verus! {

/// The shape of a receipt event, as the ledger's schema declares it.
#[derive(Clone, Copy, Debug, PartialEq, Eq, Structural)]
pub enum EventKind {
    /// An entity was recorded on the ledger.
    EntityAdded,
    /// An authority was recorded on the ledger.
    AuthorityAdded,
    /// An archival/validation task was created; carries the task identifier.
    TaskAdded,
    /// An entity was wrapped for a foreign authority.
    EntityWraped,
    /// A cross-chain message left the ledger.
    XcmSent,
    /// An event of a shape this workflow does not expect.
    Other,
}

/// One entry of a finalized transaction's receipt, in arrival order.
#[derive(Clone, Copy, Debug, PartialEq, Eq)]
pub struct EventRecord {
    /// The declared shape of the event.
    pub kind: EventKind,
    /// The task identifier, present on `TaskAdded` events.
    pub task_id: Option<u64>,
}

/// Why a transaction run ended without the expected event.
#[derive(Clone, Copy, Debug, PartialEq, Eq)]
pub enum TxError {
    /// The node rejected the signed call at submission.
    Submission,
    /// The ledger reported the transaction dropped or invalid before
    /// finalization.
    Finalization,
    /// The receipt's events could not be fetched after finalization.
    EventFetch,
    /// The transaction finalized, but no event of the expected shape was in
    /// the receipt: the chain confirmed something, but not what was asked.
    EventMismatch,
}

/// Where a transaction attempt stands.
#[derive(Clone, Copy, Debug, PartialEq, Eq, Structural)]
pub enum TxStage {
    /// The call is built and signed-for but not yet handed to the node.
    Built,
    /// The node accepted the submission; finalization is pending.
    Submitted,
    /// The ledger finalized the transaction; its receipt is pending.
    Finalized,
    /// The receipt held an event of the expected shape: terminal success.
    EventMatched,
    /// The receipt held no event of the expected shape: terminal anomaly.
    EventMissing,
    /// A step failed at the ledger: terminal failure.
    Failed,
}

/// The index of the first event of the expected shape, if any.
pub open spec fn spec_first_match(events: Seq<EventRecord>, expected: EventKind) -> Option<int>
    decreases events.len(),
{
    if events.len() == 0 {
        None
    } else if events[0].kind == expected {
        Some(0)
    } else {
        match spec_first_match(events.skip(1), expected) {
            Some(i) => Some(i + 1),
            None => None,
        }
    }
}

/// Scan a receipt's events in arrival order and return the index of the
/// first event of the expected shape. Earlier events of other shapes are
/// passed over; later matches are never preferred.
pub fn find_first_event(events: &Vec<EventRecord>, expected: EventKind) -> (r: Option<usize>)
    ensures
        match r {
            Some(i) => i < events@.len() && events@[i as int].kind == expected && forall|j: int|
                0 <= j < i ==> events@[j].kind != expected,
            None => forall|j: int| 0 <= j < events@.len() ==> events@[j].kind != expected,
        },
{
    let mut i: usize = 0;
    while i < events.len()
        invariant
            i <= events@.len(),
            forall|j: int| 0 <= j < i ==> events@[j].kind != expected,
        decreases events@.len() - i,
    {
        if events[i].kind == expected {
            return Some(i);
        }
        i = i + 1;
    }
    None
}

/// The verdict the pipeline owes the caller once the ledger has answered
/// each suspension step: the first matching event on full success, and the
/// error of the earliest failed step otherwise.
pub open spec fn spec_confirm(
    submitted: bool,
    finalized: bool,
    events: Option<Seq<EventRecord>>,
    expected: EventKind,
) -> Result<EventRecord, TxError> {
    if !submitted {
        Err(TxError::Submission)
    } else if !finalized {
        Err(TxError::Finalization)
    } else {
        match events {
            None => Err(TxError::EventFetch),
            Some(evs) => match spec_first_match(evs, expected) {
                Some(i) => Ok(evs[i]),
                None => Err(TxError::EventMismatch),
            },
        }
    }
}

/// One transaction attempt, driven by the ledger's answers step by step.
pub struct TransactionPipeline {
    /// Where the attempt stands; starts at `Built`, ends at one of the
    /// three terminal stages.
    pub stage: TxStage,
}

impl TransactionPipeline {
    /// A fresh attempt for a built, signed-for call.
    pub fn new() -> (p: TransactionPipeline)
        ensures
            p.stage == TxStage::Built,
    {
        TransactionPipeline { stage: TxStage::Built }
    }

    /// Record the node's answer to sign-and-submit. A rejection is fatal:
    /// submitted transactions are not safely re-submittable, so the attempt
    /// ends rather than retries.
    pub fn on_submission(&mut self, accepted: bool) -> (r: Result<(), TxError>)
        requires
            old(self).stage == TxStage::Built,
        ensures
            accepted ==> final(self).stage == TxStage::Submitted && r == Ok::<(), TxError>(()),
            !accepted ==> final(self).stage == TxStage::Failed && r == Err::<(), TxError>(
                TxError::Submission,
            ),
    {
        if accepted {
            self.stage = TxStage::Submitted;
            Ok(())
        } else {
            self.stage = TxStage::Failed;
            Err(TxError::Submission)
        }
    }

    /// Record the ledger's finalization verdict for the submitted call.
    pub fn on_finalization(&mut self, finalized: bool) -> (r: Result<(), TxError>)
        requires
            old(self).stage == TxStage::Submitted,
        ensures
            finalized ==> final(self).stage == TxStage::Finalized && r == Ok::<(), TxError>(()),
            !finalized ==> final(self).stage == TxStage::Failed && r == Err::<(), TxError>(
                TxError::Finalization,
            ),
    {
        if finalized {
            self.stage = TxStage::Finalized;
            Ok(())
        } else {
            self.stage = TxStage::Failed;
            Err(TxError::Finalization)
        }
    }

    /// Resolve the finalized receipt: `fetched` is the receipt's event log
    /// if the ledger handed it over, in arrival order. Success returns the
    /// first event of the expected shape; a receipt without one is the
    /// `EventMismatch` anomaly, distinct from every transport failure.
    pub fn on_events(&mut self, fetched: Option<Vec<EventRecord>>, expected: EventKind) -> (r:
        Result<EventRecord, TxError>)
        requires
            old(self).stage == TxStage::Finalized,
        ensures
            r == spec_confirm(
                true,
                true,
                match fetched {
                    Some(evs) => Some(evs@),
                    None => None,
                },
                expected,
            ),
            r is Ok ==> final(self).stage == TxStage::EventMatched,
            r == Err::<EventRecord, TxError>(TxError::EventMismatch) ==> final(self).stage
                == TxStage::EventMissing,
            r == Err::<EventRecord, TxError>(TxError::EventFetch) ==> final(self).stage
                == TxStage::Failed,
    {
        match fetched {
            None => {
                self.stage = TxStage::Failed;
                Err(TxError::EventFetch)
            },
            Some(evs) => {
                match find_first_event(&evs, expected) {
                    Some(i) => {
                        self.stage = TxStage::EventMatched;
                        let ev = evs[i];
                        proof {
                            lemma_first_match_agrees(evs@, expected, i as int);
                        }
                        Ok(ev)
                    },
                    None => {
                        self.stage = TxStage::EventMissing;
                        proof {
                            lemma_first_match_none(evs@, expected);
                        }
                        Err(TxError::EventMismatch)
                    },
                }
            },
        }
    }
}

/// A witness index that matches and has no earlier match is the index
/// `spec_first_match` denotes.
proof fn lemma_first_match_agrees(events: Seq<EventRecord>, expected: EventKind, i: int)
    requires
        0 <= i < events.len(),
        events[i].kind == expected,
        forall|j: int| 0 <= j < i ==> events[j].kind != expected,
    ensures
        spec_first_match(events, expected) == Some(i),
    decreases i,
{
    if i > 0 {
        assert(events[0].kind != expected);
        assert forall|j: int| 0 <= j < i - 1 implies events.skip(1)[j].kind != expected by {
            assert(events.skip(1)[j] == events[j + 1]);
        }
        assert(events.skip(1)[i - 1] == events[i]);
        lemma_first_match_agrees(events.skip(1), expected, i - 1);
    }
}

/// What the first match is: when it exists it lies in the receipt, it has
/// the expected shape, and no earlier event does — the pipeline matches
/// the first event satisfying the predicate, never a later one; when it
/// does not exist, no event of the receipt has the expected shape.
pub proof fn lemma_first_match_properties(events: Seq<EventRecord>, expected: EventKind)
    ensures
        match spec_first_match(events, expected) {
            Some(i) => 0 <= i < events.len() && events[i].kind == expected && forall|j: int|
                0 <= j < i ==> events[j].kind != expected,
            None => forall|j: int| 0 <= j < events.len() ==> events[j].kind != expected,
        },
    decreases events.len(),
{
    if events.len() > 0 && events[0].kind != expected {
        lemma_first_match_properties(events.skip(1), expected);
        match spec_first_match(events.skip(1), expected) {
            Some(i) => {
                assert(events.skip(1)[i] == events[i + 1]);
                assert forall|j: int| 0 <= j < i + 1 implies events[j].kind != expected by {
                    if j > 0 {
                        assert(events.skip(1)[j - 1] == events[j]);
                    }
                }
            },
            None => {
                assert forall|j: int| 0 <= j < events.len() implies events[j].kind != expected by {
                    if j > 0 {
                        assert(events.skip(1)[j - 1] == events[j]);
                    }
                }
            },
        }
    }
}

/// A receipt in which no event has the expected shape has no first match.
proof fn lemma_first_match_none(events: Seq<EventRecord>, expected: EventKind)
    requires
        forall|j: int| 0 <= j < events.len() ==> events[j].kind != expected,
    ensures
        spec_first_match(events, expected) is None,
    decreases events.len(),
{
    if events.len() > 0 {
        assert forall|j: int| 0 <= j < events.skip(1).len() implies events.skip(1)[j].kind
            != expected by {
            assert(events.skip(1)[j] == events[j + 1]);
        }
        lemma_first_match_none(events.skip(1), expected);
    }
}

/// Run a whole transaction attempt from the ledger's three answers: the
/// submission verdict, the finalization verdict, and the receipt's events
/// if they could be fetched. Later answers only matter once every earlier
/// step succeeded; the pipeline never retries a submitted transaction.
pub fn submit_and_confirm(
    submitted: bool,
    finalized: bool,
    fetched: Option<Vec<EventRecord>>,
    expected: EventKind,
) -> (r: Result<EventRecord, TxError>)
    ensures
        r == spec_confirm(
            submitted,
            finalized,
            match fetched {
                Some(evs) => Some(evs@),
                None => None,
            },
            expected,
        ),
{
    let mut pipeline = TransactionPipeline::new();
    match pipeline.on_submission(submitted) {
        Err(e) => Err(e),
        Ok(()) => match pipeline.on_finalization(finalized) {
            Err(e) => Err(e),
            Ok(()) => pipeline.on_events(fetched, expected),
        },
    }
}

} // verus!
