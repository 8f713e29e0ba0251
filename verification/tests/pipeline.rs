use mubert_cli::pipeline::{
    find_first_event, submit_and_confirm, EventKind, EventRecord, TransactionPipeline, TxError,
    TxStage,
};

fn event(kind: EventKind) -> EventRecord {
    EventRecord { kind, task_id: None }
}

#[test]
fn first_matching_event_wins() {
    // Receipt [A, B, C] where the matcher matches B's shape: the pipeline
    // returns B — not A, which precedes it with another shape, and not C,
    // which matches the same shape later.
    let a = event(EventKind::Other);
    let b = EventRecord { kind: EventKind::EntityAdded, task_id: Some(1) };
    let c = EventRecord { kind: EventKind::EntityAdded, task_id: Some(2) };
    let events = vec![a, b, c];
    let found = find_first_event(&events, EventKind::EntityAdded);
    assert_eq!(found, Some(1));

    let confirmed = submit_and_confirm(true, true, Some(events), EventKind::EntityAdded);
    assert_eq!(confirmed, Ok(b));
}

#[test]
fn no_matching_event_is_a_mismatch() {
    // A finalized receipt with no event of the expected shape reports the
    // event-mismatch anomaly: not success, and not a transport error.
    let events = vec![event(EventKind::Other)];
    let confirmed = submit_and_confirm(true, true, Some(events), EventKind::EntityAdded);
    assert_eq!(confirmed, Err(TxError::EventMismatch));
}

#[test]
fn submission_rejection_is_fatal() {
    let confirmed = submit_and_confirm(false, false, None, EventKind::EntityAdded);
    assert_eq!(confirmed, Err(TxError::Submission));
}

#[test]
fn dropped_transaction_is_a_finalization_error() {
    let confirmed = submit_and_confirm(true, false, None, EventKind::EntityAdded);
    assert_eq!(confirmed, Err(TxError::Finalization));
}

#[test]
fn unfetchable_events_are_a_fetch_error() {
    let confirmed = submit_and_confirm(true, true, None, EventKind::EntityAdded);
    assert_eq!(confirmed, Err(TxError::EventFetch));
}

#[test]
fn stages_advance_in_order() {
    let mut pipeline = TransactionPipeline::new();
    assert_eq!(pipeline.stage, TxStage::Built);
    assert_eq!(pipeline.on_submission(true), Ok(()));
    assert_eq!(pipeline.stage, TxStage::Submitted);
    assert_eq!(pipeline.on_finalization(true), Ok(()));
    assert_eq!(pipeline.stage, TxStage::Finalized);
    let events = vec![event(EventKind::AuthorityAdded)];
    let confirmed = pipeline.on_events(Some(events), EventKind::AuthorityAdded);
    assert_eq!(confirmed, Ok(event(EventKind::AuthorityAdded)));
    assert_eq!(pipeline.stage, TxStage::EventMatched);
}

#[test]
fn event_missing_is_a_distinct_terminal_stage() {
    let mut pipeline = TransactionPipeline::new();
    assert_eq!(pipeline.on_submission(true), Ok(()));
    assert_eq!(pipeline.on_finalization(true), Ok(()));
    let events = vec![event(EventKind::Other)];
    let confirmed = pipeline.on_events(Some(events), EventKind::EntityAdded);
    assert_eq!(confirmed, Err(TxError::EventMismatch));
    assert_eq!(pipeline.stage, TxStage::EventMissing);
}
