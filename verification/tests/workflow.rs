use mubert_cli::job::JobFault;
use mubert_cli::orchestrator::{
    after_job_poll, after_metadata_write, after_task_creation, after_task_poll, after_upload,
    build_entity_call, commit_outcome, descriptor_plan, metadata_request_from,
    select_payload_source, DescriptorPlan, OffChainMetadata, UpdateRequest, WorkflowError,
    WorkflowRun, WorkflowStage,
};
use mubert_cli::pipeline::{EventKind, EventRecord, TxError};
use mubert_cli::poller::PollError;
use mubert_cli::validation::{
    await_validated, create_task, task_id_of_event, TaskFault, TaskState, ValidationTask,
};
use mubert_cli::{resolve_identity, SecretKeyFile, SigningIdentity};

fn request(metadata_url: Option<String>) -> UpdateRequest {
    UpdateRequest {
        entity_kind: 2,
        authority_id: 7,
        metadata_standard: 1,
        flags: vec!["Immutable".to_string()],
        authors_ids: Some(vec![3, 4]),
        royalty_parts: None,
        related_entities_ids: None,
        off_chain_metadata: OffChainMetadata {
            title: "track".to_string(),
            bpm: 120,
            key: 3,
            scale: 1,
            instrument: 9,
        },
        metadata_url,
    }
}

#[test]
fn supplied_descriptor_short_circuits() {
    // A request that already carries a descriptor location resolves to it
    // unchanged: the plan asks for no upload, no polling and no write.
    let req = request(Some("https://meta.test/42".to_string()));
    let plan = descriptor_plan(req.metadata_url, false);
    match plan {
        DescriptorPlan::AlreadyResolved(url) => assert_eq!(url, "https://meta.test/42"),
        _ => panic!("expected the already-resolved shortcut"),
    }
}

#[test]
fn missing_descriptor_selects_a_strategy() {
    match descriptor_plan(None, false) {
        DescriptorPlan::UploadThenWrite => {}
        _ => panic!("expected the off-chain write strategy"),
    }
    match descriptor_plan(None, true) {
        DescriptorPlan::UploadThenEscalate => {}
        _ => panic!("expected the ledger escalation strategy"),
    }
}

#[test]
fn payload_source_is_exactly_one() {
    assert_eq!(
        select_payload_source(Some("{}".to_string()), None),
        Ok("{}".to_string())
    );
    assert_eq!(
        select_payload_source(None, Some("{\"a\":1}".to_string())),
        Ok("{\"a\":1}".to_string())
    );
    assert_eq!(select_payload_source(None, None), Err(WorkflowError::Config));
    assert_eq!(
        select_payload_source(Some("{}".to_string()), Some("{}".to_string())),
        Err(WorkflowError::Config)
    );
}

#[test]
fn entity_call_carries_the_request() {
    let req = request(None);
    let call = build_entity_call(req, "https://meta.test/7".to_string());
    assert_eq!(call.entity_kind, 2);
    assert_eq!(call.authority_id, 7);
    assert_eq!(call.metadata_url, "https://meta.test/7");
    assert_eq!(call.metadata_standard, 1);
    assert_eq!(call.flags_mask, 0x00000001);
    assert_eq!(call.authors_ids, Some(vec![3, 4]));
}

#[test]
fn stage_errors_keep_their_stage() {
    assert_eq!(
        after_upload(500, mubert_cli::job::JobResponse { id: "j".to_string() }),
        Err(WorkflowError::Upload(JobFault::Http(500)))
    );
    assert_eq!(
        after_job_poll(Err(PollError::Timeout)),
        Err(WorkflowError::JobPoll(PollError::Timeout))
    );
    assert_eq!(
        after_metadata_write(403, mubert_cli::job::MetadataResponse { url: String::new() }),
        Err(WorkflowError::MetadataWrite(JobFault::Http(403)))
    );
    assert_eq!(
        after_task_creation(Err(TxError::Submission)),
        Err(WorkflowError::TaskCreate(TxError::Submission))
    );
    assert_eq!(
        after_task_poll(Err(PollError::Fatal(TaskFault::Rejected))),
        Err(WorkflowError::TaskPoll(PollError::Fatal(TaskFault::Rejected)))
    );
}

#[test]
fn upload_success_hands_back_the_job() {
    let r = after_upload(200, mubert_cli::job::JobResponse { id: "job-9".to_string() });
    assert_eq!(r, Ok("job-9".to_string()));
}

#[test]
fn metadata_request_carries_the_fields() {
    let meta = OffChainMetadata {
        title: "track".to_string(),
        bpm: 98,
        key: 2,
        scale: 0,
        instrument: 5,
    };
    let req = metadata_request_from(meta, "fp".to_string());
    assert_eq!(req.title, "track");
    assert_eq!(req.bpm, 98);
    assert_eq!(req.fingerprint, "fp");
}

#[test]
fn commit_wraps_pipeline_errors() {
    // A receipt holding only an event of another shape, expecting
    // EntityAdded: the commit reports the event mismatch.
    let events = vec![EventRecord { kind: EventKind::Other, task_id: None }];
    let r = commit_outcome(true, true, Some(events));
    assert_eq!(r, Err(WorkflowError::Commit(TxError::EventMismatch)));
}

#[test]
fn commit_returns_the_matched_event() {
    let added = EventRecord { kind: EventKind::EntityAdded, task_id: None };
    let r = commit_outcome(true, true, Some(vec![added]));
    assert_eq!(r, Ok(added));
}

#[test]
fn validated_without_reference_times_out() {
    // A task stuck at validated with its result reference absent is never
    // delivered as a success: the budget runs out and the run times out.
    let observation = || ValidationTask { id: 5, state: TaskState::Validated, result_ref: None };
    let observations = vec![observation(), observation(), observation()];
    let (result, invocations, _waits) = await_validated(observations, 6, 3);
    assert_eq!(result, Err(PollError::Timeout));
    assert_eq!(invocations, 3);
}

#[test]
fn validated_with_reference_is_delivered() {
    let observations = vec![
        ValidationTask { id: 5, state: TaskState::Queued, result_ref: None },
        ValidationTask { id: 5, state: TaskState::Validated, result_ref: Some(b"tx-hash".to_vec()) },
    ];
    let (result, invocations, _waits) = await_validated(observations, 6, 2);
    assert_eq!(result, Ok(b"tx-hash".to_vec()));
    assert_eq!(invocations, 2);
}

#[test]
fn rejected_task_is_fatal() {
    let observations = vec![
        ValidationTask { id: 5, state: TaskState::Rejected, result_ref: None },
        ValidationTask { id: 5, state: TaskState::Queued, result_ref: None },
    ];
    let (result, invocations, _waits) = await_validated(observations, 6, 2);
    assert_eq!(result, Err(PollError::Fatal(TaskFault::Rejected)));
    assert_eq!(invocations, 1);
}

#[test]
fn task_creation_extracts_the_task_id() {
    let events = vec![
        EventRecord { kind: EventKind::Other, task_id: None },
        EventRecord { kind: EventKind::TaskAdded, task_id: Some(77) },
    ];
    assert_eq!(create_task(true, true, Some(events)), Ok(77));
}

#[test]
fn task_event_without_id_is_a_mismatch() {
    let ev = EventRecord { kind: EventKind::TaskAdded, task_id: None };
    assert_eq!(task_id_of_event(&ev), Err(TxError::EventMismatch));
    let wrong = EventRecord { kind: EventKind::EntityAdded, task_id: Some(1) };
    assert_eq!(task_id_of_event(&wrong), Err(TxError::EventMismatch));
}

#[test]
fn workflow_stages_run_in_sequence() {
    let mut run = WorkflowRun::new();
    assert_eq!(run.stage, WorkflowStage::ResolvingDescriptor);
    run.on_plan(&DescriptorPlan::UploadThenWrite);
    assert_eq!(run.stage, WorkflowStage::UploadingData { escalate: false });
    run.on_upload(true);
    assert_eq!(run.stage, WorkflowStage::AwaitingJob { escalate: false });
    run.on_job(true);
    assert_eq!(run.stage, WorkflowStage::WritingDescriptor);
    run.on_write(true);
    assert_eq!(run.stage, WorkflowStage::Committing);
    run.on_commit(true);
    assert_eq!(run.stage, WorkflowStage::Complete);
}

#[test]
fn escalation_passes_through_validation() {
    let mut run = WorkflowRun::new();
    run.on_plan(&DescriptorPlan::UploadThenEscalate);
    assert_eq!(run.stage, WorkflowStage::UploadingData { escalate: true });
    run.on_upload(true);
    run.on_job(true);
    assert_eq!(run.stage, WorkflowStage::AwaitingValidation);
    run.on_validation(true);
    assert_eq!(run.stage, WorkflowStage::Committing);
}

#[test]
fn supplied_descriptor_skips_every_production_stage() {
    let mut run = WorkflowRun::new();
    run.on_plan(&DescriptorPlan::AlreadyResolved("https://meta.test/1".to_string()));
    assert_eq!(run.stage, WorkflowStage::Committing);
}

#[test]
fn a_failed_stage_ends_the_run() {
    let mut run = WorkflowRun::new();
    run.on_plan(&DescriptorPlan::UploadThenWrite);
    run.on_upload(false);
    assert_eq!(run.stage, WorkflowStage::Failed);
}

#[test]
fn missing_secret_file_resolves_to_the_development_identity() {
    // No secret-key file: the fixed development identity, without error.
    let identity = resolve_identity(None);
    assert!(matches!(identity, SigningIdentity::Development));
}

#[test]
fn secret_file_resolves_to_its_phrase() {
    let file = SecretKeyFile { secret_phrase: "bottom drive obey lake".to_string() };
    let identity = resolve_identity(Some(file));
    match identity {
        SigningIdentity::FromPhrase(phrase) => assert_eq!(phrase, "bottom drive obey lake"),
        _ => panic!("expected a phrase-derived identity"),
    }
}
