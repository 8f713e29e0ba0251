//! The workflow orchestrator: resolve a content descriptor and commit it
//! to the ledger, strictly in sequence.
//!
//! A run resolves its descriptor first — taken unchanged from the request
//! when one is supplied, otherwise produced by the off-chain job service
//! and then either written back off-chain or escalated through the
//! validation-task tracker — and only then builds the entity call and
//! drives it through the transaction pipeline. Every stage's verdict is a
//! precondition of the next; a failure carries its stage so the caller can
//! tell an off-chain fault from a ledger rejection from a receipt anomaly.

use crate::job::{JobFault, JobResponse, MetadataRequest, MetadataResponse, spec_http_success};
use crate::pipeline::{EventKind, EventRecord, TxError, spec_confirm};
use crate::poller::PollError;
use crate::validation::TaskFault;
use crate::{MetadataFeature, spec_flags, calculate_flags};
use vstd::prelude::*;

verus! {

/// The off-chain metadata fields of an entity, as the request supplies
/// them.
pub struct OffChainMetadata {
    pub title: String,
    pub bpm: u32,
    pub key: u8,
    pub scale: u8,
    pub instrument: u8,
}

/// One royalty share of an entity: a beneficiary account and its part.
pub struct RoyaltyPart {
    /// The beneficiary's account identifier, as raw bytes.
    pub account: Vec<u8>,
    /// The beneficiary's share.
    pub part: u32,
}

/// A request to record an entity, with either a readily resolved
/// descriptor location or the fields from which one is produced.
pub struct UpdateRequest {
    /// The schema-assigned code of the entity's kind.
    pub entity_kind: u32,
    /// The authority under which the entity is recorded.
    pub authority_id: u32,
    /// The schema-assigned code of the metadata standard.
    pub metadata_standard: u32,
    /// Flag strings folded into the call's feature bitmask.
    pub flags: Vec<String>,
    pub authors_ids: Option<Vec<u32>>,
    pub royalty_parts: Option<Vec<RoyaltyPart>>,
    pub related_entities_ids: Option<Vec<u32>>,
    /// The fields a descriptor is produced from when none is supplied.
    pub off_chain_metadata: OffChainMetadata,
    /// A readily resolved descriptor location, if the caller has one.
    pub metadata_url: Option<String>,
}

/// The final, fully resolved entity call handed to the ledger.
pub struct EntityCall {
    pub entity_kind: u32,
    pub authority_id: u32,
    /// The resolved descriptor location.
    pub metadata_url: String,
    pub metadata_standard: u32,
    /// The feature bitmask folded from the request's flag strings.
    pub flags_mask: u64,
    pub authors_ids: Option<Vec<u32>>,
    pub royalty_parts: Option<Vec<RoyaltyPart>>,
    pub related_entities_ids: Option<Vec<u32>>,
}

/// Why a workflow run ended without a confirmed entity. Each variant
/// names the stage that failed and carries that stage's own error
/// unchanged in kind.
#[derive(Clone, Copy, Debug, PartialEq, Eq)]
pub enum WorkflowError {
    /// The request itself was unusable: no payload source, or both.
    Config,
    /// Submitting the data to the job service failed.
    Upload(JobFault),
    /// Polling the job's status ended in a fault or a timeout.
    JobPoll(PollError<JobFault>),
    /// Writing the descriptor back off-chain failed.
    MetadataWrite(JobFault),
    /// The task-creation transaction failed.
    TaskCreate(TxError),
    /// Polling the validation task ended in a fault or a timeout.
    TaskPoll(PollError<TaskFault>),
    /// The final entity transaction failed.
    Commit(TxError),
}

/// How a run will resolve its descriptor.
pub enum DescriptorPlan {
    /// The request already supplies the descriptor: use it unchanged,
    /// with no off-chain or on-chain work at all.
    AlreadyResolved(String),
    /// Produce the descriptor off-chain and persist it with a second
    /// off-chain write.
    UploadThenWrite,
    /// Produce the descriptor off-chain and escalate it onto the ledger
    /// through the validation-task tracker.
    UploadThenEscalate,
}

/// The request's payload is given exactly one way: inline, or as the
/// contents of a file — never both and never neither.
pub fn select_payload_source(inline: Option<String>, file_contents: Option<String>) -> (r: Result<
    String,
    WorkflowError,
>)
    ensures
        match (inline, file_contents) {
            (Some(d), None) => r == Ok::<String, WorkflowError>(d),
            (None, Some(f)) => r == Ok::<String, WorkflowError>(f),
            _ => r == Err::<String, WorkflowError>(WorkflowError::Config),
        },
{
    match (inline, file_contents) {
        (Some(d), None) => Ok(d),
        (None, Some(f)) => Ok(f),
        _ => Err(WorkflowError::Config),
    }
}

/// Decide how the descriptor will be resolved. A request that already
/// carries a descriptor location short-circuits: the plan is the location
/// itself, unchanged, and no other stage runs — the resolution is
/// idempotent. Otherwise the two production strategies are mutually
/// exclusive, selected by whether a worker identity was supplied.
pub fn descriptor_plan(metadata_url: Option<String>, escalate: bool) -> (p: DescriptorPlan)
    ensures
        match metadata_url {
            Some(url) => p == DescriptorPlan::AlreadyResolved(url),
            None => if escalate {
                p == DescriptorPlan::UploadThenEscalate
            } else {
                p == DescriptorPlan::UploadThenWrite
            },
        },
{
    match metadata_url {
        Some(url) => DescriptorPlan::AlreadyResolved(url),
        None => {
            if escalate {
                DescriptorPlan::UploadThenEscalate
            } else {
                DescriptorPlan::UploadThenWrite
            }
        },
    }
}

/// The verdict on the upload stage: the job to poll for on success, the
/// upload stage's fault otherwise.
pub fn after_upload(status: u16, body: JobResponse) -> (r: Result<String, WorkflowError>)
    ensures
        spec_http_success(status) ==> r == Ok::<String, WorkflowError>(body.id),
        !spec_http_success(status) ==> r == Err::<String, WorkflowError>(
            WorkflowError::Upload(JobFault::Http(status)),
        ),
{
    match crate::job::classify_submission(status, body) {
        Ok(job) => Ok(job.id),
        Err(f) => Err(WorkflowError::Upload(f)),
    }
}

/// The verdict on the job-polling stage, its errors carried under the
/// stage that produced them.
pub fn after_job_poll(r: Result<String, PollError<JobFault>>) -> (out: Result<
    String,
    WorkflowError,
>)
    ensures
        match r {
            Ok(url) => out == Ok::<String, WorkflowError>(url),
            Err(e) => out == Err::<String, WorkflowError>(WorkflowError::JobPoll(e)),
        },
{
    match r {
        Ok(url) => Ok(url),
        Err(e) => Err(WorkflowError::JobPoll(e)),
    }
}

/// The descriptor-creation request produced from the request's off-chain
/// metadata and the job's delivered fingerprint.
pub fn metadata_request_from(meta: OffChainMetadata, fingerprint: String) -> (r: MetadataRequest)
    ensures
        r.title == meta.title,
        r.bpm == meta.bpm,
        r.key == meta.key,
        r.scale == meta.scale,
        r.instrument == meta.instrument,
        r.fingerprint == fingerprint,
{
    MetadataRequest {
        title: meta.title,
        bpm: meta.bpm,
        key: meta.key,
        scale: meta.scale,
        instrument: meta.instrument,
        fingerprint,
    }
}

/// The verdict on the descriptor-write stage: the descriptor's location
/// on success, the write stage's fault otherwise.
pub fn after_metadata_write(status: u16, body: MetadataResponse) -> (r: Result<
    String,
    WorkflowError,
>)
    ensures
        spec_http_success(status) ==> r == Ok::<String, WorkflowError>(body.url),
        !spec_http_success(status) ==> r == Err::<String, WorkflowError>(
            WorkflowError::MetadataWrite(JobFault::Http(status)),
        ),
{
    match crate::job::classify_metadata_write(status, body) {
        Ok(resp) => Ok(resp.url),
        Err(f) => Err(WorkflowError::MetadataWrite(f)),
    }
}

/// The verdict on the task-creation stage, its errors carried under the
/// stage that produced them.
pub fn after_task_creation(r: Result<u64, TxError>) -> (out: Result<u64, WorkflowError>)
    ensures
        match r {
            Ok(id) => out == Ok::<u64, WorkflowError>(id),
            Err(e) => out == Err::<u64, WorkflowError>(WorkflowError::TaskCreate(e)),
        },
{
    match r {
        Ok(id) => Ok(id),
        Err(e) => Err(WorkflowError::TaskCreate(e)),
    }
}

/// The verdict on the task-polling stage, its errors carried under the
/// stage that produced them.
pub fn after_task_poll(r: Result<Vec<u8>, PollError<TaskFault>>) -> (out: Result<
    Vec<u8>,
    WorkflowError,
>)
    ensures
        match r {
            Ok(reference) => out == Ok::<Vec<u8>, WorkflowError>(reference),
            Err(e) => out == Err::<Vec<u8>, WorkflowError>(WorkflowError::TaskPoll(e)),
        },
{
    match r {
        Ok(reference) => Ok(reference),
        Err(e) => Err(WorkflowError::TaskPoll(e)),
    }
}

/// Build the final entity call from the request and the resolved
/// descriptor location. Every request field is carried over unchanged;
/// the flag strings are folded into the feature bitmask here, so the call
/// holds exactly the flags the request named.
pub fn build_entity_call(req: UpdateRequest, metadata_url: String) -> (c: EntityCall)
    ensures
        c.entity_kind == req.entity_kind,
        c.authority_id == req.authority_id,
        c.metadata_url == metadata_url,
        c.metadata_standard == req.metadata_standard,
        c.flags_mask == spec_flags::<MetadataFeature>(req.flags@.map_values(|s: String| s@)),
        c.authors_ids == req.authors_ids,
        c.royalty_parts == req.royalty_parts,
        c.related_entities_ids == req.related_entities_ids,
{
    let flags_mask = calculate_flags::<MetadataFeature>(req.flags);
    EntityCall {
        entity_kind: req.entity_kind,
        authority_id: req.authority_id,
        metadata_url,
        metadata_standard: req.metadata_standard,
        flags_mask,
        authors_ids: req.authors_ids,
        royalty_parts: req.royalty_parts,
        related_entities_ids: req.related_entities_ids,
    }
}

/// Where a workflow run stands. The stages are strictly sequential:
/// every stage's verdict is a precondition of the next, and the run
/// performs no internal fan-out — the final call needs the resolved
/// descriptor as an input field.
#[derive(Clone, Copy, Debug, PartialEq, Eq, Structural)]
pub enum WorkflowStage {
    /// Deciding how the descriptor will be resolved.
    ResolvingDescriptor,
    /// Submitting the raw data to the job service. The flag records
    /// whether a delivered descriptor is escalated onto the ledger or
    /// written back off-chain.
    UploadingData { escalate: bool },
    /// Polling the job until it delivers the fingerprint.
    AwaitingJob { escalate: bool },
    /// Persisting the descriptor with a second off-chain write.
    WritingDescriptor,
    /// Escalating the descriptor through the validation-task tracker.
    AwaitingValidation,
    /// Driving the final entity call through the transaction pipeline.
    Committing,
    /// The entity transaction was confirmed: terminal success.
    Complete,
    /// A stage failed; the run stops where it stood: terminal failure.
    Failed,
}

/// One workflow run's stage bookkeeping. Each step takes the verdict of
/// the stage the run stands in and may only move to the stage the plan
/// dictates; no verdict can skip a stage or revive a failed run.
pub struct WorkflowRun {
    /// Where the run stands; starts at descriptor resolution.
    pub stage: WorkflowStage,
}

impl WorkflowRun {
    /// A fresh run, about to resolve its descriptor.
    pub fn new() -> (run: WorkflowRun)
        ensures
            run.stage == WorkflowStage::ResolvingDescriptor,
    {
        WorkflowRun { stage: WorkflowStage::ResolvingDescriptor }
    }

    /// Record the descriptor plan. A supplied descriptor short-circuits
    /// every production stage and goes straight to the commit.
    pub fn on_plan(&mut self, plan: &DescriptorPlan)
        requires
            old(self).stage == WorkflowStage::ResolvingDescriptor,
        ensures
            final(self).stage == match plan {
                DescriptorPlan::AlreadyResolved(_) => WorkflowStage::Committing,
                DescriptorPlan::UploadThenWrite => WorkflowStage::UploadingData {
                    escalate: false,
                },
                DescriptorPlan::UploadThenEscalate => WorkflowStage::UploadingData {
                    escalate: true,
                },
            },
    {
        self.stage = match plan {
            DescriptorPlan::AlreadyResolved(_) => WorkflowStage::Committing,
            DescriptorPlan::UploadThenWrite => WorkflowStage::UploadingData { escalate: false },
            DescriptorPlan::UploadThenEscalate => WorkflowStage::UploadingData { escalate: true },
        };
    }

    /// Record the upload stage's verdict.
    pub fn on_upload(&mut self, accepted: bool)
        requires
            old(self).stage matches WorkflowStage::UploadingData { .. },
        ensures
            final(self).stage == if accepted {
                WorkflowStage::AwaitingJob {
                    escalate: old(self).stage->UploadingData_escalate,
                }
            } else {
                WorkflowStage::Failed
            },
    {
        match self.stage {
            WorkflowStage::UploadingData { escalate } => {
                self.stage = if accepted {
                    WorkflowStage::AwaitingJob { escalate }
                } else {
                    WorkflowStage::Failed
                };
            },
            _ => {},
        }
    }

    /// Record the job-polling stage's verdict; a delivered fingerprint
    /// moves to the strategy the plan selected.
    pub fn on_job(&mut self, delivered: bool)
        requires
            old(self).stage matches WorkflowStage::AwaitingJob { .. },
        ensures
            final(self).stage == if delivered {
                if old(self).stage->AwaitingJob_escalate {
                    WorkflowStage::AwaitingValidation
                } else {
                    WorkflowStage::WritingDescriptor
                }
            } else {
                WorkflowStage::Failed
            },
    {
        match self.stage {
            WorkflowStage::AwaitingJob { escalate } => {
                self.stage = if delivered {
                    if escalate {
                        WorkflowStage::AwaitingValidation
                    } else {
                        WorkflowStage::WritingDescriptor
                    }
                } else {
                    WorkflowStage::Failed
                };
            },
            _ => {},
        }
    }

    /// Record the off-chain descriptor write's verdict.
    pub fn on_write(&mut self, written: bool)
        requires
            old(self).stage == WorkflowStage::WritingDescriptor,
        ensures
            final(self).stage == if written {
                WorkflowStage::Committing
            } else {
                WorkflowStage::Failed
            },
    {
        self.stage = if written {
            WorkflowStage::Committing
        } else {
            WorkflowStage::Failed
        };
    }

    /// The tracker either delivered the task's reference or it did not;
    /// move the run on accordingly.
    pub fn on_validation(&mut self, validated: bool)
        requires
            old(self).stage == WorkflowStage::AwaitingValidation,
        ensures
            final(self).stage == if validated {
                WorkflowStage::Committing
            } else {
                WorkflowStage::Failed
            },
    {
        self.stage = if validated {
            WorkflowStage::Committing
        } else {
            WorkflowStage::Failed
        };
    }

    /// Record the commit's verdict; only a confirmed entity transaction
    /// completes the run.
    pub fn on_commit(&mut self, confirmed: bool)
        requires
            old(self).stage == WorkflowStage::Committing,
        ensures
            final(self).stage == if confirmed {
                WorkflowStage::Complete
            } else {
                WorkflowStage::Failed
            },
    {
        self.stage = if confirmed {
            WorkflowStage::Complete
        } else {
            WorkflowStage::Failed
        };
    }
}

/// The verdict on the commit stage: drive the transaction pipeline
/// expecting an `EntityAdded` event and carry its error, unchanged in
/// kind, under the commit stage.
pub fn commit_outcome(submitted: bool, finalized: bool, fetched: Option<Vec<EventRecord>>) -> (r:
    Result<EventRecord, WorkflowError>)
    ensures
        r == (match spec_confirm(
            submitted,
            finalized,
            match fetched {
                Some(evs) => Some(evs@),
                None => None,
            },
            EventKind::EntityAdded,
        ) {
            Ok(ev) => Ok::<EventRecord, WorkflowError>(ev),
            Err(e) => Err::<EventRecord, WorkflowError>(WorkflowError::Commit(e)),
        }),
{
    match crate::pipeline::submit_and_confirm(
        submitted,
        finalized,
        fetched,
        EventKind::EntityAdded,
    ) {
        Ok(ev) => Ok(ev),
        Err(e) => Err(WorkflowError::Commit(e)),
    }
}

} // verus!
