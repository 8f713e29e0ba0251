//! The off-chain job client's decision logic: interpret the job service's
//! answers and drive the retry poller over job-status observations.
//!
//! The HTTP transport performs the requests outside the library and hands
//! in what it observed: a parsed response body, or the failing status code.
//! The library decides what each observation means — ready, retry, or
//! fatal — and what a whole polling run returns.

use crate::poller::{PollError, PollOutcome, spec_poll, spec_poll_invocations, poll_script};
use vstd::prelude::*;

verus! {

/// The body of a job-status answer from the processing service.
pub struct StatusResponse {
    /// The job identifier the service assigned.
    pub id: String,
    /// The job's reported state: `"done"`, `"failed"`, or anything else
    /// while it is still pending.
    pub status: String,
    /// Where the result lives once the job is done.
    pub url: String,
}

/// The body of a job-creation answer: the assigned job identifier.
pub struct JobResponse {
    /// The job identifier to poll for.
    pub id: String,
}

/// The fields of a descriptor-creation request.
pub struct MetadataRequest {
    pub title: String,
    pub bpm: u32,
    pub key: u8,
    pub scale: u8,
    pub instrument: u8,
    pub fingerprint: String,
}

/// The body of a descriptor-creation answer: where the descriptor lives.
pub struct MetadataResponse {
    pub url: String,
}

/// What a job's reported state means to the workflow.
#[derive(Clone, Copy, Debug, PartialEq, Eq, Structural)]
pub enum JobStatus {
    /// Work is still in progress; poll again.
    Pending,
    /// The job finished and its result is available.
    Done,
    /// The service gave the job up; retrying cannot help.
    Failed,
}

/// Why the job service could not deliver a result.
#[derive(Clone, Copy, Debug, PartialEq, Eq)]
pub enum JobFault {
    /// The service reported the job itself as failed.
    Service,
    /// A request came back with this non-success HTTP status.
    Http(u16),
}

/// One poll of the job-status endpoint, as the transport observed it.
pub enum JobObservation {
    /// A successful request with this parsed body.
    Response(StatusResponse),
    /// A request that failed with this HTTP status.
    TransportFailure(u16),
}

/// What a status string denotes: only `"done"` and `"failed"` are
/// terminal; every other string means the job is still pending.
pub open spec fn spec_job_status(s: Seq<char>) -> JobStatus {
    if s == "done"@ {
        JobStatus::Done
    } else if s == "failed"@ {
        JobStatus::Failed
    } else {
        JobStatus::Pending
    }
}

/// Whether an HTTP status code reports success.
pub open spec fn spec_http_success(status: u16) -> bool {
    200 <= status < 300
}

/// Whether an HTTP status code is in the success class.
pub fn http_success(status: u16) -> (r: bool)
    ensures
        r == spec_http_success(status),
{
    200 <= status && status < 300
}

/// Read a job's reported state.
pub fn job_status(s: &String) -> (r: JobStatus)
    ensures
        r == spec_job_status(s@),
{
    let done: String = "done".to_owned();
    let failed: String = "failed".to_owned();
    if done.eq(s) {
        JobStatus::Done
    } else if failed.eq(s) {
        JobStatus::Failed
    } else {
        JobStatus::Pending
    }
}

/// What one job-status observation means to the poller: a done job is
/// ready with its result's location, a failed job and a failed request are
/// fatal, and anything else asks for another attempt.
pub open spec fn spec_classify_observation(o: JobObservation) -> PollOutcome<String, JobFault> {
    match o {
        JobObservation::TransportFailure(status) => PollOutcome::Fatal(JobFault::Http(status)),
        JobObservation::Response(resp) => match spec_job_status(resp.status@) {
            JobStatus::Done => PollOutcome::Ready(resp.url),
            JobStatus::Failed => PollOutcome::Fatal(JobFault::Service),
            JobStatus::Pending => PollOutcome::NotYetReady,
        },
    }
}

/// Decide what one job-status observation means.
pub fn classify_observation(o: JobObservation) -> (r: PollOutcome<String, JobFault>)
    ensures
        r == spec_classify_observation(o),
{
    match o {
        JobObservation::TransportFailure(status) => PollOutcome::Fatal(JobFault::Http(status)),
        JobObservation::Response(resp) => match job_status(&resp.status) {
            JobStatus::Done => PollOutcome::Ready(resp.url),
            JobStatus::Failed => PollOutcome::Fatal(JobFault::Service),
            JobStatus::Pending => PollOutcome::NotYetReady,
        },
    }
}

/// The poll outcomes a sequence of observations denotes, in order.
pub open spec fn spec_observed_outcomes(obs: Seq<JobObservation>) -> Seq<
    PollOutcome<String, JobFault>,
> {
    obs.map_values(|o: JobObservation| spec_classify_observation(o))
}

/// Await a job's completion over the status observations the transport
/// reports on successive polls: the location of the job's result once a
/// poll reports it done, a fatal error as soon as one reports it failed or
/// a request fails, and a timeout when the attempt budget runs out first.
/// Also returns how many polls were made and how many interval-long waits
/// occurred.
#[verifier::loop_isolation(false)]
pub fn await_completion(observations: Vec<JobObservation>, interval: u64, max_attempts: u64) -> (r:
    (Result<String, PollError<JobFault>>, u64, u64))
    requires
        max_attempts >= 1,
        observations@.len() >= max_attempts,
    ensures
        r.0 == spec_poll(spec_observed_outcomes(observations@), max_attempts as nat),
        r.1 == spec_poll_invocations(spec_observed_outcomes(observations@), max_attempts as nat),
        1 <= r.1 <= max_attempts,
        r.2 == r.1 - 1,
{
    let ghost all = observations@;
    let mut remaining = observations;
    let mut outcomes: Vec<PollOutcome<String, JobFault>> = Vec::new();
    let ghost mut i: int = 0;
    while remaining.len() > 0
        invariant
            0 <= i <= all.len(),
            remaining@ =~= all.skip(i),
            outcomes@.len() == i,
            forall|k: int| 0 <= k < i ==> outcomes@[k] == spec_classify_observation(all[k]),
        decreases remaining@.len(),
    {
        let o = remaining.remove(0);
        outcomes.push(classify_observation(o));
        proof {
            assert(all.skip(i).remove(0) =~= all.skip(i + 1));
            i = i + 1;
        }
    }
    proof {
        assert(outcomes@ =~= spec_observed_outcomes(all));
    }
    poll_script(outcomes, interval, max_attempts)
}

/// The verdict on a job-creation request: a success-class answer hands the
/// workflow the assigned job, any other status is fatal at once —
/// submissions are not idempotent-safe to blindly retry.
pub fn classify_submission(status: u16, body: JobResponse) -> (r: Result<JobResponse, JobFault>)
    ensures
        spec_http_success(status) ==> r == Ok::<JobResponse, JobFault>(body),
        !spec_http_success(status) ==> r == Err::<JobResponse, JobFault>(JobFault::Http(status)),
{
    if http_success(status) {
        Ok(body)
    } else {
        Err(JobFault::Http(status))
    }
}

/// The verdict on a descriptor-creation request: a success-class answer
/// hands the workflow the descriptor's location, any other status is fatal
/// and surfaces the code for diagnosability.
pub fn classify_metadata_write(status: u16, body: MetadataResponse) -> (r: Result<
    MetadataResponse,
    JobFault,
>)
    ensures
        spec_http_success(status) ==> r == Ok::<MetadataResponse, JobFault>(body),
        !spec_http_success(status) ==> r == Err::<MetadataResponse, JobFault>(
            JobFault::Http(status),
        ),
{
    if http_success(status) {
        Ok(body)
    } else {
        Err(JobFault::Http(status))
    }
}

} // verus!
