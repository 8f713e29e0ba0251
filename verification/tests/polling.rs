use mubert_cli::job::{await_completion, JobFault, JobObservation, StatusResponse};
use mubert_cli::poller::{poll_script, PollError, PollOutcome};

fn status(status: &str, url: &str) -> JobObservation {
    JobObservation::Response(StatusResponse {
        id: "job-1".to_string(),
        status: status.to_string(),
        url: url.to_string(),
    })
}

#[test]
fn ready_on_first_attempt_waits_zero_times() {
    let outcomes: Vec<PollOutcome<u32, u8>> =
        vec![PollOutcome::Ready(7), PollOutcome::NotYetReady, PollOutcome::NotYetReady];
    let (result, invocations, waits) = poll_script(outcomes, 5, 3);
    assert_eq!(result, Ok(7));
    assert_eq!(invocations, 1);
    assert_eq!(waits, 0);
}

#[test]
fn budget_exhaustion_is_a_timeout() {
    let outcomes: Vec<PollOutcome<u32, u8>> =
        vec![PollOutcome::NotYetReady, PollOutcome::NotYetReady, PollOutcome::NotYetReady];
    let (result, invocations, waits) = poll_script(outcomes, 5, 3);
    assert_eq!(result, Err(PollError::Timeout));
    assert_eq!(invocations, 3);
    assert_eq!(waits, 2);
}

#[test]
fn fatal_outcome_stops_before_the_budget() {
    let outcomes: Vec<PollOutcome<u32, u8>> = vec![
        PollOutcome::NotYetReady,
        PollOutcome::Fatal(9),
        PollOutcome::NotYetReady,
        PollOutcome::NotYetReady,
    ];
    let (result, invocations, _waits) = poll_script(outcomes, 5, 4);
    assert_eq!(result, Err(PollError::Fatal(9)));
    assert_eq!(invocations, 2);
}

#[test]
fn budget_of_one_gives_a_single_attempt() {
    let outcomes: Vec<PollOutcome<u32, u8>> = vec![PollOutcome::NotYetReady];
    let (result, invocations, waits) = poll_script(outcomes, 5, 1);
    assert_eq!(result, Err(PollError::Timeout));
    assert_eq!(invocations, 1);
    assert_eq!(waits, 0);
}

#[test]
fn ready_after_retries_counts_every_attempt() {
    let outcomes: Vec<PollOutcome<u32, u8>> =
        vec![PollOutcome::NotYetReady, PollOutcome::NotYetReady, PollOutcome::Ready(1)];
    let (result, invocations, waits) = poll_script(outcomes, 5, 3);
    assert_eq!(result, Ok(1));
    assert_eq!(invocations, 3);
    assert_eq!(waits, 2);
}

#[test]
fn job_done_after_two_pending_polls() {
    // Status sequence [pending, pending, done] over three polls: the job's
    // location comes back after exactly three operation invocations.
    let observations = vec![
        status("pending", ""),
        status("pending", ""),
        status("done", "https://results.test/fp-1"),
    ];
    let (result, invocations, waits) = await_completion(observations, 1, 3);
    assert_eq!(result, Ok("https://results.test/fp-1".to_string()));
    assert_eq!(invocations, 3);
    assert_eq!(waits, 2);
}

#[test]
fn job_failure_stops_polling() {
    // Status sequence [pending, failed]: a fatal error after exactly two
    // invocations, and no further polling.
    let observations = vec![status("pending", ""), status("failed", ""), status("done", "late")];
    let (result, invocations, _waits) = await_completion(observations, 1, 3);
    assert_eq!(result, Err(PollError::Fatal(JobFault::Service)));
    assert_eq!(invocations, 2);
}

#[test]
fn transport_failure_is_fatal() {
    let observations = vec![status("pending", ""), JobObservation::TransportFailure(503)];
    let (result, invocations, _waits) = await_completion(observations, 1, 2);
    assert_eq!(result, Err(PollError::Fatal(JobFault::Http(503))));
    assert_eq!(invocations, 2);
}

#[test]
fn pending_statuses_time_out() {
    let observations = vec![status("pending", ""), status("queued", ""), status("working", "")];
    let (result, invocations, _waits) = await_completion(observations, 1, 3);
    assert_eq!(result, Err(PollError::Timeout));
    assert_eq!(invocations, 3);
}
