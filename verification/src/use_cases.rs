use vstd::prelude::*;
use crate::error::{Error, ErrorKind, ErrorView, error_of};
use crate::external::{decimal_text, int_text, uuid_string, uuid_text};
use crate::job::{
    Job, JobView, complete_step, fail_step, lifecycle_consistent, refusal, start_step,
    lemma_start_keeps_lifecycle, lemma_complete_keeps_lifecycle, lemma_fail_keeps_lifecycle,
};
use crate::job_status::{JobStatus, is_terminal};
use crate::results::ResultMap;
use crate::text::concat;

verus! {

/// How long a job's browser work may take, in seconds: comfortably below the 300 seconds
/// after which the executor is killed, so that a hung browser connection still leaves time
/// to record the job as failed instead of leaving it in progress forever.
pub const EXECUTION_TIMEOUT_SECS: u64 = 270;

/// The message for a job id that names no job.
pub open spec fn not_found_message(job_id: u128) -> Seq<char> {
    "Job with ID "@ + uuid_text(job_id) + " not found"@
}

/// The error for a job id that names no job.
pub fn job_not_found(job_id: u128) -> (e: Error)
    ensures
        e@ == error_of(ErrorKind::NotFound, not_found_message(job_id)),
{
    let head = concat("Job with ID ", uuid_string(job_id).as_str());
    Error::NotFound(concat(head.as_str(), " not found"))
}

/// The job that a lookup found, or the not-found error for its id.
pub fn require_job(job_id: u128, found: Option<Job>) -> (r: Result<Job, Error>)
    ensures
        match found {
            Some(j) => r matches Ok(k) && k@ == j@,
            None => r matches Err(e) && e@ == error_of(
                ErrorKind::NotFound,
                not_found_message(job_id),
            ),
        },
{
    match found {
        Some(job) => Ok(job),
        None => Err(job_not_found(job_id)),
    }
}

/// The job to run, started: a missing job is not found, and a job that is not pending is
/// refused as `start` refuses it.
pub fn begin_execution(job_id: u128, found: Option<Job>) -> (r: Result<Job, Error>)
    ensures
        match found {
            None => r matches Err(e) && e@ == error_of(
                ErrorKind::NotFound,
                not_found_message(job_id),
            ),
            Some(j) => if j@.status == JobStatus::Pending {
                r matches Ok(k) && start_step(j@, k@)
            } else {
                r matches Err(e) && e@ == refusal("start"@, j@.status)
            },
        },
{
    let mut job = require_job(job_id, found)?;
    job.start()?;
    Ok(job)
}

/// How a job's browser work ended.
#[derive(Debug)]
pub enum ScrapeOutcome {
    Succeeded(ResultMap),
    Failed(Error),
    TimedOut,
}

pub enum ScrapeOutcomeView {
    Succeeded(Map<Seq<char>, Seq<char>>),
    Failed(ErrorView),
    TimedOut,
}

impl View for ScrapeOutcome {
    type V = ScrapeOutcomeView;

    open spec fn view(&self) -> ScrapeOutcomeView {
        match self {
            ScrapeOutcome::Succeeded(r) => ScrapeOutcomeView::Succeeded(r@),
            ScrapeOutcome::Failed(e) => ScrapeOutcomeView::Failed(e@),
            ScrapeOutcome::TimedOut => ScrapeOutcomeView::TimedOut,
        }
    }
}

/// The message with which a job that ran out of time fails.
pub open spec fn timeout_message() -> Seq<char> {
    "Job execution timed out after "@ + decimal_text(EXECUTION_TIMEOUT_SECS as int)
        + "s (the browser/CDP connection likely became unresponsive)"@
}

/// The message with which a job that ran out of time fails.
fn timed_out_message() -> (m: String)
    ensures
        m@ == timeout_message(),
{
    let seconds = int_text(EXECUTION_TIMEOUT_SECS as i64);
    let head = concat("Job execution timed out after ", seconds.as_str());
    concat(head.as_str(), "s (the browser/CDP connection likely became unresponsive)")
}

/// `after` is `before` once the outcome is recorded: results complete it, an error fails it
/// with the error's message, and running out of time fails it with the timeout message.
pub open spec fn concluded(before: JobView, outcome: ScrapeOutcomeView, after: JobView) -> bool {
    match outcome {
        ScrapeOutcomeView::Succeeded(results) => complete_step(before, results, after),
        ScrapeOutcomeView::Failed(e) => fail_step(before, e.message, after),
        ScrapeOutcomeView::TimedOut => fail_step(before, timeout_message(), after),
    }
}

/// Concluding a job keeps what the browser work gave: on success the job is completed with
/// exactly the results the scraper returned; on a failure it is failed with the error's
/// message; on a timeout it is failed with the timeout message. Its identity, actions,
/// settings and start time stay, and it gets a finish time.
pub proof fn lemma_conclusion_keeps_the_outcome(
    before: JobView,
    outcome: ScrapeOutcomeView,
    after: JobView,
)
    requires
        concluded(before, outcome, after),
    ensures
        after.id == before.id,
        after.actions == before.actions,
        after.config == before.config,
        after.created_at == before.created_at,
        after.started_at == before.started_at,
        after.finished_at is Some,
        outcome matches ScrapeOutcomeView::Succeeded(results) ==> after.status
            == JobStatus::Completed && after.results == Some(results) && after.error
            == before.error,
        outcome matches ScrapeOutcomeView::Failed(e) ==> after.status == JobStatus::Failed
            && after.error == Some(e.message) && after.results == before.results,
        outcome is TimedOut ==> after.status == JobStatus::Failed && after.error == Some(
            timeout_message(),
        ) && after.results == before.results,
{
}

/// The transition that recording an outcome asks for.
pub open spec fn concluding_verb(outcome: ScrapeOutcomeView) -> Seq<char> {
    match outcome {
        ScrapeOutcomeView::Succeeded(_) => "complete"@,
        _ => "fail"@,
    }
}

/// Records how a running job's browser work ended: a job in progress always takes the
/// outcome; any other job is left unchanged and the call is refused.
pub fn conclude_execution(job: &mut Job, outcome: ScrapeOutcome) -> (r: Result<(), Error>)
    ensures
        r is Ok <==> old(job)@.status == JobStatus::InProgress,
        r is Ok ==> concluded(old(job)@, outcome@, final(job)@),
        r matches Err(e) ==> final(job)@ == old(job)@ && e@ == refusal(
            concluding_verb(outcome@),
            old(job)@.status,
        ),
{
    match outcome {
        ScrapeOutcome::Succeeded(results) => job.complete(results),
        ScrapeOutcome::Failed(error) => job.fail(error.to_string()),
        ScrapeOutcome::TimedOut => job.fail(timed_out_message()),
    }
}

/// A job that execution began on ends, whatever the browser work's outcome, in a terminal
/// status with a consistent lifecycle: completed exactly when the work succeeded. No
/// execution leaves a job in progress.
pub proof fn lemma_execution_always_concludes(
    loaded: JobView,
    started: JobView,
    outcome: ScrapeOutcomeView,
    finished: JobView,
)
    requires
        lifecycle_consistent(loaded),
        start_step(loaded, started),
        concluded(started, outcome, finished),
    ensures
        is_terminal(finished.status),
        finished.status == JobStatus::Completed <==> outcome is Succeeded,
        lifecycle_consistent(finished),
        finished.id == loaded.id,
        finished.actions == loaded.actions,
{
    lemma_start_keeps_lifecycle(loaded, started);
    match outcome {
        ScrapeOutcomeView::Succeeded(results) => {
            lemma_complete_keeps_lifecycle(started, results, finished);
        },
        ScrapeOutcomeView::Failed(e) => {
            lemma_fail_keeps_lifecycle(started, e.message, finished);
        },
        ScrapeOutcomeView::TimedOut => {
            lemma_fail_keeps_lifecycle(started, timeout_message(), finished);
        },
    }
}

} // verus!
