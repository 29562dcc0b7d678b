use job_scraper::error::{Error, ErrorKind};
use job_scraper::job::Job;
use job_scraper::job_action::{Action, JobAction};
use job_scraper::job_status::JobStatus;
use job_scraper::results::ResultMap;
use job_scraper::use_cases::{
    begin_execution, conclude_execution, require_job, ScrapeOutcome, EXECUTION_TIMEOUT_SECS,
};

fn pending() -> Job {
    Job::new(
        vec![JobAction { action: Action::ExtractUrl, result_key: None, timeout: None }],
        None,
    )
    .unwrap()
}

#[test]
fn a_missing_job_is_not_found() {
    let error = require_job(0x67e5504410b1426f9247bb680e5fe0c8, None).unwrap_err();
    assert_eq!(error.kind(), ErrorKind::NotFound);
    assert_eq!(error.to_string(), "Job with ID 67e55044-10b1-426f-9247-bb680e5fe0c8 not found");
    let job = pending();
    let id = job.id();
    assert_eq!(require_job(id, Some(job)).unwrap().id(), id);
}

#[test]
fn execution_starts_a_pending_job() {
    let started = begin_execution(1, Some(pending())).unwrap();
    assert_eq!(started.status(), JobStatus::InProgress);
    assert_eq!(begin_execution(1, None).unwrap_err().kind(), ErrorKind::NotFound);
    let error = begin_execution(1, Some(started)).unwrap_err();
    assert_eq!(error.to_string(), "cannot start a job in status InProgress");
}

#[test]
fn every_outcome_finishes_the_job() {
    let mut results = ResultMap::new();
    results.insert("k".to_string(), "v".to_string());
    let mut done = begin_execution(1, Some(pending())).unwrap();
    conclude_execution(&mut done, ScrapeOutcome::Succeeded(results)).unwrap();
    assert_eq!(done.status(), JobStatus::Completed);

    let mut failed = begin_execution(1, Some(pending())).unwrap();
    conclude_execution(
        &mut failed,
        ScrapeOutcome::Failed(Error::NetworkError("connection reset".to_string())),
    )
    .unwrap();
    assert_eq!(failed.status(), JobStatus::Failed);
    assert_eq!(failed.error(), Some("connection reset"));

    let mut timed_out = begin_execution(1, Some(pending())).unwrap();
    conclude_execution(&mut timed_out, ScrapeOutcome::TimedOut).unwrap();
    assert_eq!(timed_out.status(), JobStatus::Failed);
    assert_eq!(
        timed_out.error(),
        Some(
            "Job execution timed out after 270s \
             (the browser/CDP connection likely became unresponsive)"
        )
    );
    assert_eq!(EXECUTION_TIMEOUT_SECS, 270);
}

#[test]
fn concluding_a_job_that_is_not_running_is_refused() {
    let mut job = pending();
    let error = conclude_execution(&mut job, ScrapeOutcome::TimedOut).unwrap_err();
    assert_eq!(error.to_string(), "cannot fail a job in status Pending");
    assert_eq!(job.status(), JobStatus::Pending);
    let error =
        conclude_execution(&mut job, ScrapeOutcome::Succeeded(ResultMap::new())).unwrap_err();
    assert_eq!(error.to_string(), "cannot complete a job in status Pending");
}
