use job_scraper::error::ErrorKind;
use job_scraper::external::Timestamp;
use job_scraper::job::Job;
use job_scraper::job_action::{Action, JobAction};
use job_scraper::job_status::JobStatus;
use job_scraper::results::ResultMap;

fn one_action() -> Vec<JobAction> {
    vec![JobAction {
        action: Action::Navigate { url: "https://example.com".to_string() },
        result_key: None,
        timeout: None,
    }]
}

#[test]
fn a_job_needs_actions() {
    let error = Job::new(Vec::new(), None).unwrap_err();
    assert_eq!(error.kind(), ErrorKind::InvalidInput);
    assert_eq!(error.to_string(), "a job must have at least one action");
}

#[test]
fn a_new_job_is_pending() {
    let job = Job::new(one_action(), None).unwrap();
    assert_eq!(job.status(), JobStatus::Pending);
    assert_eq!(job.actions().len(), 1);
    assert!(job.started_at().is_none());
    assert!(job.finished_at().is_none());
    assert!(job.error().is_none());
    assert!(job.results().is_none());
    assert_eq!((job.id() >> 76) & 0xf, 4);
}

#[test]
fn a_job_completes_after_starting() {
    let mut job = Job::new(one_action(), None).unwrap();
    job.start().unwrap();
    assert_eq!(job.status(), JobStatus::InProgress);
    assert!(job.started_at().is_some());
    let mut results = ResultMap::new();
    results.insert("title".to_string(), "rust".to_string());
    job.complete(results).unwrap();
    assert_eq!(job.status(), JobStatus::Completed);
    assert!(job.finished_at().is_some());
    assert_eq!(job.results().unwrap().get(&"title".to_string()).unwrap(), "rust");
}

#[test]
fn a_job_fails_after_starting() {
    let mut job = Job::new(one_action(), None).unwrap();
    job.start().unwrap();
    job.fail("boom".to_string()).unwrap();
    assert_eq!(job.status(), JobStatus::Failed);
    assert_eq!(job.error(), Some("boom"));
    assert!(job.results().is_none());
}

#[test]
fn transitions_out_of_order_are_refused() {
    let mut job = Job::new(one_action(), None).unwrap();
    let error = job.complete(ResultMap::new()).unwrap_err();
    assert_eq!(error.to_string(), "cannot complete a job in status Pending");
    let error = job.fail("x".to_string()).unwrap_err();
    assert_eq!(error.to_string(), "cannot fail a job in status Pending");
    assert_eq!(job.status(), JobStatus::Pending);
    job.start().unwrap();
    let error = job.start().unwrap_err();
    assert_eq!(error.kind(), ErrorKind::InvalidInput);
    assert_eq!(error.to_string(), "cannot start a job in status InProgress");
}

#[test]
fn a_finished_job_accepts_no_transition() {
    let mut job = Job::new(one_action(), None).unwrap();
    job.start().unwrap();
    job.complete(ResultMap::new()).unwrap();
    let finished = job.finished_at();
    assert_eq!(job.start().unwrap_err().to_string(), "cannot start a job in status Completed");
    assert_eq!(
        job.fail("late".to_string()).unwrap_err().to_string(),
        "cannot fail a job in status Completed"
    );
    assert_eq!(job.status(), JobStatus::Completed);
    assert_eq!(job.finished_at(), finished);
    assert!(job.error().is_none());

    let mut failed = Job::new(one_action(), None).unwrap();
    failed.start().unwrap();
    failed.fail("boom".to_string()).unwrap();
    assert_eq!(
        failed.complete(ResultMap::new()).unwrap_err().to_string(),
        "cannot complete a job in status Failed"
    );
    assert_eq!(failed.error(), Some("boom"));
}

#[test]
fn identity_survives_the_lifecycle() {
    let mut job = Job::new(one_action(), None).unwrap();
    let id = job.id();
    let created = job.created_at();
    job.start().unwrap();
    job.fail("boom".to_string()).unwrap();
    assert_eq!(job.id(), id);
    assert_eq!(job.created_at(), created);
    assert_eq!(job.actions().len(), 1);
}

#[test]
fn result_maps_keep_the_last_value() {
    let mut results = ResultMap::new();
    results.insert("a".to_string(), "1".to_string());
    results.insert("b".to_string(), "2".to_string());
    results.insert("a".to_string(), "3".to_string());
    assert_eq!(results.len(), 2);
    assert_eq!(results.get(&"a".to_string()).unwrap(), "3");
    assert!(results.get(&"c".to_string()).is_none());
    let rebuilt = ResultMap::from_pairs(results.to_pairs());
    assert_eq!(rebuilt.len(), 2);
    assert_eq!(rebuilt.get(&"b".to_string()).unwrap(), "2");
    let dup = ResultMap::from_pairs(vec![
        ("k".to_string(), "x".to_string()),
        ("k".to_string(), "y".to_string()),
    ]);
    assert_eq!(dup.len(), 1);
    assert_eq!(dup.get(&"k".to_string()).unwrap(), "y");
}

#[test]
fn transitions_record_the_given_times() {
    let created = Timestamp { seconds: 100, nanos: 5 };
    let started = Timestamp { seconds: 200, nanos: 0 };
    let finished = Timestamp { seconds: 300, nanos: 7 };
    let actions = vec![JobAction {
        action: Action::ExtractUrl,
        result_key: None,
        timeout: None,
    }];
    assert!(Job::new_at(vec![], None, 7, created).is_err());
    let mut job = Job::new_at(actions.clone(), None, 7, created).unwrap();
    assert_eq!(job.id(), 7);
    assert_eq!(job.created_at(), created);
    assert_eq!(job.status(), JobStatus::Pending);
    assert!(job.complete_at(ResultMap::new(), finished).is_err());
    job.start_at(started).unwrap();
    assert_eq!(job.started_at(), Some(started));
    assert!(job.start_at(finished).is_err());
    assert_eq!(job.started_at(), Some(started));
    job.complete_at(ResultMap::new(), finished).unwrap();
    assert_eq!(job.finished_at(), Some(finished));
    assert_eq!(job.status(), JobStatus::Completed);

    let mut failing = Job::new_at(actions, None, 8, created).unwrap();
    failing.start_at(started).unwrap();
    failing.fail_at("boom".to_string(), finished).unwrap();
    assert_eq!(failing.finished_at(), Some(finished));
    assert_eq!(failing.error(), Some("boom"));
    assert_eq!(failing.status(), JobStatus::Failed);
}
