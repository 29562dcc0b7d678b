use job_scraper::job::Job;
use job_scraper::job_action::{Action, JobAction};
use job_scraper::job_status::JobStatus;
use job_scraper::repository::{
    actions_s3_key, job_from_record, must_offload, offloaded_keys, payload_source, place_payload,
    record_for_job, require_actions_payload, results_s3_key, PayloadSource,
    DEFAULT_S3_OFFLOAD_THRESHOLD_BYTES,
};
use job_scraper::results::ResultMap;

const ID: u128 = 0x67e5504410b1426f9247bb680e5fe0c8;

#[test]
fn object_keys_follow_the_job_id() {
    assert_eq!(actions_s3_key(ID), "jobs/67e55044-10b1-426f-9247-bb680e5fe0c8/actions.json");
    assert_eq!(results_s3_key(ID), "jobs/67e55044-10b1-426f-9247-bb680e5fe0c8/results.json");
}

#[test]
fn large_payloads_are_offloaded() {
    assert_eq!(DEFAULT_S3_OFFLOAD_THRESHOLD_BYTES, 300000);
    assert!(!must_offload("abcd", 4));
    assert!(must_offload("abcde", 4));
    assert!(must_offload("ééé", 5));
    assert!(!must_offload("éé", 4));
    assert_eq!(
        place_payload("k".to_string(), "abcd".to_string(), 4),
        (Some("abcd".to_string()), None)
    );
    assert_eq!(
        place_payload("k".to_string(), "abcde".to_string(), 4),
        (None, Some("k".to_string()))
    );
}

#[test]
fn payloads_are_read_from_where_they_were_put() {
    let (inline, key) = place_payload("k".to_string(), "[1]".to_string(), 10);
    assert!(matches!(payload_source(inline, key), PayloadSource::Inline(p) if p == "[1]"));
    let (inline, key) = place_payload("k".to_string(), "[1,2,3,4,5]".to_string(), 10);
    assert!(matches!(payload_source(inline, key), PayloadSource::Fetch(k) if k == "k"));
    assert!(matches!(payload_source(None, None), PayloadSource::Absent));
    assert!(matches!(
        payload_source(Some("x".to_string()), Some("k".to_string())),
        PayloadSource::Inline(p) if p == "x"
    ));
}

#[test]
fn a_record_without_actions_is_refused() {
    let error = require_actions_payload(None).unwrap_err();
    assert_eq!(error.to_string(), "job record has neither inline actions nor an S3 key");
    assert_eq!(require_actions_payload(Some("[]".to_string())).unwrap(), "[]");
}

#[test]
fn a_stored_job_reads_back_the_same() {
    let actions = vec![JobAction {
        action: Action::Navigate { url: "https://example.com".to_string() },
        result_key: None,
        timeout: Some(5),
    }];
    let mut job = Job::new(actions.clone(), None).unwrap();
    job.start().unwrap();
    let mut results = ResultMap::new();
    results.insert("title".to_string(), "rust".to_string());
    job.complete(results).unwrap();

    let placed_actions = place_payload(actions_s3_key(job.id()), "[...]".to_string(), 2);
    let placed_results = place_payload(results_s3_key(job.id()), "{}".to_string(), 2);
    let record = record_for_job(&job, placed_actions, placed_results);
    assert_eq!(record.actions_inline, None);
    assert_eq!(record.actions_s3_key.as_deref(), Some(actions_s3_key(job.id()).as_str()));
    assert_eq!(record.results_inline.as_deref(), Some("{}"));
    assert_eq!(offloaded_keys(&record), vec![actions_s3_key(job.id())]);

    let mut again = ResultMap::new();
    again.insert("title".to_string(), "rust".to_string());
    let back = job_from_record(record, actions, Some(again));
    assert_eq!(back.id(), job.id());
    assert_eq!(back.status(), JobStatus::Completed);
    assert_eq!(back.created_at(), job.created_at());
    assert_eq!(back.started_at(), job.started_at());
    assert_eq!(back.finished_at(), job.finished_at());
    assert_eq!(back.results().unwrap().get(&"title".to_string()).unwrap(), "rust");
}
