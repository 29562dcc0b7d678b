use job_scraper::error::{Error, ErrorKind};
use job_scraper::job::Job;
use job_scraper::job_action::{Action, JobAction, ValueSource};
use job_scraper::results::ResultMap;
use job_scraper::scraper::{BrowserStep, JobRun, RunCommand, StepOutcome};

fn keyed(action: Action, key: &str) -> JobAction {
    JobAction { action, result_key: Some(key.to_string()), timeout: None }
}

fn perform_expected(run: &JobRun) -> (u64, BrowserStep) {
    match run.next_command() {
        RunCommand::Perform { timeout_ms, step } => (timeout_ms, step),
        other => panic!("unexpected {:?}", other),
    }
}

#[test]
fn a_run_records_each_value_and_later_keys_overwrite_earlier_ones() {
    let job = Job::new(
        vec![
            keyed(Action::ExtractUrl, "url"),
            JobAction {
                action: Action::Type {
                    selector: "#q".to_string(),
                    text: ValueSource::FromAction("url".to_string()),
                },
                result_key: None,
                timeout: Some(1000),
            },
            keyed(Action::ExtractUrl, "url"),
        ],
        None,
    )
    .unwrap();
    let mut run = JobRun::new(&job);

    let (timeout_ms, step) = perform_expected(&run);
    assert_eq!(timeout_ms, 30000);
    assert!(matches!(step, BrowserStep::ExtractUrl));
    assert!(run.on_outcome(StepOutcome::Produced(Some("https://a".to_string()))).is_none());

    let (timeout_ms, step) = perform_expected(&run);
    assert_eq!(timeout_ms, 1000);
    match step {
        BrowserStep::Type { selector, text } => {
            assert_eq!(selector, "#q");
            assert_eq!(text, "https://a");
        }
        other => panic!("unexpected {:?}", other),
    }
    assert!(run.on_outcome(StepOutcome::Produced(None)).is_none());

    perform_expected(&run);
    assert!(run.on_outcome(StepOutcome::Produced(Some("https://b".to_string()))).is_none());

    assert!(matches!(run.next_command(), RunCommand::Finished));
    let results = run.into_results();
    assert_eq!(results.len(), 1);
    assert_eq!(results.get(&"url".to_string()).map(|s| s.as_str()), Some("https://b"));
}

#[test]
fn a_run_stops_at_a_failed_step() {
    let job = Job::new(vec![keyed(Action::ExtractUrl, "a"), keyed(Action::ExtractUrl, "b")], None)
        .unwrap();
    let mut run = JobRun::new(&job);
    perform_expected(&run);
    let stop = run.on_outcome(StepOutcome::Failed(Error::NetworkError("gone".to_string())));
    let error = stop.unwrap();
    assert_eq!(error.kind(), ErrorKind::NetworkError);
    assert_eq!(error.to_string(), "gone");
    assert_eq!(run.into_results().len(), 0);
}

#[test]
fn a_run_stops_at_a_timed_out_step() {
    let job = Job::new(vec![keyed(Action::ExtractUrl, "a"), keyed(Action::ExtractUrl, "b")], None)
        .unwrap();
    let mut run = JobRun::new(&job);
    perform_expected(&run);
    assert!(run.on_outcome(StepOutcome::Produced(Some("x".to_string()))).is_none());
    perform_expected(&run);
    let error = run.on_outcome(StepOutcome::TimedOut).unwrap();
    assert_eq!(error.kind(), ErrorKind::NetworkError);
    assert_eq!(error.to_string(), "action timed out");
    let results = run.into_results();
    assert_eq!(results.len(), 1);
    assert_eq!(results.get(&"a".to_string()).map(|s| s.as_str()), Some("x"));
}

#[test]
fn a_run_stops_where_a_value_is_missing() {
    let job = Job::new(
        vec![JobAction {
            action: Action::Fill {
                selector: "#t".to_string(),
                text: ValueSource::FromAction("title".to_string()),
            },
            result_key: None,
            timeout: None,
        }],
        None,
    )
    .unwrap();
    let run = JobRun::new(&job);
    match run.next_command() {
        RunCommand::Stopped(error) => {
            assert_eq!(error.kind(), ErrorKind::InvalidInput);
            assert_eq!(error.to_string(), "no result found for key 'title'");
        }
        other => panic!("unexpected {:?}", other),
    }
}

#[test]
fn results_round_trip_through_json() {
    let mut results = ResultMap::new();
    results.insert("title".to_string(), "rust \"book\"\n".to_string());
    results.insert("price".to_string(), "12 €".to_string());
    let text = results.to_json();
    assert_eq!(text, r#"{"price":"12 €","title":"rust \"book\"\n"}"#);
    let back = ResultMap::from_json(&text).unwrap();
    assert_eq!(back.len(), 2);
    assert_eq!(back.get(&"title".to_string()).map(|s| s.as_str()), Some("rust \"book\"\n"));
    assert_eq!(back.get(&"price".to_string()).map(|s| s.as_str()), Some("12 €"));
    assert_eq!(ResultMap::new().to_json(), "{}");
}

#[test]
fn results_json_that_is_no_object_of_strings_is_refused() {
    let error = ResultMap::from_json("[1, 2]").unwrap_err();
    assert_eq!(error.kind(), ErrorKind::Unknown);
    assert!(!error.to_string().is_empty());
    assert!(ResultMap::from_json(r#"{"a": 1}"#).is_err());
    let read = ResultMap::from_json(r#"{"title":"rust"}"#).unwrap();
    assert_eq!(read.get(&"title".to_string()).map(|s| s.as_str()), Some("rust"));
}
