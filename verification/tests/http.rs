use job_scraper::api_response::{status_code_for, ApiResponse, ResponsePlan};
use job_scraper::auth::authorize;
use job_scraper::error::{Error, ErrorKind};
use job_scraper::http::JobResponse;
use job_scraper::job::Job;
use job_scraper::job_action::{Action, JobAction};
use job_scraper::job_status::JobStatus;

#[test]
fn errors_map_to_statuses() {
    assert_eq!(status_code_for(&Error::NotFound(String::new())), 404);
    assert_eq!(status_code_for(&Error::InvalidInput(String::new())), 400);
    assert_eq!(status_code_for(&Error::Unauthorized(String::new())), 401);
    assert_eq!(status_code_for(&Error::NetworkError(String::new())), 502);
    assert_eq!(status_code_for(&Error::DatabaseError(String::new())), 500);
    assert_eq!(status_code_for(&Error::Unknown(String::new())), 500);
}

#[test]
fn responses_plan_success_failure_and_redirect() {
    match ApiResponse::default(Ok(7u32)).with_code(201).into_plan() {
        ResponsePlan::Success { status, payload } => {
            assert_eq!(status, 201);
            assert_eq!(payload, 7);
        }
        other => panic!("unexpected {:?}", other),
    }
    match ApiResponse::<u32>::default(Err(Error::NotFound("gone".to_string()))).into_plan() {
        ResponsePlan::Failure { status, message } => {
            assert_eq!(status, 404);
            assert_eq!(message, "gone");
        }
        other => panic!("unexpected {:?}", other),
    }
    match ApiResponse::<u32>::default(Err(Error::Unknown("x".to_string())))
        .success_on_error(true)
        .into_plan()
    {
        ResponsePlan::Failure { status, .. } => assert_eq!(status, 200),
        other => panic!("unexpected {:?}", other),
    }
    match ApiResponse::default(Ok(1u32))
        .with_redirect("https://a/b".to_string())
        .with_headers(vec![("set-cookie".to_string(), b"a=b".to_vec())])
        .into_plan()
    {
        ResponsePlan::Redirect { location, headers } => {
            assert_eq!(location, "https://a/b");
            assert_eq!(headers, vec![("set-cookie".to_string(), b"a=b".to_vec())]);
        }
        other => panic!("unexpected {:?}", other),
    }
    match ApiResponse::<u32>::default(Err(Error::Unknown("x".to_string())))
        .with_redirect("/".to_string())
        .into_plan()
    {
        ResponsePlan::Redirect { headers, .. } => assert!(headers.is_empty()),
        other => panic!("unexpected {:?}", other),
    }
}

#[test]
fn requests_need_the_secret_key() {
    let expected = "s3cret".to_string();
    assert!(authorize(Some("s3cret".to_string()), &expected).is_ok());
    let missing = authorize(None, &expected).unwrap_err();
    assert_eq!(missing.kind(), ErrorKind::Unauthorized);
    assert_eq!(missing.to_string(), "missing secret key");
    let wrong = authorize(Some("guess".to_string()), &expected).unwrap_err();
    assert_eq!(wrong.kind(), ErrorKind::Unauthorized);
    assert_eq!(wrong.to_string(), "invalid secret key");
}

#[test]
fn a_job_response_describes_the_job() {
    let mut job = Job::new(
        vec![JobAction { action: Action::ExtractUrl, result_key: None, timeout: None }],
        None,
    )
    .unwrap();
    job.start().unwrap();
    job.fail("boom".to_string()).unwrap();
    let response = JobResponse::from_job(&job);
    assert_eq!(response.id, job.id());
    assert_eq!(response.status, JobStatus::Failed);
    assert_eq!(response.actions.len(), 1);
    assert_eq!(response.error.as_deref(), Some("boom"));
    assert_eq!(response.started_at, job.started_at());
}
