use job_scraper::job_action::{Action, ValueSource};
use job_scraper::job_status::JobStatus;
use job_scraper::run_job::{job, literal, parse_cookies};

#[test]
fn parses_secure_and_host_only_cookies() {
    let cookies = parse_cookies(
        " __Secure-next-auth.session-token = abc ; __Host-next-auth.csrf-token=def;plain=1",
    );
    assert_eq!(cookies.len(), 3);
    assert_eq!(cookies[0].name, "__Secure-next-auth.session-token");
    assert_eq!(cookies[0].value, "abc");
    assert_eq!(cookies[0].domain.as_deref(), Some(".wallapop.com"));
    assert_eq!(cookies[0].path.as_deref(), Some("/"));
    assert_eq!(cookies[0].secure, Some(true));
    assert_eq!(cookies[1].name, "__Host-next-auth.csrf-token");
    assert_eq!(cookies[1].value, "def");
    assert_eq!(cookies[1].domain, None);
    assert_eq!(cookies[2].name, "plain");
    assert_eq!(cookies[2].value, "1");
}

#[test]
fn skips_pairs_without_a_name_or_an_equals_sign() {
    let cookies = parse_cookies("novalue; =x;  ; a=b=c;");
    assert_eq!(cookies.len(), 1);
    assert_eq!(cookies[0].name, "a");
    assert_eq!(cookies[0].value, "b=c");
    assert!(parse_cookies("").is_empty());
}

#[test]
fn keeps_empty_values_and_trims_unicode_spaces() {
    let cookies = parse_cookies("k=\u{00a0}\tv\u{3000};e=");
    assert_eq!(cookies.len(), 2);
    assert_eq!(cookies[0].value, "v");
    assert_eq!(cookies[1].name, "e");
    assert_eq!(cookies[1].value, "");
}

#[test]
fn literal_wraps_the_text() {
    match literal("Nuevo") {
        ValueSource::Literal(text) => assert_eq!(text, "Nuevo"),
        other => panic!("unexpected {:?}", other),
    }
}

#[test]
fn builds_the_publish_job() {
    let job = job("a=1; __Host-b=2", "https://img/x.png".to_string(), Some("http://p".to_string()))
        .unwrap();
    assert_eq!(job.status(), JobStatus::Pending);
    let actions = job.actions();
    assert_eq!(actions.len(), 19);
    match &actions[0].action {
        Action::Navigate { url } => {
            assert_eq!(url, "https://es.wallapop.com/app/catalog/upload/consumer-goods")
        }
        other => panic!("unexpected {:?}", other),
    }
    match &actions[5].action {
        Action::UploadFile { selector, urls } => {
            assert_eq!(selector, "input#dropAreaPreviewInput");
            assert_eq!(urls, &vec!["https://img/x.png".to_string()]);
        }
        other => panic!("unexpected {:?}", other),
    }
    match &actions[15].action {
        Action::Fill { selector, text: ValueSource::Literal(text) } => {
            assert_eq!(selector, "input[name='price_amount']");
            assert_eq!(text, "1");
        }
        other => panic!("unexpected {:?}", other),
    }
    assert!(matches!(actions[18].action, Action::ExtractUrl));
    assert_eq!(actions[18].result_key.as_deref(), Some("final_url"));
    let config = job.config().unwrap();
    assert_eq!(config.proxy.as_deref(), Some("http://p"));
    assert!(config.user_agent.is_none());
    let cookies = config.cookies.as_ref().unwrap();
    assert_eq!(cookies.len(), 2);
    assert_eq!(cookies[1].domain, None);
}
