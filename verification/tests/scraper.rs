use job_scraper::error::ErrorKind;
use job_scraper::job::Job;
use job_scraper::job_action::{Action, JobAction, ScrollDirection, ValueSource};
use job_scraper::job_config::JobConfig;
use job_scraper::results::ResultMap;
use job_scraper::scraper::{BrowserStep, ChromiumoxideScraper, DEFAULT_ACTION_TIMEOUT_MS};
use std::path::PathBuf;

#[test]
fn resolves_a_literal_value() {
    let results = ResultMap::new();
    let value = ChromiumoxideScraper::resolve_value_source(
        &ValueSource::Literal("hello".to_string()),
        &results,
    )
    .unwrap();

    assert_eq!(value, "hello");
}

#[test]
fn resolves_a_value_from_a_previous_action() {
    let mut results = ResultMap::new();
    results.insert("title".to_string(), "rust".to_string());

    let value = ChromiumoxideScraper::resolve_value_source(
        &ValueSource::FromAction("title".to_string()),
        &results,
    )
    .unwrap();

    assert_eq!(value, "rust");
}

#[test]
fn fails_when_the_referenced_key_is_missing() {
    let results = ResultMap::new();
    let result = ChromiumoxideScraper::resolve_value_source(
        &ValueSource::FromAction("missing".to_string()),
        &results,
    );

    assert!(result.is_err());
}

#[test]
fn escapes_the_selector_in_the_scroll_script() {
    let script = ChromiumoxideScraper::build_scroll_script(
        r#"div[data-test="a\"b"]"#,
        &ScrollDirection::Down,
    );

    assert!(script.contains(r#"document.querySelector("div[data-test=\"a\\\"b\"]")"#));
    assert!(script.contains("scrollBy(0, 500)"));
}

#[test]
fn scroll_directions_map_to_the_expected_deltas() {
    assert!(
        ChromiumoxideScraper::build_scroll_script("sel", &ScrollDirection::Up)
            .contains("scrollBy(0, -500)")
    );
    assert!(
        ChromiumoxideScraper::build_scroll_script("sel", &ScrollDirection::Left)
            .contains("scrollBy(-500, 0)")
    );
    assert!(
        ChromiumoxideScraper::build_scroll_script("sel", &ScrollDirection::Right)
            .contains("scrollBy(500, 0)")
    );
}

#[test]
fn missing_key_error_names_the_key() {
    let results = ResultMap::new();
    let error = ChromiumoxideScraper::resolve_value_source(
        &ValueSource::FromAction("price".to_string()),
        &results,
    )
    .unwrap_err();
    assert_eq!(error.kind(), ErrorKind::InvalidInput);
    assert_eq!(error.to_string(), "no result found for key 'price'");
}

#[test]
fn scroll_script_is_exact() {
    assert_eq!(
        ChromiumoxideScraper::build_scroll_script("sel", &ScrollDirection::Down),
        "document.querySelector(\"sel\").scrollBy(0, 500)"
    );
    assert_eq!(
        ChromiumoxideScraper::build_scroll_script("a\nb\u{1}", &ScrollDirection::Up),
        "document.querySelector(\"a\\nb\\u0001\").scrollBy(0, -500)"
    );
}

#[test]
fn scroll_script_falls_back_to_an_empty_literal() {
    assert_eq!(
        ChromiumoxideScraper::scroll_script_from(None, &ScrollDirection::Left),
        "document.querySelector(\"\").scrollBy(-500, 0)"
    );
    assert_eq!(
        ChromiumoxideScraper::scroll_script_from(
            Some("\"x\"".to_string()),
            &ScrollDirection::Right
        ),
        "document.querySelector(\"x\").scrollBy(500, 0)"
    );
}

fn action(action: Action) -> JobAction {
    JobAction { action, result_key: None, timeout: None }
}

#[test]
fn plans_each_action() {
    let mut results = ResultMap::new();
    results.insert("q".to_string(), "rust".to_string());

    let navigate = action(Action::Navigate { url: "https://a.b".to_string() });
    match ChromiumoxideScraper::plan_action(&navigate, &results) {
        Ok(BrowserStep::Navigate { url }) => assert_eq!(url, "https://a.b"),
        other => panic!("unexpected {:?}", other),
    }
    match ChromiumoxideScraper::plan_action(&action(Action::Wait { duration: 1500 }), &results) {
        Ok(BrowserStep::Sleep { duration_ms }) => assert_eq!(duration_ms, 1500),
        other => panic!("unexpected {:?}", other),
    }
    match ChromiumoxideScraper::plan_action(
        &action(Action::Type {
            selector: "#search".to_string(),
            text: ValueSource::FromAction("q".to_string()),
        }),
        &results,
    ) {
        Ok(BrowserStep::Type { selector, text }) => {
            assert_eq!(selector, "#search");
            assert_eq!(text, "rust");
        }
        other => panic!("unexpected {:?}", other),
    }
    match ChromiumoxideScraper::plan_action(
        &action(Action::Fill {
            selector: "#title".to_string(),
            text: ValueSource::Literal("new".to_string()),
        }),
        &results,
    ) {
        Ok(BrowserStep::CallFunction { selector, function, await_promise }) => {
            assert_eq!(selector, "#title");
            assert_eq!(function, ChromiumoxideScraper::fill_function("new"));
            assert!(!await_promise);
        }
        other => panic!("unexpected {:?}", other),
    }
    match ChromiumoxideScraper::plan_action(
        &action(Action::Scroll { selector: "sel".to_string(), direction: ScrollDirection::Down }),
        &results,
    ) {
        Ok(BrowserStep::Evaluate { script }) => {
            assert_eq!(script, "document.querySelector(\"sel\").scrollBy(0, 500)")
        }
        other => panic!("unexpected {:?}", other),
    }
    match ChromiumoxideScraper::plan_action(
        &action(Action::Extract {
            selector: ".t".to_string(),
            attribute: Some("href".to_string()),
        }),
        &results,
    ) {
        Ok(BrowserStep::Extract { selector, attribute }) => {
            assert_eq!(selector, ".t");
            assert_eq!(attribute.as_deref(), Some("href"));
        }
        other => panic!("unexpected {:?}", other),
    }
    match ChromiumoxideScraper::plan_action(
        &action(Action::UploadFile {
            selector: "input".to_string(),
            urls: vec!["https://x/y.png".to_string()],
        }),
        &results,
    ) {
        Ok(BrowserStep::CallFunction { selector, function, await_promise }) => {
            assert_eq!(selector, "input");
            assert!(function.starts_with(
                "async function() { const urls = [\"https://x/y.png\"]; const transfer"
            ));
            assert!(await_promise);
        }
        other => panic!("unexpected {:?}", other),
    }
    assert!(matches!(
        ChromiumoxideScraper::plan_action(&action(Action::ExtractUrl), &results),
        Ok(BrowserStep::ExtractUrl)
    ));
    assert!(matches!(
        ChromiumoxideScraper::plan_action(
            &action(Action::ClickText { text: "Nuevo".to_string() }),
            &results
        ),
        Ok(BrowserStep::Evaluate { script })
            if script == ChromiumoxideScraper::click_text_script("Nuevo")
    ));
}

#[test]
fn planning_refuses_a_missing_result() {
    let results = ResultMap::new();
    let error = ChromiumoxideScraper::plan_action(
        &action(Action::Fill {
            selector: "#title".to_string(),
            text: ValueSource::FromAction("title".to_string()),
        }),
        &results,
    )
    .unwrap_err();
    assert_eq!(error.kind(), ErrorKind::InvalidInput);
    assert_eq!(error.to_string(), "no result found for key 'title'");
}

#[test]
fn results_are_recorded_only_with_key_and_value() {
    let mut results = ResultMap::new();
    let keyed = JobAction {
        action: Action::ExtractUrl,
        result_key: Some("url".to_string()),
        timeout: None,
    };
    ChromiumoxideScraper::record_result(&mut results, &keyed, None);
    assert_eq!(results.len(), 0);
    let unkeyed = action(Action::ExtractUrl);
    ChromiumoxideScraper::record_result(&mut results, &unkeyed, Some("https://a".to_string()));
    assert_eq!(results.len(), 0);
    ChromiumoxideScraper::record_result(&mut results, &keyed, Some("https://a".to_string()));
    ChromiumoxideScraper::record_result(&mut results, &keyed, Some("https://b".to_string()));
    assert_eq!(results.len(), 1);
    assert_eq!(results.get(&"url".to_string()).map(|s| s.as_str()), Some("https://b"));
}

#[test]
fn timeouts_default_to_thirty_seconds() {
    assert_eq!(
        ChromiumoxideScraper::action_timeout_ms(&action(Action::ExtractUrl)),
        DEFAULT_ACTION_TIMEOUT_MS
    );
    assert_eq!(DEFAULT_ACTION_TIMEOUT_MS, 30000);
    let timed = JobAction { action: Action::ExtractUrl, result_key: None, timeout: Some(5000) };
    assert_eq!(ChromiumoxideScraper::action_timeout_ms(&timed), 5000);
}

#[test]
fn launch_arguments_add_the_proxy() {
    let plain = Job::new(vec![action(Action::ExtractUrl)], None).unwrap();
    assert_eq!(
        ChromiumoxideScraper::launch_arguments(&plain),
        vec!["--no-sandbox", "--disable-gpu", "--disable-dev-shm-usage"]
    );
    let config =
        JobConfig { cookies: None, user_agent: None, proxy: Some("http://p:1".to_string()) };
    let proxied = Job::new(vec![action(Action::ExtractUrl)], Some(config)).unwrap();
    assert_eq!(
        ChromiumoxideScraper::launch_arguments(&proxied),
        vec![
            "--no-sandbox",
            "--disable-gpu",
            "--disable-dev-shm-usage",
            "--proxy-server=http://p:1"
        ]
    );
}

#[test]
fn scraper_keeps_its_executable_path() {
    let scraper = ChromiumoxideScraper::new(Some(PathBuf::from("/opt/chrome")));
    assert_eq!(scraper.chrome_executable_path(), Some(&PathBuf::from("/opt/chrome")));
    assert!(ChromiumoxideScraper::new(None).chrome_executable_path().is_none());
}

#[test]
fn texts_in_scripts_are_json_literals() {
    let script = ChromiumoxideScraper::click_text_script("Sí \"ok\"");
    assert!(script.starts_with("(() => { const wanted = \"Sí \\\"ok\\\"\"; const el = "));
    assert!(script.ends_with("el.click(); })()"));
    let function = ChromiumoxideScraper::fill_function("a\nb");
    assert!(function.contains("set.call(this, \"a\\nb\"); this.dispatchEvent"));
    assert!(function.starts_with("function() { const proto"));
}

#[test]
fn urls_become_a_json_array() {
    assert_eq!(ChromiumoxideScraper::json_array(&vec![]), "[]");
    assert_eq!(
        ChromiumoxideScraper::json_array(&vec!["a".to_string(), "b\"c".to_string()]),
        "[\"a\",\"b\\\"c\"]"
    );
    let function = ChromiumoxideScraper::upload_function(&vec!["https://x/1.jpg".to_string()]);
    assert!(function.starts_with("async function() { const urls = [\"https://x/1.jpg\"]; "));
    assert!(function.contains("this.files = transfer.files;"));
}
