//! The Agnes client: reading responses, the key pool, task affinity and
//! the retry decisions.

use agnes_mcp::config::AgnesConfig;
use agnes_mcp::json::JsonValue;
use agnes_mcp::tools::agnes_client::{
    api_error, check_download_url, collect_urls, extract_chat_text, extract_error_message,
    extract_task_id, extract_task_status, extract_video_url, interpret_response, truncate,
    AgnesClient, KeyHealth, RetryAction, TaskStatus,
};
use agnes_mcp::Error;

fn cobj(entries: Vec<(&str, JsonValue)>) -> JsonValue {
    JsonValue::Object(entries.into_iter().map(|(k, v)| (k.to_string(), v)).collect())
}

fn cstr(s: &str) -> JsonValue {
    JsonValue::Str(s.to_string())
}

const NOW: u64 = 1_700_000_000;

fn build_client_with_keys(keys: &[&str]) -> AgnesClient {
    let cfg = AgnesConfig {
        api_keys: Some(keys.iter().map(|s| (*s).to_string()).collect()),
        ..AgnesConfig::default()
    };
    AgnesClient::new(&cfg).expect("client builds with at least one key")
}

#[test]
fn extract_chat_text_works() {
    let resp = cobj(vec![(
        "choices",
        JsonValue::Array(vec![cobj(vec![(
            "message",
            cobj(vec![("role", cstr("assistant")), ("content", cstr("hello"))]),
        )])]),
    )]);
    assert_eq!(extract_chat_text(&resp).as_deref(), Some("hello"));
}

#[test]
fn extract_chat_text_missing() {
    assert!(extract_chat_text(&cobj(vec![])).is_none());
}

#[test]
fn collect_urls_nested() {
    let resp = cobj(vec![(
        "data",
        JsonValue::Array(vec![
            cobj(vec![("url", cstr("https://example.com/a.png"))]),
            cobj(vec![("image_url", cstr("https://example.com/b.png"))]),
        ]),
    )]);
    let urls = collect_urls(&resp);
    assert_eq!(urls.len(), 2);
    assert!(urls.contains(&"https://example.com/a.png".to_string()));
}

#[test]
fn collect_urls_skips_non_http_strings() {
    let resp = cobj(vec![
        ("url", cstr("ftp://example.com/a.png")),
        ("other", cstr("https://example.com/not-a-url-field")),
        ("image_url", cstr("http://example.com/c.png")),
    ]);
    assert_eq!(collect_urls(&resp), vec!["http://example.com/c.png".to_string()]);
}

#[test]
fn task_status_classification() {
    assert_eq!(TaskStatus::classify("in_progress"), TaskStatus::Running);
    assert_eq!(TaskStatus::classify("Completed"), TaskStatus::Done);
    assert_eq!(TaskStatus::classify("failed"), TaskStatus::Failed);
    assert_eq!(TaskStatus::classify("???"), TaskStatus::Unknown);
}

#[test]
fn extract_task_id_top_level() {
    let resp = cobj(vec![("id", cstr("task_123"))]);
    assert_eq!(extract_task_id(&resp).as_deref(), Some("task_123"));
}

#[test]
fn extract_task_id_nested() {
    let resp = cobj(vec![("data", cobj(vec![("task_id", cstr("task_456"))]))]);
    assert_eq!(extract_task_id(&resp).as_deref(), Some("task_456"));
}

#[test]
fn extract_task_status_nested() {
    let resp = cobj(vec![("data", cobj(vec![("status", cstr("SUCCEEDED"))]))]);
    assert_eq!(extract_task_status(&resp), TaskStatus::Done);
    assert_eq!(extract_task_status(&cobj(vec![])), TaskStatus::Unknown);
}

#[test]
fn extract_video_url_works() {
    let resp = cobj(vec![("video_url", cstr("https://example.com/v.mp4"))]);
    assert_eq!(
        extract_video_url(&resp).as_deref(),
        Some("https://example.com/v.mp4")
    );
}

#[test]
fn extract_video_url_remixed_field() {
    let resp = cobj(vec![
        ("status", cstr("completed")),
        ("remixed_from_video_id", cstr("https://example.com/video.mp4")),
    ]);
    assert_eq!(
        extract_video_url(&resp).as_deref(),
        Some("https://example.com/video.mp4")
    );
}

#[test]
fn extract_error_message_variants() {
    let v = cobj(vec![("error", cobj(vec![("message", cstr("bad"))]))]);
    assert_eq!(extract_error_message(&v).as_deref(), Some("bad"));
    let v = cobj(vec![("message", cstr("oops"))]);
    assert_eq!(extract_error_message(&v).as_deref(), Some("oops"));
    // Agnes returns `"error": null` on success — must NOT be treated as an error.
    let v = cobj(vec![("error", JsonValue::Null), ("status", cstr("completed"))]);
    assert!(extract_error_message(&v).is_none());
    let v = cobj(vec![("error", cstr("rate limited"))]);
    assert_eq!(extract_error_message(&v).as_deref(), Some("rate limited"));
}

#[test]
fn extract_error_message_falls_back_to_json_text() {
    let v = cobj(vec![("error", cobj(vec![("code", JsonValue::Number("42".to_string()))]))]);
    assert_eq!(extract_error_message(&v).as_deref(), Some("{\"code\":42}"));
}

#[test]
fn round_robin_cycles_through_keys() {
    let mut client = build_client_with_keys(&["sk-a", "sk-b", "sk-c"]);
    assert_eq!(client.api_key_count(), 3);
    // 6 picks should cycle through the pool exactly twice.
    let picks: Vec<String> = (0..6).map(|_| client.next_api_key()).collect();
    assert_eq!(picks, vec!["sk-a", "sk-b", "sk-c", "sk-a", "sk-b", "sk-c"]);
}

#[test]
fn round_robin_single_key_always_returns_it() {
    let mut client = build_client_with_keys(&["solo"]);
    for _ in 0..5 {
        assert_eq!(client.next_api_key(), "solo");
    }
}

#[test]
fn record_and_lookup_task_key() {
    let mut client = build_client_with_keys(&["sk-a", "sk-b", "sk-c"]);
    // Unknown task before recording
    assert!(client.key_index_for_task("task-unknown").is_none());

    client.record_task_key("task-1", 1);
    client.record_task_key("task-2", 0);

    assert_eq!(client.key_index_for_task("task-1"), Some(1));
    assert_eq!(client.key_index_for_task("task-2"), Some(0));
    assert!(client.key_index_for_task("task-3").is_none());
}

#[test]
fn record_task_key_overwrites_on_replay() {
    let mut client = build_client_with_keys(&["sk-a", "sk-b"]);
    client.record_task_key("task-x", 0);
    assert_eq!(client.key_index_for_task("task-x"), Some(0));
    // Re-creating a task with the same id rebinds to the new key.
    client.record_task_key("task-x", 1);
    assert_eq!(client.key_index_for_task("task-x"), Some(1));
}

#[test]
fn get_video_task_unknown_id_errors_without_network_call() {
    let cfg = AgnesConfig {
        api_keys: Some(vec!["sk-x".to_string()]),
        base_url: "http://0.0.0.0:0".to_string(),
        ..AgnesConfig::default()
    };
    let client = AgnesClient::new(&cfg).expect("client builds");
    let err = client.video_task_route("external-task-id").unwrap_err();
    let msg = err.message();
    assert!(
        msg.contains("was not created by this server session"),
        "error message should explain affinity failure, got: {msg}"
    );
}

#[test]
fn video_task_route_uses_the_creating_key_and_encodes_the_id() {
    let mut client = build_client_with_keys(&["sk-a", "sk-b"]);
    client.record_task_key("task a/b", 1);
    let (path, key) = client.video_task_route("task a/b").expect("known task");
    assert_eq!(path, "/v1/videos/task%20a%2Fb");
    assert_eq!(key, 1);
}

#[test]
fn key_health_available_by_default() {
    let client = build_client_with_keys(&["sk-a", "sk-b"]);
    assert!(client.key_available(0, NOW));
    assert!(client.key_available(1, NOW));
}

#[test]
fn mark_cooldown_makes_key_unavailable() {
    let mut client = build_client_with_keys(&["sk-a", "sk-b"]);
    client.mark_key_cooldown(0, 600, NOW);
    assert!(
        !client.key_available(0, NOW),
        "cooled-down key should be unavailable"
    );
    assert!(client.key_available(1, NOW), "other keys should be unaffected");
    assert!(client.key_available(0, NOW + 600), "the cooldown ends");
}

#[test]
fn cooldown_reports_remaining_seconds() {
    let mut client = build_client_with_keys(&["sk-a"]);
    // Fresh key: 0 remaining.
    assert_eq!(client.key_cooldown_remaining(0, NOW), 0);
    client.mark_key_cooldown(0, 600, NOW);
    let remaining = client.key_cooldown_remaining(0, NOW);
    assert!(
        (590..=600).contains(&remaining),
        "remaining should be ~600s right after a 600s cooldown, got {remaining}"
    );
    assert_eq!(client.key_cooldown_remaining(0, NOW + 10), 590);
}

#[test]
fn key_health_counts_down() {
    let h = KeyHealth { cooldown_until: NOW + 5 };
    assert!(!h.is_available(NOW));
    assert_eq!(h.secs_remaining(NOW), 5);
    assert!(h.is_available(NOW + 5));
    assert_eq!(h.secs_remaining(NOW + 9), 0);
    let fresh = KeyHealth { cooldown_until: 0 };
    assert!(fresh.is_available(0));
}

#[test]
fn select_healthy_key_skips_cooled_down() {
    let mut client = build_client_with_keys(&["sk-a", "sk-b", "sk-c"]);
    // Cool down keys 0 and 1.
    client.mark_key_cooldown(0, 600, NOW);
    client.mark_key_cooldown(1, 600, NOW);
    for _ in 0..6 {
        let idx = client.select_healthy_key_idx(NOW);
        assert!(
            client.key_available(idx, NOW),
            "select_healthy_key_idx returned a cooled-down key {idx}"
        );
    }
}

#[test]
fn select_healthy_returns_some_index_when_all_cooled() {
    let mut client = build_client_with_keys(&["sk-a", "sk-b"]);
    client.mark_key_cooldown(0, 600, NOW);
    client.mark_key_cooldown(1, 600, NOW);
    let idx = client.select_healthy_key_idx(NOW);
    assert!(
        idx < 2,
        "must return an in-range index even when all cooled"
    );
}

fn run_until_done(client: &mut AgnesClient, status: u16) -> (Vec<usize>, Error) {
    let (mut run, mut action) = client.begin_request(None, NOW);
    let mut sent = Vec::new();
    loop {
        match action {
            RetryAction::Send(k) => {
                sent.push(k);
                action = client.after_attempt(
                    &mut run,
                    Err(Error::api_status(status, String::new())),
                    NOW,
                );
            }
            RetryAction::Fail(e) => return (sent, e),
            RetryAction::Done(_) => panic!("no request succeeds"),
        }
    }
}

#[test]
fn retry_exhausts_keys_and_returns_status_error() {
    let cfg = AgnesConfig {
        api_keys: Some(vec!["sk-a".to_string(), "sk-b".to_string()]),
        key_cooldown_secs: 1,
        ..AgnesConfig::default()
    };
    let mut client = AgnesClient::new(&cfg).expect("client builds");
    let (sent, err) = run_until_done(&mut client, 401);
    assert_eq!(err.status(), Some(401), "expected error after exhausting keys");
    // Each key gets one attempt → 2 attempts total.
    let attempts = sent.len();
    assert_eq!(attempts, 2, "retry should rotate through all keys, got {attempts} attempts");
    // Both keys should now be in cooldown.
    assert!(!client.key_available(0, NOW));
    assert!(!client.key_available(1, NOW));
}

#[test]
fn retry_budget_skips_cooled_keys_without_counting() {
    let cfg = AgnesConfig {
        api_keys: Some(vec![
            "sk-a".to_string(),
            "sk-b".to_string(),
            "sk-c".to_string(),
            "sk-d".to_string(),
        ]),
        key_cooldown_secs: 1,
        key_rate_limit_cooldown_secs: 1,
        ..AgnesConfig::default()
    };
    let mut client = AgnesClient::new(&cfg).expect("client builds");
    client.mark_key_cooldown(1, 600, NOW);
    client.mark_key_cooldown(2, 600, NOW);
    assert!(client.key_available(0, NOW), "sk-a should be healthy");
    assert!(!client.key_available(1, NOW), "sk-b should be cooled");
    assert!(!client.key_available(2, NOW), "sk-c should be cooled");
    assert!(client.key_available(3, NOW), "sk-d should be healthy");
    let (sent, err) = run_until_done(&mut client, 429);
    assert_eq!(err.status(), Some(429), "expected error after exhausting retries");
    let attempts = sent.len();
    assert_eq!(
        attempts, 2,
        "retry should make 2 real requests (sk-a then sk-d); cooled sk-b/sk-c must not consume the budget, got {attempts}"
    );
    assert_eq!(sent, vec![0, 3]);
}

#[test]
fn retry_run_fails_fast_on_other_errors() {
    let mut client = build_client_with_keys(&["sk-a", "sk-b"]);
    let (mut run, action) = client.begin_request(None, NOW);
    assert!(matches!(action, RetryAction::Send(0)));
    let next = client.after_attempt(&mut run, Err(Error::api_status(500, "boom".to_string())), NOW);
    assert!(matches!(next, RetryAction::Fail(_)));
    assert!(client.key_available(0, NOW));
}

#[test]
fn retry_run_all_keys_cooled_fails_without_request() {
    let mut client = build_client_with_keys(&["sk-a", "sk-b"]);
    client.mark_key_cooldown(0, 600, NOW);
    client.mark_key_cooldown(1, 600, NOW);
    let (_run, action) = client.begin_request(None, NOW);
    match action {
        RetryAction::Fail(Error::Api(m)) => assert_eq!(
            m,
            "all 2 API keys are in cooldown; wait and retry, or add more keys"
        ),
        other => panic!("unexpected action {other:?}"),
    }
}

#[test]
fn retry_run_fixed_key_is_used_once_even_when_cooled() {
    let mut client = build_client_with_keys(&["sk-a", "sk-b"]);
    client.mark_key_cooldown(1, 600, NOW);
    let (mut run, action) = client.begin_request(Some(1), NOW);
    assert!(matches!(action, RetryAction::Send(1)));
    let next = client.after_attempt(&mut run, Err(Error::api_status(429, "slow".to_string())), NOW);
    assert!(matches!(next, RetryAction::Fail(_)));
}

#[test]
fn retry_run_success_reports_the_key() {
    let mut client = build_client_with_keys(&["sk-a", "sk-b"]);
    let (mut run, action) = client.begin_request(None, NOW);
    assert!(matches!(action, RetryAction::Send(0)));
    let next = client.after_attempt(&mut run, Ok(()), NOW);
    assert!(matches!(next, RetryAction::Done(0)));
}

#[test]
fn truncate_appends_ellipsis() {
    assert_eq!(truncate("hello", 10), "hello");
    assert_eq!(truncate("hello world", 5), "hello…");
    // characters are counted, not bytes
    assert_eq!(truncate("éa", 2), "éa");
    assert_eq!(truncate("ééé", 2), "éé…");
    assert_eq!(truncate("日本語です", 3), "日本語…");
}

#[test]
fn api_error_prefers_body_message() {
    let body = "{\"error\":{\"message\":\"bad key\"}}";
    let parsed = cobj(vec![("error", cobj(vec![("message", cstr("bad key"))]))]);
    let e = api_error(401, body, Some(&parsed));
    assert_eq!(e.status(), Some(401));
    assert_eq!(e.message(), "agnes api error (HTTP 401): bad key");
    let e = api_error(502, "gateway down", None);
    assert_eq!(e.message(), "agnes api error (HTTP 502): HTTP 502: gateway down");
}

#[test]
fn interpret_response_cases() {
    let ok = cobj(vec![("error", JsonValue::Null), ("id", cstr("t1"))]);
    let v = interpret_response(200, "{}", Some(ok)).expect("ok");
    assert_eq!(extract_task_id(&v).as_deref(), Some("t1"));
    let e = interpret_response(200, "not json", None).unwrap_err();
    assert_eq!(e.message(), "agnes api error: expected JSON response, got: not json");
    let bad = cobj(vec![("error", cstr("nope"))]);
    let e = interpret_response(200, "{}", Some(bad)).unwrap_err();
    assert_eq!(e.message(), "agnes api error: nope");
    let e = interpret_response(429, "", None).unwrap_err();
    assert_eq!(e.status(), Some(429));
}

#[test]
fn download_url_must_be_http() {
    assert!(check_download_url("https://example.com/a.png").is_ok());
    let e = check_download_url("file:///etc/passwd").unwrap_err();
    assert_eq!(
        e.message(),
        "configuration error: download_url requires an http(s) URL, got: file:///etc/passwd"
    );
}

#[test]
fn request_url_joins_base_and_path() {
    let client = build_client_with_keys(&["sk-a"]);
    assert_eq!(
        client.request_url("/v1/chat/completions"),
        "https://apihub.agnes-ai.com/v1/chat/completions"
    );
}
