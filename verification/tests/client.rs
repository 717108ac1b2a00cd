use labelzoom::{
    is_retryable, normalize_base_url, percent_encode, read_error, read_result, user_agent,
    ApiErrorKind, ClientConfig, ClientSettings, HttpResponse, SourceFormat, Step, TargetFormat,
    ValidationError, DEFAULT_BASE_URL, VERSION,
};

fn settings(credential: Option<&str>, max_retries: u32) -> ClientSettings {
    let config = match credential {
        Some(key) => ClientConfig::new().api_key(key.to_owned()),
        None => ClientConfig::new().anonymous(),
    };
    config.max_retries(max_retries).build(None, "linux", "x86_64")
}

fn response(status: u16, headers: &[(&str, &str)], body: &str) -> HttpResponse {
    HttpResponse {
        status,
        headers: headers
            .iter()
            .map(|(name, value)| ((*name).to_owned(), (*value).to_owned()))
            .collect(),
        body: body.as_bytes().to_vec(),
    }
}

#[test]
fn defaults_are_the_production_host_and_two_retries() {
    let config = ClientConfig::new();
    assert_eq!(config.base_url, DEFAULT_BASE_URL);
    assert_eq!(config.max_retries, 2);
    assert!(config.jitter);
    assert!(config.api_key.is_none());
    assert!(config.reads_environment());
}

#[test]
fn an_explicitly_empty_key_forces_anonymous_without_the_environment() {
    let config = ClientConfig::new().api_key(String::new());
    assert!(!config.reads_environment());
    let built = config.build(Some("lz_live_env".into()), "linux", "x86_64");
    assert!(!built.is_authenticated());
    assert!(!ClientConfig::new().anonymous().reads_environment());
}

#[test]
fn an_unset_key_reads_the_environment() {
    let built = ClientConfig::new().build(Some("lz_test_abc".into()), "linux", "x86_64");
    assert_eq!(built.credential.as_deref(), Some("lz_test_abc"));
    assert!(built.is_authenticated());
    let empty = ClientConfig::new().build(Some(String::new()), "linux", "x86_64");
    assert!(!empty.is_authenticated());
    let configured = ClientConfig::new().api_key("lz_live_key".into()).build(Some("other".into()), "linux", "x86_64");
    assert_eq!(configured.credential.as_deref(), Some("lz_live_key"));
}

#[test]
fn trailing_slashes_are_removed_from_the_base_url() {
    assert_eq!(normalize_base_url("https://api.labelzoom.com///"), "https://api.labelzoom.com");
    assert_eq!(normalize_base_url("https://proxy.example.com/labelzoom/"), "https://proxy.example.com/labelzoom");
    assert_eq!(normalize_base_url("///"), "");
    let built = ClientConfig::new().base_url("https://x.test//".into()).build(None, "a", "b");
    assert_eq!(built.base_url, "https://x.test");
}

#[test]
fn user_agent_appends_a_trimmed_suffix() {
    let plain = user_agent("linux", "x86_64", None);
    assert_eq!(plain, format!("labelzoom-rust-sdk/{VERSION} (rust; linux x86_64)"));
    assert_eq!(
        user_agent("linux", "x86_64", Some("  my-app/2 ")),
        format!("labelzoom-rust-sdk/{VERSION} (rust; linux x86_64) my-app/2")
    );
    assert_eq!(user_agent("linux", "x86_64", Some("   ")), plain);
    assert!(!plain.starts_with("LabelZoomStudio/"));
}

#[test]
fn request_url_puts_every_option_in_one_params_parameter() {
    let client = settings(None, 2);
    assert_eq!(
        client.request_url(SourceFormat::Jpg, TargetFormat::Zpl, None),
        "https://api.labelzoom.com/api/v2/convert/jpeg/to/zpl"
    );
    assert_eq!(
        client.request_url(SourceFormat::Zpl, TargetFormat::Png, Some("{\"dpi\":300}")),
        "https://api.labelzoom.com/api/v2/convert/zpl/to/png?params=%7B%22dpi%22%3A300%7D"
    );
}

#[test]
fn percent_encoding_keeps_only_unreserved_bytes() {
    assert_eq!(percent_encode("AZaz09-_.~"), "AZaz09-_.~");
    assert_eq!(percent_encode("a b&c=d"), "a%20b%26c%3Dd");
    assert_eq!(percent_encode("é"), "%C3%A9");
    assert_eq!(percent_encode(""), "");
}

#[test]
fn headers_carry_accept_everything_and_bearer_only_with_a_key() {
    let anonymous = settings(None, 2);
    let headers = anonymous.request_headers(SourceFormat::Png, false);
    assert_eq!(headers[0], ("content-type".to_owned(), "image/png".to_owned()));
    assert_eq!(headers[1], ("accept".to_owned(), "*/*".to_owned()));
    assert_eq!(headers[2].0, "user-agent");
    assert_eq!(headers.len(), 3);

    let keyed = settings(Some("lz_live_x"), 2);
    let headers = keyed.request_headers(SourceFormat::Pdf, true);
    assert_eq!(headers[0].1, "text/plain");
    assert_eq!(headers[3], ("authorization".to_owned(), "Bearer lz_live_x".to_owned()));
}

#[test]
fn outgoing_request_rejects_an_empty_body_first() {
    let client = settings(None, 2);
    let options_error = ValidationError { parameter: "rotation".into(), message: "bad".into() };
    let error = client
        .outgoing_request(SourceFormat::Zpl, TargetFormat::Zpl, b"", false, Err(options_error.clone()))
        .unwrap_err();
    assert_eq!(error.parameter, "body");
    assert_eq!(error.message, "Source body cannot be empty; the API rejects zero-length requests.");
    let error = client
        .outgoing_request(SourceFormat::Zpl, TargetFormat::Zpl, b"^XA^XZ", false, Err(options_error))
        .unwrap_err();
    assert_eq!(error.parameter, "rotation");
}

#[test]
fn outgoing_request_is_a_post_with_the_body() {
    let client = settings(Some("k"), 2);
    let request = client
        .outgoing_request(SourceFormat::Url, TargetFormat::Pdf, b"https://example.com/a.zpl", false, Ok(None))
        .unwrap();
    assert_eq!(request.method, "POST");
    assert_eq!(request.url, "https://api.labelzoom.com/api/v2/convert/url/to/pdf");
    assert_eq!(request.body, b"https://example.com/a.zpl");
    assert_eq!(request.header("Content-Type"), Some("text/plain"));
    assert_eq!(request.header("AUTHORIZATION"), Some("Bearer k"));
}

#[test]
fn response_headers_are_found_ignoring_case() {
    let r = response(200, &[("X-LZ-Request-ID", "req-1"), ("x-lz-request-id", "req-2")], "");
    assert_eq!(r.header("x-lz-request-id"), Some("req-1"));
    assert_eq!(r.header("missing"), None);
}

#[test]
fn a_2xx_response_becomes_a_result() {
    let result = read_result(response(
        201,
        &[("Content-Type", "text/plain; charset=utf-8"), ("X-LZ-Request-Id", "abc")],
        "^XA^XZ",
    ));
    assert_eq!(result.status, 201);
    assert_eq!(result.bytes, b"^XA^XZ");
    assert_eq!(result.content_type.as_deref(), Some("text/plain; charset=utf-8"));
    assert_eq!(result.request_id.as_deref(), Some("abc"));
    let bare = read_result(response(200, &[], ""));
    assert_eq!(bare.request_id, None);
    assert_eq!(bare.content_type, None);
}

#[test]
fn a_non_2xx_response_keeps_its_body() {
    let error = read_error::<f64>(
        &response(403, &[("x-lz-request-id", "id-9")], "{\"message\":\"JSON export is a paid feature\"}"),
        None,
    );
    assert_eq!(error.status, 403);
    assert!(error.is_paid_feature());
    assert_eq!(error.message, "JSON export is a paid feature");
    assert_eq!(error.raw_body, "{\"message\":\"JSON export is a paid feature\"}");
    assert_eq!(error.request_id.as_deref(), Some("id-9"));

    let empty = read_error::<f64>(&response(406, &[], ""), None);
    assert_eq!(empty.message, "Not Acceptable");
    assert_eq!(empty.kind, ApiErrorKind::Other);

    let lossy = read_error::<f64>(
        &HttpResponse { status: 500, headers: vec![], body: b"bad \xFF byte".to_vec() },
        None,
    );
    assert_eq!(lossy.raw_body, "bad \u{FFFD} byte");
}

#[test]
fn only_429_and_5xx_are_retryable() {
    assert!(is_retryable(429));
    assert!(is_retryable(500));
    assert!(is_retryable(503));
    assert!(!is_retryable(400));
    assert!(!is_retryable(404));
    assert!(!is_retryable(499));
    assert!(is_retryable(599));
    assert!(!is_retryable(600));
    assert!(!is_retryable(u16::MAX));
}

#[test]
fn a_status_beyond_the_5xx_range_is_not_retried() {
    let client = settings(None, 2);
    assert!(matches!(client.after_attempt::<f64>(1, Some(response(600, &[], "")), None), Step::Fail(_)));
    assert!(matches!(client.after_attempt::<f64>(1, Some(response(599, &[], "")), None), Step::Retry));
}

#[test]
fn a_404_keeps_its_body_and_request_id_and_is_not_retried() {
    let client = settings(None, 2);
    match client.after_attempt::<f64>(1, Some(response(404, &[("X-LZ-Request-ID", "req-1")], "Nope")), None) {
        Step::Fail(error) => {
            assert_eq!(error.kind, ApiErrorKind::NotFound);
            assert_eq!(error.status, 404);
            assert_eq!(error.message, "Nope");
            assert_eq!(error.raw_body, "Nope");
            assert_eq!(error.request_id.as_deref(), Some("req-1"));
        }
        other => panic!("expected a failure, got {other:?}"),
    }
}

#[test]
fn steps_follow_the_retry_policy() {
    let client = settings(None, 2);
    assert!(matches!(client.after_attempt::<f64>(1, None, None), Step::Retry));
    assert!(matches!(client.after_attempt::<f64>(2, None, None), Step::Retry));
    assert!(matches!(client.after_attempt::<f64>(3, None, None), Step::GiveUp));
    assert!(matches!(client.after_attempt::<f64>(1, Some(response(503, &[], "")), None), Step::Retry));
    assert!(matches!(client.after_attempt::<f64>(3, Some(response(503, &[], "")), None), Step::Fail(_)));
    assert!(matches!(client.after_attempt::<f64>(1, Some(response(400, &[], "")), None), Step::Fail(_)));
    match client.after_attempt::<f64>(1, Some(response(429, &[], "")), Some(7.0)) {
        Step::Retry => {}
        other => panic!("expected a retry, got {other:?}"),
    }
    match client.after_attempt::<f64>(3, Some(response(429, &[], "")), Some(7.0)) {
        Step::Fail(error) => assert_eq!(error.retry_after_seconds(), Some(7.0)),
        other => panic!("expected a failure, got {other:?}"),
    }
    match client.after_attempt::<f64>(2, Some(response(200, &[], "ok")), None) {
        Step::Succeed(result) => assert_eq!(result.bytes, b"ok"),
        other => panic!("expected a result, got {other:?}"),
    }
}

#[test]
fn zero_retries_means_one_attempt() {
    let client = settings(None, 0);
    assert!(matches!(client.after_attempt::<f64>(1, None, None), Step::GiveUp));
    assert!(matches!(client.after_attempt::<f64>(1, Some(response(500, &[], "")), None), Step::Fail(_)));
}

#[test]
fn a_failing_server_is_tried_once_more_than_the_retry_count() {
    for max_retries in 0..4u32 {
        let client = settings(None, max_retries);
        let mut attempt: u64 = 1;
        loop {
            match client.after_attempt::<f64>(attempt, Some(response(503, &[], "busy")), None) {
                Step::Retry => attempt += 1,
                Step::Fail(error) => {
                    assert_eq!(error.status, 503);
                    break;
                }
                other => panic!("unexpected step {other:?}"),
            }
        }
        assert_eq!(attempt, u64::from(max_retries) + 1);
    }
}

#[test]
fn a_transport_failure_gives_up_after_the_last_attempt() {
    let client = settings(None, 2);
    let mut attempt: u64 = 1;
    while matches!(client.after_attempt::<f64>(attempt, None, None), Step::Retry) {
        attempt += 1;
    }
    assert_eq!(attempt, 3);
}
