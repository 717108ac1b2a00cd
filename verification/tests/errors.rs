use labelzoom::{
    error_for_status, extract_message, message_from, reason_phrase, says_paid_feature, truncate,
    ApiErrorKind, ValidationError,
};

fn kind(status: u16, message: &str) -> ApiErrorKind<f64> {
    error_for_status::<f64>(status, message.to_owned(), None, String::new(), Some(60.0)).kind
}

#[test]
fn statuses_map_to_kinds() {
    assert_eq!(kind(400, "x"), ApiErrorKind::BadRequest);
    assert_eq!(kind(401, "x"), ApiErrorKind::Unauthorized);
    assert_eq!(kind(403, "x"), ApiErrorKind::Forbidden { is_paid_feature: false });
    assert_eq!(kind(404, "x"), ApiErrorKind::NotFound);
    assert_eq!(kind(413, "x"), ApiErrorKind::PayloadTooLarge);
    assert_eq!(
        kind(429, "x"),
        ApiErrorKind::RateLimited { retry_after_seconds: Some(60.0) }
    );
    assert_eq!(kind(500, "x"), ApiErrorKind::ServerError);
    assert_eq!(kind(599, "x"), ApiErrorKind::ServerError);
    assert_eq!(kind(406, "x"), ApiErrorKind::Other);
    assert_eq!(kind(600, "x"), ApiErrorKind::Other);
}

#[test]
fn paywall_is_detected_in_any_case() {
    assert_eq!(
        kind(403, "JSON export is a Paid Feature"),
        ApiErrorKind::Forbidden { is_paid_feature: true }
    );
    assert_eq!(kind(400, "JSON export is a paid feature"), ApiErrorKind::BadRequest);
    assert!(says_paid_feature("MOCA export is a PAID FEATURE"));
    assert!(!says_paid_feature("paid  feature"));
    let error = error_for_status::<f64>(403, "a paid feature".into(), Some("r1".into()), "{}".into(), None);
    assert!(error.is_paid_feature());
    assert_eq!(error.retry_after_seconds(), None);
    assert_eq!(error.request_id.as_deref(), Some("r1"));
    assert_eq!(error.raw_body, "{}");
    assert_eq!(error.status, 403);
}

#[test]
fn retry_after_is_carried_on_rate_limits_only() {
    let limited = error_for_status::<f64>(429, "slow".into(), None, String::new(), Some(2.5));
    assert_eq!(limited.retry_after_seconds(), Some(2.5));
    assert!(!limited.is_paid_feature());
    let server = error_for_status::<f64>(503, "down".into(), None, String::new(), Some(2.5));
    assert_eq!(server.retry_after_seconds(), None);
}

#[test]
fn message_prefers_the_json_message() {
    assert_eq!(extract_message("{\"message\": \"bad dpi\"}", Some("Bad Request")), "bad dpi");
    assert_eq!(
        extract_message(
            "{\"timestamp\":1,\"status\":400,\"error\":\"Bad Request\",\"message\":\"Spring says no\",\"path\":\"/x\"}",
            Some("Bad Request")
        ),
        "Spring says no"
    );
}

#[test]
fn message_falls_back_to_the_trimmed_body() {
    assert_eq!(
        extract_message("  {\"error\":\"Too many requests. Please try again later.\"} ", None),
        "{\"error\":\"Too many requests. Please try again later.\"}"
    );
    assert_eq!(extract_message("<html>502</html>", Some("Bad Gateway")), "<html>502</html>");
    assert_eq!(extract_message("{\"message\": \"   \"}", None), "{\"message\": \"   \"}");
    assert_eq!(extract_message("{\"message\": 5}", None), "{\"message\": 5}");
    assert_eq!(extract_message("[\"message\"]", None), "[\"message\"]");
}

#[test]
fn message_falls_back_to_the_reason_phrase() {
    assert_eq!(extract_message("", reason_phrase(406)), "Not Acceptable");
    assert_eq!(extract_message(" \n ", Some("Teapot")), "Teapot");
    assert_eq!(
        extract_message("", None),
        "The LabelZoom API returned an error with no response body."
    );
    assert_eq!(
        extract_message("", Some("  ")),
        "The LabelZoom API returned an error with no response body."
    );
}

#[test]
fn message_is_capped_at_512_characters() {
    let long = "é".repeat(600);
    let message = extract_message(&long, None);
    assert_eq!(message.chars().count(), 512);
    assert_eq!(message, "é".repeat(512));
    let json = format!("{{\"message\": \"{}\"}}", "x".repeat(1000));
    assert_eq!(extract_message(&json, None), "x".repeat(512));
    assert_eq!(truncate("short"), "short");
    assert_eq!(truncate(&"a".repeat(512)), "a".repeat(512));
    assert_eq!(truncate(&"a".repeat(513)), "a".repeat(512));
}

#[test]
fn message_from_takes_the_parse_result() {
    assert_eq!(message_from("body", Some("detail"), None), "detail");
    assert_eq!(message_from("body", Some(" "), None), "body");
    assert_eq!(message_from(" ", Some("detail"), Some("Phrase")), "Phrase");
}

#[test]
fn reason_phrases_follow_the_table() {
    assert_eq!(reason_phrase(400), Some("Bad Request"));
    assert_eq!(reason_phrase(413), Some("Payload Too Large"));
    assert_eq!(reason_phrase(429), Some("Too Many Requests"));
    assert_eq!(reason_phrase(504), Some("Gateway Timeout"));
    assert_eq!(reason_phrase(418), None);
    assert_eq!(reason_phrase(200), None);
}

#[test]
fn errors_read_as_text() {
    let with_id = error_for_status::<f64>(404, "no such path".into(), Some("abc".into()), String::new(), None);
    assert_eq!(with_id.display_text(), "HTTP 404: no such path (request abc)");
    let without = error_for_status::<f64>(500, "boom".into(), None, String::new(), None);
    assert_eq!(without.display_text(), "HTTP 500: boom");
    let invalid = ValidationError { parameter: "rotation".into(), message: "no".into() };
    assert_eq!(invalid.display_text(), "invalid rotation: no");
}
