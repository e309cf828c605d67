use linkchecker::models::LinkCheckResult;
use linkchecker::models::LinkCheckerError;

#[test]
fn is_ok_should_return_true_when_status_is_200() {
    let mut result = LinkCheckResult::new("https://google.com".to_string());
    result.status = Ok(200);
    assert!(result.is_ok());
}

#[test]
fn is_ok_should_return_false_when_network_fails() {
    let mut result = LinkCheckResult::new("https://fake_domain.com".to_string());
    result.status = Err(LinkCheckerError::NetworkError(
        "Connection refused".to_string(),
    ));
    assert!(!result.is_ok());
}

#[test]
fn is_ok_should_return_false_when_status_is_not_found() {
    let mut result = LinkCheckResult::new("https://example.com/404".to_string());
    result.status = Ok(404);
    assert!(!result.is_ok());
}

#[test]
fn is_ok_should_return_false_when_status_is_server_error() {
    let mut result = LinkCheckResult::new("https://site.com/500".to_string());
    result.status = Ok(500);
    assert!(!result.is_ok());
}

#[test]
fn format_report_should_use_title_when_available() {
    let mut result = LinkCheckResult::new("https://rust-lang.org".to_string());
    result.title = Some("Rust Programming Language".to_string());
    result.status = Ok(200);
    let report = result.produce_link_checker_report();
    assert!(report.contains("Rust Programming Language"));
    assert!(report.starts_with("[OK]"));
}

#[test]
fn format_report_should_use_url_when_title_is_missing() {
    let result = LinkCheckResult::new("https://www.421.news/es/".to_string());
    let report = result.produce_link_checker_report();
    assert!(report.contains("https://www.421.news/es/"));
}

#[test]
fn format_report_should_show_error_message_on_failure() {
    let mut result = LinkCheckResult::new("https://the_timeout_error_page.com".to_string());
    result.status = Err(LinkCheckerError::NetworkError("Timeout".to_string()));
    let report = result.produce_link_checker_report();
    assert!(report.starts_with("[FAIL]"));
    assert!(report.contains("Reason: Network error: Timeout"));
}

#[test]
fn new_result_has_placeholder_status_and_no_title() {
    let result = LinkCheckResult::new("https://example.com".to_string());
    assert_eq!(result.url, "https://example.com");
    assert!(result.title.is_none());
    assert!(matches!(result.status, Ok(0)));
    assert!(!result.is_ok());
}

#[test]
fn message_renders_each_error_kind() {
    assert_eq!(
        LinkCheckerError::NetworkError("refused".to_string()).message(),
        "Network error: refused"
    );
    assert_eq!(
        LinkCheckerError::InvalidUrl("not a url".to_string()).message(),
        "Invalid URL: not a url"
    );
    assert_eq!(
        LinkCheckerError::HttpError(503).message(),
        "HTTP status error: 503"
    );
    assert_eq!(
        LinkCheckerError::IoError("missing file".to_string()).message(),
        "IO error: missing file"
    );
    assert_eq!(
        LinkCheckerError::RunTimeError("worker crashed".to_string()).message(),
        "Runtime error: worker crashed"
    );
}

#[test]
fn format_report_renders_exact_ok_line() {
    let mut result = LinkCheckResult::new("https://example.com".to_string());
    result.status = Ok(200);
    assert_eq!(
        result.produce_link_checker_report(),
        "[OK] https://example.com -> https://example.com"
    );
}

#[test]
fn format_report_uses_title_as_label_on_failure_too() {
    let mut result = LinkCheckResult::new("https://example.com/x".to_string());
    result.title = Some("Known Page".to_string());
    result.status = Err(LinkCheckerError::HttpError(410));
    assert_eq!(
        result.produce_link_checker_report(),
        "[FAIL] Known Page -> https://example.com/x (Reason: HTTP status error: 410)"
    );
}

#[test]
fn format_report_renders_exact_line_for_non_200_success_code() {
    let mut result = LinkCheckResult::new("https://example.com/r".to_string());
    result.status = Ok(302);
    assert_eq!(
        result.produce_link_checker_report(),
        "[FAIL] https://example.com/r -> https://example.com/r (Reason: HTTP status error: 302)"
    );
}
