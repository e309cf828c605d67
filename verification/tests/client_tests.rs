use linkchecker::client::check_response;
use linkchecker::client::check_runtime_error;
use linkchecker::client::check_transport_error;
use linkchecker::client::precheck_url;
use linkchecker::client::should_fetch_title;
use linkchecker::models::LinkCheckerError;

#[test]
fn precheck_accepts_a_well_formed_url() {
    let checked = precheck_url("https://www.google.com".to_string());
    assert_eq!(checked.unwrap(), "https://www.google.com");
}

#[test]
fn precheck_rejects_a_malformed_url_without_any_request() {
    let checked = precheck_url("this is not a url".to_string());
    let failure = checked.unwrap_err();
    assert_eq!(failure.url, "this is not a url");
    assert!(failure.title.is_none());
    assert!(matches!(
        failure.status,
        Err(LinkCheckerError::InvalidUrl(ref u)) if u == "this is not a url"
    ));
    assert!(!failure.is_ok());
}

#[test]
fn should_fetch_title_only_for_success_statuses() {
    assert!(should_fetch_title(200));
    assert!(should_fetch_title(299));
    assert!(!should_fetch_title(199));
    assert!(!should_fetch_title(302));
    assert!(!should_fetch_title(404));
}

#[test]
fn check_response_captures_200_and_title() {
    let body = "<html><head><title>Example</title></head><body></body></html>";
    let result = check_response(
        "https://example.com".to_string(),
        200,
        Some(body.to_string()),
    );
    assert!(matches!(result.status, Ok(200)));
    assert_eq!(result.title.as_deref(), Some("Example"));
    assert!(result.is_ok());
}

#[test]
fn check_response_success_without_body_keeps_no_title() {
    let result = check_response("https://example.com".to_string(), 204, None);
    assert!(matches!(result.status, Ok(204)));
    assert!(result.title.is_none());
    assert!(!result.is_ok());
}

#[test]
fn check_response_classifies_client_error() {
    let result = check_response("https://example.com/missing".to_string(), 404, None);
    assert!(matches!(
        result.status,
        Err(LinkCheckerError::HttpError(404))
    ));
    assert!(result.title.is_none());
    assert!(!result.is_ok());
}

#[test]
fn check_response_classifies_server_error() {
    let result = check_response("https://example.com/boom".to_string(), 500, None);
    assert!(matches!(
        result.status,
        Err(LinkCheckerError::HttpError(500))
    ));
    assert!(!result.is_ok());
}

#[test]
fn check_response_surfaces_redirect_code_as_non_error() {
    let result = check_response("https://example.com/moved".to_string(), 301, None);
    assert!(matches!(result.status, Ok(301)));
    assert!(result.title.is_none());
    assert!(!result.is_ok());
    let report = result.produce_link_checker_report();
    assert!(report.starts_with("[FAIL]"));
    assert!(report.contains("HTTP status error: 301"));
}

#[test]
fn check_transport_error_is_never_a_success() {
    let result = check_transport_error(
        "https://unreachable.example".to_string(),
        "dns error".to_string(),
    );
    assert!(matches!(
        result.status,
        Err(LinkCheckerError::NetworkError(ref m)) if m == "dns error"
    ));
    assert!(result.title.is_none());
    assert!(!result.is_ok());
}

#[test]
fn check_runtime_error_is_never_a_success() {
    let result = check_runtime_error(String::new(), "task panicked".to_string());
    assert!(matches!(
        result.status,
        Err(LinkCheckerError::RunTimeError(ref m)) if m == "task panicked"
    ));
    assert!(!result.is_ok());
}
