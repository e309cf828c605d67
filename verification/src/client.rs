//! The probe's decision logic. The network request itself is the caller's
//! business; everything the probe decides — whether a link string may be
//! fetched at all, and how a response or a transport fault is classified into
//! an immutable outcome — is verified here.
use vstd::prelude::*;
use crate::models::LinkCheckResult;
use crate::models::LinkCheckerError;
use crate::models::is_ok_spec;
use crate::parser::extract_title;
use crate::parser::title_of;

verus! {

/// Whether a string parses as a URL; a function of the string alone.
pub uninterp spec fn url_parses(s: Seq<char>) -> bool;

/// Relies on url::Url::parse (the parser behind reqwest's `Url`): whether a
/// string parses as a URL depends on the string alone, and the call never
/// panics.
#[verifier::external_body]
fn parse_url_ok(url: &str) -> (r: bool)
    ensures
        r == url_parses(url@),
{
    url::Url::parse(url).is_ok()
}

/// What `precheck_url` hands back for a link string that does not parse: the
/// terminal InvalidUrl outcome carrying the string itself, with no title.
pub open spec fn invalid_url_result_spec(res: LinkCheckResult, url: Seq<char>) -> bool {
    &&& res.url@ == url
    &&& res.title is None
    &&& match res.status {
        Err(LinkCheckerError::InvalidUrl(u)) => u@ == url,
        _ => false,
    }
}

/// Validates a link string before any network work. A string that does not
/// parse as a URL becomes a terminal InvalidUrl failure and must not be
/// fetched; a string that parses is handed back unchanged for the request.
pub fn precheck_url(url: String) -> (r: Result<String, LinkCheckResult>)
    ensures
        r is Ok <==> url_parses(url@),
        r matches Ok(u) ==> u == url,
        r matches Err(res) ==> invalid_url_result_spec(res, url@) && !is_ok_spec(res),
{
    if parse_url_ok(url.as_str()) {
        Ok(url)
    } else {
        let detail = url.clone();
        Err(LinkCheckResult { url, title: None, status: Err(LinkCheckerError::InvalidUrl(detail)) })
    }
}

/// The classification of a received status code: a status in [400, 599] is a
/// terminal HTTP error; every other status is surfaced as a success value
/// (1xx/3xx are not errors, though only 200 counts toward the tally).
pub open spec fn status_outcome_spec(status: u16) -> Result<u16, LinkCheckerError> {
    if 400 <= status && status <= 599 {
        Err(LinkCheckerError::HttpError(status))
    } else {
        Ok(status)
    }
}

/// The title recorded for a response: present only when the status was in
/// [200, 299], a body could be read, and the body holds a title element.
pub open spec fn title_outcome_spec(status: u16, body: Option<Seq<char>>) -> Option<Seq<char>> {
    if 200 <= status && status <= 299 {
        match body {
            Some(b) => title_of(b),
            None => None,
        }
    } else {
        None
    }
}

/// Whether the response body should be read at all: only a [200, 299] status
/// has its body fetched for a page title.
pub fn should_fetch_title(status: u16) -> (r: bool)
    ensures
        r == (200 <= status <= 299),
{
    200 <= status && status <= 299
}

/// Classifies a received HTTP response into the final result for `url`.
/// `body` is the response text where it was read (it is read only for a
/// [200, 299] status, and a failed body read is non-fatal: the check is
/// still a success, merely without a title).
pub fn check_response(url: String, status: u16, body: Option<String>) -> (r: LinkCheckResult)
    ensures
        r.url == url,
        r.status == status_outcome_spec(status),
        r.title.deep_view() == title_outcome_spec(status, body.deep_view()),
{
    let title: Option<String> = if 200 <= status && status <= 299 {
        match body {
            Some(b) => extract_title(b.as_str()),
            None => None,
        }
    } else {
        None
    };
    let outcome: Result<u16, LinkCheckerError> = if 400 <= status && status <= 599 {
        Err(LinkCheckerError::HttpError(status))
    } else {
        Ok(status)
    };
    LinkCheckResult { url, title, status: outcome }
}

/// Wraps a transport-level fault (DNS failure, refused connection, timeout)
/// for `url` into a terminal NetworkError outcome; such a probe is never a
/// success.
pub fn check_transport_error(url: String, message: String) -> (r: LinkCheckResult)
    ensures
        r.url == url,
        r.title is None,
        r.status == Err::<u16, LinkCheckerError>(LinkCheckerError::NetworkError(message)),
        !is_ok_spec(r),
{
    LinkCheckResult { url, title: None, status: Err(LinkCheckerError::NetworkError(message)) }
}

/// Wraps the host-level fault of one dispatched unit of work (unrelated to
/// the network call) into a per-link RunTimeError result, so that one unit's
/// crash never aborts the run.
pub fn check_runtime_error(url: String, detail: String) -> (r: LinkCheckResult)
    ensures
        r.url == url,
        r.title is None,
        r.status == Err::<u16, LinkCheckerError>(LinkCheckerError::RunTimeError(detail)),
        !is_ok_spec(r),
{
    LinkCheckResult { url, title: None, status: Err(LinkCheckerError::RunTimeError(detail)) }
}

} // verus!
