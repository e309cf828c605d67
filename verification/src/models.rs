//! The result model: the closed error taxonomy, one link's check result, and
//! the per-link report line.
use vstd::prelude::*;
use crate::digits::dec_str;
use crate::digits::u64_to_string;

verus! {

/// The closed taxonomy of failures. Every failure a probe or a run can meet is
/// one of these variants; a per-link failure never aborts the whole run, only
/// an unreadable input document does.
#[derive(Debug, Clone)]
pub enum LinkCheckerError {
    /// DNS failure, connection refused, timeout: any transport-level fault.
    NetworkError(String),
    /// The link string does not parse as a URL; no request was attempted.
    InvalidUrl(String),
    /// The endpoint answered with a status in [400, 599].
    HttpError(u16),
    /// The input document could not be read; fatal for the whole run.
    IoError(String),
    /// A dispatched unit of work failed for reasons unrelated to the network.
    RunTimeError(String),
}

/// The human-readable message of an error, exactly as `message` renders it.
pub open spec fn error_message_spec(e: LinkCheckerError) -> Seq<char> {
    match e {
        LinkCheckerError::NetworkError(msg) => "Network error: "@ + msg@,
        LinkCheckerError::InvalidUrl(url) => "Invalid URL: "@ + url@,
        LinkCheckerError::HttpError(status) => "HTTP status error: "@ + dec_str(status as nat),
        LinkCheckerError::IoError(msg) => "IO error: "@ + msg@,
        LinkCheckerError::RunTimeError(msg) => "Runtime error: "@ + msg@,
    }
}

impl LinkCheckerError {
    /// The human-readable message for this error.
    pub fn message(&self) -> (r: String)
        ensures
            r@ == error_message_spec(*self),
    {
        match self {
            LinkCheckerError::NetworkError(msg) => {
                let mut s = "Network error: ".to_owned();
                s.append(msg.as_str());
                s
            },
            LinkCheckerError::InvalidUrl(url) => {
                let mut s = "Invalid URL: ".to_owned();
                s.append(url.as_str());
                s
            },
            LinkCheckerError::HttpError(status) => {
                let mut s = "HTTP status error: ".to_owned();
                let d = u64_to_string(*status as u64);
                s.append(d.as_str());
                s
            },
            LinkCheckerError::IoError(msg) => {
                let mut s = "IO error: ".to_owned();
                s.append(msg.as_str());
                s
            },
            LinkCheckerError::RunTimeError(msg) => {
                let mut s = "Runtime error: ".to_owned();
                s.append(msg.as_str());
                s
            },
        }
    }
}

/// One link's identity together with its probe outcome: the URL verbatim as
/// extracted, the page title when one was found, and the final status.
#[derive(Debug)]
pub struct LinkCheckResult {
    pub url: String,
    pub title: Option<String>,
    pub status: Result<u16, LinkCheckerError>,
}

/// A check counts as successful exactly when the endpoint answered 200.
pub open spec fn is_ok_spec(r: LinkCheckResult) -> bool {
    match r.status {
        Ok(code) => code == 200,
        Err(_) => false,
    }
}

/// The label shown in a report line: the page title when one was found, the
/// URL itself otherwise.
pub open spec fn label_spec(r: LinkCheckResult) -> Seq<char> {
    match r.title {
        Some(t) => t@,
        None => r.url@,
    }
}

/// The reason text of a failed check: the HTTP status for a non-200 success
/// code, the error's message otherwise.
pub open spec fn reason_spec(r: LinkCheckResult) -> Seq<char> {
    match r.status {
        Ok(code) => "HTTP status error: "@ + dec_str(code as nat),
        Err(e) => error_message_spec(e),
    }
}

/// The report line for one checked link, exactly as
/// `produce_link_checker_report` renders it.
pub open spec fn report_spec(r: LinkCheckResult) -> Seq<char> {
    if is_ok_spec(r) {
        "[OK] "@ + label_spec(r) + " -> "@ + r.url@
    } else {
        "[FAIL] "@ + label_spec(r) + " -> "@ + r.url@ + " (Reason: "@ + reason_spec(r) + ")"@
    }
}

impl LinkCheckResult {
    /// A fresh result for `url`: no title yet, and the placeholder status the
    /// probe overwrites.
    pub fn new(url: String) -> (r: Self)
        ensures
            r.url == url,
            r.title is None,
            r.status == Ok::<u16, LinkCheckerError>(0u16),
    {
        Self { url, title: None, status: Ok(0) }
    }

    /// True exactly when the endpoint answered 200.
    pub fn is_ok(&self) -> (r: bool)
        ensures
            r == is_ok_spec(*self),
    {
        matches!(self.status, Ok(200))
    }

    /// The report line for this link: `[OK] {label} -> {url}` for a 200
    /// answer, `[FAIL] {label} -> {url} (Reason: {reason})` otherwise.
    pub fn produce_link_checker_report(&self) -> (r: String)
        ensures
            r@ == report_spec(*self),
    {
        let label: &str = match &self.title {
            Some(t) => t.as_str(),
            None => self.url.as_str(),
        };
        if self.is_ok() {
            let mut s = "[OK] ".to_owned();
            s.append(label);
            s.append(" -> ");
            s.append(self.url.as_str());
            proof {
                assert(s@ =~= report_spec(*self));
            }
            s
        } else {
            let mut s = "[FAIL] ".to_owned();
            s.append(label);
            s.append(" -> ");
            s.append(self.url.as_str());
            s.append(" (Reason: ");
            let reason: String = match &self.status {
                Ok(code) => {
                    let mut t = "HTTP status error: ".to_owned();
                    let d = u64_to_string(*code as u64);
                    t.append(d.as_str());
                    t
                },
                Err(e) => e.message(),
            };
            s.append(reason.as_str());
            s.append(")");
            proof {
                assert(s@ =~= report_spec(*self));
            }
            s
        }
    }
}

} // verus!
