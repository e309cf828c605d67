//! Verified core of a document link checker: probe-outcome classification,
//! result reporting, and tally aggregation, with trusted wrappers around the
//! markup parsers and the URL parser.
pub mod client;
pub mod digits;
pub mod dispatch;
pub mod laws;
pub mod models;
pub mod parser;
