//! Trusted boundary: the calls into outside crates that the pipeline
//! needs, each behind a small wrapper whose contract Verus believes.

use crate::time::Timestamp;
use chrono::{Datelike, Timelike};
use vstd::prelude::*;

verus! {

/// Reads the current moment in UTC.
///
/// Relies on chrono's `Utc::now` and the `Datelike`/`Timelike` accessors
/// `year`, `month`, `day`, `hour`, `minute` and `second`, whose documented
/// ranges (month 1..=12, day 1..=31, hour below 24, minute and second
/// below 60) give the field bounds stated here. The moment itself depends
/// on the clock, so nothing more is promised. `Utc::now` does not return
/// normally on a system clock set before the Unix epoch.
#[verifier::external_body]
pub fn now_timestamp() -> (r: Timestamp)
    ensures
        r.wf(),
{
    let now = chrono::Utc::now();
    Timestamp {
        year: now.year(),
        month: now.month(),
        day: now.day(),
        hour: now.hour(),
        minute: now.minute(),
        second: now.second(),
    }
}

/// The parts of an absolute URL that the probe reads.
#[derive(Debug, Clone, PartialEq, Eq)]
pub struct UrlParts {
    /// The scheme, without the `://` separator.
    pub scheme: String,
    /// The host text.
    pub host: String,
    /// The explicit port, if the URL names one.
    pub port: Option<u16>,
    /// The first slash-separated path segment; `None` when the URL
    /// cannot be a base. An empty path yields an empty first segment.
    pub first_segment: Option<String>,
}

/// What the `url` crate makes of a URL string: `None` when parsing fails
/// or the parsed URL has no host; otherwise its scheme, host, explicit
/// port and first path segment. A function of the text alone.
pub uninterp spec fn url_parts_of(s: Seq<char>) -> Option<UrlParts>;

/// Relies on `url::Url::parse` and the accessors `scheme`, `host_str`,
/// `port` and `path_segments`: parsing is deterministic, so the outcome
/// is a function of the text alone, named by `url_parts_of`.
#[verifier::external_body]
pub fn parse_url_parts(s: &str) -> (r: Option<UrlParts>)
    ensures
        r == url_parts_of(s@),
{
    match url::Url::parse(s) {
        Ok(u) => match u.host_str() {
            Some(h) => Some(UrlParts {
                scheme: u.scheme().to_string(),
                host: h.to_string(),
                port: u.port(),
                first_segment: u.path_segments().and_then(|mut segments| segments.next()).map(
                    |t| t.to_string(),
                ),
            }),
            None => None,
        },
        Err(_) => None,
    }
}

} // verus!
