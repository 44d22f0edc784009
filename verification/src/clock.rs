use vstd::prelude::*;

use crate::models::Timestamp;

verus! {

/// The pattern in which the time of a log entry is written.
pub const LOG_TIME_PATTERN: &'static str = "%Y-%m-%d %H:%M:%S%.3f";

/// Reads the clock with `std::time::SystemTime::now`, has chrono turn the
/// instant into a `DateTime<Utc>` (its `From<SystemTime>`, which also takes an
/// instant before 1970), and hands it back as seconds and nanoseconds since the
/// Unix epoch (`DateTime::timestamp`, `DateTime::timestamp_subsec_nanos`). The
/// instant depends on when the call is made, so nothing is claimed of it.
#[verifier::external_body]
pub(crate) fn current_time() -> (now: Timestamp) {
    let now = chrono::DateTime::<chrono::Utc>::from(std::time::SystemTime::now());
    Timestamp { secs: now.timestamp(), nanos: now.timestamp_subsec_nanos() }
}

/// Reads the clock with `std::time::SystemTime::now`, has chrono turn the
/// instant into a `DateTime<Local>` (its `From<SystemTime>`, which also takes
/// an instant before 1970), and writes the local time with `DateTime::format`.
/// The text depends on the time and on the time zone of the machine, so nothing
/// is claimed of it. The pattern is the one that the log uses, which chrono
/// accepts.
#[verifier::external_body]
pub(crate) fn local_time_text(pattern: &str) -> (text: String)
    requires
        pattern@ == LOG_TIME_PATTERN@,
{
    let now = chrono::DateTime::<chrono::Local>::from(std::time::SystemTime::now());
    now.format(pattern).to_string()
}

} // verus!
