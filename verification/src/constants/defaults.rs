use vstd::prelude::*;

verus! {

/// Size of the log file, in mebibytes, above which it is rotated.
pub const LOG_MAX_SIZE_MB: u32 = 10;

/// Number of rotated log files that are kept.
pub const LOG_MAX_ARCHIVED: u32 = 5;

/// Days that must pass after a check before the next one is due.
pub const UPDATE_CHECK_DAYS: i64 = 1;

} // verus!
