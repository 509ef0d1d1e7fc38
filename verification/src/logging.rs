//! How long logs are kept.
use vstd::prelude::*;

use crate::text::path;
use crate::text::path::join_path;
use crate::util::Counter;

verus! {

pub const SECS_PER_DAY: u64 = 86_400;

pub const BYTES_PER_MB: u64 = 1_048_576;

/// The moment before which logs are old, in seconds of the epoch.
pub open spec fn cutoff_of(now_secs: u64, retention_days: u64) -> int {
    if retention_days * SECS_PER_DAY <= now_secs {
        now_secs - retention_days * SECS_PER_DAY
    } else {
        0
    }
}

/// The moment before which logs are old: so many days ago, or the start of the epoch
/// where it is not that old.
pub fn log_cutoff(now_secs: u64, retention_days: u64) -> (r: u64)
    requires
        retention_days * SECS_PER_DAY <= u64::MAX,
    ensures
        r == cutoff_of(now_secs, retention_days),
{
    let span: u64 = retention_days * SECS_PER_DAY;
    if span <= now_secs {
        now_secs - span
    } else {
        0
    }
}

/// A log file: when it was last written, as far as that is known, and its size.
#[derive(Debug, Clone, Copy, PartialEq, Eq, Structural)]
pub struct LogFile {
    pub modified_secs: Option<u64>,
    pub size: u64,
}

pub open spec fn is_old(f: LogFile, cutoff: u64) -> bool {
    f.modified_secs is Some && f.modified_secs->0 < cutoff
}

/// Whether a log file is old enough to be removed.
pub fn is_expired(f: &LogFile, cutoff: u64) -> (r: bool)
    ensures
        r == is_old(*f, cutoff),
{
    match f.modified_secs {
        Some(t) => t < cutoff,
        None => false,
    }
}

/// A file that was written within the days that logs are kept is never removed.
pub proof fn law_recent_logs_are_kept(f: LogFile, now_secs: u64, retention_days: u64, cutoff: u64)
    requires
        cutoff == cutoff_of(now_secs, retention_days),
        f.modified_secs is Some,
        f.modified_secs->0 + retention_days * SECS_PER_DAY >= now_secs,
    ensures
        !is_old(f, cutoff),
{
}

/// How many log files were removed, and how many bytes they had.
#[derive(Debug)]
pub struct CleanupTotals {
    pub files: Counter,
    pub bytes: Counter,
}

impl CleanupTotals {
    pub fn new() -> (r: Self)
        ensures
            r.files.count == 0,
            r.bytes.count == 0,
    {
        CleanupTotals { files: Counter::new(), bytes: Counter::new() }
    }

    /// Counts a file that was removed.
    pub fn note(&mut self, f: &LogFile)
        ensures
            final(self).files.count == (if old(self).files.count < u64::MAX {
                old(self).files.count + 1
            } else {
                u64::MAX as int
            }),
            final(self).bytes.count == (if old(self).bytes.count + f.size <= u64::MAX {
                old(self).bytes.count + f.size
            } else {
                u64::MAX as int
            }),
    {
        self.files.increment();
        self.bytes.advance(f.size);
    }
}

/// Whether the log of the engine is set aside: it is larger than so many megabytes.
pub fn should_rotate(size: u64, max_size_mb: u64) -> (r: bool)
    ensures
        r == (size > max_size_mb * BYTES_PER_MB),
{
    let whole: u64 = size / BYTES_PER_MB;
    whole > max_size_mb || (whole == max_size_mb && size % BYTES_PER_MB > 0)
}

/// The directory that the inferences of an instance are logged in.
pub fn infer_log_dir(logs_dir: &str, instance_id: &str) -> (r: String)
    ensures
        r@ == path::joined_path(path::joined_path(logs_dir@, "infer"@), instance_id@),
{
    let dir = join_path(logs_dir, "infer");
    join_path(dir.as_str(), instance_id)
}

} // verus!
