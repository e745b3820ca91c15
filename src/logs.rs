use crate::text::{contains, contains_spec, trim, trimmed};
use vstd::prelude::*;

verus! {

/// Client log text that reports a lost server connection.
pub const DISCONNECT_PATTERN: &'static str = "[FLog::Network] Connection lost";

/// Seconds during which a second disconnect notice is held back.
pub const COOLDOWN_SECONDS: u64 = 5;

/// Size in bytes at which the app's log file is rotated.
pub const MAX_LOG_SIZE: u64 = 10 * 1024 * 1024;

/// Number of log files kept.
pub const MAX_LOG_FILES: usize = 10;

/// Whether `now` lies within the cooldown after a notice at `last`.
pub open spec fn in_cooldown(now: u64, last: u64) -> bool {
    last <= now && now - last < COOLDOWN_SECONDS
}

/// Whether a client log line calls for a disconnect notice at `now`, the
/// previous notice having been given at `last`.
pub fn should_notify_disconnect(now: u64, last: u64, line: &str) -> (r: bool)
    ensures
        r == (!in_cooldown(now, last) && contains_spec(line@, DISCONNECT_PATTERN@)),
{
    if last <= now && now - last < COOLDOWN_SECONDS {
        return false;
    }
    contains(line, DISCONNECT_PATTERN)
}

/// The text of a client log line to show, trimmed; `None` for a blank line.
pub fn log_line_to_emit(line: &str) -> (r: Option<String>)
    ensures
        trimmed(line@).len() == 0 ==> r is None,
        trimmed(line@).len() > 0 ==> (r matches Some(t) && t@ == trimmed(line@)),
{
    let t = trim(line);
    if t.as_str().unicode_len() == 0 {
        None
    } else {
        Some(t)
    }
}

/// Where to resume reading a log file of `len` bytes that was read up to
/// `position`: from the start when the file shrank (it was replaced), from
/// `position` otherwise; `None` when nothing new was written.
pub fn next_read_offset(position: u64, len: u64) -> (r: Option<u64>)
    ensures
        r == (if len < position {
            if len > 0 { Some(0u64) } else { None }
        } else if len > position {
            Some(position)
        } else {
            None
        }),
{
    let start = if len < position {
        0
    } else {
        position
    };
    if len > start {
        Some(start)
    } else {
        None
    }
}

/// Where the app writes its own log, and when it rotates it.
#[derive(Debug)]
pub struct Logger {
    pub log_dir: String,
    pub current_log_file: String,
    pub max_log_size: u64,
    pub max_log_files: usize,
}

impl Logger {
    /// A logger writing `current_log_file` under `log_dir`, with the
    /// standard limits.
    pub fn new(log_dir: String, current_log_file: String) -> (r: Logger)
        ensures
            r.log_dir == log_dir && r.current_log_file == current_log_file,
            r.max_log_size == MAX_LOG_SIZE && r.max_log_files == MAX_LOG_FILES,
    {
        Logger { log_dir, current_log_file, max_log_size: MAX_LOG_SIZE, max_log_files: MAX_LOG_FILES }
    }

    /// Whether a current log file of `size` bytes must be rotated.
    pub fn needs_rotation(&self, size: u64) -> (r: bool)
        ensures
            r == (size >= self.max_log_size),
    {
        size >= self.max_log_size
    }

    /// How many of the oldest of `count` log files to remove before a
    /// rotation, so that fewer than the limit remain.
    pub fn files_to_remove(&self, count: usize) -> (r: usize)
        ensures
            count < self.max_log_files ==> r == 0,
            count >= self.max_log_files ==> r == (if self.max_log_files == 0 {
                count as int
            } else {
                count - self.max_log_files + 1
            }),
    {
        if count < self.max_log_files {
            0
        } else if self.max_log_files == 0 {
            count
        } else {
            count - self.max_log_files + 1
        }
    }
}

} // verus!
