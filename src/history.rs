use vstd::prelude::*;

verus! {

/// How many records a history read from a very large file keeps.
pub const LARGE_HISTORY_LIMIT: usize = 1000;

/// Size in bytes above which the history file is read as a large one.
pub const LARGE_HISTORY_BYTES: u64 = 5_000_000;

/// One script execution, newest first in the history.
#[derive(Debug)]
pub struct ExecutionRecord {
    pub id: String,
    pub timestamp: i64,
    pub content: String,
    pub success: bool,
    pub error: Option<String>,
}

/// The history with `record` in front, cut to at most `max_items` records.
pub open spec fn with_record(history: Seq<ExecutionRecord>, record: ExecutionRecord, max_items: nat) -> Seq<ExecutionRecord> {
    let h = seq![record] + history;
    if h.len() > max_items {
        h.subrange(0, max_items as int)
    } else {
        h
    }
}

/// Puts `record` in front of `history` and keeps the newest `max_items`.
pub fn save_execution_record(history: Vec<ExecutionRecord>, record: ExecutionRecord, max_items: usize) -> (r: Vec<ExecutionRecord>)
    ensures
        r@ == with_record(history@, record, max_items as nat),
{
    let mut h = history;
    h.insert(0, record);
    if h.len() > max_items {
        h.truncate(max_items);
    }
    h
}

/// Whether a history file of `size` bytes is read as a large one.
pub fn is_large_history(size: u64) -> (r: bool)
    ensures
        r == (size > LARGE_HISTORY_BYTES),
{
    size > LARGE_HISTORY_BYTES
}

/// A history read from a large file: at most its first records are kept.
pub fn cap_large_history(records: Vec<ExecutionRecord>) -> (r: Vec<ExecutionRecord>)
    ensures
        records@.len() > LARGE_HISTORY_LIMIT ==> r@ == records@.subrange(0, LARGE_HISTORY_LIMIT as int),
        records@.len() <= LARGE_HISTORY_LIMIT ==> r@ == records@,
{
    let mut h = records;
    if h.len() > LARGE_HISTORY_LIMIT {
        h.truncate(LARGE_HISTORY_LIMIT);
    }
    h
}

} // verus!
