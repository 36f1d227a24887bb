//! When the log file is emptied: before a write that would take it beyond
//! its limit.

use vstd::prelude::*;

verus! {

/// The size in bytes beyond which the log file does not grow: 5 MB.
pub const MAX_LOG_SIZE: u64 = 5_242_880;

/// A file of `current_len` bytes is emptied before `incoming` more bytes
/// are written where the two together exceed `max_size`.
pub open spec fn spec_exceeds(current_len: u64, incoming: usize, max_size: u64) -> bool {
    current_len + incoming > max_size
}

/// Whether the log file is to be emptied before the next write.
pub fn exceeds_limit(current_len: u64, incoming: usize, max_size: u64) -> (r: bool)
    ensures
        r == spec_exceeds(current_len, incoming, max_size),
{
    let incoming64: u64 = incoming as u64;
    current_len > max_size || incoming64 > max_size - current_len
}

} // verus!
