//! How much of a search result is ingested, and by how many workers.

use vstd::prelude::*;

verus! {

/// How the entries of a run are spread over workers.
#[derive(Debug, PartialEq, Eq, Structural, Copy, Clone)]
pub enum WorkerRegime {
    /// One entry after the other, on the calling thread.
    Sequential,
    /// A pool of exactly this many worker threads.
    Fixed(u64),
    /// A pool as large as the host suggests.
    HostDefault,
}

/// The regime that a configured worker count stands for: zero switches
/// threading off, a positive count is taken literally, a negative count
/// leaves the choice to the host.
pub open spec fn regime_of(threads: i64) -> WorkerRegime {
    if threads == 0 {
        WorkerRegime::Sequential
    } else if threads > 0 {
        WorkerRegime::Fixed(threads as u64)
    } else {
        WorkerRegime::HostDefault
    }
}

/// Reads the worker regime from the configured worker count.
pub fn worker_regime(threads: i64) -> (regime: WorkerRegime)
    ensures
        regime == regime_of(threads),
{
    if threads == 0 {
        WorkerRegime::Sequential
    } else if threads > 0 {
        WorkerRegime::Fixed(threads as u64)
    } else {
        WorkerRegime::HostDefault
    }
}

/// How many of `found` entries are ingested under `limit`: all of them if
/// the limit is -1, the first `limit` if there are that many, and no
/// answer if the limit asks for more than were found or is otherwise
/// negative.
pub open spec fn entries_under_limit(found: nat, limit: i64) -> Option<nat> {
    if limit == -1 {
        Some(found)
    } else if 0 <= limit <= found {
        Some(limit as nat)
    } else {
        None
    }
}

/// Decides how many of the `found` entries are ingested.
pub fn entry_count(found: usize, limit: i64) -> (count: Option<usize>)
    ensures
        match count {
            Some(n) => entries_under_limit(found as nat, limit) == Some(n as nat),
            None => entries_under_limit(found as nat, limit) is None,
        },
{
    if limit == -1 {
        Some(found)
    } else if limit >= 0 && limit as u64 <= found as u64 {
        Some(limit as usize)
    } else {
        None
    }
}

} // verus!
