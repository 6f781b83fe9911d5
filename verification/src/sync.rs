//! What publishing the offline cache reports.

use vstd::prelude::*;
use vstd::string::*;

verus! {

/// How many games were written to the offline cache, and where.
#[derive(Debug, Clone, PartialEq, Eq)]
pub struct SyncReport {
    pub games_written: usize,
    pub cache_path: String,
}

/// The report of a cache publication of `snapshot` at `cache_path`.
pub fn sync_report(snapshot: &crate::models::CacheSnapshot, cache_path: &str) -> (r: SyncReport)
    ensures
        r.games_written == snapshot.games@.len(),
        r.cache_path@ == cache_path@,
{
    SyncReport { games_written: snapshot.games.len(), cache_path: String::from_str(cache_path) }
}

} // verus!
