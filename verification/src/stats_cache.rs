//! Workspace statistics and their cache: answers are kept per workspace for
//! sixty seconds, and dropped when the workspace's documents change.

use vstd::prelude::*;

use std::collections::HashMap;

verus! {

broadcast use vstd::std_specs::hash::group_hash_axioms;

/// A workspace's statistics as answered.
#[derive(Debug, Clone, Copy, PartialEq, Eq)]
pub struct WorkspaceStats {
    pub workspace_id: u128,
    pub document_count: usize,
    pub entity_count: usize,
    pub relationship_count: usize,
    pub entity_type_count: usize,
    pub chunk_count: usize,
    pub embedding_count: usize,
    pub storage_bytes: u64,
}

/// How long a cached answer is served, in nanoseconds of a monotonic clock.
pub const STATS_CACHE_TTL_NANOS: u64 = 60_000_000_000;

/// A cached answer and when (monotonic nanoseconds) it was stored.
#[derive(Debug, Clone, Copy, PartialEq, Eq)]
pub struct CachedStats {
    pub stats: WorkspaceStats,
    pub cached_at: u64,
}

/// The time since `from` at `now`, zero when `now` is earlier.
pub open spec fn elapsed(from: u64, now: u64) -> int {
    if now >= from {
        now - from
    } else {
        0
    }
}

/// The answer a cache map serves for `workspace_id` at `now`: the cached
/// one while it is younger than the time to live.
pub open spec fn fresh_lookup(m: Map<u128, CachedStats>, workspace_id: u128, now: u64) -> Option<
    WorkspaceStats,
> {
    if m.contains_key(workspace_id) && elapsed(m[workspace_id].cached_at, now)
        < STATS_CACHE_TTL_NANOS {
        Some(m[workspace_id].stats)
    } else {
        None
    }
}

/// Cached workspace statistics, by workspace id.
pub struct StatsCache {
    entries: HashMap<u128, CachedStats>,
}

impl View for StatsCache {
    type V = Map<u128, CachedStats>;

    closed spec fn view(&self) -> Map<u128, CachedStats> {
        self.entries@
    }
}

impl StatsCache {
    /// An empty cache.
    pub fn new() -> (r: Self)
        ensures
            r@ == Map::<u128, CachedStats>::empty(),
    {
        StatsCache { entries: HashMap::new() }
    }

    /// The cached answer for `workspace_id`, if it is still fresh at `now`.
    pub fn get_fresh(&self, workspace_id: u128, now: u64) -> (r: Option<WorkspaceStats>)
        ensures
            r == fresh_lookup(self@, workspace_id, now),
    {
        match self.entries.get(&workspace_id) {
            Some(c) => {
                let age = if now >= c.cached_at {
                    now - c.cached_at
                } else {
                    0
                };
                if age < STATS_CACHE_TTL_NANOS {
                    Some(c.stats)
                } else {
                    None
                }
            },
            None => None,
        }
    }

    /// Caches `stats` for `workspace_id` at `now`, replacing any older answer.
    pub fn store(&mut self, workspace_id: u128, stats: WorkspaceStats, now: u64)
        ensures
            final(self)@ == old(self)@.insert(workspace_id, CachedStats { stats, cached_at: now }),
    {
        self.entries.insert(workspace_id, CachedStats { stats, cached_at: now });
    }

    /// Drops the cached answer of `workspace_id`.
    pub fn invalidate(&mut self, workspace_id: u128)
        ensures
            final(self)@ == old(self)@.remove(workspace_id),
    {
        self.entries.remove(&workspace_id);
    }
}

/// Law: an answer just stored is served until its time to live has passed,
/// and not after; storing or dropping one workspace's answer leaves every
/// other workspace's as it was; a dropped answer is not served.
pub proof fn law_stats_cache(
    m: Map<u128, CachedStats>,
    workspace_id: u128,
    other: u128,
    stats: WorkspaceStats,
    stored_at: u64,
    now: u64,
)
    requires
        workspace_id != other,
    ensures
        stored_at <= now < stored_at + STATS_CACHE_TTL_NANOS ==> fresh_lookup(
            m.insert(workspace_id, CachedStats { stats, cached_at: stored_at }),
            workspace_id,
            now,
        ) == Some(stats),
        now >= stored_at + STATS_CACHE_TTL_NANOS ==> fresh_lookup(
            m.insert(workspace_id, CachedStats { stats, cached_at: stored_at }),
            workspace_id,
            now,
        ) is None,
        fresh_lookup(m.insert(workspace_id, CachedStats { stats, cached_at: stored_at }), other, now)
            == fresh_lookup(m, other, now),
        fresh_lookup(m.remove(workspace_id), workspace_id, now) is None,
        fresh_lookup(m.remove(workspace_id), other, now) == fresh_lookup(m, other, now),
{
}

/// The statistics answered from the documents table, when it knows the
/// workspace's documents (their distinct entity types are counted from the
/// graph); `None` sends the caller to the key-value store.
pub fn table_stats(table: Option<WorkspaceStats>, entity_type_count: usize) -> (r: Option<
    WorkspaceStats,
>)
    ensures
        match table {
            Some(s) => if s.document_count > 0 {
                r == Some(WorkspaceStats { entity_type_count, ..s })
            } else {
                r is None
            },
            None => r is None,
        },
{
    match table {
        Some(s) => {
            if s.document_count > 0 {
                Some(WorkspaceStats { entity_type_count, ..s })
            } else {
                None
            }
        },
        None => None,
    }
}

} // verus!
