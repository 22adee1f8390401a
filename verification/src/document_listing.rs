//! Listing documents: which stored keys are metadata or chunk records, who
//! may see a document, the per-status counts, paging, and the summary of an
//! upload batch (a track).

use vstd::prelude::*;

use crate::text::{decimal, decimal_text, ends_with, find_text, finishes_with, first_occurrence_at, occurs_in, owned, same_text, take_chars};

verus! {

/// What a stored key is, for listing.
#[derive(Debug, Clone, PartialEq, Eq)]
pub enum DocumentKeyKind {
    /// A document's metadata record.
    Metadata,
    /// A chunk of the named document.
    Chunk(String),
    /// Anything else.
    Other,
}

/// The listing rule for a key: `…-metadata` is metadata; a key holding
/// `-chunk-` is a chunk of the document named before its first `-chunk-`,
/// unless that name itself ends in `-metadata` or `-content`.
pub open spec fn key_kind_rule(key: Seq<char>, k: DocumentKeyKind) -> bool {
    if finishes_with(key, "-metadata"@) {
        k is Metadata
    } else if occurs_in(key, "-chunk-"@) {
        let i = choose|i: int| first_occurrence_at(key, "-chunk-"@, i);
        let owner = key.take(i);
        if finishes_with(owner, "-metadata"@) || finishes_with(owner, "-content"@) {
            k is Other
        } else {
            k is Chunk && k->Chunk_0@ == owner
        }
    } else {
        k is Other
    }
}

proof fn lemma_first_occurrence_unique(text: Seq<char>, pat: Seq<char>, i: int, j: int)
    requires
        first_occurrence_at(text, pat, i),
        first_occurrence_at(text, pat, j),
    ensures
        i == j,
{
    if i < j {
        assert(text.subrange(i, i + pat.len()) != pat);
    }
    if j < i {
        assert(text.subrange(j, j + pat.len()) != pat);
    }
}

/// Classifies a stored key for listing.
pub fn classify_document_key(key: &str) -> (k: DocumentKeyKind)
    ensures
        key_kind_rule(key@, k),
{
    if ends_with(key, "-metadata") {
        return DocumentKeyKind::Metadata;
    }
    match find_text(key, "-chunk-") {
        Some(i) => {
            proof {
                let c = choose|c: int| first_occurrence_at(key@, "-chunk-"@, c);
                lemma_first_occurrence_unique(key@, "-chunk-"@, c, i as int);
            }
            let owner = take_chars(key, i);
            if ends_with(owner.as_str(), "-metadata") || ends_with(owner.as_str(), "-content") {
                DocumentKeyKind::Other
            } else {
                DocumentKeyKind::Chunk(owner)
            }
        },
        None => DocumentKeyKind::Other,
    }
}

/// The owner that the track summary counts a key under: the part before its
/// first `-chunk-` (the whole key when there is none), unless that part ends
/// in `-metadata` or `-content`.
pub open spec fn track_owner_rule(key: Seq<char>, r: Option<String>) -> bool {
    let owner = if occurs_in(key, "-chunk-"@) {
        key.take(choose|i: int| first_occurrence_at(key, "-chunk-"@, i))
    } else {
        key
    };
    if finishes_with(owner, "-metadata"@) || finishes_with(owner, "-content"@) {
        r is None
    } else {
        r is Some && r->0@ == owner
    }
}

/// The owner a key is counted under by the track summary.
pub fn track_chunk_owner(key: &str) -> (r: Option<String>)
    ensures
        track_owner_rule(key@, r),
{
    let owner = match find_text(key, "-chunk-") {
        Some(i) => {
            proof {
                let c = choose|c: int| first_occurrence_at(key@, "-chunk-"@, c);
                lemma_first_occurrence_unique(key@, "-chunk-"@, c, i as int);
            }
            take_chars(key, i)
        },
        None => owned(key),
    };
    if ends_with(owner.as_str(), "-metadata") || ends_with(owner.as_str(), "-content") {
        None
    } else {
        Some(owner)
    }
}

/// The view of an optional string.
pub open spec fn opt_text(v: Option<String>) -> Option<Seq<char>> {
    match v {
        Some(s) => Some(s@),
        None => None,
    }
}

fn same_opt(a: &Option<String>, b: &Option<String>) -> (r: bool)
    ensures
        r == (opt_text(*a) == opt_text(*b)),
{
    match (a, b) {
        (Some(x), Some(y)) => same_text(x.as_str(), y.as_str()),
        (None, None) => true,
        _ => false,
    }
}

/// Whether a document of `doc_workspace` / `doc_tenant` is listed for a
/// caller scoped to `workspace` / `tenant`: both must match exactly.
pub fn matches_tenant_context(
    doc_workspace: &Option<String>,
    doc_tenant: &Option<String>,
    workspace: &Option<String>,
    tenant: &Option<String>,
) -> (r: bool)
    ensures
        r == (opt_text(*doc_workspace) == opt_text(*workspace) && opt_text(*doc_tenant)
            == opt_text(*tenant)),
{
    same_opt(doc_workspace, workspace) && same_opt(doc_tenant, tenant)
}

/// Documents per status.
#[derive(Debug, Clone, Copy, PartialEq, Eq, Default)]
pub struct StatusCounts {
    pub pending: usize,
    pub processing: usize,
    /// Completed, indexed, or without a status.
    pub completed: usize,
    pub partial_failure: usize,
    pub failed: usize,
    pub cancelled: usize,
    /// Raw uploads are not counted by the key-value listing: always 0.
    pub uploaded: usize,
    pub awaiting_schema: usize,
}

/// Whether a status is exactly `lit`.
pub open spec fn status_is(s: Option<String>, lit: Seq<char>) -> bool {
    s is Some && s->0@ == lit
}

/// Whether a status counts as completed.
pub open spec fn counts_as_completed(s: Option<String>) -> bool {
    s is None || status_is(s, "completed"@) || status_is(s, "indexed"@)
}

/// How many statuses are exactly `lit`.
pub open spec fn count_status(s: Seq<Option<String>>, lit: Seq<char>) -> nat
    decreases s.len(),
{
    if s.len() == 0 {
        0
    } else {
        count_status(s.drop_last(), lit) + if status_is(s.last(), lit) {
            1nat
        } else {
            0nat
        }
    }
}

/// How many statuses count as completed.
pub open spec fn count_completed(s: Seq<Option<String>>) -> nat
    decreases s.len(),
{
    if s.len() == 0 {
        0
    } else {
        count_completed(s.drop_last()) + if counts_as_completed(s.last()) {
            1nat
        } else {
            0nat
        }
    }
}

/// Whether `c` counts the statuses `s`.
pub open spec fn counts_of(c: StatusCounts, s: Seq<Option<String>>) -> bool {
    &&& c.pending == count_status(s, "pending"@)
    &&& c.processing == count_status(s, "processing"@)
    &&& c.completed == count_completed(s)
    &&& c.partial_failure == count_status(s, "partial_failure"@)
    &&& c.failed == count_status(s, "failed"@)
    &&& c.cancelled == count_status(s, "cancelled"@)
    &&& c.uploaded == 0
    &&& c.awaiting_schema == count_status(s, "awaiting_schema"@)
}

proof fn lemma_counts_bounded(s: Seq<Option<String>>, lit: Seq<char>)
    ensures
        count_status(s, lit) <= s.len(),
        count_completed(s) <= s.len(),
    decreases s.len(),
{
    if s.len() > 0 {
        lemma_counts_bounded(s.drop_last(), lit);
    }
}

fn status_matches(s: &Option<String>, lit: &str) -> (r: bool)
    ensures
        r == status_is(*s, lit@),
{
    match s {
        Some(x) => same_text(x.as_str(), lit),
        None => false,
    }
}

/// Counts documents per status.
pub fn count_statuses(statuses: &Vec<Option<String>>) -> (c: StatusCounts)
    ensures
        counts_of(c, statuses@),
{
    let mut c = StatusCounts {
        pending: 0,
        processing: 0,
        completed: 0,
        partial_failure: 0,
        failed: 0,
        cancelled: 0,
        uploaded: 0,
        awaiting_schema: 0,
    };
    let mut i: usize = 0;
    while i < statuses.len()
        invariant
            i <= statuses.len(),
            counts_of(c, statuses@.take(i as int)),
        decreases statuses.len() - i,
    {
        let ghost t = statuses@.take(i as int);
        proof {
            assert(statuses@.take(i + 1).drop_last() == t);
            lemma_counts_bounded(t, "pending"@);
            lemma_counts_bounded(t, "processing"@);
            lemma_counts_bounded(t, "partial_failure"@);
            lemma_counts_bounded(t, "failed"@);
            lemma_counts_bounded(t, "cancelled"@);
            lemma_counts_bounded(t, "awaiting_schema"@);
        }
        let s = &statuses[i];
        if status_matches(s, "pending") {
            c.pending = c.pending + 1;
        }
        if status_matches(s, "processing") {
            c.processing = c.processing + 1;
        }
        if s.is_none() || status_matches(s, "completed") || status_matches(s, "indexed") {
            c.completed = c.completed + 1;
        }
        if status_matches(s, "partial_failure") {
            c.partial_failure = c.partial_failure + 1;
        }
        if status_matches(s, "failed") {
            c.failed = c.failed + 1;
        }
        if status_matches(s, "cancelled") {
            c.cancelled = c.cancelled + 1;
        }
        if status_matches(s, "awaiting_schema") {
            c.awaiting_schema = c.awaiting_schema + 1;
        }
        i = i + 1;
    }
    assert(statuses@.take(statuses.len() as int) == statuses@);
    c
}

/// Paging of a document listing.
#[derive(Debug, Clone, Copy, PartialEq, Eq)]
pub struct ListPage {
    pub total: usize,
    pub page: usize,
    pub page_size: usize,
    pub total_pages: usize,
    pub has_more: bool,
}

/// The paging of a listing of `total` documents: the first page of 20, as
/// many pages as needed to hold them all, more pages after the first when
/// there are over 20.
pub fn list_page(total: usize) -> (p: ListPage)
    ensures
        p.total == total,
        p.page == 1,
        p.page_size == 20,
        p.total_pages == (total + 19) / 20,
        p.has_more == (1 < p.total_pages),
{
    let total_pages: usize = total / 20 + if total % 20 == 0 {
        0
    } else {
        1
    };
    assert(total_pages == (total + 19) / 20) by (nonlinear_arith)
        requires
            total_pages == total / 20 + if total % 20 == 0 {
                0int
            } else {
                1int
            },
    ;
    ListPage { total, page: 1, page_size: 20, total_pages, has_more: 1 < total_pages }
}

/// The paging of the empty listing answered to a caller without a complete
/// tenant context (no tenant or no workspace): nothing is shown.
pub fn empty_list_page() -> (p: ListPage)
    ensures
        p.total == 0 && p.page == 1 && p.page_size == 100 && p.total_pages == 0 && !p.has_more,
{
    ListPage { total: 0, page: 1, page_size: 100, total_pages: 0, has_more: false }
}

/// Whether the caller's tenant context allows listing at all.
pub fn tenant_context_complete(tenant: &Option<String>, workspace: &Option<String>) -> (r: bool)
    ensures
        r == (tenant is Some && workspace is Some),
{
    tenant.is_some() && workspace.is_some()
}

/// Whether an upload batch is finished: nothing pending or processing.
pub open spec fn track_complete(c: StatusCounts) -> bool {
    c.pending == 0 && c.processing == 0
}

/// The progress line of an upload batch of `total` documents.
pub open spec fn track_message(c: StatusCounts, total: nat) -> Seq<char> {
    if !track_complete(c) {
        "Processing "@ + decimal((c.completed + c.failed) as nat) + "/"@ + decimal(total)
            + " documents..."@
    } else if c.failed > 0 {
        "Completed with "@ + decimal(c.failed as nat) + " errors"@
    } else {
        "All documents processed successfully"@
    }
}

/// Law: an upload batch is complete exactly when none of its documents is
/// pending and none is processing. While any is, its line is the progress
/// `Processing {completed + failed}/{total} documents...`; once complete it
/// reports the failures, or full success when there were none.
pub proof fn law_track_progress(c: StatusCounts, total: nat)
    ensures
        track_complete(c) <==> (c.pending == 0 && c.processing == 0),
        (c.pending > 0 || c.processing > 0) ==> track_message(c, total) == "Processing "@ + decimal(
            (c.completed + c.failed) as nat,
        ) + "/"@ + decimal(total) + " documents..."@,
        (c.pending == 0 && c.processing == 0 && c.failed > 0) ==> track_message(c, total)
            == "Completed with "@ + decimal(c.failed as nat) + " errors"@,
        (c.pending == 0 && c.processing == 0 && c.failed == 0) ==> track_message(c, total)
            == "All documents processed successfully"@,
{
}

/// Whether an upload batch is finished, and its progress line.
pub fn track_progress(c: StatusCounts, total: usize) -> (r: (bool, String))
    ensures
        r.0 == track_complete(c),
        r.1@ == track_message(c, total as nat),
        r.0 == (c.pending == 0 && c.processing == 0),
{
    let is_complete = c.pending == 0 && c.processing == 0;
    if !is_complete {
        let done: u128 = c.completed as u128 + c.failed as u128;
        let mut m = owned("Processing ");
        m.append(decimal_text(done).as_str());
        m.append("/");
        m.append(decimal_text(total as u128).as_str());
        m.append(" documents...");
        (false, m)
    } else if c.failed > 0 {
        let mut m = owned("Completed with ");
        m.append(decimal_text(c.failed as u128).as_str());
        m.append(" errors");
        (true, m)
    } else {
        (true, owned("All documents processed successfully"))
    }
}

} // verus!
