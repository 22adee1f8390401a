//! Which stored documents are put back on the processing queue: failed ones
//! on a reprocess request, and ones stuck in `processing` on a recovery
//! request; and the task scope that a requeued document is filed under.

use vstd::prelude::*;

use crate::clock::{parse_rfc3339_instant, rfc3339_instant, utc_now};
use crate::document_store::texts;
use crate::error::ApiError;
use crate::ids::{parse_uuid, uuid_value};
use crate::text::{owned, same_text};

verus! {

/// The fields of a document's metadata record that requeueing reads; each is
/// `None` where the record lacks it or it is not a string.
#[derive(Debug, Clone, PartialEq, Eq, Default)]
pub struct MetadataRecord {
    pub id: Option<String>,
    pub status: Option<String>,
    pub track_id: Option<String>,
    pub title: Option<String>,
    pub updated_at: Option<String>,
}

/// Whether an optional field holds exactly `s`.
pub open spec fn field_is(o: Option<String>, s: Seq<char>) -> bool {
    o is Some && o->0@ == s
}

/// Whether a text equals an optional one (a missing field equals nothing).
fn field_equals(o: &Option<String>, s: &str) -> (r: bool)
    ensures
        r == field_is(*o, s@),
{
    match o {
        Some(v) => same_text(v.as_str(), s),
        None => false,
    }
}

/// A reprocess request: one document (`document_id`, any status when
/// `force`), or the failed documents of a track, or all failed documents;
/// at most `max_documents`.
#[derive(Debug, Clone, PartialEq, Eq)]
pub struct ReprocessFilter {
    pub document_id: Option<String>,
    pub track_id: Option<String>,
    pub force: bool,
    pub max_documents: usize,
}

/// One step of the reprocess scan over a metadata record: the ids chosen so
/// far and whether the scan ends here (the asked-for document was found).
pub open spec fn reprocess_step(acc: Seq<Seq<char>>, rec: Option<MetadataRecord>, f: ReprocessFilter) -> (
    Seq<Seq<char>>,
    bool,
) {
    match rec {
        None => (acc, false),
        Some(r) => match f.document_id {
            Some(d) => if !field_is(r.id, d@) {
                (acc, false)
            } else if !f.force && !field_is(r.status, "failed"@) {
                (acc, false)
            } else {
                (acc.push(d@), true)
            },
            None => if f.track_id is Some && !field_is(r.track_id, f.track_id->0@) {
                (acc, false)
            } else if field_is(r.status, "failed"@) && r.id is Some {
                (acc.push(r.id->0@), false)
            } else {
                (acc, false)
            },
        },
    }
}

/// Whether the scan takes no more records: it ended, or holds as many
/// documents as asked for.
pub open spec fn scan_full(p: (Seq<Seq<char>>, bool), max_documents: usize) -> bool {
    p.1 || p.0.len() >= max_documents
}

/// The reprocess scan over metadata records in key order.
pub open spec fn reprocess_scan(recs: Seq<Option<MetadataRecord>>, f: ReprocessFilter) -> (
    Seq<Seq<char>>,
    bool,
)
    decreases recs.len(),
{
    if recs.len() == 0 {
        (Seq::empty(), false)
    } else {
        let before = reprocess_scan(recs.drop_last(), f);
        if scan_full(before, f.max_documents) {
            (before.0, true)
        } else {
            reprocess_step(before.0, recs.last(), f)
        }
    }
}

proof fn lemma_reprocess_frozen(recs: Seq<Option<MetadataRecord>>, f: ReprocessFilter, i: int)
    requires
        0 <= i <= recs.len(),
        scan_full(reprocess_scan(recs.take(i), f), f.max_documents),
    ensures
        reprocess_scan(recs, f).0 == reprocess_scan(recs.take(i), f).0,
        scan_full(reprocess_scan(recs, f), f.max_documents),
    decreases recs.len(),
{
    if i == recs.len() {
        assert(recs.take(i) == recs);
    } else {
        assert(recs.drop_last().take(i) == recs.take(i));
        lemma_reprocess_frozen(recs.drop_last(), f, i);
    }
}

/// The ids of the documents a reprocess request requeues, in key order.
pub fn select_for_reprocess(recs: &Vec<Option<MetadataRecord>>, f: &ReprocessFilter) -> (r: Vec<
    String,
>)
    ensures
        texts(r@) == reprocess_scan(recs@, *f).0,
{
    let mut out: Vec<String> = Vec::new();
    let mut i: usize = 0;
    while i < recs.len()
        invariant
            i <= recs.len(),
            reprocess_scan(recs@.take(i as int), *f) == (texts(out@), false),
        decreases recs.len() - i,
    {
        assert(recs@.take(i + 1).drop_last() == recs@.take(i as int));
        if out.len() >= f.max_documents {
            proof {
                lemma_reprocess_frozen(recs@, *f, i as int);
            }
            return out;
        }
        match &recs[i] {
            None => {},
            Some(rec) => {
                match &f.document_id {
                    Some(d) => {
                        if field_equals(&rec.id, d.as_str()) && (f.force || field_equals(
                            &rec.status,
                            "failed",
                        )) {
                            out.push(d.clone());
                            assert(texts(out@) =~= reprocess_scan(recs@.take(i + 1), *f).0);
                            proof {
                                lemma_reprocess_frozen(recs@, *f, i + 1);
                            }
                            return out;
                        }
                    },
                    None => {
                        let track_ok = match &f.track_id {
                            Some(t) => field_equals(&rec.track_id, t.as_str()),
                            None => true,
                        };
                        if track_ok && field_equals(&rec.status, "failed") {
                            match &rec.id {
                                Some(id) => {
                                    out.push(id.clone());
                                },
                                None => {},
                            }
                        }
                    },
                }
            },
        }
        assert(texts(out@) =~= reprocess_scan(recs@.take(i + 1), *f).0);
        i = i + 1;
    }
    assert(recs@.take(recs.len() as int) == recs@);
    out
}

/// Whether the `k`-th of `selected` names a failed document among `recs`.
pub open spec fn names_failed(recs: Seq<Option<MetadataRecord>>, selected: Seq<Seq<char>>, k: int) -> bool {
    exists|j: int|
        0 <= j < recs.len() && #[trigger] recs[j] is Some && field_is(recs[j]->0.status, "failed"@)
            && field_is(recs[j]->0.id, selected[k])
}

/// Law: a reprocess request never selects more documents than it asks
/// for, and without `force` every selected document was `failed`.
pub proof fn law_reprocess_selects_failed(recs: Seq<Option<MetadataRecord>>, f: ReprocessFilter)
    ensures
        reprocess_scan(recs, f).0.len() <= f.max_documents,
        !f.force ==> forall|k: int|
            0 <= k < reprocess_scan(recs, f).0.len() ==> #[trigger] names_failed(
                recs,
                reprocess_scan(recs, f).0,
                k,
            ),
    decreases recs.len(),
{
    if recs.len() > 0 {
        let rest = recs.drop_last();
        law_reprocess_selects_failed(rest, f);
        let before = reprocess_scan(rest, f);
        let now = reprocess_scan(recs, f);
        if !f.force {
            assert forall|k: int| 0 <= k < now.0.len() implies #[trigger] names_failed(
                recs,
                now.0,
                k,
            ) by {
                if k < before.0.len() {
                    assert(names_failed(rest, before.0, k));
                    let j = choose|j: int|
                        0 <= j < rest.len() && #[trigger] rest[j] is Some && field_is(
                            rest[j]->0.status,
                            "failed"@,
                        ) && field_is(rest[j]->0.id, before.0[k]);
                    assert(recs[j] == rest[j]);
                    assert(now.0[k] == before.0[k]);
                } else {
                    assert(!scan_full(before, f.max_documents));
                    assert(now == reprocess_step(before.0, recs.last(), f));
                    assert(recs[recs.len() - 1] == recs.last());
                }
            }
        }
    }
}

/// Whether instant `a` comes before instant `b`, each as whole seconds then
/// nanoseconds.
pub open spec fn instant_before(a: (i64, u32), b: (i64, u32)) -> bool {
    a.0 < b.0 || (a.0 == b.0 && a.1 < b.1)
}

/// Whether a document last updated at `updated_at` counts as stuck at
/// `cutoff`: it has no update time, one that does not parse, or one before
/// the cutoff.
pub open spec fn stuck_since(updated_at: Option<String>, cutoff: (i64, u32)) -> bool {
    match updated_at {
        None => true,
        Some(u) => match rfc3339_instant(u@) {
            None => true,
            Some(t) => instant_before(t, cutoff),
        },
    }
}

/// One step of the recovery scan: a record in `processing`, named by the
/// filter when there is one, and stuck, is chosen as `(id, title or id)`.
pub open spec fn stuck_step(
    acc: Seq<(Seq<char>, Seq<char>)>,
    rec: Option<MetadataRecord>,
    ids: Option<Seq<Seq<char>>>,
    cutoff: (i64, u32),
) -> Seq<(Seq<char>, Seq<char>)> {
    match rec {
        None => acc,
        Some(r) => if !field_is(r.status, "processing"@) {
            acc
        } else if ids is Some && r.id is Some && !ids->0.contains(r.id->0@) {
            acc
        } else if stuck_since(r.updated_at, cutoff) && r.id is Some {
            acc.push(
                (
                    r.id->0@,
                    match r.title {
                        Some(t) => t@,
                        None => r.id->0@,
                    },
                ),
            )
        } else {
            acc
        },
    }
}

/// The recovery scan over metadata records in key order, taking no more
/// records once `max_documents` are chosen.
pub open spec fn stuck_scan(
    recs: Seq<Option<MetadataRecord>>,
    ids: Option<Seq<Seq<char>>>,
    cutoff: (i64, u32),
    max_documents: usize,
) -> Seq<(Seq<char>, Seq<char>)>
    decreases recs.len(),
{
    if recs.len() == 0 {
        Seq::empty()
    } else {
        let before = stuck_scan(recs.drop_last(), ids, cutoff, max_documents);
        if before.len() >= max_documents {
            before
        } else {
            stuck_step(before, recs.last(), ids, cutoff)
        }
    }
}

proof fn lemma_stuck_frozen(
    recs: Seq<Option<MetadataRecord>>,
    ids: Option<Seq<Seq<char>>>,
    cutoff: (i64, u32),
    max_documents: usize,
    i: int,
)
    requires
        0 <= i <= recs.len(),
        stuck_scan(recs.take(i), ids, cutoff, max_documents).len() >= max_documents,
    ensures
        stuck_scan(recs, ids, cutoff, max_documents) == stuck_scan(
            recs.take(i),
            ids,
            cutoff,
            max_documents,
        ),
    decreases recs.len(),
{
    if i == recs.len() {
        assert(recs.take(i) == recs);
    } else {
        assert(recs.drop_last().take(i) == recs.take(i));
        lemma_stuck_frozen(recs.drop_last(), ids, cutoff, max_documents, i);
    }
}

/// The views of an optional list of ids.
pub open spec fn opt_texts(ids: Option<Vec<String>>) -> Option<Seq<Seq<char>>> {
    match ids {
        Some(v) => Some(texts(v@)),
        None => None,
    }
}

/// The `(id, title)` pairs as views.
pub open spec fn pair_texts(v: Seq<(String, String)>) -> Seq<(Seq<char>, Seq<char>)> {
    v.map_values(|p: (String, String)| (p.0@, p.1@))
}

fn lists_text(ids: &Vec<String>, s: &str) -> (r: bool)
    ensures
        r == texts(ids@).contains(s@),
{
    let mut i: usize = 0;
    while i < ids.len()
        invariant
            i <= ids.len(),
            forall|j: int| 0 <= j < i ==> ids@[j]@ != s@,
        decreases ids.len() - i,
    {
        if same_text(ids[i].as_str(), s) {
            assert(texts(ids@)[i as int] == s@);
            return true;
        }
        i = i + 1;
    }
    assert forall|j: int| 0 <= j < texts(ids@).len() implies texts(ids@)[j] != s@ by {
        assert(ids@[j]@ != s@);
    }
    false
}

fn is_before(a: (i64, u32), b: (i64, u32)) -> (r: bool)
    ensures
        r == instant_before(a, b),
{
    a.0 < b.0 || (a.0 == b.0 && a.1 < b.1)
}

/// Whether a record last updated at `updated_at` is stuck at `cutoff`.
fn is_stuck(updated_at: &Option<String>, cutoff: (i64, u32)) -> (r: bool)
    ensures
        r == stuck_since(*updated_at, cutoff),
{
    match updated_at {
        None => true,
        Some(u) => match parse_rfc3339_instant(u.as_str()) {
            None => true,
            Some(t) => is_before(t, cutoff),
        },
    }
}

/// The `(id, title)` of the documents stuck in `processing` at `cutoff`,
/// among `ids` when given, at most `max_documents`, in key order.
pub fn select_stuck(
    recs: &Vec<Option<MetadataRecord>>,
    ids: &Option<Vec<String>>,
    cutoff: (i64, u32),
    max_documents: usize,
) -> (r: Vec<(String, String)>)
    ensures
        pair_texts(r@) == stuck_scan(recs@, opt_texts(*ids), cutoff, max_documents),
{
    let mut out: Vec<(String, String)> = Vec::new();
    let mut i: usize = 0;
    while i < recs.len()
        invariant
            i <= recs.len(),
            stuck_scan(recs@.take(i as int), opt_texts(*ids), cutoff, max_documents) == pair_texts(
                out@,
            ),
        decreases recs.len() - i,
    {
        assert(recs@.take(i + 1).drop_last() == recs@.take(i as int));
        if out.len() >= max_documents {
            proof {
                lemma_stuck_frozen(recs@, opt_texts(*ids), cutoff, max_documents, i as int);
            }
            return out;
        }
        match &recs[i] {
            None => {},
            Some(rec) => {
                if field_equals(&rec.status, "processing") {
                    let listed = match (ids, &rec.id) {
                        (Some(list), Some(id)) => lists_text(list, id.as_str()),
                        _ => true,
                    };
                    if listed && is_stuck(&rec.updated_at, cutoff) {
                        match &rec.id {
                            Some(id) => {
                                let title = match &rec.title {
                                    Some(t) => t.clone(),
                                    None => id.clone(),
                                };
                                out.push((id.clone(), title));
                            },
                            None => {},
                        }
                    }
                }
            },
        }
        assert(pair_texts(out@) =~= stuck_scan(
            recs@.take(i + 1),
            opt_texts(*ids),
            cutoff,
            max_documents,
        ));
        i = i + 1;
    }
    assert(recs@.take(recs.len() as int) == recs@);
    out
}

/// The instant `threshold_minutes` before `now` (seconds, nanoseconds):
/// whole minutes of 60 seconds taken off, the nanoseconds kept.
pub open spec fn minutes_before(now: (i64, u32), threshold_minutes: u64) -> (i64, u32) {
    ((now.0 - 60 * threshold_minutes) as i64, now.1)
}

/// The documents stuck in `processing` for longer than `threshold_minutes`
/// at `now`, as [`select_stuck`] chooses them with the cutoff
/// `threshold_minutes` before `now`.
pub fn select_stuck_since(
    recs: &Vec<Option<MetadataRecord>>,
    ids: &Option<Vec<String>>,
    now: (i64, u32),
    threshold_minutes: u64,
    max_documents: usize,
) -> (r: Vec<(String, String)>)
    requires
        now.0 - 60 * threshold_minutes >= i64::MIN,
    ensures
        pair_texts(r@) == stuck_scan(
            recs@,
            opt_texts(*ids),
            minutes_before(now, threshold_minutes),
            max_documents,
        ),
{
    let secs: i128 = now.0 as i128 - 60 * (threshold_minutes as i128);
    select_stuck(recs, ids, (secs as i64, now.1), max_documents)
}

/// The longest stuck threshold, in minutes, that the clock arithmetic takes
/// at every clock reading since 1970: chrono's earliest instant lies
/// 8,334,601,228,800 seconds (this many minutes) before the epoch, and a
/// cutoff earlier than it is refused with a panic.
pub const MAX_STUCK_THRESHOLD_MINUTES: u64 = 138_910_020_480;

/// The documents stuck in `processing` for longer than `threshold_minutes`
/// by the clock: [`select_stuck_since`] at the current time.
pub fn find_stuck(
    recs: &Vec<Option<MetadataRecord>>,
    ids: &Option<Vec<String>>,
    threshold_minutes: u64,
    max_documents: usize,
) -> (r: Vec<(String, String)>)
    requires
        threshold_minutes <= MAX_STUCK_THRESHOLD_MINUTES,
    ensures
        exists|now: (i64, u32)|
            now.0 >= 0 && pair_texts(r@) == #[trigger] stuck_scan(
                recs@,
                opt_texts(*ids),
                minutes_before(now, threshold_minutes),
                max_documents,
            ),
{
    let now = utc_now();
    select_stuck_since(recs, ids, now, threshold_minutes, max_documents)
}

/// Law: recovery never chooses more than asked, and only documents in
/// `processing`.
pub proof fn law_stuck_selects_processing(
    recs: Seq<Option<MetadataRecord>>,
    ids: Option<Seq<Seq<char>>>,
    cutoff: (i64, u32),
    max_documents: usize,
)
    ensures
        stuck_scan(recs, ids, cutoff, max_documents).len() <= max_documents,
        forall|k: int|
            0 <= k < stuck_scan(recs, ids, cutoff, max_documents).len() ==> exists|j: int|
                0 <= j < recs.len() && recs[j] is Some && field_is(
                    recs[j]->0.status,
                    "processing"@,
                ) && field_is(
                    recs[j]->0.id,
                    (#[trigger] stuck_scan(recs, ids, cutoff, max_documents)[k]).0,
                ),
    decreases recs.len(),
{
    if recs.len() > 0 {
        let rest = recs.drop_last();
        law_stuck_selects_processing(rest, ids, cutoff, max_documents);
        let before = stuck_scan(rest, ids, cutoff, max_documents);
        let now = stuck_scan(recs, ids, cutoff, max_documents);
        assert forall|k: int| 0 <= k < stuck_scan(recs, ids, cutoff, max_documents).len() implies exists|j: int|
            0 <= j < recs.len() && recs[j] is Some && field_is(recs[j]->0.status, "processing"@)
                && field_is(recs[j]->0.id, (#[trigger] stuck_scan(recs, ids, cutoff, max_documents)[k]).0) by {
            if k < before.len() {
                assert(now[k] == before[k]);
                let j = choose|j: int|
                    0 <= j < rest.len() && rest[j] is Some && field_is(
                        rest[j]->0.status,
                        "processing"@,
                    ) && field_is(rest[j]->0.id, (#[trigger] before[k]).0);
                assert(recs[j] == rest[j]);
            } else {
                assert(recs[recs.len() - 1] == recs.last());
            }
        }
    }
}

/// The tenant and workspace a requeued document's task is filed under: the
/// caller's, `default` where absent; each must be a UUID (422 otherwise,
/// the tenant checked first).
pub fn insert_task_scope(tenant: &Option<String>, workspace: &Option<String>) -> (r: Result<
    (u128, u128),
    ApiError,
>)
    ensures
        ({
            let t = match *tenant {
                Some(s) => s@,
                None => "default"@,
            };
            let w = match *workspace {
                Some(s) => s@,
                None => "default"@,
            };
            &&& uuid_value(t) is None ==> r is Err && r->Err_0 is ValidationError
                && r->Err_0->ValidationError_0@ == "Invalid tenant ID"@
            &&& uuid_value(t) is Some && uuid_value(w) is None ==> r is Err
                && r->Err_0 is ValidationError && r->Err_0->ValidationError_0@
                == "Invalid workspace ID"@
            &&& uuid_value(t) is Some && uuid_value(w) is Some ==> r is Ok && r->Ok_0 == (
                uuid_value(t)->0,
                uuid_value(w)->0,
            )
        }),
{
    let t = match tenant {
        Some(s) => s.clone(),
        None => owned("default"),
    };
    let w = match workspace {
        Some(s) => s.clone(),
        None => owned("default"),
    };
    let tid = match parse_uuid(t.as_str()) {
        Some(v) => v,
        None => {
            return Err(ApiError::ValidationError(owned("Invalid tenant ID")));
        },
    };
    match parse_uuid(w.as_str()) {
        Some(wid) => Ok((tid, wid)),
        None => Err(ApiError::ValidationError(owned("Invalid workspace ID"))),
    }
}

/// The answer to a chunk retry request. Chunk-level retry is not offered
/// yet: nothing is queued beyond echoing the chunks named.
#[derive(Debug, Clone, PartialEq, Eq)]
pub struct RetryChunksResponse {
    pub document_id: String,
    pub chunk_indices: Vec<usize>,
    pub chunks_queued: usize,
    pub message: String,
    pub implemented: bool,
}

/// The answer to a chunk retry of `document_id` (404 when it has no
/// metadata record): the chunks named, none when none were named.
pub fn retry_failed_chunks(document_id: &str, document_exists: bool, chunk_indices: Vec<usize>) -> (r:
    Result<RetryChunksResponse, ApiError>)
    ensures
        !document_exists ==> r is Err && r->Err_0 is NotFound && r->Err_0->NotFound_0@
            == "Document "@ + document_id@ + " not found"@,
        document_exists ==> r is Ok && r->Ok_0.document_id@ == document_id@
            && r->Ok_0.chunk_indices@ == chunk_indices@ && r->Ok_0.chunks_queued
            == chunk_indices@.len() && r->Ok_0.message@
            == "Chunk-level retry is pending implementation. Use /documents/reprocess to retry the entire document."@
            && !r->Ok_0.implemented,
{
    if !document_exists {
        let mut m = owned("Document ");
        m.append(document_id);
        m.append(" not found");
        return Err(ApiError::NotFound(m));
    }
    let n = chunk_indices.len();
    Ok(
        RetryChunksResponse {
            document_id: owned(document_id),
            chunk_indices,
            chunks_queued: n,
            message: owned(
                "Chunk-level retry is pending implementation. Use /documents/reprocess to retry the entire document.",
            ),
            implemented: false,
        },
    )
}

/// The failed-chunk listing of a document: no failures are recorded yet,
/// so every chunk counts as successful.
#[derive(Debug, Clone, PartialEq, Eq)]
pub struct FailedChunksListing {
    pub document_id: String,
    pub total_chunks: u64,
    pub successful_chunks: u64,
}

/// The failed-chunk listing of `document_id` from its metadata record
/// (`None` when absent: 404) and the record's `chunk_count` (0 when absent).
pub fn list_failed_chunks(document_id: &str, metadata: Option<Option<u64>>) -> (r: Result<
    FailedChunksListing,
    ApiError,
>)
    ensures
        metadata is None ==> r is Err && r->Err_0 is NotFound && r->Err_0->NotFound_0@ == "Document "@
            + document_id@ + " not found"@,
        metadata is Some ==> r is Ok && r->Ok_0.document_id@ == document_id@ && r->Ok_0.total_chunks
            == (match metadata->0 {
            Some(c) => c,
            None => 0,
        }) && r->Ok_0.successful_chunks == r->Ok_0.total_chunks,
{
    match metadata {
        None => {
            let mut m = owned("Document ");
            m.append(document_id);
            m.append(" not found");
            Err(ApiError::NotFound(m))
        },
        Some(count) => {
            let n = match count {
                Some(c) => c,
                None => 0,
            };
            Ok(FailedChunksListing { document_id: owned(document_id), total_chunks: n, successful_chunks: n })
        },
    }
}

} // verus!
