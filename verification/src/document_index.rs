//! Which stored documents a listing shows, with how many chunks each has,
//! newest first; and which documents an upload batch (a track) holds.

use vstd::prelude::*;

use crate::document_listing::{classify_document_key, opt_text, track_chunk_owner, DocumentKeyKind};
use crate::error::ApiError;
use crate::text::{concat, finishes_with, first_occurrence_at, occurs_in, owned, same_text};
use crate::text_order::{
    arrangement, descending, first_in_order, lists_position, order_descending, text_lt, views_of,
};

verus! {

/// The fields of a document's metadata record that decide whether and
/// where it is listed; each `None` where absent or not a string.
#[derive(Debug, Clone, PartialEq, Eq, Default)]
pub struct ListingRecord {
    pub id: Option<String>,
    pub tenant_id: Option<String>,
    pub workspace_id: Option<String>,
    pub track_id: Option<String>,
    pub created_at: Option<String>,
}

/// Whether `key` is a chunk record of document `doc` as the listing counts
/// them: not a metadata key, and `doc` is the part before its first
/// `-chunk-`, which does not end in `-metadata` or `-content`.
pub open spec fn chunk_of(key: Seq<char>, doc: Seq<char>) -> bool {
    &&& !finishes_with(key, "-metadata"@)
    &&& occurs_in(key, "-chunk-"@)
    &&& {
        let owner = key.take(choose|i: int| first_occurrence_at(key, "-chunk-"@, i));
        !finishes_with(owner, "-metadata"@) && !finishes_with(owner, "-content"@) && owner == doc
    }
}

/// How many of `keys` are chunk records of `doc`.
pub open spec fn chunk_count(keys: Seq<String>, doc: Seq<char>) -> nat
    decreases keys.len(),
{
    if keys.len() == 0 {
        0
    } else {
        chunk_count(keys.drop_last(), doc) + if chunk_of(keys.last()@, doc) {
            1nat
        } else {
            0nat
        }
    }
}

proof fn lemma_chunk_count_bounded(keys: Seq<String>, doc: Seq<char>)
    ensures
        chunk_count(keys, doc) <= keys.len(),
    decreases keys.len(),
{
    if keys.len() > 0 {
        lemma_chunk_count_bounded(keys.drop_last(), doc);
    }
}

/// How many of `keys` are chunk records of `doc`.
pub fn count_chunks(keys: &Vec<String>, doc: &str) -> (n: usize)
    ensures
        n == chunk_count(keys@, doc@),
{
    let mut n: usize = 0;
    let mut i: usize = 0;
    while i < keys.len()
        invariant
            i <= keys.len(),
            n == chunk_count(keys@.take(i as int), doc@),
        decreases keys.len() - i,
    {
        proof {
            assert(keys@.take(i + 1).drop_last() == keys@.take(i as int));
            lemma_chunk_count_bounded(keys@.take(i as int), doc@);
        }
        let k = classify_document_key(keys[i].as_str());
        let hit = match &k {
            DocumentKeyKind::Chunk(owner) => same_text(owner.as_str(), doc),
            _ => false,
        };
        assert(hit == chunk_of(keys@[i as int]@, doc@));
        if hit {
            n = n + 1;
        }
        i = i + 1;
    }
    assert(keys@.take(keys.len() as int) == keys@);
    n
}

/// Whether record `i` is the last one carrying its id (a later record with
/// the same id replaces it).
pub open spec fn last_with_id(recs: Seq<Option<ListingRecord>>, i: int) -> bool {
    &&& 0 <= i < recs.len()
    &&& recs[i] is Some
    &&& recs[i]->0.id is Some
    &&& forall|j: int|
        i < j < recs.len() ==> !(#[trigger] recs[j] is Some && recs[j]->0.id is Some
            && recs[j]->0.id->0@ == recs[i]->0.id->0@)
}

/// Whether record `i` is listed for a caller scoped to `workspace` and
/// `tenant`: it is the last with its id, and its workspace and tenant are
/// exactly the caller's.
pub open spec fn listed(recs: Seq<Option<ListingRecord>>, i: int, workspace: Option<String>, tenant: Option<String>) -> bool {
    &&& last_with_id(recs, i)
    &&& opt_text(recs[i]->0.workspace_id) == opt_text(workspace)
    &&& opt_text(recs[i]->0.tenant_id) == opt_text(tenant)
}

/// The creation time of a record, empty when it has none.
pub open spec fn created_or_empty(r: ListingRecord) -> Seq<char> {
    match r.created_at {
        Some(c) => c@,
        None => Seq::empty(),
    }
}

/// A listed document: its metadata record's position and its chunk count.
#[derive(Debug, Clone, Copy, PartialEq, Eq)]
pub struct ListedDocument {
    pub record: usize,
    pub chunk_count: usize,
}

fn is_last_with_id(recs: &Vec<Option<ListingRecord>>, i: usize) -> (r: bool)
    requires
        i < recs.len(),
    ensures
        r == last_with_id(recs@, i as int),
{
    let id = match &recs[i] {
        Some(rec) => match &rec.id {
            Some(id) => id,
            None => {
                return false;
            },
        },
        None => {
            return false;
        },
    };
    let mut j: usize = i + 1;
    while j < recs.len()
        invariant
            i < j <= recs.len(),
            recs@[i as int] is Some && recs@[i as int]->0.id is Some,
            id@ == recs@[i as int]->0.id->0@,
            forall|k: int|
                i < k < j ==> !(#[trigger] recs@[k] is Some && recs@[k]->0.id is Some
                    && recs@[k]->0.id->0@ == id@),
        decreases recs.len() - j,
    {
        match &recs[j] {
            Some(other) => match &other.id {
                Some(oid) => {
                    if same_text(oid.as_str(), id.as_str()) {
                        return false;
                    }
                },
                None => {},
            },
            None => {},
        }
        j = j + 1;
    }
    true
}

fn same_opt_text(a: &Option<String>, b: &Option<String>) -> (r: bool)
    ensures
        r == (opt_text(*a) == opt_text(*b)),
{
    match (a, b) {
        (Some(x), Some(y)) => same_text(x.as_str(), y.as_str()),
        (None, None) => true,
        _ => false,
    }
}

/// The documents a listing shows to a caller scoped to `workspace` and
/// `tenant`, given all store `keys` and the metadata records (in key
/// order): each listed record once, with its chunk count, the most recently
/// created first (texts compared as `str` orders them; a record without a
/// creation time counts as empty).
pub fn listed_documents(
    keys: &Vec<String>,
    recs: &Vec<Option<ListingRecord>>,
    workspace: &Option<String>,
    tenant: &Option<String>,
) -> (r: Vec<ListedDocument>)
    ensures
        forall|k: int|
            0 <= k < r@.len() ==> listed(recs@, #[trigger] r@[k].record as int, *workspace, *tenant)
                && r@[k].chunk_count == chunk_count(keys@, recs@[r@[k].record as int]->0.id->0@),
        forall|i: int|
            listed(recs@, i, *workspace, *tenant) ==> exists|k: int|
                0 <= k < r@.len() && #[trigger] r@[k].record == i,
        forall|k: int, l: int| 0 <= k < l < r@.len() ==> #[trigger] r@[k].record != #[trigger] r@[l].record,
        forall|k: int, l: int|
            0 <= k < l < r@.len() ==> !crate::text_order::text_lt(
                created_or_empty(recs@[(#[trigger] r@[k]).record as int]->0),
                created_or_empty(recs@[(#[trigger] r@[l]).record as int]->0),
            ),
{
    let mut chosen: Vec<usize> = Vec::new();
    let mut created: Vec<String> = Vec::new();
    let mut counts: Vec<usize> = Vec::new();
    let mut i: usize = 0;
    while i < recs.len()
        invariant
            i <= recs.len(),
            chosen@.len() == created@.len() && created@.len() == counts@.len(),
            forall|k: int| 0 <= k < chosen@.len() ==> #[trigger] chosen@[k] < i,
            forall|k: int, l: int| 0 <= k < l < chosen@.len() ==> #[trigger] chosen@[k] < #[trigger] chosen@[l],
            forall|k: int|
                0 <= k < chosen@.len() ==> listed(recs@, #[trigger] chosen@[k] as int, *workspace, *tenant)
                    && created@[k]@ == created_or_empty(recs@[chosen@[k] as int]->0)
                    && counts@[k] == chunk_count(keys@, recs@[chosen@[k] as int]->0.id->0@),
            forall|t: int|
                0 <= t < i && listed(recs@, t, *workspace, *tenant) ==> exists|k: int|
                    0 <= k < chosen@.len() && #[trigger] chosen@[k] == t,
        decreases recs.len() - i,
    {
        let ghost prev = chosen@;
        let take = is_last_with_id(recs, i) && match &recs[i] {
            Some(rec) => same_opt_text(&rec.workspace_id, workspace) && same_opt_text(
                &rec.tenant_id,
                tenant,
            ),
            None => false,
        };
        if take {
            match &recs[i] {
                Some(rec) => match &rec.id {
                    Some(id) => {
                        let c = match &rec.created_at {
                            Some(x) => x.clone(),
                            None => String::new(),
                        };
                        let n = count_chunks(keys, id.as_str());
                        chosen.push(i);
                        created.push(c);
                        counts.push(n);
                    },
                    None => {},
                },
                None => {},
            }
        }
        proof {
            assert forall|t: int|
                0 <= t < i + 1 && listed(recs@, t, *workspace, *tenant) implies exists|k: int|
                0 <= k < chosen@.len() && #[trigger] chosen@[k] == t by {
                if t < i {
                    let k = choose|k: int| 0 <= k < prev.len() && #[trigger] prev[k] == t;
                    assert(chosen@[k] == t);
                } else {
                    assert(chosen@[chosen@.len() - 1] == i);
                }
            }
        }
        i = i + 1;
    }
    let order = order_descending(&created);
    assert(arrangement(order@, created@.len()));
    let mut out: Vec<ListedDocument> = Vec::new();
    let mut k: usize = 0;
    while k < order.len()
        invariant
            k <= order@.len(),
            arrangement(order@, created@.len()),
            descending(views_of(created@), order@),
            chosen@.len() == created@.len() && created@.len() == counts@.len(),
            out@.len() == k,
            forall|q: int|
                0 <= q < k ==> #[trigger] out@[q].record == chosen@[order@[q] as int]
                    && out@[q].chunk_count == counts@[order@[q] as int],
        decreases order@.len() - k,
    {
        let p = order[k];
        let ghost prev_out = out@;
        out.push(ListedDocument { record: chosen[p], chunk_count: counts[p] });
        assert(out@ == prev_out.push(ListedDocument { record: chosen@[p as int], chunk_count: counts@[p as int] }));
        assert forall|q: int| 0 <= q < k + 1 implies #[trigger] out@[q].record == chosen@[order@[q] as int]
            && out@[q].chunk_count == counts@[order@[q] as int] by {
            if q < k {
                assert(out@[q] == prev_out[q]);
            }
        }
        k = k + 1;
    }
    proof {
        assert forall|q: int|
            0 <= q < out@.len() implies listed(recs@, #[trigger] out@[q].record as int, *workspace, *tenant)
                && out@[q].chunk_count == chunk_count(keys@, recs@[out@[q].record as int]->0.id->0@) by {
            let p = order@[q] as int;
            assert(0 <= p < chosen@.len());
            assert(listed(recs@, chosen@[p] as int, *workspace, *tenant));
        }
        assert forall|t: int| listed(recs@, t, *workspace, *tenant) implies exists|q: int|
            0 <= q < out@.len() && #[trigger] out@[q].record == t by {
            let kk = choose|kk: int| 0 <= kk < chosen@.len() && #[trigger] chosen@[kk] == t;
            assert(lists_position(order@, kk));
            let q = choose|q: int| 0 <= q < order@.len() && order@[q] == kk;
            assert(out@[q].record == t);
        }
        assert forall|a: int, b: int| 0 <= a < b < out@.len() implies #[trigger] out@[a].record
            != #[trigger] out@[b].record by {
            let pa = order@[a] as int;
            let pb = order@[b] as int;
            assert(pa != pb);
            if pa < pb {
                assert(chosen@[pa] < chosen@[pb]);
            } else {
                assert(chosen@[pb] < chosen@[pa]);
            }
        }
        assert forall|a: int, b: int| 0 <= a < b < out@.len() implies !crate::text_order::text_lt(
            created_or_empty(recs@[(#[trigger] out@[a]).record as int]->0),
            created_or_empty(recs@[(#[trigger] out@[b]).record as int]->0),
        ) by {
            let pa = order@[a] as int;
            let pb = order@[b] as int;
            assert(views_of(created@)[pa] == created@[pa]@);
            assert(views_of(created@)[pb] == created@[pb]@);
            assert(!crate::text_order::text_lt(views_of(created@)[order@[a] as int], views_of(created@)[order@[b] as int]));
        }
    }
    out
}

/// The text of an optional field, empty when absent.
pub open spec fn field_or_empty(o: Option<String>) -> Seq<char> {
    match o {
        Some(s) => s@,
        None => Seq::empty(),
    }
}

/// Whether a metadata record belongs to the upload batch `track_id` (a
/// record without a track id belongs to the empty one).
pub open spec fn in_track(rec: Option<ListingRecord>, track_id: Seq<char>) -> bool {
    rec is Some && field_or_empty(rec->0.track_id) == track_id
}

/// The positions of the records of an upload batch, in order.
pub open spec fn track_positions(recs: Seq<Option<ListingRecord>>, track_id: Seq<char>) -> Seq<int>
    decreases recs.len(),
{
    if recs.len() == 0 {
        Seq::empty()
    } else {
        let before = track_positions(recs.drop_last(), track_id);
        if in_track(recs.last(), track_id) {
            before.push(recs.len() - 1)
        } else {
            before
        }
    }
}

fn field_equals_or_empty(o: &Option<String>, s: &str) -> (r: bool)
    ensures
        r == (field_or_empty(*o) == s@),
{
    match o {
        Some(x) => same_text(x.as_str(), s),
        None => {
            let n = crate::text::chars_of(s).len();
            proof {
                if s@.len() == 0 {
                    assert(s@ =~= Seq::<char>::empty());
                }
            }
            n == 0
        },
    }
}

/// The positions of the metadata records of the upload batch `track_id`.
pub fn track_members(recs: &Vec<Option<ListingRecord>>, track_id: &str) -> (r: Vec<usize>)
    ensures
        r@.map_values(|i: usize| i as int) == track_positions(recs@, track_id@),
{
    let mut r: Vec<usize> = Vec::new();
    let mut i: usize = 0;
    while i < recs.len()
        invariant
            i <= recs.len(),
            r@.map_values(|k: usize| k as int) == track_positions(recs@.take(i as int), track_id@),
        decreases recs.len() - i,
    {
        let ghost before = r@;
        assert(recs@.take(i + 1).drop_last() == recs@.take(i as int));
        let hit = match &recs[i] {
            Some(rec) => field_equals_or_empty(&rec.track_id, track_id),
            None => false,
        };
        if hit {
            r.push(i);
            assert(r@.map_values(|k: usize| k as int) =~= before.map_values(|k: usize| k as int).push(
                i as int,
            ));
        }
        i = i + 1;
    }
    assert(recs@.take(recs.len() as int) == recs@);
    r
}

/// The members of the upload batch `track_id`, or 404 for a track that no
/// metadata record belongs to.
pub fn require_track_members(recs: &Vec<Option<ListingRecord>>, track_id: &str) -> (r: Result<
    Vec<usize>,
    ApiError,
>)
    ensures
        track_positions(recs@, track_id@).len() == 0 ==> r is Err && r->Err_0 is NotFound
            && r->Err_0->NotFound_0@ == "Track not found: "@ + track_id@,
        track_positions(recs@, track_id@).len() > 0 ==> r is Ok && r->Ok_0@.map_values(
            |i: usize| i as int,
        ) == track_positions(recs@, track_id@),
{
    let members = track_members(recs, track_id);
    assert(members@.map_values(|i: usize| i as int).len() == members@.len());
    if members.len() == 0 {
        Err(ApiError::NotFound(concat("Track not found: ", track_id)))
    } else {
        Ok(members)
    }
}

/// The document a key is counted under by a batch summary: the part before
/// its first `-chunk-` (the whole key when there is none).
pub open spec fn summary_owner(key: Seq<char>) -> Seq<char> {
    if occurs_in(key, "-chunk-"@) {
        key.take(choose|i: int| first_occurrence_at(key, "-chunk-"@, i))
    } else {
        key
    }
}

/// Whether a batch summary counts `key` as a chunk of `doc`.
pub open spec fn summary_counts(key: Seq<char>, doc: Seq<char>) -> bool {
    let o = summary_owner(key);
    !finishes_with(o, "-metadata"@) && !finishes_with(o, "-content"@) && o == doc
}

/// How many of `keys` a batch summary counts as chunks of `doc`.
pub open spec fn summary_chunk_count(keys: Seq<String>, doc: Seq<char>) -> nat
    decreases keys.len(),
{
    if keys.len() == 0 {
        0
    } else {
        summary_chunk_count(keys.drop_last(), doc) + if summary_counts(keys.last()@, doc) {
            1nat
        } else {
            0nat
        }
    }
}

proof fn lemma_summary_count_bounded(keys: Seq<String>, doc: Seq<char>)
    ensures
        summary_chunk_count(keys, doc) <= keys.len(),
    decreases keys.len(),
{
    if keys.len() > 0 {
        lemma_summary_count_bounded(keys.drop_last(), doc);
    }
}

/// How many of `keys` a batch summary counts as chunks of `doc`.
pub fn count_summary_chunks(keys: &Vec<String>, doc: &str) -> (n: usize)
    ensures
        n == summary_chunk_count(keys@, doc@),
{
    let mut n: usize = 0;
    let mut i: usize = 0;
    while i < keys.len()
        invariant
            i <= keys.len(),
            n == summary_chunk_count(keys@.take(i as int), doc@),
        decreases keys.len() - i,
    {
        proof {
            assert(keys@.take(i + 1).drop_last() == keys@.take(i as int));
            lemma_summary_count_bounded(keys@.take(i as int), doc@);
        }
        let hit = match track_chunk_owner(keys[i].as_str()) {
            Some(o) => same_text(o.as_str(), doc),
            None => false,
        };
        assert(hit == summary_counts(keys@[i as int]@, doc@));
        if hit {
            n = n + 1;
        }
        i = i + 1;
    }
    assert(keys@.take(keys.len() as int) == keys@);
    n
}

/// The earliest of the creation times given (as `str` orders them), or
/// `None` when none is given.
pub fn earliest(times: &Vec<String>) -> (r: Option<String>)
    ensures
        times@.len() == 0 <==> r is None,
        r is Some ==> exists|i: int| 0 <= i < times@.len() && times@[i]@ == r->0@,
        r is Some ==> forall|j: int| 0 <= j < times@.len() ==> !text_lt(#[trigger] times@[j]@, r->0@),
{
    match first_in_order(times) {
        None => None,
        Some(i) => {
            let t = times[i].clone();
            proof {
                assert forall|j: int| 0 <= j < times@.len() implies !text_lt(#[trigger] times@[j]@, t@) by {
                    assert(views_of(times@)[j] == times@[j]@);
                    assert(views_of(times@)[i as int] == times@[i as int]@);
                }
            }
            Some(t)
        },
    }
}

fn holds_char(s: &str, c: char) -> (r: bool)
    ensures
        r == s@.contains(c),
{
    let cs = crate::text::chars_of(s);
    let mut i: usize = 0;
    while i < cs.len()
        invariant
            i <= cs.len(),
            cs@ == s@,
            forall|j: int| 0 <= j < i ==> cs@[j] != c,
        decreases cs.len() - i,
    {
        if cs[i] == c {
            assert(s@[i as int] == c);
            return true;
        }
        i = i + 1;
    }
    false
}

/// A listed document's file name: its title when the title holds a `.`.
pub fn file_name_of_title(title: &Option<String>) -> (r: Option<String>)
    ensures
        match *title {
            Some(t) => if t@.contains('.') {
                r is Some && r->0@ == t@
            } else {
                r is None
            },
            None => r is None,
        },
{
    match title {
        Some(t) => {
            if holds_char(t.as_str(), '.') {
                Some(owned(t.as_str()))
            } else {
                None
            }
        },
        None => None,
    }
}

} // verus!
