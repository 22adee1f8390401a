//! How a document's records are laid out in the key-value store, and the
//! guards and clean-up decisions taken when documents are deleted or
//! re-ingested.

use vstd::prelude::*;

use crate::documents::opt_view;
use crate::error::ApiError;
use crate::text::{
    begins_with, chars_of, concat, decimal, decimal_text, ends_with, finishes_with, owned,
    same_text, starts_with, take_chars,
};

verus! {

broadcast use {vstd::seq_lib::group_filter_ensures, vstd::seq::Seq::lemma_filter_push};

/// Key of a document's metadata record.
pub open spec fn metadata_key_of(document_id: Seq<char>) -> Seq<char> {
    document_id + "-metadata"@
}

/// Key of a document's content record.
pub open spec fn content_key_of(document_id: Seq<char>) -> Seq<char> {
    document_id + "-content"@
}

/// Prefix of the keys of a document's chunks.
pub open spec fn chunk_prefix_of(document_id: Seq<char>) -> Seq<char> {
    document_id + "-chunk-"@
}

/// The key of a document's metadata record.
pub fn metadata_key(document_id: &str) -> (r: String)
    ensures
        r@ == metadata_key_of(document_id@),
{
    concat(document_id, "-metadata")
}

/// The key of a document's content record.
pub fn content_key(document_id: &str) -> (r: String)
    ensures
        r@ == content_key_of(document_id@),
{
    concat(document_id, "-content")
}

/// The prefix of a document's chunk keys.
pub fn chunk_prefix(document_id: &str) -> (r: String)
    ensures
        r@ == chunk_prefix_of(document_id@),
{
    concat(document_id, "-chunk-")
}

/// The views of a sequence of strings.
pub open spec fn texts(s: Seq<String>) -> Seq<Seq<char>> {
    s.map_values(|k: String| k@)
}

/// The chunk keys of `document_id` among `keys`, in order.
pub open spec fn chunk_keys_of(keys: Seq<String>, document_id: Seq<char>) -> Seq<String> {
    keys.filter(|k: String| begins_with(k@, chunk_prefix_of(document_id)))
}

/// The keys of the document's chunks among `keys`, in order.
pub fn chunk_keys(keys: &Vec<String>, document_id: &str) -> (r: Vec<String>)
    ensures
        r@ == chunk_keys_of(keys@, document_id@),
{
    let prefix = chunk_prefix(document_id);
    let mut r: Vec<String> = Vec::new();
    let mut i: usize = 0;
    while i < keys.len()
        invariant
            i <= keys.len(),
            prefix@ == chunk_prefix_of(document_id@),
            r@ == chunk_keys_of(keys@.take(i as int), document_id@),
        decreases keys.len() - i,
    {
        assert(keys@.take(i + 1) == keys@.take(i as int).push(keys@[i as int]));
        if starts_with(keys[i].as_str(), prefix.as_str()) {
            r.push(keys[i].clone());
        }
        i = i + 1;
    }
    assert(keys@.take(keys.len() as int) == keys@);
    r
}

/// Whether `keys` holds `key`.
pub fn holds_key(keys: &Vec<String>, key: &str) -> (r: bool)
    ensures
        r == texts(keys@).contains(key@),
{
    let mut i: usize = 0;
    while i < keys.len()
        invariant
            i <= keys.len(),
            forall|j: int| 0 <= j < i ==> keys@[j]@ != key@,
        decreases keys.len() - i,
    {
        if same_text(keys[i].as_str(), key) {
            assert(texts(keys@)[i as int] == key@);
            return true;
        }
        i = i + 1;
    }
    assert forall|j: int| 0 <= j < texts(keys@).len() implies texts(keys@)[j] != key@ by {
        assert(keys@[j]@ != key@);
    }
    false
}

/// Whether a document has any record: a chunk, its metadata or its content.
pub open spec fn document_stored(keys: Seq<String>, document_id: Seq<char>) -> bool {
    chunk_keys_of(keys, document_id).len() > 0 || texts(keys).contains(metadata_key_of(document_id))
        || texts(keys).contains(content_key_of(document_id))
}

/// 404 for a document without any record.
pub fn require_document_stored(keys: &Vec<String>, document_id: &str) -> (r: Result<(), ApiError>)
    ensures
        document_stored(keys@, document_id@) ==> r is Ok,
        !document_stored(keys@, document_id@) ==> r is Err && r->Err_0 is NotFound
            && r->Err_0->NotFound_0@ == "Document "@ + document_id@ + " not found"@,
{
    let chunks = chunk_keys(keys, document_id);
    let meta = metadata_key(document_id);
    let content = content_key(document_id);
    if chunks.len() == 0 && !holds_key(keys, meta.as_str()) && !holds_key(keys, content.as_str()) {
        let mut m = owned("Document ");
        m.append(document_id);
        m.append(" not found");
        return Err(ApiError::NotFound(m));
    }
    Ok(())
}

/// 404 for reading a document that has neither a metadata record nor any
/// chunk.
pub fn require_document_found(document_id: &str, has_metadata: bool, chunk_count: usize) -> (r: Result<
    (),
    ApiError,
>)
    ensures
        (has_metadata || chunk_count > 0) ==> r is Ok,
        !(has_metadata || chunk_count > 0) ==> r is Err && r->Err_0 is NotFound && r->Err_0->NotFound_0@
            == "Document "@ + document_id@ + " not found"@,
{
    if !has_metadata && chunk_count == 0 {
        let mut m = owned("Document ");
        m.append(document_id);
        m.append(" not found");
        Err(ApiError::NotFound(m))
    } else {
        Ok(())
    }
}

/// The identifying part of a document's detail answer.
#[derive(Debug, Clone, PartialEq, Eq)]
pub struct DocumentDetail {
    pub id: String,
    /// How many chunk keys the document has.
    pub chunk_count: usize,
    /// The metadata record's status, `completed` when it has none.
    pub status: String,
}

/// The detail answer of `document_id` over the store's `keys`: its id, the
/// number of its chunk keys and its status — the metadata record's
/// (`metadata_status`, `None` when the record or its status is missing),
/// else `completed`. 404 for a document with neither a metadata record
/// (`has_metadata`) nor a chunk.
pub fn document_detail(
    document_id: &str,
    keys: &Vec<String>,
    has_metadata: bool,
    metadata_status: Option<String>,
) -> (r: Result<DocumentDetail, ApiError>)
    ensures
        !(has_metadata || chunk_keys_of(keys@, document_id@).len() > 0) ==> r is Err
            && r->Err_0 is NotFound && r->Err_0->NotFound_0@ == "Document "@ + document_id@
            + " not found"@,
        (has_metadata || chunk_keys_of(keys@, document_id@).len() > 0) ==> r is Ok && ({
            let d = r->Ok_0;
            &&& d.id@ == document_id@
            &&& d.chunk_count == chunk_keys_of(keys@, document_id@).len()
            &&& d.status@ == match metadata_status {
                Some(st) => st@,
                None => "completed"@,
            }
        }),
{
    let chunk_count = chunk_keys(keys, document_id).len();
    match require_document_found(document_id, has_metadata, chunk_count) {
        Err(e) => Err(e),
        Ok(()) => {
            let status = match metadata_status {
                Some(st) => st,
                None => owned("completed"),
            };
            Ok(DocumentDetail { id: owned(document_id), chunk_count, status })
        },
    }
}

/// The message refusing the deletion of a document that is queued or running.
pub open spec fn busy_message(document_id: Seq<char>, status: Seq<char>) -> Seq<char> {
    if status == "pending"@ {
        "Cannot delete document '"@ + document_id
            + "' with status 'pending'. The document is queued for processing. Please wait for processing to complete or cancel the task."@
    } else {
        "Cannot delete document '"@ + document_id
            + "' with status 'processing'. The document is currently being processed. Please wait for processing to complete or cancel the task."@
    }
}

/// Refuses (409) to delete a document that is `pending` or `processing`;
/// every other status (unknown ones included) allows deletion.
pub fn check_deletable(document_id: &str, status: &str) -> (r: Result<(), ApiError>)
    ensures
        (status@ == "pending"@ || status@ == "processing"@) ==> r is Err && r->Err_0 is Conflict
            && r->Err_0->Conflict_0@ == busy_message(document_id@, status@),
        !(status@ == "pending"@ || status@ == "processing"@) ==> r is Ok,
{
    if same_text(status, "pending") {
        let mut m = owned("Cannot delete document '");
        m.append(document_id);
        m.append(
            "' with status 'pending'. The document is queued for processing. Please wait for processing to complete or cancel the task.",
        );
        Err(ApiError::Conflict(m))
    } else if same_text(status, "processing") {
        let mut m = owned("Cannot delete document '");
        m.append(document_id);
        m.append(
            "' with status 'processing'. The document is currently being processed. Please wait for processing to complete or cancel the task.",
        );
        Err(ApiError::Conflict(m))
    } else {
        Ok(())
    }
}

/// Whether a document in `status` may be cleared for re-ingestion: only a
/// finished one (failed, completed or cancelled), never one in flight.
pub open spec fn reingestable(status: Seq<char>) -> bool {
    status == "failed"@ || status == "completed"@ || status == "cancelled"@
}

/// The statuses, in the order tried, from which a document is moved to
/// `deleting` before re-ingestion.
pub fn reingest_from_statuses() -> (r: Vec<&'static str>)
    ensures
        r@.len() == 3,
        r@[0]@ == "failed"@,
        r@[1]@ == "completed"@,
        r@[2]@ == "cancelled"@,
{
    let mut r: Vec<&'static str> = Vec::new();
    r.push("failed");
    r.push("completed");
    r.push("cancelled");
    r
}

/// The keys removed when a document is cleared for re-ingestion: its
/// chunks, then its metadata and content records.
pub fn reingestion_keys(chunk_ids: Vec<String>, document_id: &str) -> (r: Vec<String>)
    ensures
        r@.len() == chunk_ids@.len() + 2,
        r@.take(chunk_ids@.len() as int) == chunk_ids@,
        r@[chunk_ids@.len() as int]@ == metadata_key_of(document_id@),
        r@[chunk_ids@.len() as int + 1]@ == content_key_of(document_id@),
{
    let mut r = chunk_ids;
    let ghost before = r@;
    r.push(metadata_key(document_id));
    r.push(content_key(document_id));
    assert(r@.take(before.len() as int) =~= before);
    r
}

/// Whether a caller scoped to a tenant / workspace may read a document: a
/// scope both sides name must agree.
pub open spec fn readable(
    doc_tenant: Option<Seq<char>>,
    doc_workspace: Option<Seq<char>>,
    caller_tenant: Option<Seq<char>>,
    caller_workspace: Option<Seq<char>>,
) -> bool {
    (caller_tenant is Some && doc_tenant is Some ==> doc_tenant->0 == caller_tenant->0) && (
    caller_workspace is Some && doc_workspace is Some ==> doc_workspace->0 == caller_workspace->0)
}

/// Refuses (403) to read a document whose tenant or workspace differs from
/// the caller's.
pub fn check_readable(
    doc_tenant: Option<&str>,
    doc_workspace: Option<&str>,
    caller_tenant: Option<&str>,
    caller_workspace: Option<&str>,
) -> (r: Result<(), ApiError>)
    ensures
        readable(
            opt_view(doc_tenant),
            opt_view(doc_workspace),
            opt_view(caller_tenant),
            opt_view(caller_workspace),
        ) ==> r is Ok,
        !readable(
            opt_view(doc_tenant),
            opt_view(doc_workspace),
            opt_view(caller_tenant),
            opt_view(caller_workspace),
        ) ==> r == Err::<(), ApiError>(ApiError::Forbidden),
{
    match (caller_tenant, doc_tenant) {
        (Some(f), Some(d)) => {
            if !same_text(d, f) {
                return Err(ApiError::Forbidden);
            }
        },
        _ => {},
    }
    match (caller_workspace, doc_workspace) {
        (Some(f), Some(d)) => {
            if !same_text(d, f) {
                return Err(ApiError::Forbidden);
            }
        },
        _ => {},
    }
    Ok(())
}

/// Whether a graph source belongs to `document_id`: the id itself, one of
/// its chunks, or anything else named with the id as prefix.
pub open spec fn source_of_document(source: Seq<char>, document_id: Seq<char>) -> bool {
    begins_with(source, document_id)
}

/// Whether `source` belongs to `document_id`: it starts with the document's
/// chunk prefix, equals the id, or starts with the id.
pub fn source_belongs_to(source: &str, document_id: &str) -> (r: bool)
    ensures
        r == source_of_document(source@, document_id@),
{
    let prefix = chunk_prefix(document_id);
    let chunk = starts_with(source, prefix.as_str());
    let same = same_text(source, document_id);
    let prefixed = starts_with(source, document_id);
    proof {
        if chunk {
            let n = document_id@.len() as int;
            assert(source@.take(n) =~= prefix@.take(n));
            assert(prefix@.take(n) =~= document_id@);
        }
        if same {
            assert(source@.take(document_id@.len() as int) =~= document_id@);
        }
    }
    chunk || same || prefixed
}

/// The sources left once the document's are removed, in order.
pub open spec fn remaining_sources_of(sources: Seq<String>, document_id: Seq<char>) -> Seq<String> {
    sources.filter(|s: String| !source_of_document(s@, document_id))
}

/// The sources that do not belong to `document_id`, in order.
pub fn remaining_sources(sources: &Vec<String>, document_id: &str) -> (r: Vec<String>)
    ensures
        r@ == remaining_sources_of(sources@, document_id@),
{
    let mut r: Vec<String> = Vec::new();
    let mut i: usize = 0;
    while i < sources.len()
        invariant
            i <= sources.len(),
            r@ == remaining_sources_of(sources@.take(i as int), document_id@),
        decreases sources.len() - i,
    {
        assert(sources@.take(i + 1) == sources@.take(i as int).push(sources@[i as int]));
        if !source_belongs_to(sources[i].as_str(), document_id) {
            r.push(sources[i].clone());
        }
        i = i + 1;
    }
    assert(sources@.take(sources.len() as int) == sources@);
    r
}

/// What happens to a graph node or edge when a document's data is removed.
#[derive(Debug, Clone, PartialEq, Eq)]
pub enum CleanupAction {
    /// It names no sources: left alone.
    NoSources,
    /// Only the document's sources remain or it is orphaned: deleted.
    Delete,
    /// Some sources were the document's: rewritten with the rest.
    Update(Vec<String>),
    /// None of its sources were the document's: left alone.
    Keep,
}

/// The clean-up rule for an item with `sources`; an edge that lost an
/// endpoint (`orphaned`) is deleted whatever its sources.
pub open spec fn cleanup_rule(
    orphaned: bool,
    sources: Seq<String>,
    document_id: Seq<char>,
    a: CleanupAction,
) -> bool {
    let rest = remaining_sources_of(sources, document_id);
    if orphaned {
        a is Delete
    } else if sources.len() == 0 {
        a is NoSources
    } else if rest.len() == 0 {
        a is Delete
    } else if rest.len() < sources.len() {
        a is Update && a->Update_0@ == rest
    } else {
        a is Keep
    }
}

/// The clean-up action for a node (`orphaned` false) or an edge.
pub fn cleanup_action(orphaned: bool, sources: &Vec<String>, document_id: &str) -> (a: CleanupAction)
    ensures
        cleanup_rule(orphaned, sources@, document_id@, a),
{
    if orphaned {
        return CleanupAction::Delete;
    }
    if sources.len() == 0 {
        return CleanupAction::NoSources;
    }
    let rest = remaining_sources(sources, document_id);
    if rest.len() == 0 {
        CleanupAction::Delete
    } else if rest.len() < sources.len() {
        CleanupAction::Update(rest)
    } else {
        CleanupAction::Keep
    }
}

/// Law: after a clean-up update no remaining source belongs to the
/// document, and every source kept was already there.
pub proof fn law_cleanup_update_drops_only_document_sources(
    sources: Seq<String>,
    document_id: Seq<char>,
    a: CleanupAction,
)
    requires
        cleanup_rule(false, sources, document_id, a),
        a is Update,
    ensures
        forall|i: int|
            0 <= i < a->Update_0@.len() ==> !source_of_document(
                (#[trigger] a->Update_0@[i])@,
                document_id,
            ) && sources.contains(a->Update_0@[i]),
        a->Update_0@.len() < sources.len(),
{
    let pred = |s: String| !source_of_document(s@, document_id);
    assert forall|i: int| 0 <= i < a->Update_0@.len() implies !source_of_document(
        (#[trigger] a->Update_0@[i])@,
        document_id,
    ) && sources.contains(a->Update_0@[i]) by {
        sources.lemma_filter_pred(pred, i);
        assert(a->Update_0@.contains(a->Update_0@[i]));
        sources.lemma_filter_contains_rev(pred, a->Update_0@[i]);
    }
}

/// Counts of what a document clean-up removed or rewrote.
#[derive(Debug, Clone, Copy, PartialEq, Eq, Default)]
pub struct CleanupStats {
    /// Entities deleted (no sources left).
    pub entities_removed: usize,
    /// Entities rewritten without the document's sources.
    pub entities_updated: usize,
    /// Relationships deleted.
    pub relationships_removed: usize,
    /// Relationships rewritten.
    pub relationships_updated: usize,
    /// Entity embeddings deleted.
    pub embeddings_deleted: usize,
}

impl CleanupStats {
    /// All counts zero.
    pub fn zero() -> (s: Self)
        ensures
            s.entities_removed == 0 && s.entities_updated == 0 && s.relationships_removed == 0
                && s.relationships_updated == 0 && s.embeddings_deleted == 0,
    {
        CleanupStats {
            entities_removed: 0,
            entities_updated: 0,
            relationships_removed: 0,
            relationships_updated: 0,
            embeddings_deleted: 0,
        }
    }

    /// Counts one node's clean-up: a deleted node is an entity removed (and an
    /// embedding deleted when vector storage is attached), an update an
    /// entity updated. Counts saturate at the largest value.
    pub fn record_node(&mut self, a: &CleanupAction, with_vectors: bool)
        ensures
            final(self).entities_removed == (if a is Delete {
                sat_inc(old(self).entities_removed)
            } else {
                old(self).entities_removed
            }),
            final(self).embeddings_deleted == (if a is Delete && with_vectors {
                sat_inc(old(self).embeddings_deleted)
            } else {
                old(self).embeddings_deleted
            }),
            final(self).entities_updated == (if a is Update {
                sat_inc(old(self).entities_updated)
            } else {
                old(self).entities_updated
            }),
            final(self).relationships_removed == old(self).relationships_removed,
            final(self).relationships_updated == old(self).relationships_updated,
    {
        match a {
            CleanupAction::Delete => {
                if with_vectors {
                    self.embeddings_deleted = self.embeddings_deleted.saturating_add(1);
                }
                self.entities_removed = self.entities_removed.saturating_add(1);
            },
            CleanupAction::Update(_) => {
                self.entities_updated = self.entities_updated.saturating_add(1);
            },
            _ => {},
        }
    }

    /// Counts one edge's clean-up: a deletion is a relationship removed, an
    /// update a relationship updated. Counts saturate at the largest value.
    pub fn record_edge(&mut self, a: &CleanupAction)
        ensures
            final(self).relationships_removed == (if a is Delete {
                sat_inc(old(self).relationships_removed)
            } else {
                old(self).relationships_removed
            }),
            final(self).relationships_updated == (if a is Update {
                sat_inc(old(self).relationships_updated)
            } else {
                old(self).relationships_updated
            }),
            final(self).entities_removed == old(self).entities_removed,
            final(self).entities_updated == old(self).entities_updated,
            final(self).embeddings_deleted == old(self).embeddings_deleted,
    {
        match a {
            CleanupAction::Delete => {
                self.relationships_removed = self.relationships_removed.saturating_add(1);
            },
            CleanupAction::Update(_) => {
                self.relationships_updated = self.relationships_updated.saturating_add(1);
            },
            _ => {},
        }
    }
}

/// One more, saturating at `usize::MAX`.
pub open spec fn sat_inc(n: usize) -> usize {
    if n < usize::MAX {
        (n + 1) as usize
    } else {
        n
    }
}

/// The pieces of `s` between the separator `sep`, empty pieces included.
pub open spec fn split_on(s: Seq<char>, sep: char) -> Seq<Seq<char>>
    decreases s.len(),
{
    if s.len() == 0 {
        seq![Seq::<char>::empty()]
    } else {
        let head = split_on(s.drop_last(), sep);
        if s.last() == sep {
            head.push(Seq::<char>::empty())
        } else {
            head.update(head.len() - 1, head.last().push(s.last()))
        }
    }
}

proof fn lemma_split_on_nonempty(s: Seq<char>, sep: char)
    ensures
        split_on(s, sep).len() >= 1,
    decreases s.len(),
{
    if s.len() > 0 {
        lemma_split_on_nonempty(s.drop_last(), sep);
    }
}

/// Splits `s` at every `sep`, empty pieces included.
pub fn split_text(s: &str, sep: char) -> (r: Vec<String>)
    ensures
        texts(r@) == split_on(s@, sep),
{
    let cs = chars_of(s);
    let mut pieces: Vec<String> = Vec::new();
    let mut current = String::new();
    let mut i: usize = 0;
    while i < cs.len()
        invariant
            i <= cs.len(),
            cs@ == s@,
            texts(pieces@).push(current@) == split_on(cs@.take(i as int), sep),
        decreases cs.len() - i,
    {
        let ghost t = cs@.take(i as int);
        proof {
            assert(cs@.take(i + 1).drop_last() == t);
            lemma_split_on_nonempty(t, sep);
        }
        if cs[i] == sep {
            let done = current;
            pieces.push(done);
            current = String::new();
            assert(texts(pieces@) =~= split_on(t, sep));
            assert(texts(pieces@).push(current@) =~= split_on(t, sep).push(Seq::<char>::empty()));
        } else {
            current.push(cs[i]);
            assert(texts(pieces@).push(current@) =~= split_on(t, sep).update(
                split_on(t, sep).len() - 1,
                split_on(t, sep).last().push(cs@[i as int]),
            ));
        }
        i = i + 1;
    }
    assert(cs@.take(cs.len() as int) == cs@);
    pieces.push(current);
    assert(texts(pieces@) =~= split_on(s@, sep));
    pieces
}

/// Splits a legacy `|`-separated source list into its pieces.
pub fn split_source_id(source_id: &str) -> (r: Vec<String>)
    ensures
        texts(r@) == split_on(source_id@, '|'),
{
    split_text(source_id, '|')
}

/// A metadata key with every trailing `-metadata` removed.
pub open spec fn strip_metadata_suffix(key: Seq<char>) -> Seq<char>
    decreases key.len(),
{
    if finishes_with(key, "-metadata"@) && "-metadata"@.len() > 0 {
        strip_metadata_suffix(key.take(key.len() - "-metadata"@.len()))
    } else {
        key
    }
}

/// The document id of a metadata key: the key with every trailing
/// `-metadata` removed.
pub fn document_id_of_metadata_key(key: &str) -> (r: String)
    ensures
        r@ == strip_metadata_suffix(key@),
{
    proof {
        reveal_strlit("-metadata");
    }
    let mut cur = owned(key);
    while ends_with(cur.as_str(), "-metadata")
        invariant
            strip_metadata_suffix(cur@) == strip_metadata_suffix(key@),
            "-metadata"@.len() == 9,
        decreases cur@.len(),
    {
        let n = chars_of(cur.as_str()).len();
        cur = take_chars(cur.as_str(), n - 9);
    }
    cur
}

/// What bulk deletion does with one document.
#[derive(Debug, Clone, Copy, PartialEq, Eq, Structural)]
pub enum BulkDeleteDecision {
    /// Queued or running and not stuck: left alone and reported.
    Skip,
    /// Deleted.
    Delete,
    /// Deleted although queued or running: stuck at full progress.
    DeleteStuck,
}

/// Seconds after which a document at full progress counts as stuck.
pub const STUCK_THRESHOLD_SECS: i64 = 3600;

/// The bulk-deletion rule: a queued or running document is deleted only
/// when stuck (last updated more than an hour ago, `age_secs`, with its
/// progress at 99% or more, `high_progress`); every other is deleted.
pub fn bulk_delete_decision(status: &str, age_secs: Option<i64>, high_progress: bool) -> (r:
    BulkDeleteDecision)
    ensures
        (status@ == "pending"@ || status@ == "processing"@) ==> r == (if age_secs is Some
            && age_secs->0 > STUCK_THRESHOLD_SECS && high_progress {
            BulkDeleteDecision::DeleteStuck
        } else {
            BulkDeleteDecision::Skip
        }),
        !(status@ == "pending"@ || status@ == "processing"@) ==> r == BulkDeleteDecision::Delete,
{
    if same_text(status, "pending") || same_text(status, "processing") {
        match age_secs {
            Some(age) => {
                if age > STUCK_THRESHOLD_SECS && high_progress {
                    BulkDeleteDecision::DeleteStuck
                } else {
                    BulkDeleteDecision::Skip
                }
            },
            None => BulkDeleteDecision::Skip,
        }
    } else {
        BulkDeleteDecision::Delete
    }
}

/// The documents a bulk deletion skips, in order: those decided `Skip`.
pub open spec fn skipped_documents_of(
    document_ids: Seq<String>,
    decisions: Seq<BulkDeleteDecision>,
) -> Seq<String>
    decreases document_ids.len(),
{
    if document_ids.len() == 0 || decisions.len() == 0 {
        Seq::empty()
    } else {
        let rest = skipped_documents_of(document_ids.drop_last(), decisions.drop_last());
        if decisions.last() == BulkDeleteDecision::Skip {
            rest.push(document_ids.last())
        } else {
            rest
        }
    }
}

/// The chunks a bulk deletion removes: the chunk keys among `keys` of every
/// document that is not skipped.
pub open spec fn deleted_chunks_of(
    keys: Seq<String>,
    document_ids: Seq<String>,
    decisions: Seq<BulkDeleteDecision>,
) -> nat
    decreases document_ids.len(),
{
    if document_ids.len() == 0 || decisions.len() == 0 {
        0
    } else {
        deleted_chunks_of(keys, document_ids.drop_last(), decisions.drop_last())
            + if decisions.last() == BulkDeleteDecision::Skip {
            0nat
        } else {
            chunk_keys_of(keys, document_ids.last()@).len()
        }
    }
}

/// The counts of a bulk deletion.
#[derive(Debug, Clone, PartialEq, Eq)]
pub struct BulkDeleteTally {
    /// Documents deleted (stuck ones included).
    pub deleted_count: usize,
    /// Documents left alone.
    pub skipped_count: usize,
    /// The ids of the documents left alone, in order.
    pub skipped_documents: Vec<String>,
    /// Chunk keys removed with the deleted documents.
    pub total_chunks_deleted: usize,
}

/// The tally of a bulk deletion over the metadata records' documents and
/// their decisions: every record is either deleted or skipped, the skipped
/// ones are listed in order, and the chunks of the deleted ones are summed.
pub fn tally_bulk_delete(
    keys: &Vec<String>,
    document_ids: &Vec<String>,
    decisions: &Vec<BulkDeleteDecision>,
) -> (t: BulkDeleteTally)
    requires
        document_ids@.len() == decisions@.len(),
        deleted_chunks_of(keys@, document_ids@, decisions@) <= usize::MAX,
    ensures
        t.deleted_count + t.skipped_count == document_ids@.len(),
        t.skipped_documents@ == skipped_documents_of(document_ids@, decisions@),
        t.skipped_count == t.skipped_documents@.len(),
        t.total_chunks_deleted == deleted_chunks_of(keys@, document_ids@, decisions@),
{
    let mut deleted_count: usize = 0;
    let mut skipped_documents: Vec<String> = Vec::new();
    let mut total_chunks_deleted: usize = 0;
    let mut i: usize = 0;
    while i < document_ids.len()
        invariant
            i <= document_ids.len(),
            document_ids@.len() == decisions@.len(),
            deleted_count + skipped_documents@.len() == i,
            skipped_documents@ == skipped_documents_of(
                document_ids@.take(i as int),
                decisions@.take(i as int),
            ),
            total_chunks_deleted == deleted_chunks_of(
                keys@,
                document_ids@.take(i as int),
                decisions@.take(i as int),
            ),
            deleted_chunks_of(keys@, document_ids@, decisions@) <= usize::MAX,
        decreases document_ids.len() - i,
    {
        assert(document_ids@.take(i + 1).drop_last() == document_ids@.take(i as int));
        assert(decisions@.take(i + 1).drop_last() == decisions@.take(i as int));
        proof {
            lemma_deleted_chunks_prefix(keys@, document_ids@, decisions@, i + 1);
        }
        if decisions[i] == BulkDeleteDecision::Skip {
            skipped_documents.push(document_ids[i].clone());
        } else {
            let chunks = chunk_keys(keys, document_ids[i].as_str());
            total_chunks_deleted = total_chunks_deleted + chunks.len();
            deleted_count = deleted_count + 1;
        }
        i = i + 1;
    }
    assert(document_ids@.take(document_ids.len() as int) == document_ids@);
    assert(decisions@.take(decisions.len() as int) == decisions@);
    let skipped_count = skipped_documents.len();
    BulkDeleteTally { deleted_count, skipped_count, skipped_documents, total_chunks_deleted }
}

/// The chunks deleted over a prefix of the documents are no more than over
/// all of them.
proof fn lemma_deleted_chunks_prefix(
    keys: Seq<String>,
    document_ids: Seq<String>,
    decisions: Seq<BulkDeleteDecision>,
    n: int,
)
    requires
        0 <= n <= document_ids.len(),
        document_ids.len() == decisions.len(),
    ensures
        deleted_chunks_of(keys, document_ids.take(n), decisions.take(n)) <= deleted_chunks_of(
            keys,
            document_ids,
            decisions,
        ),
    decreases document_ids.len() - n,
{
    if n < document_ids.len() {
        lemma_deleted_chunks_prefix(keys, document_ids, decisions, n + 1);
        assert(document_ids.take(n + 1).drop_last() == document_ids.take(n));
        assert(decisions.take(n + 1).drop_last() == decisions.take(n));
    } else {
        assert(document_ids.take(n) == document_ids);
        assert(decisions.take(n) == decisions);
    }
}

/// Whether bulk deletion keeps a graph node: it still names some source
/// (a non-empty `source_ids` list, or a non-empty legacy `source_id`).
pub fn node_keeps_sources(source_ids_len: Option<usize>, legacy_source_id: Option<&str>) -> (r: bool)
    ensures
        r == ((source_ids_len is Some && source_ids_len->0 > 0) || (legacy_source_id is Some
            && legacy_source_id->0@.len() > 0)),
{
    let has_sources = match source_ids_len {
        Some(n) => n > 0,
        None => false,
    };
    if has_sources {
        return true;
    }
    match legacy_source_id {
        Some(s) => chars_of(s).len() > 0,
        None => false,
    }
}


/// The statuses, in the order tried, from which an edited document moves to
/// `re_ingesting`: only a finished one.
pub fn update_from_statuses() -> (r: Vec<&'static str>)
    ensures
        r@.len() == 2,
        r@[0]@ == "completed"@,
        r@[1]@ == "failed"@,
{
    let mut r: Vec<&'static str> = Vec::new();
    r.push("completed");
    r.push("failed");
    r
}

/// 409 for editing a document that is neither completed nor failed.
pub fn update_conflict(document_id: &str) -> (e: ApiError)
    ensures
        e is Conflict && e->Conflict_0@ == "Cannot update document '"@ + document_id@
            + "'. Document must be in 'completed' or 'failed' status. It may currently be processing or pending."@,
{
    let mut m = owned("Cannot update document '");
    m.append(document_id);
    m.append(
        "'. Document must be in 'completed' or 'failed' status. It may currently be processing or pending.",
    );
    ApiError::Conflict(m)
}

/// The message reporting a finished re-ingestion.
pub fn reingested_message(entities: usize, relationships: usize, chunks: usize) -> (r: String)
    ensures
        r@ == "Document re-ingested: "@ + decimal(entities as nat) + " entities, "@ + decimal(
            relationships as nat,
        ) + " relationships, "@ + decimal(chunks as nat) + " chunks"@,
{
    let mut m = owned("Document re-ingested: ");
    m.append(decimal_text(entities as u128).as_str());
    m.append(" entities, ");
    m.append(decimal_text(relationships as u128).as_str());
    m.append(" relationships, ");
    m.append(decimal_text(chunks as u128).as_str());
    m.append(" chunks");
    m
}

} // verus!
