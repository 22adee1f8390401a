//! The store keys removed when a workspace is deleted: each of its
//! documents' metadata, content and chunk records.

use vstd::prelude::*;

use crate::document_store::{
    chunk_keys, chunk_keys_of, content_key, content_key_of, document_id_of_metadata_key,
    strip_metadata_suffix, texts,
};
use crate::text::same_text;

verus! {

/// A metadata record as the purge reads it: its key, and `None` when the
/// record could not be read, else its `workspace_id` field (`None` when
/// absent or not a string).
#[derive(Debug, Clone, PartialEq, Eq)]
pub struct PurgeEntry {
    pub metadata_key: String,
    pub workspace: Option<Option<String>>,
}

/// Whether a read record belongs to `workspace_id`; a record without a
/// workspace belongs to `default`.
pub open spec fn purges(workspace: Option<Option<String>>, workspace_id: Seq<char>) -> bool {
    match workspace {
        Some(w) => match w {
            Some(x) => x@ == workspace_id,
            None => "default"@ == workspace_id,
        },
        None => false,
    }
}

/// The keys a purge removes for one document (metadata key `key`): the
/// metadata, the content and every chunk key among `keys`.
pub open spec fn document_keys(keys: Seq<String>, key: Seq<char>) -> Seq<Seq<char>> {
    let doc = strip_metadata_suffix(key);
    seq![key, content_key_of(doc)] + texts(chunk_keys_of(keys, doc))
}

/// The keys a purge of `workspace_id` removes, in order.
pub open spec fn purge_keys(keys: Seq<String>, entries: Seq<PurgeEntry>, workspace_id: Seq<char>) -> Seq<
    Seq<char>,
>
    decreases entries.len(),
{
    if entries.len() == 0 {
        Seq::empty()
    } else {
        let before = purge_keys(keys, entries.drop_last(), workspace_id);
        let e = entries.last();
        if purges(e.workspace, workspace_id) {
            before + document_keys(keys, e.metadata_key@)
        } else {
            before
        }
    }
}

/// How many documents a purge of `workspace_id` removes.
pub open spec fn purge_documents(entries: Seq<PurgeEntry>, workspace_id: Seq<char>) -> nat
    decreases entries.len(),
{
    if entries.len() == 0 {
        0
    } else {
        purge_documents(entries.drop_last(), workspace_id) + if purges(
            entries.last().workspace,
            workspace_id,
        ) {
            1nat
        } else {
            0nat
        }
    }
}

/// How many chunk records a purge of `workspace_id` removes.
pub open spec fn purge_chunks(keys: Seq<String>, entries: Seq<PurgeEntry>, workspace_id: Seq<char>) -> nat
    decreases entries.len(),
{
    if entries.len() == 0 {
        0
    } else {
        purge_chunks(keys, entries.drop_last(), workspace_id) + if purges(
            entries.last().workspace,
            workspace_id,
        ) {
            chunk_keys_of(keys, strip_metadata_suffix(entries.last().metadata_key@)).len()
        } else {
            0nat
        }
    }
}

/// What a workspace purge removes.
#[derive(Debug, Clone, PartialEq, Eq)]
pub struct PurgePlan {
    /// The keys to delete, in order.
    pub keys: Vec<String>,
    pub documents: usize,
    pub chunks: usize,
}

fn belongs(workspace: &Option<Option<String>>, workspace_id: &str) -> (r: bool)
    ensures
        r == purges(*workspace, workspace_id@),
{
    match workspace {
        Some(w) => match w {
            Some(x) => same_text(x.as_str(), workspace_id),
            None => same_text("default", workspace_id),
        },
        None => false,
    }
}

/// The keys, documents and chunks a purge of `workspace_id` removes, given
/// all store `keys` and the metadata records (in key order).
pub fn plan_workspace_purge(keys: &Vec<String>, entries: &Vec<PurgeEntry>, workspace_id: &str) -> (r:
    PurgePlan)
    ensures
        texts(r.keys@) == purge_keys(keys@, entries@, workspace_id@),
        r.documents == purge_documents(entries@, workspace_id@),
        r.chunks == purge_chunks(keys@, entries@, workspace_id@),
        r.keys@.len() == 2 * r.documents + r.chunks,
{
    let mut out: Vec<String> = Vec::new();
    let mut documents: usize = 0;
    let mut chunks: usize = 0;
    let mut i: usize = 0;
    while i < entries.len()
        invariant
            i <= entries.len(),
            texts(out@) == purge_keys(keys@, entries@.take(i as int), workspace_id@),
            documents == purge_documents(entries@.take(i as int), workspace_id@),
            chunks == purge_chunks(keys@, entries@.take(i as int), workspace_id@),
            2 * documents + chunks == out@.len(),
        decreases entries.len() - i,
    {
        assert(entries@.take(i + 1).drop_last() == entries@.take(i as int));
        let e = &entries[i];
        if belongs(&e.workspace, workspace_id) {
            let ghost before = texts(out@);
            let doc = document_id_of_metadata_key(e.metadata_key.as_str());
            out.push(e.metadata_key.clone());
            out.push(content_key(doc.as_str()));
            let list = chunk_keys(keys, doc.as_str());
            let mut j: usize = 0;
            while j < list.len()
                invariant
                    j <= list.len(),
                    texts(out@) == before + seq![e.metadata_key@, content_key_of(doc@)] + texts(
                        list@.take(j as int),
                    ),
                    2 * documents + 2 + chunks + j == out@.len(),
                decreases list.len() - j,
            {
                let c = list[j].clone();
                assert(c@ == list@[j as int]@);
                let ghost prev = out@;
                out.push(c);
                assert(out@ == prev.push(c));
                assert(texts(out@) =~= texts(prev).push(c@));
                assert(list@.take(j + 1) == list@.take(j as int).push(list@[j as int]));
                assert(texts(list@.take(j + 1)) =~= texts(list@.take(j as int)).push(list@[j as int]@));
                let ghost a = before + seq![e.metadata_key@, content_key_of(doc@)];
                assert((a + texts(list@.take(j as int))).push(c@) =~= a + texts(list@.take(j as int)).push(c@));
                assert(texts(out@) =~= a + texts(list@.take(j + 1)));
                j = j + 1;
            }
            assert(list@.take(list.len() as int) == list@);
            let total = out.len();
            assert(total == 2 * documents + 2 + chunks + list.len());
            documents = documents + 1;
            chunks = chunks + list.len();
            assert(texts(out@) =~= purge_keys(keys@, entries@.take(i + 1), workspace_id@));
        }
        i = i + 1;
    }
    assert(entries@.take(entries.len() as int) == entries@);
    PurgePlan { keys: out, documents, chunks }
}

} // verus!
