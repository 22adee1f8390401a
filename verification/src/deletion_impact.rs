//! A read-only preview of what deleting a document would remove from the
//! store and the graph. Every graph item is classified by the clean-up rule
//! that the deletion itself applies, orphaned edges included.

use vstd::prelude::*;

use crate::document_store::{
    chunk_keys, chunk_keys_of, cleanup_action, cleanup_rule, document_stored, remaining_sources_of,
    require_document_stored, split_on, split_source_id, texts, CleanupAction, CleanupStats,
};
use crate::error::ApiError;
use crate::text::same_text;

verus! {

/// A graph node as the clean-up reads it: its id and its source list.
#[derive(Debug, Clone, PartialEq, Eq)]
pub struct NodeSources {
    pub id: String,
    pub sources: Vec<String>,
}

/// A graph edge as the clean-up reads it: its endpoints and its source list.
#[derive(Debug, Clone, PartialEq, Eq)]
pub struct EdgeSources {
    pub source: String,
    pub target: String,
    pub sources: Vec<String>,
}

/// The source list of a graph item: its `source_ids` array when it has
/// one, else the pieces of its legacy `|`-separated `source_id`, else none.
pub fn item_sources(source_ids: Option<Vec<String>>, legacy_source_id: Option<&str>) -> (r: Vec<
    String,
>)
    ensures
        source_ids is Some ==> r@ == source_ids->0@,
        source_ids is None && legacy_source_id is Some ==> texts(r@) == split_on(
            legacy_source_id->0@,
            '|',
        ),
        source_ids is None && legacy_source_id is None ==> r@.len() == 0,
{
    match source_ids {
        Some(v) => v,
        None => match legacy_source_id {
            Some(s) => split_source_id(s),
            None => Vec::new(),
        },
    }
}

/// Whether the clean-up deletes an item: an orphaned edge always, else one
/// whose sources all belong to the document.
pub open spec fn deletes(orphaned: bool, sources: Seq<String>, document_id: Seq<char>) -> bool {
    orphaned || (sources.len() > 0 && remaining_sources_of(sources, document_id).len() == 0)
}

/// Whether the clean-up rewrites an item: some but not all of its sources
/// belong to the document.
pub open spec fn rewrites(orphaned: bool, sources: Seq<String>, document_id: Seq<char>) -> bool {
    !orphaned && sources.len() > 0 && 0 < remaining_sources_of(sources, document_id).len()
        < sources.len()
}

/// Law: the preview's classes are the clean-up's actions. Whatever action
/// the clean-up rule picks for an item, it deletes the item exactly when
/// the preview counts it as removed, and updates it exactly when the
/// preview counts it as rewritten.
pub proof fn law_preview_matches_cleanup(
    orphaned: bool,
    sources: Seq<String>,
    document_id: Seq<char>,
    a: CleanupAction,
)
    requires
        cleanup_rule(orphaned, sources, document_id, a),
    ensures
        a is Delete <==> deletes(orphaned, sources, document_id),
        a is Update <==> rewrites(orphaned, sources, document_id),
{
}

/// Whether a node with id `id` is still there after the clean-up.
pub open spec fn survives(nodes: Seq<NodeSources>, id: Seq<char>, document_id: Seq<char>) -> bool {
    exists|k: int|
        0 <= k < nodes.len() && (#[trigger] nodes[k]).id@ == id && !deletes(
            false,
            nodes[k].sources@,
            document_id,
        )
}

/// Whether an edge loses an endpoint in the clean-up (or had lost one).
pub open spec fn orphaned_edge(
    nodes: Seq<NodeSources>,
    e: EdgeSources,
    document_id: Seq<char>,
) -> bool {
    !survives(nodes, e.source@, document_id) || !survives(nodes, e.target@, document_id)
}

/// How many nodes the clean-up deletes.
pub open spec fn nodes_removed(nodes: Seq<NodeSources>, document_id: Seq<char>) -> nat
    decreases nodes.len(),
{
    if nodes.len() == 0 {
        0
    } else {
        nodes_removed(nodes.drop_last(), document_id) + if deletes(
            false,
            nodes.last().sources@,
            document_id,
        ) {
            1nat
        } else {
            0nat
        }
    }
}

/// How many nodes the clean-up rewrites.
pub open spec fn nodes_rewritten(nodes: Seq<NodeSources>, document_id: Seq<char>) -> nat
    decreases nodes.len(),
{
    if nodes.len() == 0 {
        0
    } else {
        nodes_rewritten(nodes.drop_last(), document_id) + if rewrites(
            false,
            nodes.last().sources@,
            document_id,
        ) {
            1nat
        } else {
            0nat
        }
    }
}

/// How many of `edges` the clean-up deletes, given the graph's `nodes`.
pub open spec fn edges_removed(
    nodes: Seq<NodeSources>,
    edges: Seq<EdgeSources>,
    document_id: Seq<char>,
) -> nat
    decreases edges.len(),
{
    if edges.len() == 0 {
        0
    } else {
        edges_removed(nodes, edges.drop_last(), document_id) + if deletes(
            orphaned_edge(nodes, edges.last(), document_id),
            edges.last().sources@,
            document_id,
        ) {
            1nat
        } else {
            0nat
        }
    }
}

/// How many of `edges` the clean-up rewrites, given the graph's `nodes`.
pub open spec fn edges_rewritten(
    nodes: Seq<NodeSources>,
    edges: Seq<EdgeSources>,
    document_id: Seq<char>,
) -> nat
    decreases edges.len(),
{
    if edges.len() == 0 {
        0
    } else {
        edges_rewritten(nodes, edges.drop_last(), document_id) + if rewrites(
            orphaned_edge(nodes, edges.last(), document_id),
            edges.last().sources@,
            document_id,
        ) {
            1nat
        } else {
            0nat
        }
    }
}

/// For each node, whether the clean-up deletes it.
fn node_deletions(nodes: &Vec<NodeSources>, document_id: &str) -> (d: Vec<bool>)
    ensures
        d@.len() == nodes@.len(),
        forall|k: int|
            0 <= k < nodes@.len() ==> d@[k] == deletes(false, (#[trigger] nodes@[k]).sources@, document_id@),
{
    let mut d: Vec<bool> = Vec::new();
    let mut i: usize = 0;
    while i < nodes.len()
        invariant
            i <= nodes.len(),
            d@.len() == i,
            forall|k: int|
                0 <= k < i ==> d@[k] == deletes(false, (#[trigger] nodes@[k]).sources@, document_id@),
        decreases nodes.len() - i,
    {
        let a = cleanup_action(false, &nodes[i].sources, document_id);
        let del = match a {
            CleanupAction::Delete => true,
            _ => false,
        };
        d.push(del);
        i = i + 1;
    }
    d
}

/// Whether a node with id `id` is still there after the clean-up.
fn node_survives(
    nodes: &Vec<NodeSources>,
    deleted: &Vec<bool>,
    id: &str,
    Ghost(document_id): Ghost<Seq<char>>,
) -> (r: bool)
    requires
        deleted@.len() == nodes@.len(),
        forall|k: int|
            0 <= k < nodes@.len() ==> deleted@[k] == deletes(false, (#[trigger] nodes@[k]).sources@, document_id),
    ensures
        r == survives(nodes@, id@, document_id),
{
    let mut i: usize = 0;
    while i < nodes.len()
        invariant
            i <= nodes.len(),
            deleted@.len() == nodes@.len(),
            forall|k: int|
                0 <= k < nodes@.len() ==> deleted@[k] == deletes(
                    false,
                    (#[trigger] nodes@[k]).sources@,
                    document_id,
                ),
            forall|k: int|
                0 <= k < i ==> !((#[trigger] nodes@[k]).id@ == id@ && !deletes(
                    false,
                    nodes@[k].sources@,
                    document_id,
                )),
        decreases nodes.len() - i,
    {
        if !deleted[i] && same_text(nodes[i].id.as_str(), id) {
            assert(nodes@[i as int].id@ == id@);
            return true;
        }
        i = i + 1;
    }
    false
}

/// The removed and rewritten counts of the nodes.
fn node_counts(nodes: &Vec<NodeSources>, document_id: &str) -> (r: (usize, usize))
    ensures
        r.0 == nodes_removed(nodes@, document_id@),
        r.1 == nodes_rewritten(nodes@, document_id@),
{
    let mut removed: usize = 0;
    let mut rewritten: usize = 0;
    let mut i: usize = 0;
    while i < nodes.len()
        invariant
            i <= nodes.len(),
            removed <= i,
            rewritten <= i,
            removed == nodes_removed(nodes@.take(i as int), document_id@),
            rewritten == nodes_rewritten(nodes@.take(i as int), document_id@),
        decreases nodes.len() - i,
    {
        assert(nodes@.take(i + 1).drop_last() == nodes@.take(i as int));
        let a = cleanup_action(false, &nodes[i].sources, document_id);
        match a {
            CleanupAction::Delete => {
                removed = removed + 1;
            },
            CleanupAction::Update(_) => {
                rewritten = rewritten + 1;
            },
            _ => {},
        }
        i = i + 1;
    }
    assert(nodes@.take(nodes.len() as int) == nodes@);
    (removed, rewritten)
}

/// The removed and rewritten counts of the edges, orphaned ones included.
fn edge_counts(nodes: &Vec<NodeSources>, edges: &Vec<EdgeSources>, document_id: &str) -> (r: (
    usize,
    usize,
))
    ensures
        r.0 == edges_removed(nodes@, edges@, document_id@),
        r.1 == edges_rewritten(nodes@, edges@, document_id@),
{
    let deleted = node_deletions(nodes, document_id);
    let mut removed: usize = 0;
    let mut rewritten: usize = 0;
    let mut i: usize = 0;
    while i < edges.len()
        invariant
            i <= edges.len(),
            deleted@.len() == nodes@.len(),
            forall|k: int|
                0 <= k < nodes@.len() ==> deleted@[k] == deletes(
                    false,
                    (#[trigger] nodes@[k]).sources@,
                    document_id@,
                ),
            removed <= i,
            rewritten <= i,
            removed == edges_removed(nodes@, edges@.take(i as int), document_id@),
            rewritten == edges_rewritten(nodes@, edges@.take(i as int), document_id@),
        decreases edges.len() - i,
    {
        assert(edges@.take(i + 1).drop_last() == edges@.take(i as int));
        let e = &edges[i];
        let from_kept = node_survives(nodes, &deleted, e.source.as_str(), Ghost(document_id@));
        let to_kept = node_survives(nodes, &deleted, e.target.as_str(), Ghost(document_id@));
        let orphaned = !from_kept || !to_kept;
        let a = cleanup_action(orphaned, &e.sources, document_id);
        match a {
            CleanupAction::Delete => {
                removed = removed + 1;
            },
            CleanupAction::Update(_) => {
                rewritten = rewritten + 1;
            },
            _ => {},
        }
        i = i + 1;
    }
    assert(edges@.take(edges.len() as int) == edges@);
    (removed, rewritten)
}

/// The counts a document's graph clean-up records: every node, then every
/// edge (an edge that lost an endpoint deleted), each by the clean-up rule,
/// with an embedding deleted per removed node when vector storage is
/// attached (`with_vectors`). They are the counts the deletion preview
/// announces.
pub fn cleanup_tally(
    nodes: &Vec<NodeSources>,
    edges: &Vec<EdgeSources>,
    document_id: &str,
    with_vectors: bool,
) -> (s: CleanupStats)
    ensures
        s.entities_removed == nodes_removed(nodes@, document_id@),
        s.entities_updated == nodes_rewritten(nodes@, document_id@),
        s.relationships_removed == edges_removed(nodes@, edges@, document_id@),
        s.relationships_updated == edges_rewritten(nodes@, edges@, document_id@),
        s.embeddings_deleted == (if with_vectors {
            nodes_removed(nodes@, document_id@)
        } else {
            0
        }),
{
    let mut s = CleanupStats::zero();
    let mut i: usize = 0;
    while i < nodes.len()
        invariant
            i <= nodes.len(),
            s.entities_removed <= i,
            s.entities_updated <= i,
            s.entities_removed == nodes_removed(nodes@.take(i as int), document_id@),
            s.entities_updated == nodes_rewritten(nodes@.take(i as int), document_id@),
            s.embeddings_deleted == (if with_vectors {
                s.entities_removed
            } else {
                0
            }),
            s.relationships_removed == 0 && s.relationships_updated == 0,
        decreases nodes.len() - i,
    {
        assert(nodes@.take(i + 1).drop_last() == nodes@.take(i as int));
        let a = cleanup_action(false, &nodes[i].sources, document_id);
        s.record_node(&a, with_vectors);
        i = i + 1;
    }
    assert(nodes@.take(nodes.len() as int) == nodes@);
    let deleted = node_deletions(nodes, document_id);
    let mut j: usize = 0;
    while j < edges.len()
        invariant
            j <= edges.len(),
            deleted@.len() == nodes@.len(),
            forall|k: int|
                0 <= k < nodes@.len() ==> deleted@[k] == deletes(
                    false,
                    (#[trigger] nodes@[k]).sources@,
                    document_id@,
                ),
            s.relationships_removed <= j,
            s.relationships_updated <= j,
            s.relationships_removed == edges_removed(nodes@, edges@.take(j as int), document_id@),
            s.relationships_updated == edges_rewritten(nodes@, edges@.take(j as int), document_id@),
            s.entities_removed == nodes_removed(nodes@, document_id@),
            s.entities_updated == nodes_rewritten(nodes@, document_id@),
            s.embeddings_deleted == (if with_vectors {
                nodes_removed(nodes@, document_id@)
            } else {
                0
            }),
        decreases edges.len() - j,
    {
        assert(edges@.take(j + 1).drop_last() == edges@.take(j as int));
        let e = &edges[j];
        let from_kept = node_survives(nodes, &deleted, e.source.as_str(), Ghost(document_id@));
        let to_kept = node_survives(nodes, &deleted, e.target.as_str(), Ghost(document_id@));
        let a = cleanup_action(!from_kept || !to_kept, &e.sources, document_id);
        s.record_edge(&a);
        j = j + 1;
    }
    assert(edges@.take(edges.len() as int) == edges@);
    s
}

/// What deleting a document would touch; nothing is changed.
#[derive(Debug, Clone, PartialEq, Eq)]
pub struct DeletionImpact {
    pub document_id: String,
    pub chunks_to_delete: usize,
    pub entities_to_remove: usize,
    pub entities_to_update: usize,
    pub relationships_to_remove: usize,
    pub relationships_to_update: usize,
    /// Always true: the preview deletes nothing.
    pub preview_only: bool,
}

/// The deletion preview of `document_id` over the store's `keys` and the
/// graph's nodes and edges with their source lists: each item is counted
/// as the clean-up would treat it, and an edge that loses an endpoint is
/// counted as removed. 404 for a document without any record.
pub fn analyze_deletion_impact(
    document_id: &str,
    keys: &Vec<String>,
    nodes: &Vec<NodeSources>,
    edges: &Vec<EdgeSources>,
) -> (r: Result<DeletionImpact, ApiError>)
    ensures
        !document_stored(keys@, document_id@) ==> r is Err && r->Err_0 is NotFound
            && r->Err_0->NotFound_0@ == "Document "@ + document_id@ + " not found"@,
        document_stored(keys@, document_id@) ==> r is Ok && ({
            let i = r->Ok_0;
            &&& i.document_id@ == document_id@
            &&& i.chunks_to_delete == chunk_keys_of(keys@, document_id@).len()
            &&& i.entities_to_remove == nodes_removed(nodes@, document_id@)
            &&& i.entities_to_update == nodes_rewritten(nodes@, document_id@)
            &&& i.relationships_to_remove == edges_removed(nodes@, edges@, document_id@)
            &&& i.relationships_to_update == edges_rewritten(nodes@, edges@, document_id@)
            &&& i.preview_only
        }),
{
    match require_document_stored(keys, document_id) {
        Err(e) => Err(e),
        Ok(()) => {
            let chunks = chunk_keys(keys, document_id);
            let (entities_to_remove, entities_to_update) = node_counts(nodes, document_id);
            let (relationships_to_remove, relationships_to_update) = edge_counts(
                nodes,
                edges,
                document_id,
            );
            Ok(
                DeletionImpact {
                    document_id: document_id.to_owned(),
                    chunks_to_delete: chunks.len(),
                    entities_to_remove,
                    entities_to_update,
                    relationships_to_remove,
                    relationships_to_update,
                    preview_only: true,
                },
            )
        },
    }
}

/// Law: an item is never both removed and rewritten, and an item with no
/// sources that keeps its endpoints is neither.
pub proof fn law_impact_is_exclusive(orphaned: bool, sources: Seq<String>, document_id: Seq<char>)
    ensures
        !(deletes(orphaned, sources, document_id) && rewrites(orphaned, sources, document_id)),
        !orphaned && sources.len() == 0 ==> !deletes(orphaned, sources, document_id) && !rewrites(
            orphaned,
            sources,
            document_id,
        ),
{
}

/// Law: the removed and rewritten node counts together never exceed the
/// nodes.
pub proof fn law_node_counts_bounded(nodes: Seq<NodeSources>, document_id: Seq<char>)
    ensures
        nodes_removed(nodes, document_id) + nodes_rewritten(nodes, document_id) <= nodes.len(),
    decreases nodes.len(),
{
    if nodes.len() > 0 {
        law_node_counts_bounded(nodes.drop_last(), document_id);
    }
}

/// Law: the removed and rewritten edge counts together never exceed the
/// edges.
pub proof fn law_edge_counts_bounded(
    nodes: Seq<NodeSources>,
    edges: Seq<EdgeSources>,
    document_id: Seq<char>,
)
    ensures
        edges_removed(nodes, edges, document_id) + edges_rewritten(nodes, edges, document_id)
            <= edges.len(),
    decreases edges.len(),
{
    if edges.len() > 0 {
        law_edge_counts_bounded(nodes, edges.drop_last(), document_id);
    }
}

} // verus!
