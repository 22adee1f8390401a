//! How a namespace's graph is shown: node and edge defaults, which edges
//! belong to a shown node set, when a view is truncated, how a stream is cut
//! into batches, and which neighbours a search adds.

use vstd::prelude::*;

use crate::document_store::texts;
use crate::text::{owned, same_text};

verus! {

/// A graph node as shown to clients (its free-form properties aside).
#[derive(Debug, Clone, PartialEq, Eq)]
pub struct GraphNodeView {
    pub id: String,
    pub label: String,
    pub node_type: String,
    pub description: String,
    pub degree: usize,
}

/// The text of an optional property, or `default`.
pub open spec fn text_or(v: Option<&str>, default: Seq<char>) -> Seq<char> {
    match v {
        Some(t) => t@,
        None => default,
    }
}

/// A node shown with its id as label, `UNKNOWN` as type and an empty
/// description where its properties lack them.
pub fn graph_node_view(id: &str, entity_type: Option<&str>, description: Option<&str>, degree: usize) -> (r:
    GraphNodeView)
    ensures
        r.id@ == id@,
        r.label@ == id@,
        r.node_type@ == text_or(entity_type, "UNKNOWN"@),
        r.description@ == text_or(description, Seq::empty()),
        r.degree == degree,
{
    let node_type = match entity_type {
        Some(t) => owned(t),
        None => owned("UNKNOWN"),
    };
    let description = match description {
        Some(d) => owned(d),
        None => String::new(),
    };
    GraphNodeView { id: owned(id), label: owned(id), node_type, description, degree }
}

/// The type of an edge, `RELATED_TO` where its properties lack one.
pub fn edge_type_or_default(relation_type: Option<&str>) -> (r: String)
    ensures
        r@ == text_or(relation_type, "RELATED_TO"@),
{
    match relation_type {
        Some(t) => owned(t),
        None => owned("RELATED_TO"),
    }
}

/// The positions of the edges whose two endpoints are both shown nodes.
pub open spec fn edges_within_of(ids: Seq<Seq<char>>, edges: Seq<(Seq<char>, Seq<char>)>) -> Seq<int>
    decreases edges.len(),
{
    if edges.len() == 0 {
        Seq::empty()
    } else {
        let before = edges_within_of(ids, edges.drop_last());
        if ids.contains(edges.last().0) && ids.contains(edges.last().1) {
            before.push(edges.len() - 1)
        } else {
            before
        }
    }
}

/// The views of `(source, target)` pairs.
pub open spec fn endpoint_texts(edges: Seq<(String, String)>) -> Seq<(Seq<char>, Seq<char>)> {
    edges.map_values(|e: (String, String)| (e.0@, e.1@))
}

fn lists_upto(ids: &Vec<String>, n: usize, s: &str) -> (r: bool)
    requires
        n <= ids.len(),
    ensures
        r == texts(ids@).take(n as int).contains(s@),
{
    let mut i: usize = 0;
    while i < n
        invariant
            i <= n <= ids.len(),
            forall|j: int| 0 <= j < i ==> ids@[j]@ != s@,
        decreases n - i,
    {
        if same_text(ids[i].as_str(), s) {
            assert(texts(ids@).take(n as int)[i as int] == s@);
            return true;
        }
        i = i + 1;
    }
    assert forall|j: int| 0 <= j < texts(ids@).take(n as int).len() implies texts(ids@).take(
        n as int,
    )[j] != s@ by {
        assert(ids@[j]@ != s@);
    }
    false
}

fn lists(ids: &Vec<String>, s: &str) -> (r: bool)
    ensures
        r == texts(ids@).contains(s@),
{
    let r = lists_upto(ids, ids.len(), s);
    assert(texts(ids@).take(ids.len() as int) == texts(ids@));
    r
}

/// The positions, in order, of the edges (given by their endpoints) that
/// join two of the shown nodes `node_ids`.
pub fn edges_within(node_ids: &Vec<String>, edges: &Vec<(String, String)>) -> (r: Vec<usize>)
    ensures
        r@.map_values(|i: usize| i as int) == edges_within_of(texts(node_ids@), endpoint_texts(edges@)),
{
    let mut r: Vec<usize> = Vec::new();
    let mut i: usize = 0;
    while i < edges.len()
        invariant
            i <= edges.len(),
            r@.map_values(|k: usize| k as int) == edges_within_of(
                texts(node_ids@),
                endpoint_texts(edges@.take(i as int)),
            ),
        decreases edges.len() - i,
    {
        let ghost before = r@;
        assert(endpoint_texts(edges@.take(i + 1)).drop_last() == endpoint_texts(edges@.take(i as int)));
        assert(endpoint_texts(edges@.take(i + 1)).last() == (edges@[i as int].0@, edges@[i as int].1@));
        if lists(node_ids, edges[i].0.as_str()) && lists(node_ids, edges[i].1.as_str()) {
            r.push(i);
            assert(r@.map_values(|k: usize| k as int) =~= before.map_values(|k: usize| k as int).push(
                i as int,
            ));
        }
        i = i + 1;
    }
    assert(edges@.take(edges.len() as int) == edges@);
    r
}

/// Whether a graph view is truncated: the traversal said so, or the graph
/// holds more nodes than were asked for.
pub fn graph_truncated(traversal_truncated: bool, total_nodes: usize, max_nodes: usize) -> (r: bool)
    ensures
        r == (traversal_truncated || total_nodes > max_nodes),
{
    traversal_truncated || total_nodes > max_nodes
}

/// How many batches stream `n` nodes, `batch_size` per batch.
pub fn stream_batch_count(n: usize, batch_size: usize) -> (r: usize)
    requires
        batch_size > 0,
    ensures
        r == (n + batch_size - 1) / (batch_size as int),
{
    let q = n / batch_size;
    let rem = n % batch_size;
    proof {
        let b = batch_size as int;
        assert(n == b * q + rem) by (nonlinear_arith)
            requires
                q == (n as int) / b,
                rem == (n as int) % b,
                b > 0,
        ;
        assert(rem == 0 ==> (n + b - 1) / b == q) by (nonlinear_arith)
            requires
                n == b * q + rem,
                0 <= rem < b,
                b > 0,
        ;
        assert(rem > 0 ==> (n + b - 1) / b == q + 1) by (nonlinear_arith)
            requires
                n == b * q + rem,
                0 <= rem < b,
                b > 0,
        ;
        assert(rem > 0 ==> q < n) by (nonlinear_arith)
            requires
                n == b * q + rem,
                0 <= rem < b,
                b > 0,
                q >= 0,
        ;
    }
    if rem == 0 {
        q
    } else {
        q + 1
    }
}

/// Whether a node search is truncated: it found as many nodes as allowed.
pub fn search_truncated(total_matches: usize, limit: usize) -> (r: bool)
    ensures
        r == (total_matches >= limit),
{
    total_matches >= limit
}

/// How many of the first matches a search expands with their neighbours.
pub const NEIGHBOR_SEEDS: usize = 10;

/// The positions of the candidates a search adds: those neither known
/// already nor listed earlier among the candidates.
pub open spec fn fresh_positions(known: Seq<Seq<char>>, candidates: Seq<Seq<char>>) -> Seq<int>
    decreases candidates.len(),
{
    if candidates.len() == 0 {
        Seq::empty()
    } else {
        let before = fresh_positions(known, candidates.drop_last());
        let c = candidates.last();
        if known.contains(c) || candidates.drop_last().contains(c) {
            before
        } else {
            before.push(candidates.len() - 1)
        }
    }
}

/// The positions, in order, of the candidate ids that are neither in
/// `known` nor repeat an earlier candidate.
pub fn fresh_ids(known: &Vec<String>, candidates: &Vec<String>) -> (r: Vec<usize>)
    ensures
        r@.map_values(|i: usize| i as int) == fresh_positions(texts(known@), texts(candidates@)),
{
    let mut r: Vec<usize> = Vec::new();
    let mut i: usize = 0;
    while i < candidates.len()
        invariant
            i <= candidates.len(),
            r@.map_values(|k: usize| k as int) == fresh_positions(
                texts(known@),
                texts(candidates@.take(i as int)),
            ),
        decreases candidates.len() - i,
    {
        let ghost before = r@;
        let ghost t = texts(candidates@.take(i + 1));
        assert(t.drop_last() == texts(candidates@.take(i as int)));
        assert(t.last() == candidates@[i as int]@);
        assert(texts(candidates@).take(i as int) == texts(candidates@.take(i as int)));
        if !lists(known, candidates[i].as_str()) && !lists_upto(candidates, i, candidates[i].as_str()) {
            r.push(i);
            assert(r@.map_values(|k: usize| k as int) =~= before.map_values(|k: usize| k as int).push(
                i as int,
            ));
        }
        i = i + 1;
    }
    assert(candidates@.take(candidates.len() as int) == candidates@);
    r
}

/// Whether a search fetches the edges among its nodes: only when it shows
/// more than one node.
pub fn search_needs_edges(node_count: usize) -> (r: bool)
    ensures
        r == (node_count > 1),
{
    node_count > 1
}

/// Law: every edge kept by [`edges_within`] joins two shown nodes, and the
/// positions are increasing.
pub proof fn law_edges_within_sound(ids: Seq<Seq<char>>, edges: Seq<(Seq<char>, Seq<char>)>)
    ensures
        forall|k: int|
            0 <= k < edges_within_of(ids, edges).len() ==> {
                let p = #[trigger] edges_within_of(ids, edges)[k];
                0 <= p < edges.len() && ids.contains(edges[p].0) && ids.contains(edges[p].1)
            },
        forall|k1: int, k2: int|
            0 <= k1 < k2 < edges_within_of(ids, edges).len() ==> #[trigger] edges_within_of(
                ids,
                edges,
            )[k1] < #[trigger] edges_within_of(ids, edges)[k2],
    decreases edges.len(),
{
    if edges.len() > 0 {
        law_edges_within_sound(ids, edges.drop_last());
        let before = edges_within_of(ids, edges.drop_last());
        assert forall|k: int| 0 <= k < before.len() implies before[k] < edges.len() - 1 by {
            assert(before[k] < edges.drop_last().len());
        }
        assert forall|k: int| 0 <= k < before.len() implies edges[before[k]] == edges.drop_last()[before[k]] by {}
    }
}

} // verus!
