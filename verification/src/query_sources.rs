//! The source references a namespace query answers with: their texts,
//! snippets and numbering, and the counters of its statistics. Scores are
//! floating point and are attached by the caller.

use vstd::prelude::*;

use crate::text::{chars_of, owned};

verus! {

/// Longest snippet, in characters.
pub const SNIPPET_CHARS: usize = 200;

/// The first 200 characters of `s` (all of it when shorter).
pub open spec fn snippet_of(s: Seq<char>) -> Seq<char> {
    if s.len() <= SNIPPET_CHARS {
        s
    } else {
        s.take(SNIPPET_CHARS as int)
    }
}

/// The text fields of a source reference.
#[derive(Debug, Clone, PartialEq, Eq)]
pub struct SourceText {
    /// `chunk`, `entity` or `relationship`.
    pub source_type: String,
    pub id: String,
    pub snippet: Option<String>,
    /// The full text; absent when it is empty.
    pub content: Option<String>,
    /// The 1-based number of the reference in the answer.
    pub reference_id: usize,
}

fn snippet(s: &str) -> (r: String)
    ensures
        r@ == snippet_of(s@),
{
    let cs = chars_of(s);
    let n = if cs.len() <= SNIPPET_CHARS {
        cs.len()
    } else {
        SNIPPET_CHARS
    };
    let mut r = String::new();
    let mut i: usize = 0;
    while i < n
        invariant
            i <= n <= cs.len(),
            cs@ == s@,
            r@ == s@.take(i as int),
        decreases n - i,
    {
        r.push(cs[i]);
        i = i + 1;
        assert(s@.take(i as int) == s@.take(i - 1).push(s@[i - 1]));
    }
    assert(s@.take(s@.len() as int) == s@);
    r
}

/// `None` for empty text, else the text.
pub open spec fn nonempty(s: Seq<char>) -> Option<Seq<char>> {
    if s.len() == 0 {
        None
    } else {
        Some(s)
    }
}

/// The view of an optional text.
pub open spec fn opt_text(o: Option<String>) -> Option<Seq<char>> {
    match o {
        Some(s) => Some(s@),
        None => None,
    }
}

fn nonempty_text(s: &str) -> (r: Option<String>)
    ensures
        opt_text(r) == nonempty(s@),
{
    if chars_of(s).len() == 0 {
        None
    } else {
        Some(owned(s))
    }
}

/// A retrieved chunk as a source: its snippet and its content.
pub fn chunk_source(id: &str, content: &str, reference_id: usize) -> (r: SourceText)
    ensures
        r.source_type@ == "chunk"@,
        r.id@ == id@,
        opt_text(r.snippet) == Some(snippet_of(content@)),
        opt_text(r.content) == nonempty(content@),
        r.reference_id == reference_id,
{
    SourceText {
        source_type: owned("chunk"),
        id: owned(id),
        snippet: Some(snippet(content)),
        content: nonempty_text(content),
        reference_id,
    }
}

/// A retrieved entity as a source, shown by its description.
pub fn entity_source(name: &str, description: &str, reference_id: usize) -> (r: SourceText)
    ensures
        r.source_type@ == "entity"@,
        r.id@ == name@,
        opt_text(r.snippet) == Some(snippet_of(description@)),
        opt_text(r.content) == nonempty(description@),
        r.reference_id == reference_id,
{
    SourceText {
        source_type: owned("entity"),
        id: owned(name),
        snippet: Some(snippet(description)),
        content: nonempty_text(description),
        reference_id,
    }
}

/// A retrieved relationship as a source: `source->target`, shown as
/// `source relation target`.
pub fn relationship_source(source: &str, relation_type: &str, target: &str, reference_id: usize) -> (r:
    SourceText)
    ensures
        r.source_type@ == "relationship"@,
        r.id@ == source@ + "->"@ + target@,
        opt_text(r.snippet) == Some(source@ + " "@ + relation_type@ + " "@ + target@),
        opt_text(r.content) == Some(source@ + " "@ + relation_type@ + " "@ + target@),
        r.reference_id == reference_id,
{
    let mut id = owned(source);
    id.append("->");
    id.append(target);
    let mut text = owned(source);
    text.append(" ");
    text.append(relation_type);
    text.append(" ");
    text.append(target);
    let snippet = text.clone();
    SourceText {
        source_type: owned("relationship"),
        id,
        snippet: Some(snippet),
        content: Some(text),
        reference_id,
    }
}

/// The numbers of the sources: chunks first, then entities, then
/// relationships, from 1; returns the first number of each group.
pub fn reference_starts(chunks: usize, entities: usize, relationships: usize) -> (r: (
    usize,
    usize,
    usize,
))
    requires
        chunks + entities + relationships < usize::MAX,
    ensures
        r.0 == 1,
        r.1 == chunks + 1,
        r.2 == chunks + entities + 1,
{
    (1, chunks + 1, chunks + entities + 1)
}

/// How many sources were retrieved.
pub fn sources_retrieved(chunks: usize, entities: usize, relationships: usize) -> (r: usize)
    requires
        chunks + entities + relationships <= usize::MAX,
    ensures
        r == chunks + entities + relationships,
{
    chunks + entities + relationships
}

/// The tokens an answer used, when any were generated.
pub fn tokens_used(generated: usize) -> (r: Option<usize>)
    ensures
        generated > 0 ==> r == Some(generated),
        generated == 0 ==> r is None,
{
    if generated > 0 {
        Some(generated)
    } else {
        None
    }
}

/// The reported rerank time: a fixed 5 ms when reranking was asked for.
pub fn rerank_time_ms(reranked: bool) -> (r: Option<u64>)
    ensures
        reranked ==> r == Some(5u64),
        !reranked ==> r is None,
{
    if reranked {
        Some(5)
    } else {
        None
    }
}

/// How many reranked chunks are kept: all when no limit is asked for.
pub fn rerank_keep(rerank_top_k: Option<usize>) -> (r: usize)
    ensures
        r == match rerank_top_k {
            Some(k) => k,
            None => usize::MAX,
        },
{
    match rerank_top_k {
        Some(k) => k,
        None => usize::MAX,
    }
}

} // verus!
