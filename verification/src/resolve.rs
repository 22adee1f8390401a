//! Batch entity resolution: request defaults and limits, which vector hits
//! name entities, the distinct entities over all terms, and how entity
//! descriptions are shortened.

use vstd::prelude::*;

use crate::error::ApiError;
use crate::text::{begins_with, chars_of, decimal, decimal_text, owned, same_text, skip_chars, starts_with, take_chars};

verus! {

/// Matches per term when the request does not say.
pub fn default_max_matches() -> (r: u32)
    ensures
        r == 3,
{
    3
}

/// Description length (characters) when the request does not say.
pub fn default_max_description_length() -> (r: usize)
    ensures
        r == 300,
{
    300
}

/// Request body of a batch entity resolution.
#[derive(Debug, Clone, PartialEq, Eq)]
pub struct ResolveEntitiesRequest {
    /// Terms to resolve against the knowledge graph.
    pub terms: Vec<String>,
    /// Matches kept per term.
    pub max_matches_per_term: u32,
    /// Longest description kept, in characters.
    pub max_description_length: usize,
}

/// Most terms a request may carry.
pub const MAX_TERMS: usize = 20;

/// Refuses (400) a request without terms or with more than 20.
pub fn validate_resolve_request(request: &ResolveEntitiesRequest) -> (r: Result<(), ApiError>)
    ensures
        request.terms@.len() == 0 ==> r is Err && r->Err_0 is BadRequest
            && r->Err_0->BadRequest_0@ == "terms must not be empty"@,
        request.terms@.len() > MAX_TERMS ==> r is Err && r->Err_0 is BadRequest
            && r->Err_0->BadRequest_0@ == "terms must contain at most 20 items"@,
        1 <= request.terms@.len() <= MAX_TERMS ==> r is Ok,
{
    if request.terms.len() == 0 {
        return Err(ApiError::BadRequest(owned("terms must not be empty")));
    }
    if request.terms.len() > MAX_TERMS {
        return Err(ApiError::BadRequest(owned("terms must contain at most 20 items")));
    }
    Ok(())
}

/// 500 when the embedding provider returned a different number of vectors
/// than terms.
pub fn check_embedding_count(embeddings: usize, terms: usize) -> (r: Result<(), ApiError>)
    ensures
        embeddings == terms ==> r is Ok,
        embeddings != terms ==> r is Err && r->Err_0 is Internal && r->Err_0->Internal_0@
            == "Embedding count mismatch: got "@ + decimal(embeddings as nat) + " embeddings for "@
            + decimal(terms as nat) + " terms"@,
{
    if embeddings == terms {
        Ok(())
    } else {
        let mut m = owned("Embedding count mismatch: got ");
        m.append(decimal_text(embeddings as u128).as_str());
        m.append(" embeddings for ");
        m.append(decimal_text(terms as u128).as_str());
        m.append(" terms");
        Err(ApiError::Internal(m))
    }
}

/// How many vector hits are asked for per term: five times the matches
/// kept, leaving room for hits that are not entities.
pub fn search_top_k(max_matches: u32) -> (r: usize)
    requires
        max_matches as int * 5 <= usize::MAX,
    ensures
        r == max_matches as int * 5,
{
    (max_matches as usize) * 5
}

/// The entity a vector hit names: hits typed `entity` with an id
/// `entity:<name>` name `<name>`; any other hit names none.
pub fn entity_hit_name(hit_type: Option<&str>, id: &str) -> (r: Option<String>)
    ensures
        match hit_type {
            Some(t) => if t@ == "entity"@ && begins_with(id@, "entity:"@) {
                r is Some && r->0@ == id@.skip("entity:"@.len() as int)
            } else {
                r is None
            },
            None => r is None,
        },
{
    let is_entity = match hit_type {
        Some(t) => same_text(t, "entity"),
        None => false,
    };
    if !is_entity || !starts_with(id, "entity:") {
        return None;
    }
    let n = chars_of("entity:").len();
    Some(skip_chars(id, n))
}

/// The views of a sequence of strings.
pub open spec fn views(s: Seq<String>) -> Seq<Seq<char>> {
    s.map_values(|x: String| x@)
}

/// `ids` with each repeated id dropped after its first occurrence.
pub open spec fn first_occurrences(ids: Seq<Seq<char>>) -> Seq<Seq<char>>
    decreases ids.len(),
{
    if ids.len() == 0 {
        Seq::empty()
    } else {
        let head = first_occurrences(ids.drop_last());
        if head.contains(ids.last()) {
            head
        } else {
            head.push(ids.last())
        }
    }
}

fn listed(v: &Vec<String>, id: &str) -> (r: bool)
    ensures
        r == views(v@).contains(id@),
{
    let mut i: usize = 0;
    while i < v.len()
        invariant
            i <= v.len(),
            forall|j: int| 0 <= j < i ==> v@[j]@ != id@,
        decreases v.len() - i,
    {
        if same_text(v[i].as_str(), id) {
            assert(views(v@)[i as int] == id@);
            return true;
        }
        i = i + 1;
    }
    assert forall|j: int| 0 <= j < views(v@).len() implies views(v@)[j] != id@ by {
        assert(v@[j]@ != id@);
    }
    false
}

/// The distinct entity ids among `ids`, in first-seen order.
pub fn distinct_entity_ids(ids: &Vec<String>) -> (r: Vec<String>)
    ensures
        views(r@) == first_occurrences(views(ids@)),
{
    let mut r: Vec<String> = Vec::new();
    let mut i: usize = 0;
    while i < ids.len()
        invariant
            i <= ids.len(),
            views(r@) == first_occurrences(views(ids@.take(i as int))),
        decreases ids.len() - i,
    {
        proof {
            assert(views(ids@.take(i + 1)).drop_last() == views(ids@.take(i as int)));
            assert(views(ids@.take(i + 1)).last() == ids@[i as int]@);
        }
        if !listed(&r, ids[i].as_str()) {
            let ghost before = r@;
            r.push(ids[i].clone());
            assert(views(r@) == views(before).push(ids@[i as int]@));
        }
        i = i + 1;
    }
    assert(ids@.take(ids.len() as int) == ids@);
    r
}

/// Law: the distinct ids hold no id twice, and hold every id given.
pub proof fn law_distinct_ids(ids: Seq<Seq<char>>)
    ensures
        forall|i: int, j: int|
            0 <= i < j < first_occurrences(ids).len() ==> first_occurrences(ids)[i]
                != first_occurrences(ids)[j],
        forall|k: int| 0 <= k < ids.len() ==> first_occurrences(ids).contains(#[trigger] ids[k]),
    decreases ids.len(),
{
    if ids.len() > 0 {
        law_distinct_ids(ids.drop_last());
        let h = first_occurrences(ids.drop_last());
        assert forall|k: int| 0 <= k < ids.len() implies first_occurrences(ids).contains(
            #[trigger] ids[k],
        ) by {
            if k < ids.len() - 1 {
                assert(ids.drop_last()[k] == ids[k]);
                if !h.contains(ids.last()) {
                    let j = choose|j: int| 0 <= j < h.len() && h[j] == ids[k];
                    assert(h.push(ids.last())[j] == ids[k]);
                }
            } else if !h.contains(ids.last()) {
                assert(h.push(ids.last())[h.len() as int] == ids[k]);
            }
        }
    }
}

/// The type of an entity, `UNKNOWN` when its node has none.
pub fn entity_type_or_unknown(entity_type: Option<&str>) -> (r: String)
    ensures
        r@ == match entity_type {
            Some(t) => t@,
            None => "UNKNOWN"@,
        },
{
    match entity_type {
        Some(t) => owned(t),
        None => owned("UNKNOWN"),
    }
}

/// Whether `r` is `desc` shortened to `max_len` characters: unchanged when
/// it fits, else its first `max_len - 3` characters (none when
/// `max_len < 3`) followed by `...`.
pub open spec fn truncated(desc: Seq<char>, max_len: usize, r: Seq<char>) -> bool {
    if desc.len() <= max_len {
        r == desc
    } else {
        r == desc.take(
            if max_len >= 3 {
                max_len - 3
            } else {
                0
            },
        ) + "..."@
    }
}

/// A description shortened to `max_len` characters, ending in `...` when
/// cut.
pub fn truncate_description(desc: &str, max_len: usize) -> (r: String)
    ensures
        truncated(desc@, max_len, r@),
{
    let n = chars_of(desc).len();
    if n <= max_len {
        return owned(desc);
    }
    let keep = max_len.saturating_sub(3);
    let mut r = take_chars(desc, keep);
    r.append("...");
    r
}

/// Answer of a text scoring request.
#[derive(Debug, Clone, PartialEq, Eq)]
pub struct TextScoreResponse {
    pub fact_density: u32,
    pub proper_nouns: Vec<String>,
    pub dates: Vec<String>,
    pub numbers: Vec<String>,
}

/// Request body of a text scoring request.
#[derive(Debug, Clone, PartialEq, Eq)]
pub struct TextScoreRequest {
    pub text: String,
}

/// Paging of a namespace entity listing.
#[derive(Debug, Clone, Copy, PartialEq, Eq)]
pub struct EntityPage {
    pub page: u32,
    pub page_size: u32,
    /// Entities skipped before the page.
    pub offset: usize,
}

/// The paging of an entity listing: the page size kept within 1..=100, the
/// page at least 1, and the entities before the page skipped.
pub fn entity_page(page: u32, page_size: u32) -> (p: EntityPage)
    requires
        (if page < 1 {
            1
        } else {
            page as int
        } - 1) * (if page_size < 1 {
            1
        } else if page_size > 100 {
            100
        } else {
            page_size as int
        }) <= u32::MAX,
    ensures
        p.page_size == (if page_size < 1 {
            1
        } else if page_size > 100 {
            100
        } else {
            page_size
        }),
        p.page == (if page < 1 {
            1
        } else {
            page
        }),
        p.offset == (p.page - 1) * p.page_size,
{
    let page_size: u32 = if page_size < 1 {
        1
    } else if page_size > 100 {
        100
    } else {
        page_size
    };
    let page: u32 = if page < 1 {
        1
    } else {
        page
    };
    let offset = ((page - 1) * page_size) as usize;
    EntityPage { page, page_size, offset }
}

/// Pages needed for `total` entities at `page_size` per page.
pub fn entity_total_pages(total: usize, page_size: u32) -> (r: u32)
    requires
        page_size >= 1,
        (total + page_size - 1) / (page_size as int) <= u32::MAX,
    ensures
        r == (total + page_size - 1) / (page_size as int),
{
    let ps = page_size as usize;
    assert(total % ps != 0 ==> total / ps < usize::MAX) by (nonlinear_arith)
        requires
            ps >= 1,
            total <= usize::MAX,
    ;
    let pages: usize = total / ps + if total % ps == 0 {
        0
    } else {
        1
    };
    assert(pages == (total + page_size - 1) / (page_size as int)) by (nonlinear_arith)
        requires
            ps == page_size,
            ps >= 1,
            pages == total / ps + if total % ps == 0 {
                0int
            } else {
                1int
            },
    ;
    pages as u32
}

} // verus!
