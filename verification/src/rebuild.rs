//! Rebuilding a workspace's embeddings or knowledge graph: which settings
//! the rebuild uses, when it is refused, which stored documents it queues,
//! and how it reports itself.

use vstd::prelude::*;

use crate::documents::opt_view;
use crate::error::ApiError;
use crate::text::{decimal, decimal_text, owned, same_text};
use crate::track_ids::{new_track_id, stamp_text, track_id_of};

verus! {

/// Chunk size, in tokens, that documents are split into.
pub const DEFAULT_CHUNK_SIZE_TOKENS: usize = 1200;

/// Context length assumed for a model the catalogue does not know.
pub const DEFAULT_CONTEXT_LENGTH: usize = 8192;

/// The embedding settings a rebuild switches to.
#[derive(Debug, Clone, PartialEq, Eq)]
pub struct EmbeddingPlan {
    pub model: String,
    pub provider: String,
    pub dimension: usize,
    /// Whether any setting differs from the workspace's.
    pub changed: bool,
}

/// The embedding rebuild rule: the requested model and provider (else the
/// workspace's); the requested dimension, else — when the model or provider
/// changes — the catalogue's dimension for the new model (`catalogue_dimension`,
/// falling back to the workspace's), else the workspace's. Unchanged
/// settings are refused (400) unless forced.
pub open spec fn embedding_plan_rule(
    req_model: Option<String>,
    req_provider: Option<String>,
    req_dimension: Option<usize>,
    ws_model: String,
    ws_provider: String,
    ws_dimension: usize,
    catalogue_dimension: Option<usize>,
    force: bool,
    r: Result<EmbeddingPlan, ApiError>,
) -> bool {
    let model = match req_model {
        Some(m) => m,
        None => ws_model,
    };
    let provider = match req_provider {
        Some(p) => p,
        None => ws_provider,
    };
    let moved = model@ != ws_model@ || provider@ != ws_provider@;
    let dimension = match req_dimension {
        Some(d) => d,
        None => if moved {
            match catalogue_dimension {
                Some(d) => d,
                None => ws_dimension,
            }
        } else {
            ws_dimension
        },
    };
    let changed = moved || dimension != ws_dimension;
    if !changed && !force {
        r is Err && r->Err_0 is BadRequest && r->Err_0->BadRequest_0@
            == "Embedding configuration unchanged. Use 'force: true' to rebuild anyway."@
    } else {
        r is Ok && r->Ok_0.model == model && r->Ok_0.provider == provider && r->Ok_0.dimension
            == dimension && r->Ok_0.changed == changed
    }
}

/// The embedding settings of a rebuild, or why it is refused.
pub fn plan_embedding_rebuild(
    req_model: Option<String>,
    req_provider: Option<String>,
    req_dimension: Option<usize>,
    ws_model: String,
    ws_provider: String,
    ws_dimension: usize,
    catalogue_dimension: Option<usize>,
    force: bool,
) -> (r: Result<EmbeddingPlan, ApiError>)
    ensures
        embedding_plan_rule(
            req_model,
            req_provider,
            req_dimension,
            ws_model,
            ws_provider,
            ws_dimension,
            catalogue_dimension,
            force,
            r,
        ),
{
    let model = match req_model {
        Some(m) => m,
        None => ws_model.clone(),
    };
    let provider = match req_provider {
        Some(p) => p,
        None => ws_provider.clone(),
    };
    let moved = !same_text(model.as_str(), ws_model.as_str()) || !same_text(
        provider.as_str(),
        ws_provider.as_str(),
    );
    let dimension = match req_dimension {
        Some(d) => d,
        None => if moved {
            match catalogue_dimension {
                Some(d) => d,
                None => ws_dimension,
            }
        } else {
            ws_dimension
        },
    };
    let changed = moved || dimension != ws_dimension;
    if !changed && !force {
        return Err(
            ApiError::BadRequest(
                owned("Embedding configuration unchanged. Use 'force: true' to rebuild anyway."),
            ),
        );
    }
    Ok(EmbeddingPlan { model, provider, dimension, changed })
}

/// The LLM settings a knowledge-graph rebuild switches to.
#[derive(Debug, Clone, PartialEq, Eq)]
pub struct LlmPlan {
    pub model: String,
    pub provider: String,
    /// Whether either setting differs from the workspace's.
    pub changed: bool,
}

/// The LLM settings of a knowledge-graph rebuild: the requested model and
/// provider, else the workspace's; unchanged settings are refused (400)
/// unless forced.
pub fn plan_graph_rebuild(
    req_model: Option<String>,
    req_provider: Option<String>,
    ws_model: String,
    ws_provider: String,
    force: bool,
) -> (r: Result<LlmPlan, ApiError>)
    ensures
        ({
            let model = match req_model {
                Some(m) => m,
                None => ws_model,
            };
            let provider = match req_provider {
                Some(p) => p,
                None => ws_provider,
            };
            let changed = model@ != ws_model@ || provider@ != ws_provider@;
            if !changed && !force {
                r is Err && r->Err_0 is BadRequest && r->Err_0->BadRequest_0@
                    == "LLM configuration unchanged. Use 'force: true' to rebuild anyway."@
            } else {
                r is Ok && r->Ok_0.model == model && r->Ok_0.provider == provider
                    && r->Ok_0.changed == changed
            }
        }),
{
    let model = match req_model {
        Some(m) => m,
        None => ws_model.clone(),
    };
    let provider = match req_provider {
        Some(p) => p,
        None => ws_provider.clone(),
    };
    let changed = !same_text(model.as_str(), ws_model.as_str()) || !same_text(
        provider.as_str(),
        ws_provider.as_str(),
    );
    if !changed && !force {
        return Err(
            ApiError::BadRequest(
                owned("LLM configuration unchanged. Use 'force: true' to rebuild anyway."),
            ),
        );
    }
    Ok(LlmPlan { model, provider, changed })
}

/// The context length of a model: the catalogue's, else 8192.
pub fn context_length_or_default(catalogue: Option<usize>) -> (r: usize)
    ensures
        r == match catalogue {
            Some(n) => n,
            None => DEFAULT_CONTEXT_LENGTH,
        },
{
    match catalogue {
        Some(n) => n,
        None => DEFAULT_CONTEXT_LENGTH,
    }
}

/// The warning given when the chunk size exceeds a known, non-zero context
/// length of the embedding model.
pub fn compatibility_warning(model_context_length: usize) -> (r: Option<String>)
    ensures
        (model_context_length > 0 && DEFAULT_CHUNK_SIZE_TOKENS > model_context_length) ==> r is Some
            && r->0@ == "Default chunk size (1200 tokens) exceeds model's context length ("@
            + decimal(model_context_length as nat) + " tokens). Some chunks may fail to embed."@,
        !(model_context_length > 0 && DEFAULT_CHUNK_SIZE_TOKENS > model_context_length) ==> r is None,
{
    if model_context_length > 0 && DEFAULT_CHUNK_SIZE_TOKENS > model_context_length {
        let mut m = owned("Default chunk size (1200 tokens) exceeds model's context length (");
        m.append(decimal_text(model_context_length as u128).as_str());
        m.append(" tokens). Some chunks may fail to embed.");
        Some(m)
    } else {
        None
    }
}

/// The reported state of an embedding rebuild: `processing` when documents
/// were queued, else `vectors_cleared` when vectors were removed, else
/// `no_change`.
pub fn rebuild_status(documents_queued: usize, vectors_cleared: usize) -> (r: &'static str)
    ensures
        r@ == (if documents_queued > 0 {
            "processing"@
        } else if vectors_cleared > 0 {
            "vectors_cleared"@
        } else {
            "no_change"@
        }),
{
    if documents_queued > 0 {
        "processing"
    } else if vectors_cleared > 0 {
        "vectors_cleared"
    } else {
        "no_change"
    }
}

/// The estimated seconds of a rebuild: one per document, none without
/// documents.
pub fn estimated_time_seconds(document_count: usize) -> (r: Option<u64>)
    ensures
        document_count > 0 ==> r == Some(document_count as u64),
        document_count == 0 ==> r is None,
{
    if document_count > 0 {
        Some(document_count as u64)
    } else {
        None
    }
}

/// The job of an embedding rebuild: a fresh `rebuild_embed` track id when
/// the workspace has documents, none when it has none.
pub fn embedding_rebuild_job(document_count: usize) -> (r: Option<String>)
    ensures
        r is Some <==> document_count > 0,
        r is Some ==> exists|stamp: Seq<char>, uuid: u128|
            r->0@ == #[trigger] track_id_of("rebuild_embed"@, stamp, uuid),
{
    if document_count > 0 {
        Some(new_track_id("rebuild_embed", false))
    } else {
        None
    }
}

/// The batch of a knowledge-graph rebuild: always a fresh `rebuild_kg`
/// track id, which the answer carries.
pub fn graph_rebuild_job() -> (r: String)
    ensures
        exists|stamp: Seq<char>, uuid: u128|
            r@ == #[trigger] track_id_of("rebuild_kg"@, stamp, uuid) && stamp_text(stamp),
{
    new_track_id("rebuild_kg", false)
}

/// Whether a knowledge-graph rebuild clears the workspace's vectors: only
/// when embeddings are rebuilt too.
pub fn graph_rebuild_clears_vectors(rebuild_embeddings: bool) -> (r: bool)
    ensures
        r == rebuild_embeddings,
{
    rebuild_embeddings
}

/// The vectors a knowledge-graph rebuild reports cleared: the count the
/// clearing returned (`cleared`) when embeddings are rebuilt, else none.
pub fn graph_rebuild_vectors_cleared(rebuild_embeddings: bool, cleared: usize) -> (r: usize)
    ensures
        r == (if rebuild_embeddings {
            cleared
        } else {
            0
        }),
{
    if graph_rebuild_clears_vectors(rebuild_embeddings) {
        cleared
    } else {
        0
    }
}

/// The reported state of a knowledge-graph rebuild: `processing` when
/// documents were queued, else `graph_cleared` when nodes or edges were
/// removed, else `no_change`.
pub fn graph_rebuild_status(documents_queued: usize, nodes_cleared: usize, edges_cleared: usize) -> (r:
    &'static str)
    ensures
        r@ == (if documents_queued > 0 {
            "processing"@
        } else if nodes_cleared > 0 || edges_cleared > 0 {
            "graph_cleared"@
        } else {
            "no_change"@
        }),
{
    if documents_queued > 0 {
        "processing"
    } else if nodes_cleared > 0 || edges_cleared > 0 {
        "graph_cleared"
    } else {
        "no_change"
    }
}

/// The estimated seconds of a knowledge-graph rebuild: two per queued
/// document, none when nothing was queued.
pub fn graph_rebuild_estimate(documents_queued: usize) -> (r: Option<u64>)
    requires
        documents_queued * 2 <= u64::MAX,
    ensures
        documents_queued > 0 ==> r == Some((documents_queued * 2) as u64),
        documents_queued == 0 ==> r is None,
{
    if documents_queued > 0 {
        Some(documents_queued as u64 * 2)
    } else {
        None
    }
}

/// Whether a rebuild queues a stored document: it is the workspace's (its
/// workspace id, `default` when absent, is the workspace's or `default`)
/// and has an id.
pub open spec fn rebuild_queues(doc_workspace: Option<Seq<char>>, has_id: bool, workspace_id: Seq<char>) -> bool {
    let ws = match doc_workspace {
        Some(w) => w,
        None => "default"@,
    };
    (ws == workspace_id || ws == "default"@) && has_id
}

/// Whether a rebuild queues a stored document.
pub fn rebuild_takes_document(doc_workspace: Option<&str>, has_id: bool, workspace_id: &str) -> (r:
    bool)
    ensures
        r == rebuild_queues(opt_view(doc_workspace), has_id, workspace_id@),
        doc_workspace is Some && doc_workspace->0@ == workspace_id@ && has_id ==> r,
{
    let ws = match doc_workspace {
        Some(w) => w,
        None => "default",
    };
    (same_text(ws, workspace_id) || same_text(ws, "default")) && has_id
}

/// Law: a rebuild re-queues the workspace's own documents. A document with
/// an id is queued when it is stored under the rebuilt workspace's id,
/// under `default`, or under no workspace (which reads as `default`); a
/// document without an id, or stored under another workspace, is not.
pub proof fn law_rebuild_queues_own_documents(
    doc_workspace: Option<Seq<char>>,
    has_id: bool,
    workspace_id: Seq<char>,
)
    ensures
        doc_workspace == Some(workspace_id) && has_id ==> rebuild_queues(
            doc_workspace,
            has_id,
            workspace_id,
        ),
        (doc_workspace is None || doc_workspace == Some("default"@)) && has_id ==> rebuild_queues(
            doc_workspace,
            has_id,
            workspace_id,
        ),
        !has_id ==> !rebuild_queues(doc_workspace, has_id, workspace_id),
        (doc_workspace is Some && doc_workspace->0 != workspace_id && doc_workspace->0
            != "default"@) ==> !rebuild_queues(doc_workspace, has_id, workspace_id),
{
}

/// The chunks a queued document counts for: its stored chunk count, else 1.
pub fn document_chunk_count(stored: Option<u64>) -> (r: u64)
    ensures
        r == match stored {
            Some(n) => n,
            None => 1,
        },
{
    match stored {
        Some(n) => n,
        None => 1,
    }
}

} // verus!
