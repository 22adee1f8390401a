//! Namespace pipeline configuration: validation of a partial update against
//! the stored configuration, and the merge of an accepted update.

use vstd::prelude::*;

use crate::error::ApiError;
use crate::text::{begins_with, chars_of, concat, contains_text, decimal, decimal_text, occurs_in, owned, same_text, starts_with};

verus! {

/// Smallest accepted `target_tokens`.
pub const MIN_TARGET_TOKENS: usize = 64;

/// Largest accepted `target_tokens`.
pub const MAX_TARGET_TOKENS: usize = 2048;

/// The pipeline configuration stored for a namespace.
#[derive(Debug, Clone, PartialEq, Eq)]
pub struct PipelineConfig {
    pub llm_provider: String,
    pub llm_model: String,
    pub embedding_provider: String,
    pub embedding_model: String,
    pub embedding_dimension: usize,
    pub chunking_strategy: String,
    pub chunk_size: usize,
    pub chunk_overlap: usize,
    pub extraction_prompt: Option<String>,
    pub entity_types: Vec<String>,
    pub relation_types: Vec<String>,
    /// Where snapshots are read from (`s3://...` or an absolute path).
    pub snapshot_uri: Option<String>,
    /// `write-and-store` or `snapshot-only`.
    pub snapshot_mode: String,
    pub chunking_enabled: bool,
    /// Target chunk size in tokens.
    pub target_tokens: usize,
    /// Overlap between consecutive chunks, in tokens.
    pub overlap_tokens: usize,
    pub prepend_header_path: bool,
    /// Last update, epoch milliseconds.
    pub updated_at: i64,
}

impl Default for PipelineConfig {
    /// The configuration of a new namespace: 256-token chunks with a
    /// 38-token overlap, token chunking, write-and-store snapshots.
    fn default() -> (c: Self)
        ensures
            c.target_tokens == 256,
            c.overlap_tokens == 38,
            c.chunking_strategy@ == "token"@,
            c.snapshot_mode@ == "write-and-store"@,
            c.snapshot_uri is None,
            c.extraction_prompt is None,
            c.entity_types@.len() == 0,
            c.relation_types@.len() == 0,
    {
        PipelineConfig {
            llm_provider: String::new(),
            llm_model: String::new(),
            embedding_provider: String::new(),
            embedding_model: String::new(),
            embedding_dimension: 0,
            chunking_strategy: owned("token"),
            chunk_size: 0,
            chunk_overlap: 0,
            extraction_prompt: None,
            entity_types: Vec::new(),
            relation_types: Vec::new(),
            snapshot_uri: None,
            snapshot_mode: owned("write-and-store"),
            chunking_enabled: false,
            target_tokens: 256,
            overlap_tokens: 38,
            prepend_header_path: false,
            updated_at: 0,
        }
    }
}

/// A partial update of the pipeline configuration: present fields replace
/// the stored ones.
#[derive(Debug, Clone, PartialEq, Eq)]
pub struct UpdatePipelineConfigRequest {
    pub llm_provider: Option<String>,
    pub llm_model: Option<String>,
    pub embedding_provider: Option<String>,
    pub embedding_model: Option<String>,
    pub embedding_dimension: Option<usize>,
    pub chunking_strategy: Option<String>,
    pub chunk_size: Option<usize>,
    pub chunk_overlap: Option<usize>,
    pub extraction_prompt: Option<String>,
    pub entity_types: Option<Vec<String>>,
    pub relation_types: Option<Vec<String>>,
    pub snapshot_uri: Option<String>,
    /// `Some(true)` removes the snapshot location (and wins over `snapshot_uri`).
    pub snapshot_uri_clear: Option<bool>,
    pub snapshot_mode: Option<String>,
    pub chunking_enabled: Option<bool>,
    pub target_tokens: Option<usize>,
    pub overlap_tokens: Option<usize>,
    pub prepend_header_path: Option<bool>,
}

impl Default for UpdatePipelineConfigRequest {
    /// The update that changes nothing.
    fn default() -> (r: Self)
        ensures
            is_empty_update(r),
    {
        UpdatePipelineConfigRequest {
            llm_provider: None,
            llm_model: None,
            embedding_provider: None,
            embedding_model: None,
            embedding_dimension: None,
            chunking_strategy: None,
            chunk_size: None,
            chunk_overlap: None,
            extraction_prompt: None,
            entity_types: None,
            relation_types: None,
            snapshot_uri: None,
            snapshot_uri_clear: None,
            snapshot_mode: None,
            chunking_enabled: None,
            target_tokens: None,
            overlap_tokens: None,
            prepend_header_path: None,
        }
    }
}

/// Whether an update carries no field at all.
pub open spec fn is_empty_update(b: UpdatePipelineConfigRequest) -> bool {
    &&& b.llm_provider is None
    &&& b.llm_model is None
    &&& b.embedding_provider is None
    &&& b.embedding_model is None
    &&& b.embedding_dimension is None
    &&& b.chunking_strategy is None
    &&& b.chunk_size is None
    &&& b.chunk_overlap is None
    &&& b.extraction_prompt is None
    &&& b.entity_types is None
    &&& b.relation_types is None
    &&& b.snapshot_uri is None
    &&& b.snapshot_uri_clear is None
    &&& b.snapshot_mode is None
    &&& b.chunking_enabled is None
    &&& b.target_tokens is None
    &&& b.overlap_tokens is None
    &&& b.prepend_header_path is None
}

/// The target after merging the update.
pub open spec fn effective_target(b: UpdatePipelineConfigRequest, c: PipelineConfig) -> usize {
    match b.target_tokens {
        Some(t) => t,
        None => c.target_tokens,
    }
}

/// The overlap after merging the update.
pub open spec fn effective_overlap(b: UpdatePipelineConfigRequest, c: PipelineConfig) -> usize {
    match b.overlap_tokens {
        Some(o) => o,
        None => c.overlap_tokens,
    }
}

/// Whether a snapshot location is acceptable: empty, or free of `..` and
/// starting with `s3://` or `/`.
pub open spec fn acceptable_snapshot_uri(u: Seq<char>) -> bool {
    u.len() == 0 || (!occurs_in(u, ".."@) && (begins_with(u, "s3://"@) || begins_with(u, "/"@)))
}

/// The message of the first check that an update fails against the stored
/// configuration, in the order: snapshot mode, chunking strategy, snapshot
/// location (traversal, then scheme), target range, then — when the target
/// or the overlap changes — the merged overlap below the merged target and
/// at most half of it. `None` when every check passes.
pub open spec fn config_update_error(b: UpdatePipelineConfigRequest, c: PipelineConfig) -> Option<
    Seq<char>,
> {
    let target = effective_target(b, c);
    let overlap = effective_overlap(b, c);
    if b.snapshot_mode is Some && b.snapshot_mode->0@ != "write-and-store"@
        && b.snapshot_mode->0@ != "snapshot-only"@ {
        Some(
            "Invalid snapshot_mode '"@ + b.snapshot_mode->0@
                + "': must be 'write-and-store' or 'snapshot-only'"@,
        )
    } else if b.chunking_strategy is Some && b.chunking_strategy->0@ != "token"@
        && b.chunking_strategy->0@ != "heading_boundary"@ {
        Some(
            "Invalid chunking_strategy '"@ + b.chunking_strategy->0@
                + "': must be 'token' or 'heading_boundary'"@,
        )
    } else if b.snapshot_uri is Some && b.snapshot_uri->0@.len() > 0 && occurs_in(
        b.snapshot_uri->0@,
        ".."@,
    ) {
        Some("snapshot_uri must not contain '..' path-traversal sequences"@)
    } else if b.snapshot_uri is Some && !acceptable_snapshot_uri(b.snapshot_uri->0@) {
        Some(
            "snapshot_uri must start with 's3://' or be an absolute path starting with '/'"@,
        )
    } else if b.target_tokens is Some && !(MIN_TARGET_TOKENS <= b.target_tokens->0
        <= MAX_TARGET_TOKENS) {
        Some(
            "target_tokens "@ + decimal(b.target_tokens->0 as nat)
                + " is out of range: must be between 64 and 2048 inclusive"@,
        )
    } else if (b.target_tokens is Some || b.overlap_tokens is Some) && overlap >= target {
        Some(
            "effective overlap_tokens "@ + decimal(overlap as nat)
                + " must be less than effective target_tokens "@ + decimal(target as nat)
                + " (after merging this update with the stored config)"@,
        )
    } else if (b.target_tokens is Some || b.overlap_tokens is Some) && overlap * 2 > target {
        Some(
            "effective overlap_tokens "@ + decimal(overlap as nat)
                + " exceeds 50% of effective target_tokens "@ + decimal(target as nat)
                + " (overlap must be <= target/2 after merging this update with the stored config)"@,
        )
    } else {
        None
    }
}

fn one_of(v: &str, a: &str, b: &str) -> (r: bool)
    ensures
        r == (v@ == a@ || v@ == b@),
{
    same_text(v, a) || same_text(v, b)
}

/// Validates an update against the stored configuration: fails with 400 and
/// the message of the first failed check, succeeds when all pass.
pub fn validate_pipeline_config_update(
    body: &UpdatePipelineConfigRequest,
    config: &PipelineConfig,
) -> (r: Result<(), ApiError>)
    ensures
        match config_update_error(*body, *config) {
            Some(msg) => r is Err && r->Err_0 is BadRequest && r->Err_0->BadRequest_0@ == msg,
            None => r is Ok,
        },
{
    match &body.snapshot_mode {
        Some(mode) => {
            if !one_of(mode.as_str(), "write-and-store", "snapshot-only") {
                let mut m = owned("Invalid snapshot_mode '");
                m.append(mode.as_str());
                m.append("': must be 'write-and-store' or 'snapshot-only'");
                return Err(ApiError::BadRequest(m));
            }
        },
        None => {},
    }
    match &body.chunking_strategy {
        Some(strategy) => {
            if !one_of(strategy.as_str(), "token", "heading_boundary") {
                let mut m = owned("Invalid chunking_strategy '");
                m.append(strategy.as_str());
                m.append("': must be 'token' or 'heading_boundary'");
                return Err(ApiError::BadRequest(m));
            }
        },
        None => {},
    }
    match &body.snapshot_uri {
        Some(uri) => {
            if chars_of(uri.as_str()).len() > 0 {
                if contains_text(uri.as_str(), "..") {
                    return Err(
                        ApiError::BadRequest(
                            owned("snapshot_uri must not contain '..' path-traversal sequences"),
                        ),
                    );
                }
                let has_s3_prefix = starts_with(uri.as_str(), "s3://");
                let has_abs_path = starts_with(uri.as_str(), "/");
                if !has_s3_prefix && !has_abs_path {
                    return Err(
                        ApiError::BadRequest(
                            owned(
                                "snapshot_uri must start with 's3://' or be an absolute path starting with '/'",
                            ),
                        ),
                    );
                }
            }
        },
        None => {},
    }
    let effective_target: usize = match body.target_tokens {
        Some(t) => t,
        None => config.target_tokens,
    };
    match body.target_tokens {
        Some(t) => {
            if !(MIN_TARGET_TOKENS <= t && t <= MAX_TARGET_TOKENS) {
                let mut m = owned("target_tokens ");
                m.append(decimal_text(t as u128).as_str());
                m.append(" is out of range: must be between 64 and 2048 inclusive");
                return Err(ApiError::BadRequest(m));
            }
        },
        None => {},
    }
    if body.target_tokens.is_some() || body.overlap_tokens.is_some() {
        let effective_overlap: usize = match body.overlap_tokens {
            Some(o) => o,
            None => config.overlap_tokens,
        };
        if effective_overlap >= effective_target {
            let mut m = owned("effective overlap_tokens ");
            m.append(decimal_text(effective_overlap as u128).as_str());
            m.append(" must be less than effective target_tokens ");
            m.append(decimal_text(effective_target as u128).as_str());
            m.append(" (after merging this update with the stored config)");
            return Err(ApiError::BadRequest(m));
        }
        if (effective_overlap as u128) * 2 > effective_target as u128 {
            let mut m = owned("effective overlap_tokens ");
            m.append(decimal_text(effective_overlap as u128).as_str());
            m.append(" exceeds 50% of effective target_tokens ");
            m.append(decimal_text(effective_target as u128).as_str());
            m.append(
                " (overlap must be <= target/2 after merging this update with the stored config)",
            );
            return Err(ApiError::BadRequest(m));
        }
    }
    Ok(())
}

/// The configuration after merging an update at `now_ms`: each present field
/// replaces the stored one, `snapshot_uri_clear == Some(true)` removes the
/// snapshot location whatever else the update says, and the update time is
/// always set.
pub open spec fn is_config_update(
    r: PipelineConfig,
    c: PipelineConfig,
    b: UpdatePipelineConfigRequest,
    now_ms: i64,
) -> bool {
    &&& r.llm_provider == (match b.llm_provider {
        Some(v) => v,
        None => c.llm_provider,
    })
    &&& r.llm_model == (match b.llm_model {
        Some(v) => v,
        None => c.llm_model,
    })
    &&& r.embedding_provider == (match b.embedding_provider {
        Some(v) => v,
        None => c.embedding_provider,
    })
    &&& r.embedding_model == (match b.embedding_model {
        Some(v) => v,
        None => c.embedding_model,
    })
    &&& r.embedding_dimension == (match b.embedding_dimension {
        Some(v) => v,
        None => c.embedding_dimension,
    })
    &&& r.chunking_strategy == (match b.chunking_strategy {
        Some(v) => v,
        None => c.chunking_strategy,
    })
    &&& r.chunk_size == (match b.chunk_size {
        Some(v) => v,
        None => c.chunk_size,
    })
    &&& r.chunk_overlap == (match b.chunk_overlap {
        Some(v) => v,
        None => c.chunk_overlap,
    })
    &&& r.extraction_prompt == (if b.extraction_prompt is Some {
        b.extraction_prompt
    } else {
        c.extraction_prompt
    })
    &&& r.entity_types@ == (match b.entity_types {
        Some(v) => v@,
        None => c.entity_types@,
    })
    &&& r.relation_types@ == (match b.relation_types {
        Some(v) => v@,
        None => c.relation_types@,
    })
    &&& r.snapshot_uri == (if b.snapshot_uri_clear == Some(true) {
        None
    } else {
        match b.snapshot_uri {
            Some(v) => Some(v),
            None => c.snapshot_uri,
        }
    })
    &&& r.snapshot_mode == (match b.snapshot_mode {
        Some(v) => v,
        None => c.snapshot_mode,
    })
    &&& r.chunking_enabled == (match b.chunking_enabled {
        Some(v) => v,
        None => c.chunking_enabled,
    })
    &&& r.target_tokens == effective_target(b, c)
    &&& r.overlap_tokens == effective_overlap(b, c)
    &&& r.prepend_header_path == (match b.prepend_header_path {
        Some(v) => v,
        None => c.prepend_header_path,
    })
    &&& r.updated_at == now_ms
}

/// Merges an update into the stored configuration at `now_ms`.
pub fn apply_pipeline_config_update(
    config: PipelineConfig,
    body: UpdatePipelineConfigRequest,
    now_ms: i64,
) -> (r: PipelineConfig)
    ensures
        is_config_update(r, config, body, now_ms),
{
    let PipelineConfig {
        llm_provider: c_llm_provider,
        llm_model: c_llm_model,
        embedding_provider: c_embedding_provider,
        embedding_model: c_embedding_model,
        embedding_dimension: c_embedding_dimension,
        chunking_strategy: c_chunking_strategy,
        chunk_size: c_chunk_size,
        chunk_overlap: c_chunk_overlap,
        extraction_prompt: c_extraction_prompt,
        entity_types: c_entity_types,
        relation_types: c_relation_types,
        snapshot_uri: c_snapshot_uri,
        snapshot_mode: c_snapshot_mode,
        chunking_enabled: c_chunking_enabled,
        target_tokens: c_target_tokens,
        overlap_tokens: c_overlap_tokens,
        prepend_header_path: c_prepend_header_path,
        updated_at: c_updated_at,
    } = config;
    let UpdatePipelineConfigRequest {
        llm_provider: b_llm_provider,
        llm_model: b_llm_model,
        embedding_provider: b_embedding_provider,
        embedding_model: b_embedding_model,
        embedding_dimension: b_embedding_dimension,
        chunking_strategy: b_chunking_strategy,
        chunk_size: b_chunk_size,
        chunk_overlap: b_chunk_overlap,
        extraction_prompt: b_extraction_prompt,
        entity_types: b_entity_types,
        relation_types: b_relation_types,
        snapshot_uri: b_snapshot_uri,
        snapshot_uri_clear: b_snapshot_uri_clear,
        snapshot_mode: b_snapshot_mode,
        chunking_enabled: b_chunking_enabled,
        target_tokens: b_target_tokens,
        overlap_tokens: b_overlap_tokens,
        prepend_header_path: b_prepend_header_path,
    } = body;
    let snapshot_uri = if b_snapshot_uri_clear == Some(true) {
        None
    } else {
        match b_snapshot_uri {
            Some(v) => Some(v),
            None => c_snapshot_uri,
        }
    };
    let extraction_prompt = if b_extraction_prompt.is_some() {
        b_extraction_prompt
    } else {
        c_extraction_prompt
    };
    PipelineConfig {
        llm_provider: match b_llm_provider {
            Some(v) => v,
            None => c_llm_provider,
        },
        llm_model: match b_llm_model {
            Some(v) => v,
            None => c_llm_model,
        },
        embedding_provider: match b_embedding_provider {
            Some(v) => v,
            None => c_embedding_provider,
        },
        embedding_model: match b_embedding_model {
            Some(v) => v,
            None => c_embedding_model,
        },
        embedding_dimension: match b_embedding_dimension {
            Some(v) => v,
            None => c_embedding_dimension,
        },
        chunking_strategy: match b_chunking_strategy {
            Some(v) => v,
            None => c_chunking_strategy,
        },
        chunk_size: match b_chunk_size {
            Some(v) => v,
            None => c_chunk_size,
        },
        chunk_overlap: match b_chunk_overlap {
            Some(v) => v,
            None => c_chunk_overlap,
        },
        extraction_prompt,
        entity_types: match b_entity_types {
            Some(v) => v,
            None => c_entity_types,
        },
        relation_types: match b_relation_types {
            Some(v) => v,
            None => c_relation_types,
        },
        snapshot_uri,
        snapshot_mode: match b_snapshot_mode {
            Some(v) => v,
            None => c_snapshot_mode,
        },
        chunking_enabled: match b_chunking_enabled {
            Some(v) => v,
            None => c_chunking_enabled,
        },
        target_tokens: match b_target_tokens {
            Some(v) => v,
            None => c_target_tokens,
        },
        overlap_tokens: match b_overlap_tokens {
            Some(v) => v,
            None => c_overlap_tokens,
        },
        prepend_header_path: match b_prepend_header_path {
            Some(v) => v,
            None => c_prepend_header_path,
        },
        updated_at: now_ms,
    }
}

/// Validates an update against the stored configuration and, when it
/// passes, merges it at `now_ms`; the stored configuration is returned
/// unchanged in no case, and a refused update changes nothing.
pub fn update_pipeline_config(
    config: PipelineConfig,
    body: UpdatePipelineConfigRequest,
    now_ms: i64,
) -> (r: Result<PipelineConfig, ApiError>)
    ensures
        match config_update_error(body, config) {
            Some(msg) => r is Err && r->Err_0 is BadRequest && r->Err_0->BadRequest_0@ == msg,
            None => r is Ok && is_config_update(r->Ok_0, config, body, now_ms),
        },
{
    match validate_pipeline_config_update(&body, &config) {
        Err(e) => Err(e),
        Ok(()) => Ok(apply_pipeline_config_update(config, body, now_ms)),
    }
}

/// The stored configuration, or 404 when the namespace has none.
pub fn require_pipeline_config(config: Option<PipelineConfig>, slug: &str) -> (r: Result<
    PipelineConfig,
    ApiError,
>)
    ensures
        config is Some ==> r == Ok::<PipelineConfig, ApiError>(config->0),
        config is None ==> r is Err && r->Err_0 is NotFound && r->Err_0->NotFound_0@
            == "Pipeline config not found for namespace: "@ + slug@,
{
    match config {
        Some(c) => Ok(c),
        None => Err(ApiError::NotFound(concat("Pipeline config not found for namespace: ", slug))),
    }
}

/// The snapshot location a snapshot export writes to; 400 when the
/// namespace's configuration names none.
pub fn require_snapshot_uri(config: &PipelineConfig, slug: &str) -> (r: Result<String, ApiError>)
    ensures
        config.snapshot_uri is Some ==> r is Ok && r->Ok_0@ == config.snapshot_uri->0@,
        config.snapshot_uri is None ==> r is Err && r->Err_0 is BadRequest
            && r->Err_0->BadRequest_0@ == "Cannot export snapshot for namespace '"@ + slug@
            + "': snapshot_uri is not configured. Set snapshot_uri in the pipeline config first."@,
{
    match &config.snapshot_uri {
        Some(u) => Ok(u.clone()),
        None => {
            let mut m = owned("Cannot export snapshot for namespace '");
            m.append(slug);
            m.append(
                "': snapshot_uri is not configured. Set snapshot_uri in the pipeline config first.",
            );
            Err(ApiError::BadRequest(m))
        },
    }
}

/// Law: an accepted update that touches the chunk sizes leaves a stored
/// configuration whose overlap is below the target and at most half of it,
/// with a target inside the accepted range when the target was given.
pub proof fn law_accepted_update_keeps_chunking_sound(
    c: PipelineConfig,
    b: UpdatePipelineConfigRequest,
    now_ms: i64,
    r: PipelineConfig,
)
    requires
        config_update_error(b, c) is None,
        is_config_update(r, c, b, now_ms),
        b.target_tokens is Some || b.overlap_tokens is Some,
    ensures
        r.overlap_tokens < r.target_tokens,
        r.overlap_tokens * 2 <= r.target_tokens,
        b.target_tokens is Some ==> MIN_TARGET_TOKENS <= r.target_tokens <= MAX_TARGET_TOKENS,
{
}

/// Law: an accepted update leaves a snapshot location that is absent, empty,
/// or free of `..` and starting with `s3://` or `/` — unless the update left
/// the stored one in place.
pub proof fn law_accepted_update_keeps_snapshot_uri_safe(
    c: PipelineConfig,
    b: UpdatePipelineConfigRequest,
    now_ms: i64,
    r: PipelineConfig,
)
    requires
        config_update_error(b, c) is None,
        is_config_update(r, c, b, now_ms),
        b.snapshot_uri is Some || b.snapshot_uri_clear == Some(true),
    ensures
        r.snapshot_uri is None || acceptable_snapshot_uri(r.snapshot_uri->0@),
{
}

/// Law: an empty update is always accepted and changes nothing but the
/// update time.
pub proof fn law_empty_update_only_touches_time(
    c: PipelineConfig,
    b: UpdatePipelineConfigRequest,
    now_ms: i64,
    r: PipelineConfig,
)
    requires
        is_empty_update(b),
        is_config_update(r, c, b, now_ms),
    ensures
        config_update_error(b, c) is None,
        r.llm_provider == c.llm_provider && r.llm_model == c.llm_model,
        r.embedding_provider == c.embedding_provider && r.embedding_model == c.embedding_model,
        r.embedding_dimension == c.embedding_dimension,
        r.chunking_strategy == c.chunking_strategy && r.chunk_size == c.chunk_size
            && r.chunk_overlap == c.chunk_overlap,
        r.extraction_prompt == c.extraction_prompt,
        r.entity_types@ == c.entity_types@ && r.relation_types@ == c.relation_types@,
        r.snapshot_uri == c.snapshot_uri && r.snapshot_mode == c.snapshot_mode,
        r.chunking_enabled == c.chunking_enabled && r.prepend_header_path
            == c.prepend_header_path,
        r.target_tokens == c.target_tokens && r.overlap_tokens == c.overlap_tokens,
        r.updated_at == now_ms,
{
}

} // verus!
