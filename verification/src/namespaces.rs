//! Namespace records as requested and answered.

use vstd::prelude::*;

use crate::error::ApiError;
use crate::namespace_config::{
    config_update_error, is_config_update, update_pipeline_config, PipelineConfig,
    UpdatePipelineConfigRequest,
};
use crate::text::{concat, owned};

verus! {

/// Request body creating a namespace.
#[derive(Debug, Clone, PartialEq, Eq)]
pub struct CreateNamespaceRequest {
    /// The namespace slug.
    pub slug: String,
    pub description: Option<String>,
}

/// Answer to a namespace creation.
#[derive(Debug, Clone, PartialEq, Eq)]
pub struct CreateNamespaceResponse {
    pub slug: String,
    pub description: Option<String>,
    /// Creation time, epoch milliseconds.
    pub created_at: i64,
}

/// A namespace as described.
#[derive(Debug, Clone, PartialEq, Eq)]
pub struct NamespaceDetailResponse {
    pub slug: String,
    pub description: Option<String>,
    /// Creation time, epoch milliseconds.
    pub created_at: i64,
    pub created_by: Option<String>,
}

/// A namespace's pipeline configuration as answered.
#[derive(Debug, Clone, PartialEq, Eq)]
pub struct PipelineConfigResponse {
    pub namespace: String,
    pub config: PipelineConfig,
}

/// The stored record of a namespace, or 404.
pub fn require_namespace<T>(record: Option<T>, slug: &str) -> (r: Result<T, ApiError>)
    ensures
        match record {
            Some(x) => r == Ok::<T, ApiError>(x),
            None => r is Err && r->Err_0 is NotFound && r->Err_0->NotFound_0@
                == "Namespace not found: "@ + slug@,
        },
{
    match record {
        Some(x) => Ok(x),
        None => Err(ApiError::NotFound(concat("Namespace not found: ", slug))),
    }
}

/// Validates and merges an update into the stored configuration, stamping
/// it with the current time.
pub fn update_pipeline_config_now(config: PipelineConfig, body: UpdatePipelineConfigRequest) -> (r:
    Result<PipelineConfig, ApiError>)
    ensures
        match config_update_error(body, config) {
            Some(msg) => r is Err && r->Err_0 is BadRequest && r->Err_0->BadRequest_0@ == msg,
            None => r is Ok && is_config_update(r->Ok_0, config, body, r->Ok_0.updated_at),
        },
{
    update_pipeline_config(config, body, crate::clock::now_millis())
}

/// The answer to a recorded preview request.
#[derive(Debug, Clone, PartialEq, Eq)]
pub struct PreviewRequested {
    pub namespace: String,
    /// Always `requested`.
    pub status: String,
    pub message: String,
}

/// The answer once a preview of `namespace` is requested.
pub fn preview_requested(namespace: &str) -> (r: PreviewRequested)
    ensures
        r.namespace@ == namespace@,
        r.status@ == "requested"@,
        r.message@ == "Preview request recorded; poll GET /preview for progress"@,
{
    PreviewRequested {
        namespace: owned(namespace),
        status: owned("requested"),
        message: owned("Preview request recorded; poll GET /preview for progress"),
    }
}

/// The answer while no preview result exists.
#[derive(Debug, Clone, PartialEq, Eq)]
pub struct PreviewStatus {
    pub namespace: String,
    pub status: String,
}

/// The answer for `namespace` while no preview result exists: the recorded
/// request's status, or `none` when nothing was requested.
pub fn preview_pending(namespace: &str, recorded: Option<String>) -> (r: PreviewStatus)
    ensures
        r.namespace@ == namespace@,
        match recorded {
            Some(s) => r.status@ == s@,
            None => r.status@ == "none"@,
        },
{
    let status = match recorded {
        Some(s) => s,
        None => owned("none"),
    };
    PreviewStatus { namespace: owned(namespace), status }
}

} // verus!
