//! Which vector storage a document operation writes to: the workspace's
//! own, or (only where the server runs in memory) the shared default one;
//! and what each failure to reach the workspace's storage answers.

use vstd::prelude::*;

use crate::error::ApiError;
use crate::ids::{parse_uuid, uuid_error_text, uuid_problem, uuid_value};
use crate::text::{chars_of, decimal, decimal_text, owned, same_text};

verus! {

/// The text of the default workspace's id.
pub const DEFAULT_WORKSPACE_UUID: &'static str = "00000000-0000-0000-0000-000000000003";

/// The workspace id used for storage: `default` and the empty id stand for
/// the default workspace.
pub open spec fn effective_workspace(workspace_id: Seq<char>) -> Seq<char> {
    if workspace_id == "default"@ || workspace_id.len() == 0 {
        DEFAULT_WORKSPACE_UUID@
    } else {
        workspace_id
    }
}

/// The first step of choosing a document's vector storage.
#[derive(Debug, Clone, PartialEq, Eq)]
pub enum StorageStart {
    /// Look this workspace up and use its storage.
    Lookup(u128),
    /// Use the shared default storage.
    UseDefault,
    /// Refuse the operation.
    Refuse(ApiError),
}

/// What the first step of choosing storage does for `workspace_id`: a
/// workspace id that is not a UUID falls back to the default storage in
/// memory mode and is refused (400) otherwise.
pub fn storage_start(workspace_id: &str, allow_fallback: bool) -> (r: StorageStart)
    ensures
        ({
            let w = effective_workspace(workspace_id@);
            &&& uuid_value(w) is Some ==> r == StorageStart::Lookup(uuid_value(w)->0)
            &&& uuid_value(w) is None && allow_fallback ==> r == StorageStart::UseDefault
            &&& uuid_value(w) is None && !allow_fallback ==> r is Refuse && r->Refuse_0 is BadRequest
                && r->Refuse_0->BadRequest_0@ == "Invalid workspace ID '"@ + workspace_id@ + "': "@
                + uuid_error_text(w) + ". Document ingestion requires a valid workspace."@
        }),
{
    let effective = if same_text(workspace_id, "default") || chars_of(workspace_id).len() == 0 {
        owned(DEFAULT_WORKSPACE_UUID)
    } else {
        owned(workspace_id)
    };
    match parse_uuid(effective.as_str()) {
        Some(u) => StorageStart::Lookup(u),
        None => {
            if allow_fallback {
                StorageStart::UseDefault
            } else {
                let problem = match uuid_problem(effective.as_str()) {
                    Some(p) => p,
                    None => String::new(),
                };
                let mut m = owned("Invalid workspace ID '");
                m.append(workspace_id);
                m.append("': ");
                m.append(problem.as_str());
                m.append(". Document ingestion requires a valid workspace.");
                StorageStart::Refuse(ApiError::BadRequest(m))
            }
        },
    }
}

/// How reaching a workspace's storage failed after its id was read.
#[derive(Debug, Clone, PartialEq, Eq)]
pub enum StorageFailure {
    /// No workspace has the id.
    NotFound,
    /// The workspace lookup failed with this message.
    LookupFailed(String),
    /// Creating the storage (of this dimension) failed with this message.
    CreateFailed { dimension: usize, error: String },
}

/// What a failure to reach the workspace's storage answers: the default
/// storage in memory mode (`Ok`), else an error naming the workspace.
pub fn storage_failure(workspace_id: &str, failure: StorageFailure, allow_fallback: bool) -> (r:
    Result<(), ApiError>)
    ensures
        allow_fallback ==> r is Ok,
        !allow_fallback ==> r is Err && match failure {
            StorageFailure::NotFound => r->Err_0 is NotFound && r->Err_0->NotFound_0@ == "Workspace '"@
                + workspace_id@ + "' not found. Cannot ingest documents without a valid workspace."@,
            StorageFailure::LookupFailed(e) => r->Err_0 is Internal && r->Err_0->Internal_0@
                == "Failed to lookup workspace '"@ + workspace_id@ + "': "@ + e@,
            StorageFailure::CreateFailed { dimension, error } => r->Err_0 is Internal
                && r->Err_0->Internal_0@ == "Failed to create vector storage for workspace '"@
                + workspace_id@ + "' (dimension "@ + decimal(dimension as nat) + "): "@ + error@
                + ". This is a critical error - please check database connectivity and configuration."@,
        },
{
    if allow_fallback {
        return Ok(());
    }
    match failure {
        StorageFailure::NotFound => {
            let mut m = owned("Workspace '");
            m.append(workspace_id);
            m.append("' not found. Cannot ingest documents without a valid workspace.");
            Err(ApiError::NotFound(m))
        },
        StorageFailure::LookupFailed(e) => {
            let mut m = owned("Failed to lookup workspace '");
            m.append(workspace_id);
            m.append("': ");
            m.append(e.as_str());
            Err(ApiError::Internal(m))
        },
        StorageFailure::CreateFailed { dimension, error } => {
            let mut m = owned("Failed to create vector storage for workspace '");
            m.append(workspace_id);
            m.append("' (dimension ");
            m.append(decimal_text(dimension as u128).as_str());
            m.append("): ");
            m.append(error.as_str());
            m.append(
                ". This is a critical error - please check database connectivity and configuration.",
            );
            Err(ApiError::Internal(m))
        },
    }
}

} // verus!
