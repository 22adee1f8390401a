//! Errors of the namespace registry and how they are reported.

use vstd::prelude::*;

use crate::error::ApiError;
use crate::text::{concat, owned};

verus! {

/// Why the namespace registry refused or failed an operation.
#[derive(Debug, Clone, PartialEq, Eq)]
pub enum NamespaceRegistryError {
    /// The namespace (slug) already exists.
    AlreadyExists(String),
    /// The namespace (slug) does not exist.
    NotFound(String),
    /// The registry's storage failed (message).
    Internal(String),
    /// The namespace (slug) has no stored schema.
    SchemaNotFound(String),
    /// The schema is not in a state that allows the operation (message).
    InvalidSchemaState(String),
}

/// The reported error for each registry error.
pub open spec fn reported_registry_error(err: NamespaceRegistryError, e: ApiError) -> bool {
    match err {
        NamespaceRegistryError::AlreadyExists(slug) => e is Conflict && e->Conflict_0@
            == "Namespace already exists: "@ + slug@,
        NamespaceRegistryError::NotFound(slug) => e is NotFound && e->NotFound_0@
            == "Namespace not found: "@ + slug@,
        NamespaceRegistryError::Internal(msg) => e == ApiError::Internal(msg),
        NamespaceRegistryError::SchemaNotFound(slug) => e is NotFound && e->NotFound_0@
            == "Schema not found for namespace: "@ + slug@,
        NamespaceRegistryError::InvalidSchemaState(msg) => e is BadRequest && e->BadRequest_0@
            == "Invalid schema state: "@ + msg@,
    }
}

/// Maps a registry error to the error reported to the caller: existing
/// namespace → 409, missing namespace or schema → 404, storage failure → 500,
/// invalid schema state → 400.
pub fn map_registry_error(err: NamespaceRegistryError) -> (e: ApiError)
    ensures
        reported_registry_error(err, e),
{
    match err {
        NamespaceRegistryError::AlreadyExists(slug) => ApiError::Conflict(
            concat("Namespace already exists: ", slug.as_str()),
        ),
        NamespaceRegistryError::NotFound(slug) => ApiError::NotFound(
            concat("Namespace not found: ", slug.as_str()),
        ),
        NamespaceRegistryError::Internal(msg) => ApiError::Internal(msg),
        NamespaceRegistryError::SchemaNotFound(slug) => ApiError::NotFound(
            concat("Schema not found for namespace: ", slug.as_str()),
        ),
        NamespaceRegistryError::InvalidSchemaState(msg) => ApiError::BadRequest(
            concat("Invalid schema state: ", msg.as_str()),
        ),
    }
}

/// The registry when one is configured, else 501 with the reason.
pub fn get_registry<T>(registry: Option<T>) -> (r: Result<T, ApiError>)
    ensures
        match registry {
            Some(x) => r == Ok::<T, ApiError>(x),
            None => r is Err && r->Err_0 is NotImplemented && r->Err_0->feature@
                == "Namespace registry not configured (requires AWS DynamoDB)"@,
        },
{
    match registry {
        Some(x) => Ok(x),
        None => Err(
            ApiError::NotImplemented {
                feature: owned("Namespace registry not configured (requires AWS DynamoDB)"),
            },
        ),
    }
}

} // verus!
