//! The error kinds that request handling can end in, each carrying the
//! message shown to the caller.

use vstd::prelude::*;

verus! {

/// Why a request was refused or failed.
#[derive(Debug, Clone, PartialEq, Eq)]
pub enum ApiError {
    /// The request is malformed (400).
    BadRequest(String),
    /// The named resource does not exist (404).
    NotFound(String),
    /// The request conflicts with the current state (409).
    Conflict(String),
    /// The caller may not act on the resource (403).
    Forbidden,
    /// The request is well-formed but cannot be processed (422).
    ValidationError(String),
    /// The feature is not configured on this deployment (501).
    NotImplemented { feature: String },
    /// An internal failure (500).
    Internal(String),
}

} // verus!
