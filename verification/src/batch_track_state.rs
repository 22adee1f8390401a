//! States of an extraction batch's track record.

use vstd::prelude::*;

verus! {

/// Written before the batch is submitted; a track left here is re-driven.
pub const PENDING_WITHOUT_BATCH_ID: &'static str = "pending_without_batch_id";

/// The batch was submitted and its id recorded.
pub const SUBMITTED: &'static str = "submitted";

/// The batch finished and its results were stored.
pub const COMPLETED: &'static str = "completed";

/// The batch failed.
pub const FAILED: &'static str = "failed";

/// The batch expired.
pub const EXPIRED: &'static str = "expired";

/// The batch was cancelled.
pub const CANCELLED: &'static str = "cancelled";

} // verus!
