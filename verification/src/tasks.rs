//! Background tasks: parsing the listing filters, paging defaults, and the
//! rules for cancelling and retrying a task.

use vstd::prelude::*;

use crate::error::ApiError;
use crate::ids::{parse_uuid, uuid_value};
use crate::text::{concat, decimal, decimal_text, lowercased, owned, same_text, starts_with, begins_with, to_lowercase};

verus! {

/// Status of a background task.
#[derive(Debug, Clone, Copy, PartialEq, Eq, Structural)]
pub enum TaskStatus {
    Pending,
    Processing,
    Indexed,
    Failed,
    Cancelled,
}

/// Kind of a background task.
#[derive(Debug, Clone, Copy, PartialEq, Eq, Structural)]
pub enum TaskType {
    Upload,
    Insert,
    Scan,
    Reindex,
    PdfProcessing,
}

/// Field a task listing is sorted by.
#[derive(Debug, Clone, Copy, PartialEq, Eq, Structural)]
pub enum SortField {
    CreatedAt,
    UpdatedAt,
}

/// Direction of a task listing.
#[derive(Debug, Clone, Copy, PartialEq, Eq, Structural)]
pub enum SortOrder {
    Asc,
    Desc,
}

/// The status named by a lowercase word.
pub open spec fn task_status_named(l: Seq<char>) -> Option<TaskStatus> {
    if l == "pending"@ {
        Some(TaskStatus::Pending)
    } else if l == "processing"@ {
        Some(TaskStatus::Processing)
    } else if l == "indexed"@ {
        Some(TaskStatus::Indexed)
    } else if l == "failed"@ {
        Some(TaskStatus::Failed)
    } else if l == "cancelled"@ {
        Some(TaskStatus::Cancelled)
    } else {
        None
    }
}

/// The task type named by a lowercase word.
pub open spec fn task_type_named(l: Seq<char>) -> Option<TaskType> {
    if l == "upload"@ {
        Some(TaskType::Upload)
    } else if l == "insert"@ {
        Some(TaskType::Insert)
    } else if l == "scan"@ {
        Some(TaskType::Scan)
    } else if l == "reindex"@ {
        Some(TaskType::Reindex)
    } else if l == "pdf_processing"@ {
        Some(TaskType::PdfProcessing)
    } else {
        None
    }
}

/// The sort field named by a lowercase word.
pub open spec fn sort_field_named(l: Seq<char>) -> Option<SortField> {
    if l == "created_at"@ || l == "created"@ {
        Some(SortField::CreatedAt)
    } else if l == "updated_at"@ || l == "updated"@ {
        Some(SortField::UpdatedAt)
    } else {
        None
    }
}

/// The sort order named by a lowercase word.
pub open spec fn sort_order_named(l: Seq<char>) -> Option<SortOrder> {
    if l == "asc"@ || l == "ascending"@ {
        Some(SortOrder::Asc)
    } else if l == "desc"@ || l == "descending"@ {
        Some(SortOrder::Desc)
    } else {
        None
    }
}

/// Whether `r` is the parse of a word whose lowercase form names `named`,
/// failing with `prefix` followed by the word as given.
pub open spec fn parsed_as<T>(r: Result<T, String>, named: Option<T>, prefix: Seq<char>, s: Seq<char>) -> bool {
    match named {
        Some(v) => r == Ok::<T, String>(v),
        None => r is Err && r->Err_0@ == prefix + s,
    }
}

/// Parses a task status from its already-lowercased form `lower` of `s`.
pub fn task_status_from_lowercase(s: &str, lower: &str) -> (r: Result<TaskStatus, String>)
    ensures
        parsed_as(r, task_status_named(lower@), "Invalid task status: "@, s@),
{
    if same_text(lower, "pending") {
        Ok(TaskStatus::Pending)
    } else if same_text(lower, "processing") {
        Ok(TaskStatus::Processing)
    } else if same_text(lower, "indexed") {
        Ok(TaskStatus::Indexed)
    } else if same_text(lower, "failed") {
        Ok(TaskStatus::Failed)
    } else if same_text(lower, "cancelled") {
        Ok(TaskStatus::Cancelled)
    } else {
        Err(concat("Invalid task status: ", s))
    }
}

/// Parses a task status, ignoring case.
pub fn parse_task_status(s: &str) -> (r: Result<TaskStatus, String>)
    ensures
        parsed_as(r, task_status_named(lowercased(s@)), "Invalid task status: "@, s@),
{
    let lower = to_lowercase(s);
    task_status_from_lowercase(s, lower.as_str())
}

/// Parses a task type from its already-lowercased form `lower` of `s`.
pub fn task_type_from_lowercase(s: &str, lower: &str) -> (r: Result<TaskType, String>)
    ensures
        parsed_as(r, task_type_named(lower@), "Invalid task type: "@, s@),
{
    if same_text(lower, "upload") {
        Ok(TaskType::Upload)
    } else if same_text(lower, "insert") {
        Ok(TaskType::Insert)
    } else if same_text(lower, "scan") {
        Ok(TaskType::Scan)
    } else if same_text(lower, "reindex") {
        Ok(TaskType::Reindex)
    } else if same_text(lower, "pdf_processing") {
        Ok(TaskType::PdfProcessing)
    } else {
        Err(concat("Invalid task type: ", s))
    }
}

/// Parses a task type, ignoring case.
pub fn parse_task_type(s: &str) -> (r: Result<TaskType, String>)
    ensures
        parsed_as(r, task_type_named(lowercased(s@)), "Invalid task type: "@, s@),
{
    let lower = to_lowercase(s);
    task_type_from_lowercase(s, lower.as_str())
}

/// Parses a sort field from its already-lowercased form `lower` of `s`.
pub fn sort_field_from_lowercase(s: &str, lower: &str) -> (r: Result<SortField, String>)
    ensures
        parsed_as(r, sort_field_named(lower@), "Invalid sort field: "@, s@),
{
    if same_text(lower, "created_at") || same_text(lower, "created") {
        Ok(SortField::CreatedAt)
    } else if same_text(lower, "updated_at") || same_text(lower, "updated") {
        Ok(SortField::UpdatedAt)
    } else {
        Err(concat("Invalid sort field: ", s))
    }
}

/// Parses a sort field, ignoring case.
pub fn parse_sort_field(s: &str) -> (r: Result<SortField, String>)
    ensures
        parsed_as(r, sort_field_named(lowercased(s@)), "Invalid sort field: "@, s@),
{
    let lower = to_lowercase(s);
    sort_field_from_lowercase(s, lower.as_str())
}

/// Parses a sort order from its already-lowercased form `lower` of `s`.
pub fn sort_order_from_lowercase(s: &str, lower: &str) -> (r: Result<SortOrder, String>)
    ensures
        parsed_as(r, sort_order_named(lower@), "Invalid sort order: "@, s@),
{
    if same_text(lower, "asc") || same_text(lower, "ascending") {
        Ok(SortOrder::Asc)
    } else if same_text(lower, "desc") || same_text(lower, "descending") {
        Ok(SortOrder::Desc)
    } else {
        Err(concat("Invalid sort order: ", s))
    }
}

/// Parses a sort order, ignoring case.
pub fn parse_sort_order(s: &str) -> (r: Result<SortOrder, String>)
    ensures
        parsed_as(r, sort_order_named(lowercased(s@)), "Invalid sort order: "@, s@),
{
    let lower = to_lowercase(s);
    sort_order_from_lowercase(s, lower.as_str())
}

/// Query of a task listing; every field is optional.
#[derive(Debug, Clone, PartialEq, Eq, Default)]
pub struct ListTasksQuery {
    pub tenant_id: Option<String>,
    pub workspace_id: Option<String>,
    pub status: Option<String>,
    pub task_type: Option<String>,
    pub page: Option<u32>,
    pub page_size: Option<u32>,
    pub sort: Option<String>,
    pub order: Option<String>,
}

/// Largest page of a task listing.
pub const MAX_TASK_PAGE_SIZE: u32 = 100;

/// Paging and ordering of a task listing.
#[derive(Debug, Clone, Copy, PartialEq, Eq)]
pub struct TaskPagination {
    pub page: u32,
    pub page_size: u32,
    pub sort_by: SortField,
    pub order: SortOrder,
}

/// Which tasks a listing shows; an unreadable filter value filters nothing.
#[derive(Debug, Clone, Copy, PartialEq, Eq)]
pub struct TaskFilter {
    pub tenant_id: Option<u128>,
    pub workspace_id: Option<u128>,
    pub status: Option<TaskStatus>,
    pub task_type: Option<TaskType>,
}

/// The paging of a task listing: page 1 and 20 per page unless given, at
/// most 100 per page, newest first by creation unless a readable sort and
/// order are given.
pub fn task_pagination(q: &ListTasksQuery) -> (p: TaskPagination)
    ensures
        p.page == (match q.page {
            Some(n) => n,
            None => 1,
        }),
        p.page_size == (match q.page_size {
            Some(n) => if n < MAX_TASK_PAGE_SIZE {
                n
            } else {
                MAX_TASK_PAGE_SIZE
            },
            None => 20,
        }),
        p.sort_by == (match q.sort {
            Some(s) => match sort_field_named(lowercased(s@)) {
                Some(f) => f,
                None => SortField::CreatedAt,
            },
            None => SortField::CreatedAt,
        }),
        p.order == (match q.order {
            Some(s) => match sort_order_named(lowercased(s@)) {
                Some(o) => o,
                None => SortOrder::Desc,
            },
            None => SortOrder::Desc,
        }),
{
    let page = match q.page {
        Some(n) => n,
        None => 1,
    };
    let size = match q.page_size {
        Some(n) => n,
        None => 20,
    };
    let page_size = if size < MAX_TASK_PAGE_SIZE {
        size
    } else {
        MAX_TASK_PAGE_SIZE
    };
    let sort_by = match &q.sort {
        Some(s) => match parse_sort_field(s.as_str()) {
            Ok(f) => f,
            Err(_) => SortField::CreatedAt,
        },
        None => SortField::CreatedAt,
    };
    let order = match &q.order {
        Some(s) => match parse_sort_order(s.as_str()) {
            Ok(o) => o,
            Err(_) => SortOrder::Desc,
        },
        None => SortOrder::Desc,
    };
    TaskPagination { page, page_size, sort_by, order }
}

/// The filter of a task listing: ids that are UUIDs, and a readable status
/// and task type; anything unreadable is dropped.
pub fn task_filter(q: &ListTasksQuery) -> (f: TaskFilter)
    ensures
        f.tenant_id == (match q.tenant_id {
            Some(s) => uuid_value(s@),
            None => None,
        }),
        f.workspace_id == (match q.workspace_id {
            Some(s) => uuid_value(s@),
            None => None,
        }),
        f.status == (match q.status {
            Some(s) => task_status_named(lowercased(s@)),
            None => None,
        }),
        f.task_type == (match q.task_type {
            Some(s) => task_type_named(lowercased(s@)),
            None => None,
        }),
{
    let tenant_id = match &q.tenant_id {
        Some(s) => parse_uuid(s.as_str()),
        None => None,
    };
    let workspace_id = match &q.workspace_id {
        Some(s) => parse_uuid(s.as_str()),
        None => None,
    };
    let status = match &q.status {
        Some(s) => match parse_task_status(s.as_str()) {
            Ok(v) => Some(v),
            Err(_) => None,
        },
        None => None,
    };
    let task_type = match &q.task_type {
        Some(s) => match parse_task_type(s.as_str()) {
            Ok(v) => Some(v),
            Err(_) => None,
        },
        None => None,
    };
    TaskFilter { tenant_id, workspace_id, status, task_type }
}

/// The lowercase name of a status.
pub open spec fn task_status_word(s: TaskStatus) -> Seq<char> {
    match s {
        TaskStatus::Pending => "pending"@,
        TaskStatus::Processing => "processing"@,
        TaskStatus::Indexed => "indexed"@,
        TaskStatus::Failed => "failed"@,
        TaskStatus::Cancelled => "cancelled"@,
    }
}

impl TaskStatus {
    /// The lowercase name of the status.
    pub fn as_str(&self) -> (r: &'static str)
        ensures
            r@ == task_status_word(*self),
    {
        match self {
            TaskStatus::Pending => "pending",
            TaskStatus::Processing => "processing",
            TaskStatus::Indexed => "indexed",
            TaskStatus::Failed => "failed",
            TaskStatus::Cancelled => "cancelled",
        }
    }
}

/// Law: every status name parses back to its status.
pub proof fn law_status_name_round_trip(s: TaskStatus)
    ensures
        task_status_named(task_status_word(s)) == Some(s),
{
    reveal_strlit("pending");
    reveal_strlit("processing");
    reveal_strlit("indexed");
    reveal_strlit("failed");
    reveal_strlit("cancelled");
    assert("pending"@[1] != "processing"@[1]);
    assert("pending"@[0] != "indexed"@[0]);
    assert("pending"@[0] != "failed"@[0]);
    assert("pending"@[0] != "cancelled"@[0]);
    assert("processing"@[0] != "indexed"@[0]);
    assert("processing"@[0] != "failed"@[0]);
    assert("processing"@[0] != "cancelled"@[0]);
    assert("indexed"@[0] != "failed"@[0]);
    assert("indexed"@[0] != "cancelled"@[0]);
    assert("failed"@[0] != "cancelled"@[0]);
}

/// Refuses (409) to cancel a task that is not pending: only a task still
/// waiting in the queue can be cancelled.
pub fn check_cancellable(status: TaskStatus) -> (r: Result<(), ApiError>)
    ensures
        status == TaskStatus::Pending ==> r is Ok,
        status != TaskStatus::Pending ==> r is Err && r->Err_0 is Conflict
            && r->Err_0->Conflict_0@ == "Cannot cancel task in status: "@ + task_status_word(status),
{
    if status == TaskStatus::Pending {
        Ok(())
    } else {
        Err(ApiError::Conflict(concat("Cannot cancel task in status: ", status.as_str())))
    }
}

/// Whether a task may be retried: it failed and has retries left.
pub open spec fn retryable(status: TaskStatus, retry_count: u32, max_retries: u32) -> bool {
    status == TaskStatus::Failed && retry_count < max_retries
}

/// Refuses (409) to retry a task that did not fail or has used up its
/// retries.
pub fn check_retryable(status: TaskStatus, retry_count: u32, max_retries: u32) -> (r: Result<
    (),
    ApiError,
>)
    ensures
        retryable(status, retry_count, max_retries) ==> r is Ok,
        !retryable(status, retry_count, max_retries) ==> r is Err && r->Err_0 is Conflict
            && r->Err_0->Conflict_0@ == "Cannot retry task: max retries ("@ + decimal(
            max_retries as nat,
        ) + ") reached or task not failed"@,
{
    if status == TaskStatus::Failed && retry_count < max_retries {
        Ok(())
    } else {
        let mut m = owned("Cannot retry task: max retries (");
        m.append(decimal_text(max_retries as u128).as_str());
        m.append(") reached or task not failed");
        Err(ApiError::Conflict(m))
    }
}

/// 404 for an unknown task.
pub fn task_not_found(track_id: &str) -> (e: ApiError)
    ensures
        e is NotFound && e->NotFound_0@ == "Task not found: "@ + track_id@,
{
    ApiError::NotFound(concat("Task not found: ", track_id))
}

/// The positions of the metadata records that a cancel of `track_id`
/// marks cancelled: those whose `track_id` field is exactly it.
pub open spec fn cancel_positions(track_ids: Seq<Option<String>>, track_id: Seq<char>) -> Seq<int>
    decreases track_ids.len(),
{
    if track_ids.len() == 0 {
        Seq::empty()
    } else {
        let before = cancel_positions(track_ids.drop_last(), track_id);
        if track_ids.last() is Some && track_ids.last()->0@ == track_id {
            before.push(track_ids.len() - 1)
        } else {
            before
        }
    }
}

/// The positions, in order, of the documents (given by their `track_id`
/// fields) that a cancel of `track_id` marks cancelled.
pub fn cancel_targets(track_ids: &Vec<Option<String>>, track_id: &str) -> (r: Vec<usize>)
    ensures
        r@.map_values(|i: usize| i as int) == cancel_positions(track_ids@, track_id@),
{
    let mut r: Vec<usize> = Vec::new();
    let mut i: usize = 0;
    while i < track_ids.len()
        invariant
            i <= track_ids.len(),
            r@.map_values(|k: usize| k as int) == cancel_positions(track_ids@.take(i as int), track_id@),
        decreases track_ids.len() - i,
    {
        let ghost before = r@;
        assert(track_ids@.take(i + 1).drop_last() == track_ids@.take(i as int));
        let hit = match &track_ids[i] {
            Some(t) => same_text(t.as_str(), track_id),
            None => false,
        };
        if hit {
            r.push(i);
            assert(r@.map_values(|k: usize| k as int) =~= before.map_values(|k: usize| k as int).push(
                i as int,
            ));
        }
        i = i + 1;
    }
    assert(track_ids@.take(track_ids.len() as int) == track_ids@);
    r
}

/// A cancel of a task that no longer exists: it succeeds (reporting the
/// documents marked cancelled) when some document was updated, else 404.
pub fn cancel_without_task(track_id: &str, documents_updated: bool) -> (r: Result<(), ApiError>)
    ensures
        documents_updated ==> r is Ok,
        !documents_updated ==> r is Err && r->Err_0 is NotFound && r->Err_0->NotFound_0@
            == "Task not found: "@ + track_id@,
{
    if documents_updated {
        Ok(())
    } else {
        Err(task_not_found(track_id))
    }
}

/// Whether a track id names an extraction batch (kept in the key-value
/// store rather than the task store).
pub fn is_extraction_batch_track(track_id: &str) -> (r: bool)
    ensures
        r == begins_with(track_id@, "extraction_batch_"@),
{
    starts_with(track_id, "extraction_batch_")
}

/// Paging of a task listing as answered.
#[derive(Debug, Clone, Copy, PartialEq, Eq)]
pub struct PaginationInfo {
    pub total: usize,
    pub page: usize,
    pub page_size: usize,
    pub total_pages: usize,
}

/// Tasks per status as answered.
#[derive(Debug, Clone, Copy, PartialEq, Eq)]
pub struct StatisticsInfo {
    pub pending: usize,
    pub processing: usize,
    pub indexed: usize,
    pub failed: usize,
    pub cancelled: usize,
}

} // verus!
