use edgequake_api::error::ApiError;
use edgequake_api::tasks::{
    check_cancellable, check_retryable, is_extraction_batch_track, parse_sort_field,
    parse_sort_order, parse_task_status, parse_task_type, task_filter, task_not_found,
    task_pagination, ListTasksQuery, PaginationInfo, SortField, SortOrder, StatisticsInfo,
    TaskStatus, TaskType,
};

#[test]
fn test_parse_task_status_valid() {
    assert!(matches!(parse_task_status("pending"), Ok(TaskStatus::Pending)));
    assert!(matches!(parse_task_status("PROCESSING"), Ok(TaskStatus::Processing)));
    assert!(matches!(parse_task_status("Indexed"), Ok(TaskStatus::Indexed)));
    assert!(matches!(parse_task_status("failed"), Ok(TaskStatus::Failed)));
    assert!(matches!(parse_task_status("cancelled"), Ok(TaskStatus::Cancelled)));
}

#[test]
fn test_parse_task_status_invalid() {
    assert!(parse_task_status("invalid").is_err());
    assert!(parse_task_status("").is_err());
}

#[test]
fn test_parse_task_type_valid() {
    assert!(matches!(parse_task_type("upload"), Ok(TaskType::Upload)));
    assert!(matches!(parse_task_type("INSERT"), Ok(TaskType::Insert)));
    assert!(matches!(parse_task_type("scan"), Ok(TaskType::Scan)));
    assert!(matches!(parse_task_type("Reindex"), Ok(TaskType::Reindex)));
}

#[test]
fn test_parse_task_type_invalid() {
    assert!(parse_task_type("invalid").is_err());
    assert!(parse_task_type("").is_err());
}

#[test]
fn test_parse_sort_field_valid() {
    assert!(matches!(parse_sort_field("created_at"), Ok(SortField::CreatedAt)));
    assert!(matches!(parse_sort_field("created"), Ok(SortField::CreatedAt)));
    assert!(matches!(parse_sort_field("UPDATED_AT"), Ok(SortField::UpdatedAt)));
    assert!(matches!(parse_sort_field("Updated"), Ok(SortField::UpdatedAt)));
}

#[test]
fn test_parse_sort_field_invalid() {
    assert!(parse_sort_field("invalid").is_err());
    assert!(parse_sort_field("").is_err());
}

#[test]
fn test_parse_sort_order_valid() {
    assert!(matches!(parse_sort_order("asc"), Ok(SortOrder::Asc)));
    assert!(matches!(parse_sort_order("ascending"), Ok(SortOrder::Asc)));
    assert!(matches!(parse_sort_order("DESC"), Ok(SortOrder::Desc)));
    assert!(matches!(parse_sort_order("descending"), Ok(SortOrder::Desc)));
}

#[test]
fn test_parse_sort_order_invalid() {
    assert!(parse_sort_order("invalid").is_err());
    assert!(parse_sort_order("").is_err());
}

#[test]
fn parse_errors_quote_input() {
    assert_eq!(parse_task_status("Nope"), Err("Invalid task status: Nope".to_string()));
    assert_eq!(parse_task_type("x"), Err("Invalid task type: x".to_string()));
    assert_eq!(parse_sort_field("x"), Err("Invalid sort field: x".to_string()));
    assert_eq!(parse_sort_order("x"), Err("Invalid sort order: x".to_string()));
    assert_eq!(parse_task_type("PDF_Processing"), Ok(TaskType::PdfProcessing));
}

#[test]
fn status_names_round_trip() {
    for s in [TaskStatus::Pending, TaskStatus::Processing, TaskStatus::Indexed, TaskStatus::Failed, TaskStatus::Cancelled] {
        assert_eq!(parse_task_status(s.as_str()), Ok(s));
    }
}

#[test]
fn listing_defaults_and_caps() {
    let q = ListTasksQuery::default();
    let p = task_pagination(&q);
    assert_eq!((p.page, p.page_size, p.sort_by, p.order), (1, 20, SortField::CreatedAt, SortOrder::Desc));
    let q = ListTasksQuery {
        page: Some(3),
        page_size: Some(500),
        sort: Some("Updated".to_string()),
        order: Some("bogus".to_string()),
        ..ListTasksQuery::default()
    };
    let p = task_pagination(&q);
    assert_eq!((p.page, p.page_size, p.sort_by, p.order), (3, 100, SortField::UpdatedAt, SortOrder::Desc));
    let q = ListTasksQuery {
        tenant_id: Some("00000000-0000-0000-0000-000000000007".to_string()),
        workspace_id: Some("not-a-uuid".to_string()),
        status: Some("FAILED".to_string()),
        task_type: Some("nope".to_string()),
        ..ListTasksQuery::default()
    };
    let f = task_filter(&q);
    assert_eq!(f.tenant_id, Some(7));
    assert_eq!(f.workspace_id, None);
    assert_eq!(f.status, Some(TaskStatus::Failed));
    assert_eq!(f.task_type, None);
}

#[test]
fn cancel_and_retry_rules() {
    assert_eq!(check_cancellable(TaskStatus::Pending), Ok(()));
    assert_eq!(check_cancellable(TaskStatus::Indexed), Err(ApiError::Conflict("Cannot cancel task in status: indexed".to_string())));
    assert!(check_cancellable(TaskStatus::Cancelled).is_err());
    assert_eq!(check_cancellable(TaskStatus::Processing), Err(ApiError::Conflict("Cannot cancel task in status: processing".to_string())));
    assert_eq!(check_cancellable(TaskStatus::Failed), Err(ApiError::Conflict("Cannot cancel task in status: failed".to_string())));
    assert_eq!(check_retryable(TaskStatus::Failed, 0, 3), Ok(()));
    assert_eq!(
        check_retryable(TaskStatus::Failed, 3, 3),
        Err(ApiError::Conflict("Cannot retry task: max retries (3) reached or task not failed".to_string()))
    );
    assert!(check_retryable(TaskStatus::Pending, 0, 3).is_err());
    assert_eq!(task_not_found("t1"), ApiError::NotFound("Task not found: t1".to_string()));
    assert!(is_extraction_batch_track("extraction_batch_abc"));
    assert!(!is_extraction_batch_track("upload_abc"));
}

#[test]
fn listing_info_values() {
    let info = PaginationInfo { total: 100, page: 1, page_size: 20, total_pages: 5 };
    assert_eq!(info.total_pages, 5);
    let stats = StatisticsInfo { pending: 10, processing: 5, indexed: 85, failed: 0, cancelled: 0 };
    assert_eq!(stats.pending, 10);
}
