use edgequake_api::document_listing::{
    classify_document_key, count_statuses, empty_list_page, list_page, matches_tenant_context,
    track_chunk_owner, track_progress, DocumentKeyKind, StatusCounts,
};
use edgequake_api::document_store::{
    bulk_delete_decision, check_deletable, check_readable, chunk_keys, cleanup_action,
    document_id_of_metadata_key, node_keeps_sources, reingest_from_statuses, reingestion_keys,
    reingested_message, remaining_sources, require_document_stored, source_belongs_to,
    split_source_id, tally_bulk_delete, document_detail, DocumentDetail, BulkDeleteDecision, BulkDeleteTally, CleanupAction,
    CleanupStats,
};
use edgequake_api::documents::{
    build_uploaded_doc_metadata, check_workspace_schema_gate, default_page, default_page_size,
    require_open_gate, resume_access, resume_after_transition, resume_all_decision,
    resume_all_outcome, resume_decision, resume_step, resume_tenant_ok, schema_gate_status, tally_resume_all,
    GateLookup, ResumeAction, ResumeAllDecision, ResumeAllOutcome, ResumeAllResponse, ResumeStep,
    SchemaGateResult, UploadDocumentRequest,
};
use edgequake_api::error::ApiError;

#[test]
fn test_upload_request_validation() {
    let request = UploadDocumentRequest {
        content: "Test content".to_string(),
        title: Some("Test".to_string()),
        metadata: None,
        async_processing: false,
        track_id: None,
        enable_gleaning: true,
        max_gleaning: 1,
        use_llm_summarization: true,
    };
    assert!(!request.content.is_empty());
}

#[test]
fn test_default_page() {
    assert_eq!(default_page(), 1);
}

#[test]
fn test_list_documents_request_defaults() {
    // A listing request that names neither field pages from 1, 20 at a time.
    assert_eq!(default_page(), 1);
    assert_eq!(default_page_size(), 20);
}

#[test]
fn test_default_page_size() {
    assert_eq!(default_page_size(), 20);
}

#[test]
fn test_legacy_upload_lands_in_s3() {
    let meta = build_uploaded_doc_metadata(
        "doc-abc123",
        "deadbeef1234",
        "tenant-1/ws-1/default/deadbeef1234/report.pdf",
        "report.pdf",
        "application/pdf",
        "2026-06-25T00:00:00Z",
        Some("tenant-1"),
        "ws-1",
    );
    assert_eq!(meta.status, "uploaded", "status must be 'uploaded', never 'processing'");
    assert_eq!(meta.sha256, "deadbeef1234");
    assert_eq!(meta.raw_doc_key, "tenant-1/ws-1/default/deadbeef1234/report.pdf");
    assert_eq!(meta.filename, "report.pdf");
    assert_eq!(meta.content_type, "application/pdf");
    assert_eq!(meta.uploaded_at, "2026-06-25T00:00:00Z");
    assert_eq!(meta.created_at, "2026-06-25T00:00:00Z");
    assert_eq!(meta.tenant_id.as_deref(), Some("tenant-1"));
}

#[test]
fn test_schema_gate_no_schema_parks_doc() {
    assert_eq!(check_workspace_schema_gate(None), SchemaGateResult::AwaitingSchema, "No schema → must park at awaiting_schema");
}

#[test]
fn test_schema_gate_draft_schema_parks_doc() {
    assert_eq!(check_workspace_schema_gate(Some("draft")), SchemaGateResult::AwaitingSchema, "Draft schema must NOT pass the schema check");
}

#[test]
fn test_schema_gate_approved_advances_doc() {
    assert_eq!(check_workspace_schema_gate(Some("approved")), SchemaGateResult::Approved, "Approved schema must pass the schema check");
}

#[test]
fn test_resume_decision_branches() {
    assert_eq!(resume_decision("awaiting_schema"), ResumeAction::AdvanceToExtracting, "awaiting_schema → AdvanceToExtracting");
    assert_eq!(resume_decision("extracting"), ResumeAction::AlreadyRunning, "extracting → AlreadyRunning (202 already-running)");
    assert_eq!(resume_decision("completed"), ResumeAction::NoOp, "completed → NoOp (idempotent 200)");
    assert_eq!(resume_decision("failed"), ResumeAction::Conflict, "failed → Conflict (409)");
    assert_eq!(resume_decision("cancelled"), ResumeAction::Conflict, "cancelled → Conflict (409)");
    assert_eq!(resume_decision("uploaded"), ResumeAction::Conflict, "uploaded (non-resumable state) → Conflict");
}

#[test]
fn test_resume_rejects_cross_tenant() {
    let doc_tenant = Some("tenant-A");
    let caller_tenant = "tenant-B";
    let tenant_ok = resume_tenant_ok(doc_tenant, caller_tenant);
    assert!(!tenant_ok, "Cross-tenant resume must be rejected (tenant mismatch)");
    let doc_tenant_same = Some("tenant-A");
    let caller_same = "tenant-A";
    let tenant_ok_same = resume_tenant_ok(doc_tenant_same, caller_same);
    assert!(tenant_ok_same, "Same tenant must be allowed");
}

#[test]
fn test_resume_rejects_unapproved_schema() {
    assert_eq!(check_workspace_schema_gate(None), SchemaGateResult::AwaitingSchema, "No schema → gate closed (resume must 422)");
    assert_eq!(check_workspace_schema_gate(Some("draft")), SchemaGateResult::AwaitingSchema, "Draft schema → gate closed (resume must 422)");
    assert_eq!(check_workspace_schema_gate(Some("approved")), SchemaGateResult::Approved, "Approved schema → gate open (resume allowed)");
}

#[test]
fn test_resume_all_rejects_cross_tenant() {
    let caller_ws = "ws-A";
    let doc_ws = "ws-B";
    let would_resume = resume_all_decision(Some(doc_ws), None, Some("awaiting_schema"), Some("doc"), caller_ws, None);
    assert!(would_resume != ResumeAllDecision::Advance, "Cross-workspace doc must not be resumed by resume-all (R5)");
    let same_ws_would_resume = resume_all_decision(Some(caller_ws), None, Some("awaiting_schema"), Some("doc"), caller_ws, None);
    assert!(same_ws_would_resume == ResumeAllDecision::Advance, "Same-workspace awaiting_schema doc must be eligible");
}

#[test]
fn test_resume_all_mixed_statuses() {
    let ws = "10000000-0000-0000-0000-000000000001";
    let tenant = "20000000-0000-0000-0000-000000000002";
    let docs = [("doc-await", "awaiting_schema"), ("doc-complete", "completed"), ("doc-extract", "extracting")];
    let mut outcomes = Vec::new();
    for (id, status) in docs {
        match resume_all_decision(Some(ws), Some(tenant), Some(status), Some(id), ws, Some(tenant)) {
            ResumeAllDecision::Advance => outcomes.push(ResumeAllOutcome::Released),
            ResumeAllDecision::Skip => outcomes.push(ResumeAllOutcome::Skipped),
            ResumeAllDecision::OutOfScope => outcomes.push(ResumeAllOutcome::OutOfScope),
        }
    }
    let response = tally_resume_all(&outcomes);
    assert_eq!(response.released, 1, "Only the awaiting_schema doc must be released");
    assert_eq!(response.skipped, 2, "The completed and extracting docs must be skipped (R3)");
}

#[test]
fn resume_all_scope_rules() {
    let ws = "ws";
    assert_eq!(resume_all_decision(Some(ws), Some("t2"), Some("awaiting_schema"), Some("d"), ws, Some("t1")), ResumeAllDecision::OutOfScope);
    assert_eq!(resume_all_decision(Some(ws), None, Some("awaiting_schema"), Some("d"), ws, Some("t1")), ResumeAllDecision::Advance);
    assert_eq!(resume_all_decision(Some(ws), Some("t2"), Some("awaiting_schema"), Some("d"), ws, None), ResumeAllDecision::Advance);
    assert_eq!(resume_all_decision(Some(ws), None, None, Some("d"), ws, None), ResumeAllDecision::Skip);
    assert_eq!(resume_all_decision(Some(ws), None, Some("awaiting_schema"), Some(""), ws, None), ResumeAllDecision::Skip);
    assert_eq!(resume_all_decision(None, None, Some("awaiting_schema"), Some("d"), ws, None), ResumeAllDecision::OutOfScope);
}

#[test]
fn gate_status_from_lookups() {
    assert_eq!(schema_gate_status(&GateLookup::InvalidId), "awaiting_schema");
    assert_eq!(schema_gate_status(&GateLookup::NotFound), "awaiting_schema");
    assert_eq!(schema_gate_status(&GateLookup::Failed), "awaiting_schema");
    assert_eq!(schema_gate_status(&GateLookup::Found { graph_schema_status: Some("approved".to_string()) }), "extracting");
    assert_eq!(schema_gate_status(&GateLookup::Found { graph_schema_status: Some("APPROVED".to_string()) }), "awaiting_schema");
}

#[test]
fn resume_access_and_steps() {
    assert_eq!(resume_access("d", Some("t"), Some("w"), Some("t"), Some("w")), Ok(()));
    assert_eq!(resume_access("d", None, None, None, None), Ok(()));
    assert_eq!(resume_access("d", None, Some("w"), Some("t"), None), Err(ApiError::NotFound("Document d not found".to_string())));
    assert_eq!(resume_access("d", Some("t"), Some("x"), Some("t"), Some("w")), Err(ApiError::NotFound("Document d not found".to_string())));
    assert_eq!(resume_step("d", "awaiting_schema"), Ok(ResumeStep::Advance));
    match resume_step("d", "extracting") {
        Ok(ResumeStep::Respond { accepted, response }) => {
            assert!(accepted);
            assert_eq!(response.status, "extracting");
            assert_eq!(response.message, "Document is already being extracted");
        }
        other => panic!("unexpected {:?}", other),
    }
    match resume_step("d", "completed") {
        Ok(ResumeStep::Respond { accepted, response }) => {
            assert!(!accepted);
            assert_eq!(response.message, "Document already completed");
        }
        other => panic!("unexpected {:?}", other),
    }
    assert_eq!(
        resume_step("d", "failed"),
        Err(ApiError::Conflict("Document d is in status 'failed' and cannot be resumed (409). Only awaiting_schema documents can be resumed.".to_string()))
    );
    let (accepted, r) = resume_after_transition("d", false);
    assert!(accepted);
    assert_eq!(r.message, "Document is already being extracted (concurrent advance)");
    let (accepted, r) = resume_after_transition("d", true);
    assert!(!accepted);
    assert_eq!(r.status, "completed");
    assert_eq!(require_open_gate("extracting", true), Ok(()));
    assert_eq!(require_open_gate("awaiting_schema", true), Err(ApiError::ValidationError("Workspace schema is not approved — cannot resume document".to_string())));
    assert_eq!(require_open_gate("awaiting_schema", false), Err(ApiError::ValidationError("Workspace schema is not approved — cannot resume documents".to_string())));
}

#[test]
fn document_keys_and_existence() {
    let keys: Vec<String> = vec!["a-chunk-1", "a-chunk-2", "ab-chunk-1", "b-metadata", "a-content"].into_iter().map(String::from).collect();
    assert_eq!(chunk_keys(&keys, "a"), vec!["a-chunk-1".to_string(), "a-chunk-2".to_string()]);
    assert_eq!(require_document_stored(&keys, "a"), Ok(()));
    assert_eq!(require_document_stored(&keys, "b"), Ok(()));
    assert_eq!(require_document_stored(&keys, "c"), Err(ApiError::NotFound("Document c not found".to_string())));
    let r = reingestion_keys(vec!["a-chunk-1".to_string()], "a");
    assert_eq!(r, vec!["a-chunk-1".to_string(), "a-metadata".to_string(), "a-content".to_string()]);
    assert_eq!(reingest_from_statuses(), vec!["failed", "completed", "cancelled"]);
}

#[test]
fn deletion_guards() {
    assert!(matches!(check_deletable("d", "pending"), Err(ApiError::Conflict(_))));
    assert!(matches!(check_deletable("d", "processing"), Err(ApiError::Conflict(_))));
    assert_eq!(check_deletable("d", "failed"), Ok(()));
    assert_eq!(check_deletable("d", "weird"), Ok(()));
    assert_eq!(
        check_deletable("d", "pending"),
        Err(ApiError::Conflict("Cannot delete document 'd' with status 'pending'. The document is queued for processing. Please wait for processing to complete or cancel the task.".to_string()))
    );
    assert_eq!(bulk_delete_decision("completed", None, false), BulkDeleteDecision::Delete);
    assert_eq!(bulk_delete_decision("pending", Some(4000), true), BulkDeleteDecision::DeleteStuck);
    assert_eq!(bulk_delete_decision("processing", Some(3600), true), BulkDeleteDecision::Skip);
    assert_eq!(bulk_delete_decision("processing", Some(5000), false), BulkDeleteDecision::Skip);
    assert_eq!(bulk_delete_decision("pending", None, true), BulkDeleteDecision::Skip);
    assert!(node_keeps_sources(Some(2), None));
    assert!(node_keeps_sources(Some(0), Some("x")));
    assert!(!node_keeps_sources(Some(0), Some("")));
    assert!(!node_keeps_sources(None, None));
    assert_eq!(document_id_of_metadata_key("abc-metadata"), "abc");
    assert_eq!(document_id_of_metadata_key("abc-metadata-metadata"), "abc");
    assert_eq!(document_id_of_metadata_key("abc"), "abc");
}

#[test]
fn readable_only_within_scope() {
    assert_eq!(check_readable(Some("t"), Some("w"), Some("t"), Some("w")), Ok(()));
    assert_eq!(check_readable(None, None, Some("t"), Some("w")), Ok(()));
    assert_eq!(check_readable(Some("x"), Some("w"), Some("t"), Some("w")), Err(ApiError::Forbidden));
    assert_eq!(check_readable(Some("t"), Some("x"), Some("t"), Some("w")), Err(ApiError::Forbidden));
}

#[test]
fn graph_cleanup_rules() {
    assert!(source_belongs_to("doc1-chunk-3", "doc1"));
    assert!(source_belongs_to("doc1", "doc1"));
    assert!(source_belongs_to("doc12", "doc1"));
    assert!(!source_belongs_to("other", "doc1"));
    let sources: Vec<String> = vec!["doc1-chunk-0".to_string(), "doc2-chunk-1".to_string()];
    assert_eq!(remaining_sources(&sources, "doc1"), vec!["doc2-chunk-1".to_string()]);
    assert_eq!(cleanup_action(false, &sources, "doc1"), CleanupAction::Update(vec!["doc2-chunk-1".to_string()]));
    assert_eq!(cleanup_action(false, &sources, "doc3"), CleanupAction::Keep);
    assert_eq!(cleanup_action(false, &vec!["doc1".to_string()], "doc1"), CleanupAction::Delete);
    assert_eq!(cleanup_action(false, &vec![], "doc1"), CleanupAction::NoSources);
    assert_eq!(cleanup_action(true, &sources, "doc3"), CleanupAction::Delete);
    let mut stats = CleanupStats::zero();
    stats.record_node(&CleanupAction::Delete, true);
    stats.record_node(&CleanupAction::Update(vec![]), true);
    stats.record_edge(&CleanupAction::Delete);
    assert_eq!(stats, CleanupStats { entities_removed: 1, entities_updated: 1, relationships_removed: 1, relationships_updated: 0, embeddings_deleted: 1 });
    assert_eq!(CleanupStats::default(), CleanupStats::zero());
    assert_eq!(split_source_id("a|b||c"), vec!["a".to_string(), "b".to_string(), String::new(), "c".to_string()]);
    assert_eq!(split_source_id(""), vec![String::new()]);
}

#[test]
fn listing_key_classification() {
    assert_eq!(classify_document_key("abc-metadata"), DocumentKeyKind::Metadata);
    assert_eq!(classify_document_key("abc-chunk-1"), DocumentKeyKind::Chunk("abc".to_string()));
    assert_eq!(classify_document_key("abc-chunk-1-chunk-2"), DocumentKeyKind::Chunk("abc".to_string()));
    assert_eq!(classify_document_key("x-content-chunk-1"), DocumentKeyKind::Other);
    assert_eq!(classify_document_key("abc-content"), DocumentKeyKind::Other);
    assert_eq!(track_chunk_owner("abc-chunk-1"), Some("abc".to_string()));
    assert_eq!(track_chunk_owner("hashkey"), Some("hashkey".to_string()));
    assert_eq!(track_chunk_owner("abc-metadata"), None);
}

#[test]
fn listing_counts_and_pages() {
    let statuses = vec![
        Some("pending".to_string()),
        None,
        Some("indexed".to_string()),
        Some("completed".to_string()),
        Some("failed".to_string()),
        Some("awaiting_schema".to_string()),
        Some("weird".to_string()),
    ];
    let c = count_statuses(&statuses);
    assert_eq!(c, StatusCounts { pending: 1, processing: 0, completed: 3, partial_failure: 0, failed: 1, cancelled: 0, uploaded: 0, awaiting_schema: 1 });
    let p = list_page(41);
    assert_eq!((p.total, p.page, p.page_size, p.total_pages, p.has_more), (41, 1, 20, 3, true));
    let p = list_page(20);
    assert_eq!((p.total_pages, p.has_more), (1, false));
    let p = list_page(0);
    assert_eq!((p.total_pages, p.has_more), (0, false));
    let e = empty_list_page();
    assert_eq!((e.page, e.page_size, e.total_pages), (1, 100, 0));
    assert!(matches_tenant_context(&Some("w".to_string()), &Some("t".to_string()), &Some("w".to_string()), &Some("t".to_string())));
    assert!(!matches_tenant_context(&None, &Some("t".to_string()), &Some("w".to_string()), &Some("t".to_string())));
}

#[test]
fn track_progress_lines() {
    let busy = StatusCounts { pending: 1, completed: 2, failed: 1, ..StatusCounts::default() };
    assert_eq!(track_progress(busy, 4), (false, "Processing 3/4 documents...".to_string()));
    let failed = StatusCounts { completed: 2, failed: 1, ..StatusCounts::default() };
    assert_eq!(track_progress(failed, 3), (true, "Completed with 1 errors".to_string()));
    assert_eq!(track_progress(StatusCounts::default(), 0), (true, "All documents processed successfully".to_string()));
}

#[test]
fn reingestion_message() {
    assert_eq!(reingested_message(3, 2, 10), "Document re-ingested: 3 entities, 2 relationships, 10 chunks");
}

#[test]
fn reading_needs_metadata_or_chunks() {
    assert_eq!(
        edgequake_api::document_store::require_document_found("d1", false, 0),
        Err(ApiError::NotFound("Document d1 not found".to_string()))
    );
    assert_eq!(edgequake_api::document_store::require_document_found("d1", true, 0), Ok(()));
    assert_eq!(edgequake_api::document_store::require_document_found("d1", false, 2), Ok(()));
}

#[test]
fn bulk_delete_tally_counts_every_record() {
    let keys: Vec<String> = ["a-metadata", "a-chunk-0", "a-chunk-1", "b-metadata", "b-chunk-0", "c-metadata", "c-chunk-0"]
        .iter()
        .map(|k| k.to_string())
        .collect();
    let ids: Vec<String> = ["a", "b", "c"].iter().map(|k| k.to_string()).collect();
    let decisions = vec![BulkDeleteDecision::Delete, BulkDeleteDecision::Skip, BulkDeleteDecision::DeleteStuck];
    assert_eq!(
        tally_bulk_delete(&keys, &ids, &decisions),
        BulkDeleteTally {
            deleted_count: 2,
            skipped_count: 1,
            skipped_documents: vec!["b".to_string()],
            total_chunks_deleted: 3,
        }
    );
    let none: Vec<String> = Vec::new();
    assert_eq!(
        tally_bulk_delete(&keys, &none, &Vec::new()),
        BulkDeleteTally { deleted_count: 0, skipped_count: 0, skipped_documents: Vec::new(), total_chunks_deleted: 0 }
    );
}

#[test]
fn document_detail_answer() {
    let keys: Vec<String> = ["d-metadata", "d-chunk-0", "d-chunk-1", "e-chunk-0"].iter().map(|k| k.to_string()).collect();
    assert_eq!(
        document_detail("d", &keys, true, Some("failed".to_string())),
        Ok(DocumentDetail { id: "d".to_string(), chunk_count: 2, status: "failed".to_string() })
    );
    assert_eq!(
        document_detail("d", &keys, true, None),
        Ok(DocumentDetail { id: "d".to_string(), chunk_count: 2, status: "completed".to_string() })
    );
    // A legacy document with chunks only reads as completed.
    assert_eq!(
        document_detail("e", &keys, false, None),
        Ok(DocumentDetail { id: "e".to_string(), chunk_count: 1, status: "completed".to_string() })
    );
    assert_eq!(
        document_detail("x", &keys, false, None),
        Err(ApiError::NotFound("Document x not found".to_string()))
    );
}

#[test]
fn resume_all_second_run_releases_nothing() {
    let ws = "w";
    assert_eq!(
        resume_all_decision(Some(ws), None, Some("awaiting_schema"), Some("d"), ws, None),
        ResumeAllDecision::Advance
    );
    // After the first run the document stands at `completed` (or `extracting`).
    assert_eq!(resume_all_decision(Some(ws), None, Some("completed"), Some("d"), ws, None), ResumeAllDecision::Skip);
    assert_eq!(resume_all_decision(Some(ws), None, Some("extracting"), Some("d"), ws, None), ResumeAllDecision::Skip);
}

#[test]
fn resume_all_twice_releases_once() {
    let ws = "w";
    let mut docs = vec![
        ("awaiting_schema", "a"),
        ("awaiting_schema", "b"),
        ("completed", "c"),
        ("awaiting_schema", ""),
    ];
    // First run: `a` advances and is extracted, `b` advances but another
    // caller got there first (left at extracting).
    let mut outcomes = Vec::new();
    for (k, (status, id)) in docs.iter_mut().enumerate() {
        let d = resume_all_decision(Some(ws), None, Some(*status), Some(*id), ws, None);
        let advanced = d == ResumeAllDecision::Advance && k == 0;
        outcomes.push(resume_all_outcome(d, advanced, true));
        if d == ResumeAllDecision::Advance {
            *status = if advanced { "completed" } else { "extracting" };
        }
    }
    assert_eq!(tally_resume_all(&outcomes), ResumeAllResponse { released: 1, skipped: 3 });
    // Second run: nothing advances, nothing is released.
    let mut again = Vec::new();
    for (status, id) in &docs {
        let d = resume_all_decision(Some(ws), None, Some(*status), Some(*id), ws, None);
        assert_ne!(d, ResumeAllDecision::Advance);
        again.push(resume_all_outcome(d, true, true));
    }
    assert_eq!(tally_resume_all(&again), ResumeAllResponse { released: 0, skipped: 4 });
    assert_eq!(resume_all_outcome(ResumeAllDecision::OutOfScope, true, true), ResumeAllOutcome::OutOfScope);
    assert_eq!(resume_all_outcome(ResumeAllDecision::Advance, true, false), ResumeAllOutcome::Skipped);
}
