use edgequake_api::deletion_impact::{
    analyze_deletion_impact, cleanup_tally, item_sources, EdgeSources, NodeSources,
};
use edgequake_api::error::ApiError;
use edgequake_api::ids::{parse_uuid, uuid_problem};
use edgequake_api::ingest::{
    duplicate_file_response, duplicate_still_processing, eq_ignore_ascii_case_text,
    not_a_directory, require_file_content, scan_skip_reason, uploaded_file_response,
};
use edgequake_api::requeue::{
    find_stuck, insert_task_scope, select_for_reprocess, select_stuck, select_stuck_since,
    MetadataRecord, ReprocessFilter, MAX_STUCK_THRESHOLD_MINUTES,
};
use edgequake_api::text::trim_text;
use edgequake_api::track_ids::{compose_track_id, new_document_id, new_track_id, track_id_or_new};
use edgequake_api::vector_storage::{storage_failure, storage_start, StorageFailure, StorageStart};
use edgequake_api::workspace_purge::{plan_workspace_purge, PurgeEntry};

fn s(v: &str) -> String {
    v.to_string()
}

fn strings(v: &[&str]) -> Vec<String> {
    v.iter().map(|x| x.to_string()).collect()
}

fn rec(id: &str, status: &str, track: Option<&str>) -> Option<MetadataRecord> {
    Some(MetadataRecord {
        id: Some(s(id)),
        status: Some(s(status)),
        track_id: track.map(s),
        title: None,
        updated_at: None,
    })
}

fn node(id: &str, sources: &[&str]) -> NodeSources {
    NodeSources { id: s(id), sources: strings(sources) }
}

fn edge(from: &str, to: &str, sources: &[&str]) -> EdgeSources {
    EdgeSources { source: s(from), target: s(to), sources: strings(sources) }
}

#[test]
fn deletion_impact_counts_sources() {
    let keys = strings(&["doc1-metadata", "doc1-chunk-0", "doc1-chunk-1", "doc2-metadata"]);
    let nodes = vec![
        node("n1", &["doc1-chunk-0", "doc1-chunk-1"]),
        node("n2", &["doc1-chunk-0", "doc2-chunk-0"]),
        node("n3", &["doc2-chunk-0"]),
        node("n4", &[]),
        // A node that names its sources only in `source_ids` is counted too.
        NodeSources { id: s("n5"), sources: item_sources(Some(strings(&["doc1"])), None) },
    ];
    let edges = vec![
        edge("n3", "n4", &["doc1"]),
        edge("n3", "n4", &["doc2", "doc1-chunk-3"]),
        // Loses its endpoint n1 with the deletion.
        edge("n1", "n3", &["doc2"]),
        // Already dangling.
        edge("n3", "missing", &[]),
        edge("n2", "n3", &["doc2"]),
    ];
    let impact = analyze_deletion_impact("doc1", &keys, &nodes, &edges).unwrap();
    assert_eq!(impact.document_id, "doc1");
    assert_eq!(impact.chunks_to_delete, 2);
    assert_eq!(impact.entities_to_remove, 2);
    assert_eq!(impact.entities_to_update, 1);
    assert_eq!(impact.relationships_to_remove, 3);
    assert_eq!(impact.relationships_to_update, 1);
    assert!(impact.preview_only);
    // The clean-up itself records exactly what the preview announced.
    let stats = cleanup_tally(&nodes, &edges, "doc1", true);
    assert_eq!(
        (stats.entities_removed, stats.entities_updated, stats.relationships_removed, stats.relationships_updated),
        (impact.entities_to_remove, impact.entities_to_update, impact.relationships_to_remove, impact.relationships_to_update)
    );
    assert_eq!(stats.embeddings_deleted, 2);
    assert_eq!(cleanup_tally(&nodes, &edges, "doc1", false).embeddings_deleted, 0);
    assert_eq!(
        analyze_deletion_impact("doc9", &keys, &nodes, &edges),
        Err(ApiError::NotFound(s("Document doc9 not found")))
    );
}

#[test]
fn graph_item_source_lists() {
    assert_eq!(item_sources(None, Some("a|b")), strings(&["a", "b"]));
    assert_eq!(item_sources(Some(strings(&["x"])), Some("a|b")), strings(&["x"]));
    assert_eq!(item_sources(None, None), Vec::<String>::new());
}

#[test]
fn reprocess_selects_failed_documents() {
    let recs = vec![
        rec("a", "failed", Some("t1")),
        rec("b", "completed", Some("t1")),
        None,
        rec("c", "failed", Some("t2")),
        rec("d", "failed", Some("t1")),
    ];
    let all = ReprocessFilter { document_id: None, track_id: None, force: false, max_documents: 10 };
    assert_eq!(select_for_reprocess(&recs, &all), strings(&["a", "c", "d"]));
    let capped = ReprocessFilter { max_documents: 2, ..all.clone() };
    assert_eq!(select_for_reprocess(&recs, &capped), strings(&["a", "c"]));
    let by_track = ReprocessFilter { track_id: Some(s("t1")), ..all.clone() };
    assert_eq!(select_for_reprocess(&recs, &by_track), strings(&["a", "d"]));
    let one_completed = ReprocessFilter { document_id: Some(s("b")), ..all.clone() };
    assert_eq!(select_for_reprocess(&recs, &one_completed), Vec::<String>::new());
    let forced = ReprocessFilter { document_id: Some(s("b")), force: true, ..all.clone() };
    assert_eq!(select_for_reprocess(&recs, &forced), strings(&["b"]));
    let none = ReprocessFilter { max_documents: 0, ..all };
    assert_eq!(select_for_reprocess(&recs, &none), Vec::<String>::new());
}

#[test]
fn recovery_selects_stuck_processing() {
    let mut old = rec("a", "processing", None).unwrap();
    old.updated_at = Some(s("2020-01-01T00:00:00Z"));
    old.title = Some(s("Report"));
    let mut fresh = rec("b", "processing", None).unwrap();
    fresh.updated_at = Some(s("2030-01-01T00:00:00+00:00"));
    let mut unparsable = rec("c", "processing", None).unwrap();
    unparsable.updated_at = Some(s("yesterday"));
    let no_time = rec("d", "processing", None);
    let done = rec("e", "completed", None);
    let recs = vec![Some(old), Some(fresh), Some(unparsable), no_time, done];
    // 2025-01-01T00:00:00Z
    let cutoff = (1735689600i64, 0u32);
    assert_eq!(
        select_stuck(&recs, &None, cutoff, 10),
        vec![(s("a"), s("Report")), (s("c"), s("c")), (s("d"), s("d"))]
    );
    assert_eq!(select_stuck(&recs, &Some(strings(&["c", "x"])), cutoff, 10), vec![(s("c"), s("c"))]);
    assert_eq!(select_stuck(&recs, &None, cutoff, 1), vec![(s("a"), s("Report"))]);
}

#[test]
fn requeue_task_scope_needs_uuids() {
    let t = s("6f1c2a9e-4b7d-4e21-9a3c-0d5e8f7a6b41");
    let w = s("00000000-0000-0000-0000-000000000003");
    assert_eq!(
        insert_task_scope(&Some(t.clone()), &Some(w.clone())),
        Ok((parse_uuid(&t).unwrap(), 3))
    );
    assert_eq!(
        insert_task_scope(&None, &Some(w.clone())),
        Err(ApiError::ValidationError(s("Invalid tenant ID")))
    );
    assert_eq!(
        insert_task_scope(&Some(t), &None),
        Err(ApiError::ValidationError(s("Invalid workspace ID")))
    );
}

#[test]
fn scan_skip_reasons() {
    let exts = strings(&["md", "TXT"]);
    let ok = Ok(s("hello"));
    assert_eq!(scan_skip_reason(&exts, Some("MD"), &ok, 100), None);
    assert_eq!(scan_skip_reason(&exts, Some("txt"), &ok, 100), None);
    assert_eq!(
        scan_skip_reason(&exts, Some("pdf"), &ok, 100),
        Some(s("Extension .pdf not in filter list"))
    );
    assert_eq!(scan_skip_reason(&exts, None, &ok, 100), Some(s("No extension")));
    assert_eq!(scan_skip_reason(&vec![], None, &ok, 100), None);
    assert_eq!(
        scan_skip_reason(&vec![], None, &Err(s("permission denied")), 100),
        Some(s("Failed to read: permission denied"))
    );
    assert_eq!(scan_skip_reason(&vec![], None, &Ok(s(" \n\t ")), 100), Some(s("Empty file")));
    assert_eq!(
        scan_skip_reason(&vec![], None, &Ok(s("héllo")), 5),
        Some(s("Exceeds max size (6 > 5)"))
    );
    assert!(eq_ignore_ascii_case_text("ReadMe", "rEADME"));
    assert!(!eq_ignore_ascii_case_text("Ä", "ä"));
    assert_eq!(
        not_a_directory("/tmp/x"),
        ApiError::BadRequest(s("Path is not a directory: /tmp/x"))
    );
}

#[test]
fn trim_matches_str_trim() {
    for t in ["  a b  ", "\u{3000}x\u{85}", "", "   ", "abc", "\u{2028}\tq\r\n"] {
        assert_eq!(trim_text(t), t.trim());
    }
}

#[test]
fn upload_answers() {
    assert_eq!(require_file_content(0), Err(ApiError::BadRequest(s("No file provided"))));
    assert_eq!(require_file_content(3), Ok(()));
    assert_eq!(duplicate_still_processing(Some(s("d1")), Some(false)), Some(s("d1")));
    assert_eq!(duplicate_still_processing(Some(s("d1")), Some(true)), None);
    assert_eq!(duplicate_still_processing(Some(s("d1")), None), None);
    assert_eq!(duplicate_still_processing(None, Some(false)), None);
    let d = duplicate_file_response(s("d1"), s("a.txt"), 12, s("abc"));
    assert_eq!(d.status, "duplicate_processing");
    assert!(d.is_duplicate);
    let u = uploaded_file_response(s("a.txt"), 12, s("abc"), "awaiting_schema");
    assert_eq!(u.document_id, "abc");
    assert_eq!(u.status, "awaiting_schema");
    assert!(!u.is_duplicate);
}

#[test]
fn track_ids_have_their_shape() {
    assert_eq!(
        compose_track_id("scan", "20260101_120000", 0x6f1c2a9e_4b7d_4e21_9a3c_0d5e8f7a6b41),
        "scan_20260101_120000_6f1c2a9e"
    );
    let t = new_track_id("reprocess", false);
    assert!(t.starts_with("reprocess_"));
    assert_eq!(t.len(), "reprocess_".len() + 15 + 1 + 8);
    let c = new_track_id("upload", true);
    assert_eq!(c.len(), "upload_".len() + 14 + 1 + 8);
    let stamp = &t["reprocess_".len().."reprocess_".len() + 15];
    assert!(stamp.chars().all(|ch| ch.is_ascii_digit() || ch == '_'));
    assert_eq!(&stamp[8..9], "_");
    assert_eq!(track_id_or_new(Some(s("mine")), "upload"), "mine");
    assert!(track_id_or_new(None, "upload").starts_with("upload_"));
    let d = new_document_id();
    assert_eq!(d.len(), 36);
    assert!(parse_uuid(&d).is_some());
}

#[test]
fn workspace_purge_keys() {
    let keys = strings(&[
        "d1-metadata",
        "d1-content",
        "d1-chunk-0",
        "d1-chunk-1",
        "d2-metadata",
        "d2-chunk-0",
        "d3-metadata",
    ]);
    let entries = vec![
        PurgeEntry { metadata_key: s("d1-metadata"), workspace: Some(Some(s("ws"))) },
        PurgeEntry { metadata_key: s("d2-metadata"), workspace: Some(Some(s("other"))) },
        PurgeEntry { metadata_key: s("d3-metadata"), workspace: None },
    ];
    let plan = plan_workspace_purge(&keys, &entries, "ws");
    assert_eq!(
        plan.keys,
        strings(&["d1-metadata", "d1-content", "d1-chunk-0", "d1-chunk-1"])
    );
    assert_eq!(plan.documents, 1);
    assert_eq!(plan.chunks, 2);
    let defaults = vec![PurgeEntry { metadata_key: s("d3-metadata"), workspace: Some(None) }];
    let plan = plan_workspace_purge(&keys, &defaults, "default");
    assert_eq!(plan.keys, strings(&["d3-metadata", "d3-content"]));
    assert_eq!((plan.documents, plan.chunks), (1, 0));
}

#[test]
fn vector_storage_choice() {
    assert_eq!(storage_start("default", false), StorageStart::Lookup(3));
    assert_eq!(storage_start("", false), StorageStart::Lookup(3));
    assert_eq!(storage_start("bogus", true), StorageStart::UseDefault);
    match storage_start("bogus", false) {
        StorageStart::Refuse(ApiError::BadRequest(m)) => assert_eq!(
            m,
            format!(
                "Invalid workspace ID 'bogus': {}. Document ingestion requires a valid workspace.",
                uuid_problem("bogus").unwrap()
            )
        ),
        other => panic!("expected a refusal, got {:?}", other),
    }
    assert_eq!(storage_failure("w", StorageFailure::NotFound, true), Ok(()));
    assert_eq!(
        storage_failure("w", StorageFailure::NotFound, false),
        Err(ApiError::NotFound(s(
            "Workspace 'w' not found. Cannot ingest documents without a valid workspace."
        )))
    );
    assert_eq!(
        storage_failure("w", StorageFailure::LookupFailed(s("db down")), false),
        Err(ApiError::Internal(s("Failed to lookup workspace 'w': db down")))
    );
    assert_eq!(
        storage_failure(
            "w",
            StorageFailure::CreateFailed { dimension: 1536, error: s("timeout") },
            false
        ),
        Err(ApiError::Internal(s(
            "Failed to create vector storage for workspace 'w' (dimension 1536): timeout. This is a critical error - please check database connectivity and configuration."
        )))
    );
}

#[test]
fn uuid_problems_are_named() {
    assert!(uuid_problem("bogus").is_some());
    assert!(!uuid_problem("bogus").unwrap().is_empty());
    assert_eq!(uuid_problem("00000000-0000-0000-0000-000000000003"), None);
}

#[test]
fn recovery_threshold_counts_back_from_now() {
    let mut a = rec("a", "processing", None).unwrap();
    // 2025-01-01T00:00:00Z
    a.updated_at = Some(s("2025-01-01T00:00:00Z"));
    let recs = vec![Some(a)];
    // One hour later.
    let now = (1735689600i64 + 3600, 0u32);
    assert_eq!(select_stuck_since(&recs, &None, now, 30, 10), vec![(s("a"), s("a"))]);
    assert_eq!(select_stuck_since(&recs, &None, now, 60, 10), Vec::<(String, String)>::new());
    assert_eq!(select_stuck_since(&recs, &None, (now.0, 1), 60, 10), vec![(s("a"), s("a"))]);
    assert_eq!(select_stuck_since(&recs, &None, now, 90, 10), Vec::<(String, String)>::new());
    // By the real clock the 2025 record is stuck for a one-minute threshold,
    // and not for one reaching back before it was written.
    assert_eq!(find_stuck(&recs, &None, 1, 10), vec![(s("a"), s("a"))]);
    assert_eq!(find_stuck(&recs, &None, 100_000_000, 10), Vec::<(String, String)>::new());
}

#[test]
fn stuck_threshold_limit_is_chronos_earliest_instant() {
    let earliest = chrono::DateTime::<chrono::Utc>::MIN_UTC.timestamp();
    assert_eq!(earliest, -(MAX_STUCK_THRESHOLD_MINUTES as i64) * 60);
}
