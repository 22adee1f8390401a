use edgequake_api::batch::{
    batch_recorded, find_track, poll_result, reported_state, track_state_or_pending,
    workspace_track_keys, PollResult,
};
use edgequake_api::error::ApiError;
use edgequake_api::graph_view::{
    edge_type_or_default, edges_within, fresh_ids, graph_node_view, graph_truncated,
    search_needs_edges, search_truncated, stream_batch_count,
};
use edgequake_api::ids::parse_uuid;
use edgequake_api::namespace_config::{require_snapshot_uri, PipelineConfig};
use edgequake_api::namespaces::{preview_pending, preview_requested};
use edgequake_api::query_sources::{
    chunk_source, entity_source, reference_starts, relationship_source, rerank_keep,
    rerank_time_ms, sources_retrieved, tokens_used,
};
use edgequake_api::tasks::{cancel_targets, cancel_without_task};

fn s(v: &str) -> String {
    v.to_string()
}

fn strings(v: &[&str]) -> Vec<String> {
    v.iter().map(|x| x.to_string()).collect()
}

#[test]
fn graph_node_and_edge_defaults() {
    let n = graph_node_view("ALICE", None, None, 4);
    assert_eq!(n.id, "ALICE");
    assert_eq!(n.label, "ALICE");
    assert_eq!(n.node_type, "UNKNOWN");
    assert_eq!(n.description, "");
    assert_eq!(n.degree, 4);
    let n = graph_node_view("BOB", Some("PERSON"), Some("a person"), 0);
    assert_eq!((n.node_type.as_str(), n.description.as_str()), ("PERSON", "a person"));
    assert_eq!(edge_type_or_default(None), "RELATED_TO");
    assert_eq!(edge_type_or_default(Some("WORKS_AT")), "WORKS_AT");
}

#[test]
fn graph_edges_within_node_set() {
    let ids = strings(&["A", "B", "C"]);
    let edges = vec![
        (s("A"), s("B")),
        (s("A"), s("Z")),
        (s("C"), s("A")),
        (s("Y"), s("Z")),
    ];
    assert_eq!(edges_within(&ids, &edges), vec![0, 2]);
    assert_eq!(edges_within(&vec![], &edges), Vec::<usize>::new());
}

#[test]
fn graph_truncation_and_batches() {
    assert!(graph_truncated(true, 1, 10));
    assert!(graph_truncated(false, 11, 10));
    assert!(!graph_truncated(false, 10, 10));
    assert_eq!(stream_batch_count(0, 100), 0);
    assert_eq!(stream_batch_count(250, 100), 3);
    assert_eq!(stream_batch_count(200, 100), 2);
    assert!(search_truncated(10, 10));
    assert!(!search_truncated(9, 10));
    assert!(search_needs_edges(2));
    assert!(!search_needs_edges(1));
}

#[test]
fn search_neighbours_added_once() {
    let known = strings(&["A", "B"]);
    let candidates = strings(&["B", "C", "D", "C", "A", "E"]);
    assert_eq!(fresh_ids(&known, &candidates), vec![1, 2, 5]);
}

#[test]
fn query_source_texts() {
    let long = "x".repeat(250);
    let c = chunk_source("chunk-1", &long, 1);
    assert_eq!(c.source_type, "chunk");
    assert_eq!(c.snippet.as_deref().map(|t| t.len()), Some(200));
    assert_eq!(c.content, Some(long.clone()));
    let e = entity_source("ALICE", "", 2);
    assert_eq!(e.source_type, "entity");
    assert_eq!(e.snippet, Some(s("")));
    assert_eq!(e.content, None);
    let r = relationship_source("ALICE", "KNOWS", "BOB", 3);
    assert_eq!(r.id, "ALICE->BOB");
    assert_eq!(r.snippet, Some(s("ALICE KNOWS BOB")));
    assert_eq!(r.content, Some(s("ALICE KNOWS BOB")));
    assert_eq!(r.reference_id, 3);
    assert_eq!(reference_starts(2, 3, 1), (1, 3, 6));
    assert_eq!(sources_retrieved(2, 3, 1), 6);
    assert_eq!(tokens_used(0), None);
    assert_eq!(tokens_used(12), Some(12));
    assert_eq!(rerank_time_ms(true), Some(5));
    assert_eq!(rerank_time_ms(false), None);
    assert_eq!(rerank_keep(None), usize::MAX);
    assert_eq!(rerank_keep(Some(4)), 4);
}

#[test]
fn batch_track_lookup_and_ownership() {
    let ws = parse_uuid("00000000-0000-0000-0000-000000000001").unwrap();
    let keys = strings(&[
        "extraction_batch_track:00000000-0000-0000-0000-000000000001:ns-a",
        "extraction_batch_track:00000000-0000-0000-0000-000000000002:ns-a",
        "other",
        "extraction_batch_track:00000000-0000-0000-0000-000000000001:ns-b",
    ]);
    assert_eq!(
        workspace_track_keys(&keys, ws),
        strings(&[
            "extraction_batch_track:00000000-0000-0000-0000-000000000001:ns-a",
            "extraction_batch_track:00000000-0000-0000-0000-000000000001:ns-b",
        ])
    );
    let stored = vec![None, Some(s("batch_1")), Some(s("batch_2"))];
    assert!(batch_recorded(&stored, "batch_2"));
    assert!(!batch_recorded(&stored, "batch_3"));
    let tracks = vec![Some(s("t0")), None, Some(s("t2")), Some(s("t2"))];
    assert_eq!(find_track(&tracks, "t2"), Some(2));
    assert_eq!(find_track(&tracks, "t9"), None);
    assert_eq!(find_track(&tracks, ""), Some(1));
    assert_eq!(track_state_or_pending(None), "pending_without_batch_id");
    assert_eq!(track_state_or_pending(Some(s("submitted"))), "submitted");
}

#[test]
fn batch_poll_success_completes() {
    let done = poll_result(true, true, "completed", None);
    assert_eq!(done, PollResult::Completed);
    assert_eq!(reported_state("submitted", &done), "completed");
    let running = poll_result(false, false, "in_progress", None);
    assert_eq!(reported_state("submitted", &running), "submitted");
}

#[test]
fn batch_poll_failure_states() {
    let lost = poll_result(true, true, "completed", Some(s("404")));
    assert_eq!(lost, PollResult::DownloadFailed(s("Failed to download results: 404")));
    assert_eq!(reported_state("submitted", &lost), "failed");
    assert_eq!(poll_result(true, false, "expired", None), PollResult::Ended(s("expired")));
    assert_eq!(poll_result(true, false, "cancelled", None), PollResult::Ended(s("cancelled")));
    assert_eq!(poll_result(true, false, "failed", None), PollResult::Ended(s("failed")));
}

#[test]
fn cancel_marks_track_documents() {
    let tracks = vec![Some(s("t1")), None, Some(s("t2")), Some(s("t1"))];
    assert_eq!(cancel_targets(&tracks, "t1"), vec![0, 3]);
    assert_eq!(cancel_targets(&tracks, "t3"), Vec::<usize>::new());
    assert_eq!(cancel_without_task("t1", true), Ok(()));
    assert_eq!(
        cancel_without_task("t3", false),
        Err(ApiError::NotFound(s("Task not found: t3")))
    );
}

#[test]
fn preview_and_snapshot_answers() {
    let p = preview_requested("my-ns");
    assert_eq!(p.namespace, "my-ns");
    assert_eq!(p.status, "requested");
    assert_eq!(p.message, "Preview request recorded; poll GET /preview for progress");
    assert_eq!(preview_pending("ns", None).status, "none");
    assert_eq!(preview_pending("ns", Some(s("processing"))).status, "processing");
    let mut c = PipelineConfig::default();
    assert_eq!(
        require_snapshot_uri(&c, "ns"),
        Err(ApiError::BadRequest(s(
            "Cannot export snapshot for namespace 'ns': snapshot_uri is not configured. Set snapshot_uri in the pipeline config first."
        )))
    );
    c.snapshot_uri = Some(s("s3://bucket/ns"));
    assert_eq!(require_snapshot_uri(&c, "ns"), Ok(s("s3://bucket/ns")));
}

#[test]
fn test_preview_response_none_body() {
    let body = preview_pending("my-ns", None);
    assert_eq!(body.status, "none");
    assert_eq!(body.namespace, "my-ns");
}

#[test]
fn test_preview_response_requested_body() {
    let body = preview_requested("my-ns");
    assert_eq!(body.status, "requested");
}
