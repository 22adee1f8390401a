use edgequake_api::error::ApiError;
use edgequake_api::rebuild::{
    compatibility_warning, context_length_or_default, document_chunk_count,
    embedding_rebuild_job, estimated_time_seconds, graph_rebuild_clears_vectors,
    graph_rebuild_estimate, graph_rebuild_job, graph_rebuild_status, graph_rebuild_vectors_cleared,
    plan_embedding_rebuild, plan_graph_rebuild, rebuild_status, rebuild_takes_document,
};
use edgequake_api::requeue::{list_failed_chunks, retry_failed_chunks};
use edgequake_api::slug::{generate_slug, slug_from_lowercase};
use edgequake_api::stats_cache::{table_stats, StatsCache, WorkspaceStats, STATS_CACHE_TTL_NANOS};
use edgequake_api::tenants::{
    apply_tenant_update, tenant_embedding_choice, tenant_llm_choice, tenant_not_found,
    EmbeddingChoice, LlmChoice, TenantFields, UpdateTenantRequest,
};
use edgequake_api::workspaces::{
    check_requested_tenant_id, check_workspace_owner, full_model_id, inherit_workspace_models,
    listing_limit, metrics_history_window, page_window, parse_plan, reprocess_decision,
    workspace_document_stats, workspace_document_stats_checked, workspaces_default_limit, DocStatRecord, MetricsHistoryParams,
    PaginationParams, ReprocessDecision, TenantPlan, WorkspaceModels, reprocess_has_room,
    reprocess_report, reprocess_start, reprocess_step, ReprocessTally,
};

/// Whether `s` satisfies the namespace slug rules: 1-63 lowercase ASCII
/// letters, digits or hyphens, not starting or ending with a hyphen.
fn is_namespace_slug(s: &str) -> bool {
    !s.is_empty()
        && s.len() <= 63
        && s.chars().all(|c| c.is_ascii_lowercase() || c.is_ascii_digit() || c == '-')
        && !s.starts_with('-')
        && !s.ends_with('-')
}

#[test]
fn test_generate_slug() {
    assert_eq!(generate_slug("My Knowledge Base"), "my-knowledge-base");
    assert_eq!(generate_slug("Test 123!"), "test-123");
    assert_eq!(generate_slug("  multiple   spaces  "), "multiple-spaces");
}

#[test]
fn test_generate_slug_edge_cases() {
    assert_eq!(generate_slug(""), "");
    assert_eq!(generate_slug("UPPERCASE"), "uppercase");
    assert_eq!(generate_slug("already-slug"), "already-slug");
    assert_eq!(generate_slug("123"), "123");
}

#[test]
fn test_generate_slug_namespace_compatible() {
    let long_name = "a".repeat(80);
    let slug = generate_slug(&long_name);
    assert_eq!(slug.len(), 63);
    assert!(is_namespace_slug(&slug));
    let name_with_sep = format!("{}-{}", "a".repeat(62), "b".repeat(20));
    let slug = generate_slug(&name_with_sep);
    assert!(!slug.ends_with('-'));
    assert!(is_namespace_slug(&slug));
    assert_eq!(generate_slug("café au lait"), "caf-au-lait");
    assert!(is_namespace_slug(&generate_slug("café au lait")));
    assert_eq!(generate_slug("!!!"), "");
}

#[test]
fn slug_from_lowercase_collapses_and_caps() {
    assert_eq!(slug_from_lowercase("--a--b--"), "a-b");
    assert_eq!(slug_from_lowercase("a_b.c"), "a-b-c");
    let s = slug_from_lowercase(&format!("{}--x", "y".repeat(62)));
    assert_eq!(s, "y".repeat(62));
    assert!(is_namespace_slug(&slug_from_lowercase("Mixed Case Kept")) == false);
    assert_eq!(slug_from_lowercase("Mixed Case Kept"), "Mixed-Case-Kept");
}

#[test]
fn test_pagination_params_defaults() {
    let p = PaginationParams::default();
    assert_eq!(p.offset, 0);
    assert_eq!(p.limit, 20);
    assert_eq!(workspaces_default_limit(), 20);
}

#[test]
fn plans_and_tenant_ids() {
    assert_eq!(parse_plan(Some("basic")), TenantPlan::Basic);
    assert_eq!(parse_plan(Some("pro")), TenantPlan::Pro);
    assert_eq!(parse_plan(Some("enterprise")), TenantPlan::Enterprise);
    assert_eq!(parse_plan(Some("Pro")), TenantPlan::Free);
    assert_eq!(parse_plan(None), TenantPlan::Free);
    assert_eq!(TenantPlan::Enterprise.as_str(), "enterprise");
    assert_eq!(check_requested_tenant_id(None, None), Ok(()));
    assert_eq!(check_requested_tenant_id(Some(5), Some(5)), Ok(()));
    assert_eq!(check_requested_tenant_id(Some(5), Some(6)), Err(ApiError::Forbidden));
    assert_eq!(check_requested_tenant_id(Some(5), None), Err(ApiError::Forbidden));
    assert_eq!(full_model_id("ollama", "gemma3:12b"), "ollama/gemma3:12b");
}

#[test]
fn listing_windows() {
    assert_eq!(listing_limit(500), 100);
    assert_eq!(listing_limit(7), 7);
    assert_eq!(page_window(vec![1, 2, 3, 4, 5], 1, 2), vec![2, 3]);
    assert_eq!(page_window(vec![1, 2, 3], 2, 10), vec![3]);
    assert_eq!(page_window(vec![1, 2, 3], 5, 10), Vec::<i32>::new());
    assert_eq!(metrics_history_window(&MetricsHistoryParams { limit: None, offset: None }), (100, 0));
    assert_eq!(metrics_history_window(&MetricsHistoryParams { limit: Some(5000), offset: Some(3) }), (1000, 3));
}

#[test]
fn workspace_models_inherit_defaults() {
    let defaults = WorkspaceModels {
        llm_model: "gemma3:12b".to_string(),
        llm_provider: "ollama".to_string(),
        embedding_model: "text-embedding-3-small".to_string(),
        embedding_provider: "openai".to_string(),
        embedding_dimension: 1536,
    };
    let m = inherit_workspace_models(Some("gpt-4o".to_string()), None, None, None, Some(768), defaults);
    assert_eq!(m.llm_model, "gpt-4o");
    assert_eq!(m.llm_provider, "ollama");
    assert_eq!(m.embedding_model, "text-embedding-3-small");
    assert_eq!(m.embedding_dimension, 768);
}

#[test]
fn submit_cross_tenant_not_found() {
    let ws = "00000000-0000-0000-0000-000000000001";
    assert_eq!(
        check_workspace_owner(ws, "tenant-a", Some("tenant-b")),
        Err(ApiError::NotFound(format!("Workspace {} not found", ws)))
    );
    assert_eq!(check_workspace_owner(ws, "tenant-a", Some("tenant-a")), Ok(()));
    assert_eq!(check_workspace_owner(ws, "tenant-a", None), Ok(()));
}

#[test]
fn workspace_stats_from_metadata() {
    let ws: u128 = 1;
    let docs = vec![
        DocStatRecord { workspace_id: Some("00000000-0000-0000-0000-000000000001".to_string()), file_size_bytes: Some(10) },
        DocStatRecord { workspace_id: Some("00000000000000000000000000000001".to_string()), file_size_bytes: None },
        DocStatRecord { workspace_id: Some("00000000-0000-0000-0000-000000000002".to_string()), file_size_bytes: Some(99) },
        DocStatRecord { workspace_id: Some("default".to_string()), file_size_bytes: Some(5) },
        DocStatRecord { workspace_id: None, file_size_bytes: Some(5) },
    ];
    assert_eq!(workspace_document_stats(&docs, ws), (2, 10));
    let big = vec![
        DocStatRecord { workspace_id: Some("00000000-0000-0000-0000-000000000001".to_string()), file_size_bytes: Some(u64::MAX - 1) },
        DocStatRecord { workspace_id: Some("00000000-0000-0000-0000-000000000001".to_string()), file_size_bytes: Some(1) },
    ];
    assert_eq!(workspace_document_stats(&big, ws), (2, u64::MAX));
    assert_eq!(workspace_document_stats_checked(&big, ws), Some((2, u64::MAX)));
    assert_eq!(workspace_document_stats_checked(&docs, ws), Some((2, 10)));
    let over = vec![
        DocStatRecord { workspace_id: Some("00000000-0000-0000-0000-000000000001".to_string()), file_size_bytes: Some(u64::MAX) },
        DocStatRecord { workspace_id: Some("00000000-0000-0000-0000-000000000001".to_string()), file_size_bytes: Some(1) },
    ];
    assert_eq!(workspace_document_stats_checked(&over, ws), None);
}

#[test]
fn reprocess_choices() {
    let ws = "w";
    assert_eq!(reprocess_decision(Some("other"), None, true, ws, false), ReprocessDecision::WrongWorkspace);
    assert_eq!(reprocess_decision(None, Some("completed"), true, ws, false), ReprocessDecision::CompletedExcluded);
    assert_eq!(reprocess_decision(Some("w"), Some("completed"), true, ws, true), ReprocessDecision::Queue);
    assert_eq!(reprocess_decision(Some("default"), Some("processing"), true, ws, true), ReprocessDecision::AlreadyProcessing);
    assert_eq!(reprocess_decision(Some("w"), Some("failed"), false, ws, true), ReprocessDecision::NoDocId);
}

#[test]
fn rebuild_plans() {
    let err = plan_embedding_rebuild(None, None, None, "m".to_string(), "p".to_string(), 768, Some(1024), false);
    assert_eq!(err, Err(ApiError::BadRequest("Embedding configuration unchanged. Use 'force: true' to rebuild anyway.".to_string())));
    let forced = plan_embedding_rebuild(None, None, None, "m".to_string(), "p".to_string(), 768, Some(1024), true).unwrap();
    assert_eq!((forced.dimension, forced.changed), (768, false));
    let moved = plan_embedding_rebuild(Some("m2".to_string()), None, None, "m".to_string(), "p".to_string(), 768, Some(1024), false).unwrap();
    assert_eq!((moved.model.as_str(), moved.dimension, moved.changed), ("m2", 1024, true));
    let unknown = plan_embedding_rebuild(Some("m2".to_string()), None, None, "m".to_string(), "p".to_string(), 768, None, false).unwrap();
    assert_eq!(unknown.dimension, 768);
    let dim_only = plan_embedding_rebuild(None, None, Some(512), "m".to_string(), "p".to_string(), 768, None, false).unwrap();
    assert!(dim_only.changed);
    assert_eq!(
        plan_graph_rebuild(None, None, "m".to_string(), "p".to_string(), false),
        Err(ApiError::BadRequest("LLM configuration unchanged. Use 'force: true' to rebuild anyway.".to_string()))
    );
    let g = plan_graph_rebuild(None, Some("q".to_string()), "m".to_string(), "p".to_string(), false).unwrap();
    assert!(g.changed);
    assert_eq!(context_length_or_default(None), 8192);
    assert_eq!(
        compatibility_warning(512),
        Some("Default chunk size (1200 tokens) exceeds model's context length (512 tokens). Some chunks may fail to embed.".to_string())
    );
    assert_eq!(compatibility_warning(0), None);
    assert_eq!(compatibility_warning(8192), None);
    assert_eq!(rebuild_status(2, 0), "processing");
    assert_eq!(rebuild_status(0, 3), "vectors_cleared");
    assert_eq!(rebuild_status(0, 0), "no_change");
    assert_eq!(estimated_time_seconds(4), Some(4));
    assert_eq!(estimated_time_seconds(0), None);
    assert!(rebuild_takes_document(None, true, "w"));
    assert!(!rebuild_takes_document(Some("x"), true, "w"));
    assert!(!rebuild_takes_document(Some("w"), false, "w"));
    assert_eq!(document_chunk_count(None), 1);
    assert_eq!(document_chunk_count(Some(7)), 7);
}

#[test]
fn tenant_model_choices() {
    assert_eq!(
        tenant_llm_choice(Some("gpt-4o".to_string()), Some("openai".to_string())),
        LlmChoice::Given { model: "gpt-4o".to_string(), provider: "openai".to_string() }
    );
    assert_eq!(
        tenant_llm_choice(Some("gpt-4o".to_string()), None),
        LlmChoice::DetectProvider { model: "gpt-4o".to_string() }
    );
    assert_eq!(tenant_llm_choice(None, Some("openai".to_string())), LlmChoice::Keep);
    assert_eq!(
        tenant_embedding_choice(Some("e".to_string()), Some("p".to_string()), Some(768)),
        EmbeddingChoice::Given { model: "e".to_string(), provider: "p".to_string(), dimension: 768 }
    );
    assert_eq!(
        tenant_embedding_choice(Some("e".to_string()), None, Some(768)),
        EmbeddingChoice::Detect { model: "e".to_string(), provider: None, dimension: Some(768) }
    );
    assert_eq!(tenant_embedding_choice(None, Some("p".to_string()), Some(1)), EmbeddingChoice::Keep);
}

#[test]
fn tenant_updates_apply_given_fields() {
    let t = TenantFields {
        name: "Acme".to_string(),
        description: None,
        is_active: true,
        plan: TenantPlan::Free,
        updated_at: 1,
    };
    let same = apply_tenant_update(t.clone(), UpdateTenantRequest::default(), 5);
    assert_eq!(same, TenantFields { updated_at: 5, ..t.clone() });
    let u = UpdateTenantRequest {
        name: Some("Acme Corp".to_string()),
        description: Some("d".to_string()),
        is_active: Some(false),
        plan: Some("pro".to_string()),
    };
    let r = apply_tenant_update(t.clone(), u, 7);
    assert_eq!(r.name, "Acme Corp");
    assert_eq!(r.description.as_deref(), Some("d"));
    assert!(!r.is_active);
    assert_eq!(r.plan, TenantPlan::Pro);
    let bad_plan = UpdateTenantRequest { plan: Some("platinum".to_string()), ..UpdateTenantRequest::default() };
    assert_eq!(apply_tenant_update(t, bad_plan, 9).plan, TenantPlan::Free);
    assert_eq!(tenant_not_found("t1"), ApiError::NotFound("Tenant t1 not found".to_string()));
}

#[test]
fn chunk_retry_and_listing_answers() {
    assert_eq!(
        retry_failed_chunks("d1", false, vec![1]),
        Err(ApiError::NotFound("Document d1 not found".to_string()))
    );
    let r = retry_failed_chunks("d1", true, vec![2, 5]).unwrap();
    assert_eq!(r.chunks_queued, 2);
    assert_eq!(r.chunk_indices, vec![2, 5]);
    assert!(!r.implemented);
    let l = list_failed_chunks("d1", Some(Some(12))).unwrap();
    assert_eq!((l.total_chunks, l.successful_chunks), (12, 12));
    assert_eq!(list_failed_chunks("d1", Some(None)).unwrap().total_chunks, 0);
    assert_eq!(
        list_failed_chunks("d2", None),
        Err(ApiError::NotFound("Document d2 not found".to_string()))
    );
}

fn stats(ws: u128, docs: usize) -> WorkspaceStats {
    WorkspaceStats {
        workspace_id: ws,
        document_count: docs,
        entity_count: 3,
        relationship_count: 2,
        entity_type_count: 1,
        chunk_count: 4,
        embedding_count: 4,
        storage_bytes: 10,
    }
}

#[test]
fn stats_cache_serves_fresh_answers() {
    let mut c = StatsCache::new();
    assert_eq!(c.get_fresh(1, 0), None);
    c.store(1, stats(1, 5), 1_000);
    c.store(2, stats(2, 7), 1_000);
    assert_eq!(c.get_fresh(1, 1_000), Some(stats(1, 5)));
    assert_eq!(c.get_fresh(1, 1_000 + STATS_CACHE_TTL_NANOS - 1), Some(stats(1, 5)));
    assert_eq!(c.get_fresh(1, 1_000 + STATS_CACHE_TTL_NANOS), None);
    assert_eq!(c.get_fresh(1, 10), Some(stats(1, 5)));
    c.invalidate(1);
    assert_eq!(c.get_fresh(1, 1_000), None);
    assert_eq!(c.get_fresh(2, 1_000), Some(stats(2, 7)));
}

#[test]
fn stats_from_documents_table() {
    assert_eq!(table_stats(None, 9), None);
    assert_eq!(table_stats(Some(stats(1, 0)), 9), None);
    let s = table_stats(Some(stats(1, 5)), 9).unwrap();
    assert_eq!(s.entity_type_count, 9);
    assert_eq!(s.document_count, 5);
}

#[test]
fn graph_rebuild_report() {
    assert_eq!(graph_rebuild_status(3, 10, 4), "processing");
    assert_eq!(graph_rebuild_status(0, 10, 0), "graph_cleared");
    assert_eq!(graph_rebuild_status(0, 0, 2), "graph_cleared");
    assert_eq!(graph_rebuild_status(0, 0, 0), "no_change");
    assert_eq!(graph_rebuild_estimate(7), Some(14));
    assert_eq!(graph_rebuild_estimate(0), None);
}

#[test]
fn embedding_rebuild_job_only_with_documents() {
    assert_eq!(embedding_rebuild_job(0), None);
    let job = embedding_rebuild_job(5).expect("a job for a workspace with documents");
    assert!(job.starts_with("rebuild_embed_"));
    // prefix, `_`, 15-character stamp, `_`, 8 hex digits
    assert_eq!(job.len(), "rebuild_embed".len() + 1 + 15 + 1 + 8);
}

#[test]
fn reprocess_run_counts_and_cap() {
    let max = 2;
    let mut t = reprocess_start();
    let run = [
        (ReprocessDecision::WrongWorkspace, false),
        (ReprocessDecision::Queue, true),
        (ReprocessDecision::AlreadyProcessing, false),
        (ReprocessDecision::Queue, false),
        (ReprocessDecision::Queue, true),
        (ReprocessDecision::Queue, true),
    ];
    for (d, sent) in run {
        if !reprocess_has_room(t, max) {
            break;
        }
        t = reprocess_step(t, d, sent, max);
    }
    assert_eq!(t, ReprocessTally { documents_found: 4, documents_queued: 2, documents_skipped: 2 });
    assert_eq!(t.documents_found, t.documents_queued + t.documents_skipped);
    // Past the cap a step counts nothing.
    assert_eq!(reprocess_step(t, ReprocessDecision::Queue, true, max), t);
    assert_eq!(reprocess_report(2), ("processing", Some(2)));
    assert_eq!(reprocess_report(0), ("no_documents", None));
}

#[test]
fn slug_is_lowercase_and_settled() {
    for name in ["My Knowledge Base", "UPPER-case_Mixed 42", "--A--B--", "plain", "İstanbul KELVIN \u{212A}", "ΣΟΦΙΑ Ünïcode"] {
        let slug = generate_slug(name);
        assert!(!slug.chars().any(|c| c.is_ascii_uppercase()));
        assert_eq!(generate_slug(&slug), slug);
    }
    assert_eq!(generate_slug("--A--B--"), "a-b");
}

#[test]
fn graph_rebuild_job_and_vectors() {
    let job = graph_rebuild_job();
    assert!(job.starts_with("rebuild_kg_"));
    assert_eq!(job.len(), "rebuild_kg".len() + 1 + 15 + 1 + 8);
    assert_ne!(graph_rebuild_job(), job);
    assert!(graph_rebuild_clears_vectors(true));
    assert!(!graph_rebuild_clears_vectors(false));
    assert_eq!(graph_rebuild_vectors_cleared(true, 42), 42);
    assert_eq!(graph_rebuild_vectors_cleared(false, 42), 0);
}
