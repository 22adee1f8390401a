use edgequake_api::error::ApiError;
use edgequake_api::schema::{
    build_baseline_proposal, build_baseline_proposal_at, is_pending_stale,
    schema_proposal_to_body, EntityTypeProposal, RelationTypeProposal, SchemaProposal,
    SchemaResponseBody, SchemaStatus, FAILED_SENTINEL_PREFIX, PENDING_SENTINEL,
    PENDING_STALENESS_MS, PENDING_STALE_ERROR,
};
use edgequake_api::schema_merge::{merge_schema, merge_schema_at};
use edgequake_api::schema_requests::{
    apply_schema_patch, check_suggest_request, failed_marker, fallback_sampling_location,
    pending_marker, plan_resample, resample_gate, suggest_gate, PatchSchemaRequest,
    SamplingPurpose, SuggestSchemaRequest, SuggestStart,
};

fn make_proposal(status: SchemaStatus) -> SchemaProposal {
    SchemaProposal {
        status,
        entity_types: vec![],
        relation_types: vec![],
        sample_size: 5,
        total_documents: 100,
        domain_hint: None,
        proposed_at: 1700000000000,
        reviewed_at: None,
        sampling_metadata: None,
    }
}

const TEST_NOW_MS: i64 = 1700000001000;

fn entity(name: &str, description: &str, frequency: usize, is_baseline: bool) -> EntityTypeProposal {
    EntityTypeProposal {
        name: name.to_string(),
        description: description.to_string(),
        frequency,
        is_baseline,
    }
}

fn relation(name: &str, description: &str, source: &str, target: &str, frequency: usize) -> RelationTypeProposal {
    RelationTypeProposal {
        name: name.to_string(),
        description: description.to_string(),
        source_type: source.to_string(),
        target_type: target.to_string(),
        frequency,
    }
}

#[test]
fn test_none_proposal_returns_none_body() {
    let body = schema_proposal_to_body(
        SchemaProposal { status: SchemaStatus::NoSchema, domain_hint: None, ..make_proposal(SchemaStatus::NoSchema) },
        TEST_NOW_MS,
    );
    assert!(matches!(body, SchemaResponseBody::NoSchema));
}

#[test]
fn test_pending_sentinel_returns_proposing_body() {
    let proposal = SchemaProposal {
        status: SchemaStatus::Proposed,
        domain_hint: Some(PENDING_SENTINEL.to_string()),
        entity_types: vec![],
        relation_types: vec![],
        ..make_proposal(SchemaStatus::Proposed)
    };
    let body = schema_proposal_to_body(proposal, TEST_NOW_MS);
    assert!(matches!(body, SchemaResponseBody::Proposing));
}

#[test]
fn test_stale_pending_sentinel_returns_failed_body() {
    let proposal = SchemaProposal {
        status: SchemaStatus::Proposed,
        domain_hint: Some(PENDING_SENTINEL.to_string()),
        ..make_proposal(SchemaStatus::Proposed)
    };
    let stale_now = proposal.proposed_at + PENDING_STALENESS_MS + 1;
    let body = schema_proposal_to_body(proposal, stale_now);
    assert!(matches!(body, SchemaResponseBody::Failed { .. }));
}

#[test]
fn test_fresh_pending_sentinel_within_window_is_proposing() {
    let proposal = SchemaProposal {
        status: SchemaStatus::Proposed,
        domain_hint: Some(PENDING_SENTINEL.to_string()),
        ..make_proposal(SchemaStatus::Proposed)
    };
    let at_window = proposal.proposed_at + PENDING_STALENESS_MS;
    let body = schema_proposal_to_body(proposal, at_window);
    assert!(matches!(body, SchemaResponseBody::Proposing));
}

#[test]
fn test_real_proposal_returns_proposed_body() {
    let proposal = SchemaProposal {
        status: SchemaStatus::Proposed,
        domain_hint: Some("legal".to_string()),
        entity_types: vec![entity("PERSON", "A named person", 10, true)],
        relation_types: vec![],
        ..make_proposal(SchemaStatus::Proposed)
    };
    let body = schema_proposal_to_body(proposal, TEST_NOW_MS);
    match body {
        SchemaResponseBody::Proposed { entity_types, domain_hint, .. } => {
            assert_eq!(entity_types.len(), 1);
            assert_eq!(entity_types[0].name, "PERSON");
            assert_eq!(domain_hint, Some("legal".to_string()));
        }
        _ => panic!("Expected Proposed, got {:?}", body),
    }
}

#[test]
fn test_patch_strips_related_to() {
    let existing_proposal = SchemaProposal {
        status: SchemaStatus::Proposed,
        relation_types: vec![
            relation("employs", "employment", "ORG", "PERSON", 5),
            relation("RELATED_TO", "generic relation", "ANY", "ANY", 10),
        ],
        ..make_proposal(SchemaStatus::Proposed)
    };
    let patch = PatchSchemaRequest {
        entity_types: None,
        relation_types: Some(existing_proposal.relation_types.clone()),
    };
    let patched = apply_schema_patch(existing_proposal, patch).unwrap();
    let filtered = patched.relation_types;
    assert_eq!(filtered.len(), 1);
    assert_eq!(filtered[0].name, "employs");
}

#[test]
fn test_patch_preserves_entity_types_when_omitted() {
    let proposal = SchemaProposal {
        status: SchemaStatus::Proposed,
        entity_types: vec![entity("PERSON", "A person", 10, true)],
        relation_types: vec![],
        ..make_proposal(SchemaStatus::Proposed)
    };
    let patch_entity_types: Option<Vec<EntityTypeProposal>> = None;
    let patch_relation_types: Option<Vec<RelationTypeProposal>> =
        Some(vec![relation("employs", "employment", "ORG", "PERSON", 5)]);
    let proposal = apply_schema_patch(
        proposal,
        PatchSchemaRequest { entity_types: patch_entity_types, relation_types: patch_relation_types },
    )
    .unwrap();
    assert_eq!(proposal.entity_types.len(), 1);
    assert_eq!(proposal.entity_types[0].name, "PERSON");
    assert_eq!(proposal.relation_types.len(), 1);
    assert_eq!(proposal.relation_types[0].name, "employs");
}

#[test]
fn test_pending_sentinel_constant() {
    assert_eq!(PENDING_SENTINEL, "__pending__");
}

#[test]
fn test_failed_marker_returns_failed_body() {
    let proposal = SchemaProposal {
        status: SchemaStatus::NoSchema,
        domain_hint: Some(format!("{} LLM call timed out", FAILED_SENTINEL_PREFIX)),
        ..make_proposal(SchemaStatus::NoSchema)
    };
    let body = schema_proposal_to_body(proposal, TEST_NOW_MS);
    match body {
        SchemaResponseBody::Failed { error } => {
            assert_eq!(error, "LLM call timed out");
        }
        _ => panic!("Expected Failed, got {:?}", body),
    }
}

#[test]
fn test_build_baseline_proposal_seeds_four_types() {
    let proposal = build_baseline_proposal();
    assert_eq!(proposal.status, SchemaStatus::Proposed);
    assert_eq!(proposal.relation_types.len(), 0, "No relation types in baseline seed");
    assert_eq!(proposal.entity_types.len(), 4, "Baseline must have exactly 4 entity types");
    let names: Vec<&str> = proposal.entity_types.iter().map(|e| e.name.as_str()).collect();
    assert!(names.contains(&"PERSON"), "PERSON must be in baseline");
    assert!(names.contains(&"ORGANIZATION"), "ORGANIZATION must be in baseline");
    assert!(names.contains(&"LOCATION"), "LOCATION must be in baseline");
    assert!(names.contains(&"DATE"), "DATE must be in baseline");
    assert!(proposal.entity_types.iter().all(|e| e.is_baseline), "All baseline types must have is_baseline=true");
    assert!(proposal.entity_types.iter().all(|e| e.frequency == 0), "Baseline seed has frequency=0 (no LLM sampling)");
    assert_eq!(proposal.sample_size, 0);
    assert_eq!(proposal.total_documents, 0);
}

#[test]
fn test_merge_adds_new_preserves_existing() {
    let current = SchemaProposal {
        status: SchemaStatus::Approved,
        entity_types: vec![entity("PERSON", "edited by admin — authoritative persons", 5, true)],
        relation_types: vec![],
        sample_size: 10,
        total_documents: 100,
        domain_hint: None,
        proposed_at: 1700000000000,
        reviewed_at: Some(1700000001000),
        sampling_metadata: None,
    };
    let resampled = SchemaProposal {
        status: SchemaStatus::Proposed,
        entity_types: vec![
            entity("PERSON", "LLM description of person", 12, true),
            entity("LEGAL_CASE", "A legal case file", 8, false),
        ],
        relation_types: vec![],
        sample_size: 20,
        total_documents: 200,
        domain_hint: None,
        proposed_at: 1700001000000,
        reviewed_at: None,
        sampling_metadata: None,
    };
    let result = merge_schema(&current, &resampled);
    assert_eq!(result.proposal.status, SchemaStatus::Proposed);
    assert!(result.proposal.reviewed_at.is_none());
    let merged_person = result
        .proposal
        .entity_types
        .iter()
        .find(|e| e.name == "PERSON")
        .expect("PERSON must be in merged result");
    assert_eq!(
        merged_person.description, "edited by admin — authoritative persons",
        "Admin description must be preserved verbatim"
    );
    assert_eq!(merged_person.frequency, 12, "Frequency refreshed from resampled");
    assert!(
        result.proposal.entity_types.iter().any(|e| e.name == "LEGAL_CASE"),
        "LEGAL_CASE must be added from resampled"
    );
    assert!(result.added.contains(&"LEGAL_CASE".to_string()));
    assert!(result.preserved.contains(&"PERSON".to_string()));
    assert_eq!(result.proposal.entity_types.len(), 2);
    assert!(result.conflicts.is_empty());
}

#[test]
fn test_merge_refreshes_frequency() {
    let current = SchemaProposal {
        status: SchemaStatus::Proposed,
        entity_types: vec![entity("ORGANIZATION", "admin-edited org description", 3, true)],
        relation_types: vec![],
        sample_size: 5,
        total_documents: 50,
        domain_hint: None,
        proposed_at: 1700000000000,
        reviewed_at: None,
        sampling_metadata: None,
    };
    let resampled = SchemaProposal {
        status: SchemaStatus::Proposed,
        entity_types: vec![entity("ORGANIZATION", "resampled description", 42, false)],
        relation_types: vec![],
        sample_size: 20,
        total_documents: 200,
        domain_hint: None,
        proposed_at: 1700001000000,
        reviewed_at: None,
        sampling_metadata: None,
    };
    let result = merge_schema(&current, &resampled);
    let merged_org = result
        .proposal
        .entity_types
        .iter()
        .find(|e| e.name == "ORGANIZATION")
        .expect("ORGANIZATION in merged result");
    assert_eq!(merged_org.description, "admin-edited org description");
    assert_eq!(merged_org.frequency, 42);
    assert!(result.preserved.contains(&"ORGANIZATION".to_string()));
    assert!(!result.added.contains(&"ORGANIZATION".to_string()));
}

#[test]
fn test_merge_relation_name_conflict_preserves_current_endpoints() {
    let current_rel = relation("employs", "employment relationship", "ORGANIZATION", "PERSON", 10);
    let current = SchemaProposal {
        status: SchemaStatus::Approved,
        entity_types: vec![],
        relation_types: vec![current_rel.clone()],
        sample_size: 10,
        total_documents: 100,
        domain_hint: None,
        proposed_at: 1700000000000,
        reviewed_at: Some(1700000001000),
        sampling_metadata: None,
    };
    let resampled = SchemaProposal {
        status: SchemaStatus::Proposed,
        entity_types: vec![],
        relation_types: vec![relation(
            "employs",
            "employment (resampled, wrong endpoints)",
            "PERSON",
            "ORGANIZATION",
            5,
        )],
        sample_size: 20,
        total_documents: 200,
        domain_hint: None,
        proposed_at: 1700001000000,
        reviewed_at: None,
        sampling_metadata: None,
    };
    let result = merge_schema(&current, &resampled);
    assert_eq!(result.proposal.relation_types.len(), 1);
    let merged_rel = &result.proposal.relation_types[0];
    assert_eq!(merged_rel.name, "employs");
    assert_eq!(merged_rel.source_type, "ORGANIZATION", "Current source_type must be preserved");
    assert_eq!(merged_rel.target_type, "PERSON", "Current target_type must be preserved");
    assert_eq!(merged_rel.description, "employment relationship", "Current description must be preserved");
    assert_eq!(result.conflicts.len(), 1);
    let conflict = &result.conflicts[0];
    assert_eq!(conflict.name, "employs");
    assert_eq!(conflict.current_endpoints, ("ORGANIZATION".to_string(), "PERSON".to_string()));
    assert_eq!(conflict.rejected_endpoints, ("PERSON".to_string(), "ORGANIZATION".to_string()));
}

#[test]
fn test_start_from_defaults_replaces_existing() {
    let existing_approved = SchemaProposal {
        status: SchemaStatus::Approved,
        entity_types: vec![
            entity("PERSON", "admin-curated person", 100, true),
            entity("CUSTOM_DOMAIN_TYPE", "domain-specific entity", 50, false),
            entity("ANOTHER_TYPE", "another type", 25, false),
        ],
        relation_types: vec![relation("employs", "employment", "ORGANIZATION", "PERSON", 30)],
        sample_size: 50,
        total_documents: 500,
        domain_hint: Some("legal".to_string()),
        proposed_at: 1700000000000,
        reviewed_at: Some(1700000001000),
        sampling_metadata: None,
    };
    // The stored slot holds the Approved proposal until start-from-defaults replaces it.
    let mut stored_slot = Some(existing_approved);
    let baseline = build_baseline_proposal();
    stored_slot = Some(baseline);
    let stored = stored_slot.expect("schema stored");
    assert_eq!(stored.status, SchemaStatus::Proposed, "Status must be Proposed after defaults reset");
    assert_eq!(stored.entity_types.len(), 4, "Exactly 4 baseline types; prior extra types replaced");
    let names: Vec<&str> = stored.entity_types.iter().map(|e| e.name.as_str()).collect();
    assert!(names.contains(&"PERSON"));
    assert!(names.contains(&"ORGANIZATION"));
    assert!(names.contains(&"LOCATION"));
    assert!(names.contains(&"DATE"));
    assert!(!names.contains(&"CUSTOM_DOMAIN_TYPE"), "Approved custom type replaced");
    assert!(!names.contains(&"ANOTHER_TYPE"), "Approved extra type replaced");
    assert_eq!(stored.relation_types.len(), 0, "Baseline seed has no relation types");
    assert!(stored.domain_hint.is_none(), "Baseline seed has no domain hint");
}

#[test]
fn test_suggest_does_not_overwrite_approved() {
    let approved_proposal = SchemaProposal {
        status: SchemaStatus::Approved,
        entity_types: vec![
            entity("PERSON", "admin-curated person", 10, true),
            entity("ORGANIZATION", "admin-curated org", 7, true),
        ],
        relation_types: vec![],
        sample_size: 20,
        total_documents: 200,
        domain_hint: None,
        proposed_at: 1700000000000,
        reviewed_at: Some(1700000001000),
        sampling_metadata: None,
    };
    let resampled = SchemaProposal {
        status: SchemaStatus::Proposed,
        entity_types: vec![
            entity("PERSON", "LLM-generated description, should NOT win", 15, true),
            entity("NEW_TYPE", "a new type from resampling", 4, false),
        ],
        relation_types: vec![],
        sample_size: 30,
        total_documents: 300,
        domain_hint: None,
        proposed_at: 1700001000000,
        reviewed_at: None,
        sampling_metadata: None,
    };
    // Suggesting over an Approved proposal is refused outright.
    let gate = suggest_gate(&Some(approved_proposal.clone()), "test-ns", TEST_NOW_MS);
    assert!(matches!(gate, Err(ApiError::Conflict(_))), "Approved schema exists");
    let current = approved_proposal;
    let merge_result = merge_schema(&current, &resampled);
    let stored = merge_result.proposal;
    assert_eq!(stored.status, SchemaStatus::Proposed, "Merged delta is Proposed");
    let stored_person = stored
        .entity_types
        .iter()
        .find(|e| e.name == "PERSON")
        .expect("PERSON preserved in merged proposal");
    assert_eq!(
        stored_person.description, "admin-curated person",
        "Admin description must survive the constrained suggest merge"
    );
    let stored_org = stored
        .entity_types
        .iter()
        .find(|e| e.name == "ORGANIZATION")
        .expect("ORGANIZATION preserved");
    assert_eq!(stored_org.description, "admin-curated org");
    assert!(stored.entity_types.iter().any(|e| e.name == "NEW_TYPE"), "NEW_TYPE added from resampled");
    assert_eq!(stored.entity_types.len(), 3, "Nothing removed; new type added");
}

#[test]
fn stale_detection_uses_window_boundary() {
    let p = pending_marker(1_000);
    assert!(!is_pending_stale(&p, 1_000 + PENDING_STALENESS_MS));
    assert!(is_pending_stale(&p, 1_000 + PENDING_STALENESS_MS + 1));
    let other = SchemaProposal { domain_hint: Some("legal".to_string()), ..make_proposal(SchemaStatus::Proposed) };
    assert!(!is_pending_stale(&other, i64::MAX));
}

#[test]
fn stale_detection_does_not_overflow_at_extremes() {
    let p = SchemaProposal { proposed_at: i64::MIN, ..pending_marker(0) };
    assert!(is_pending_stale(&p, i64::MAX));
    let q = SchemaProposal { proposed_at: i64::MAX, ..pending_marker(0) };
    assert!(!is_pending_stale(&q, i64::MIN));
}

#[test]
fn stale_pending_reports_timeout_message() {
    let body = schema_proposal_to_body(pending_marker(0), PENDING_STALENESS_MS + 1);
    assert_eq!(body, SchemaResponseBody::Failed { error: PENDING_STALE_ERROR.to_string() });
    // A stored None-status pending marker behaves the same way.
    let none_pending = SchemaProposal { status: SchemaStatus::NoSchema, ..pending_marker(0) };
    assert_eq!(schema_proposal_to_body(none_pending.clone(), 10), SchemaResponseBody::Proposing);
    assert!(matches!(schema_proposal_to_body(none_pending, PENDING_STALENESS_MS + 1), SchemaResponseBody::Failed { .. }));
}

#[test]
fn failed_marker_round_trips_trimmed_message() {
    let marker = failed_marker("  boom  ", 5);
    assert_eq!(marker.status, SchemaStatus::NoSchema);
    assert_eq!(marker.domain_hint.as_deref(), Some("__failed__:   boom  "));
    assert_eq!(
        schema_proposal_to_body(marker, 6),
        SchemaResponseBody::Failed { error: "boom".to_string() }
    );
}

#[test]
fn approved_and_rejected_report_all_fields() {
    let p = SchemaProposal {
        status: SchemaStatus::Approved,
        entity_types: vec![entity("X", "x", 1, false)],
        reviewed_at: Some(9),
        ..make_proposal(SchemaStatus::Approved)
    };
    match schema_proposal_to_body(p, TEST_NOW_MS) {
        SchemaResponseBody::Approved { entity_types, sample_size, total_documents, proposed_at, reviewed_at, .. } => {
            assert_eq!(entity_types.len(), 1);
            assert_eq!((sample_size, total_documents, proposed_at, reviewed_at), (5, 100, 1700000000000, Some(9)));
        }
        other => panic!("unexpected {:?}", other),
    }
    let r = make_proposal(SchemaStatus::Rejected);
    assert!(matches!(schema_proposal_to_body(r, TEST_NOW_MS), SchemaResponseBody::Rejected { .. }));
}

#[test]
fn none_status_with_other_hint_is_none() {
    let p = SchemaProposal { domain_hint: Some("legal".to_string()), ..make_proposal(SchemaStatus::NoSchema) };
    assert_eq!(schema_proposal_to_body(p, TEST_NOW_MS), SchemaResponseBody::NoSchema);
}

#[test]
fn baseline_at_fixed_time_has_descriptions() {
    let p = build_baseline_proposal_at(42);
    assert_eq!(p.proposed_at, 42);
    assert_eq!(p.entity_types[0].description, "Named individuals");
    assert_eq!(p.entity_types[1].description, "Companies, institutions, government agencies");
    assert_eq!(p.entity_types[2].description, "Places, addresses, geographic regions");
    assert_eq!(p.entity_types[3].description, "Dates, time periods, timestamps");
}

#[test]
fn merge_twice_changes_nothing_more() {
    let current = SchemaProposal {
        entity_types: vec![entity("A", "a", 1, false)],
        relation_types: vec![relation("r", "d", "A", "B", 1)],
        ..make_proposal(SchemaStatus::Approved)
    };
    let resampled = SchemaProposal {
        entity_types: vec![entity("A", "other", 7, true), entity("B", "b", 2, false)],
        relation_types: vec![relation("r", "d2", "B", "A", 3), relation("s", "d3", "A", "A", 1)],
        ..make_proposal(SchemaStatus::Proposed)
    };
    let once = merge_schema_at(&current, &resampled, 10);
    let twice = merge_schema_at(&once.proposal, &resampled, 20);
    assert_eq!(once.proposal.entity_types, twice.proposal.entity_types);
    assert_eq!(once.proposal.relation_types, twice.proposal.relation_types);
    assert!(twice.added.is_empty());
    assert_eq!(once.added, vec!["B".to_string()]);
    assert_eq!(once.proposal.entity_types[0].frequency, 7);
    assert_eq!(once.proposal.entity_types[0].description, "a");
    assert_eq!(once.proposal.relation_types.len(), 2);
    assert_eq!(once.conflicts.len(), 1);
    assert_eq!(once.proposal.proposed_at, 10);
}

#[test]
fn merge_uses_last_duplicate_for_frequency() {
    let current = SchemaProposal { entity_types: vec![entity("A", "a", 1, false)], ..make_proposal(SchemaStatus::Proposed) };
    let resampled = SchemaProposal {
        entity_types: vec![entity("A", "x", 3, false), entity("A", "y", 9, false)],
        ..make_proposal(SchemaStatus::Proposed)
    };
    let m = merge_schema_at(&current, &resampled, 0);
    assert_eq!(m.proposal.entity_types.len(), 1);
    assert_eq!(m.proposal.entity_types[0].frequency, 9);
}

#[test]
fn suggest_rejects_reserved_values() {
    let req = SuggestSchemaRequest { domain_description: Some("__x".to_string()), domain_hint: Some("__y".to_string()), sample_budget: None };
    assert_eq!(
        check_suggest_request(&req),
        Err(ApiError::BadRequest("domain_description must not start with '__' (reserved for internal sentinels)".to_string()))
    );
    let req = SuggestSchemaRequest { domain_description: Some("legal".to_string()), domain_hint: Some("__pending__".to_string()), sample_budget: Some(3) };
    assert_eq!(
        check_suggest_request(&req),
        Err(ApiError::BadRequest("domain_hint must not start with '__' (reserved for internal sentinels)".to_string()))
    );
    assert_eq!(check_suggest_request(&SuggestSchemaRequest::default()), Ok(()));
}

#[test]
fn suggest_gate_outcomes() {
    assert_eq!(suggest_gate(&None, "ns", 0), Ok(SuggestStart::Start));
    let fresh = pending_marker(100);
    assert_eq!(suggest_gate(&Some(fresh.clone()), "ns", 200), Ok(SuggestStart::AlreadyInProgress));
    assert_eq!(suggest_gate(&Some(fresh), "ns", 100 + PENDING_STALENESS_MS + 1), Ok(SuggestStart::Start));
    assert_eq!(suggest_gate(&Some(make_proposal(SchemaStatus::NoSchema)), "ns", 0), Ok(SuggestStart::Start));
    assert_eq!(
        suggest_gate(&Some(make_proposal(SchemaStatus::Rejected)), "ns", 0),
        Err(ApiError::Conflict(
            "A Rejected schema proposal already exists for namespace 'ns'. Use POST /namespaces/ns/schema/resample to add new types non-destructively, or POST /namespaces/ns/schema/defaults to start over from the 4 baseline types (destructive reset).".to_string()
        ))
    );
}

#[test]
fn resample_gate_and_location() {
    assert!(matches!(resample_gate(&Some(pending_marker(0)), 1), Err(ApiError::Conflict(_))));
    assert_eq!(resample_gate(&Some(pending_marker(0)), PENDING_STALENESS_MS + 1), Ok(()));
    assert_eq!(resample_gate(&None, 0), Ok(()));
    assert_eq!(
        fallback_sampling_location(None, SamplingPurpose::Suggest, "ns"),
        Err(ApiError::BadRequest("Cannot suggest schema for namespace 'ns': no parked raw docs found in S3 and snapshot_uri is not configured. Upload documents first.".to_string()))
    );
    assert_eq!(
        fallback_sampling_location(None, SamplingPurpose::Resample, "ns"),
        Err(ApiError::BadRequest("Cannot re-sample schema for namespace 'ns': no parked raw docs found in S3 and snapshot_uri is not configured.".to_string()))
    );
    assert_eq!(
        fallback_sampling_location(Some("s3://b/../x".to_string()), SamplingPurpose::Suggest, "ns"),
        Err(ApiError::BadRequest("snapshot_uri must not contain '..' path-traversal sequences".to_string()))
    );
    assert_eq!(fallback_sampling_location(Some("s3://b/x".to_string()), SamplingPurpose::Suggest, "ns"), Ok("s3://b/x".to_string()));
}

#[test]
fn patch_refused_while_pending_and_resets_approval() {
    let err = apply_schema_patch(pending_marker(0), PatchSchemaRequest { entity_types: None, relation_types: None });
    assert!(matches!(err, Err(ApiError::Conflict(_))));
    let approved = SchemaProposal { reviewed_at: Some(5), ..make_proposal(SchemaStatus::Approved) };
    let unchanged = apply_schema_patch(approved.clone(), PatchSchemaRequest { entity_types: None, relation_types: None }).unwrap();
    assert_eq!(unchanged, approved);
    let edited = apply_schema_patch(approved, PatchSchemaRequest { entity_types: Some(vec![entity("A", "a", 0, false)]), relation_types: None }).unwrap();
    assert_eq!(edited.status, SchemaStatus::Proposed);
    assert_eq!(edited.reviewed_at, None);
}

#[test]
fn resample_without_current_stores_resampled() {
    let resampled = SchemaProposal {
        status: SchemaStatus::Approved,
        reviewed_at: Some(3),
        entity_types: vec![entity("A", "a", 1, false), entity("B", "b", 1, false)],
        ..make_proposal(SchemaStatus::Approved)
    };
    let plan = plan_resample(None, resampled, TEST_NOW_MS);
    assert_eq!(plan.stored.status, SchemaStatus::Proposed);
    assert_eq!(plan.stored.reviewed_at, None);
    assert_eq!(plan.response.added, vec!["A".to_string(), "B".to_string()]);
    assert!(plan.response.preserved.is_empty());
    assert!(matches!(plan.response.schema, SchemaResponseBody::Proposed { .. }));
    let with_current = plan_resample(Some(make_proposal(SchemaStatus::Approved)), make_proposal(SchemaStatus::Proposed), TEST_NOW_MS);
    assert_eq!(with_current.stored.proposed_at, TEST_NOW_MS);
}
