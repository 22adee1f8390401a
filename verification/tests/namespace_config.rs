use edgequake_api::error::ApiError;
use edgequake_api::namespace_config::{
    apply_pipeline_config_update, update_pipeline_config, validate_pipeline_config_update,
    PipelineConfig, UpdatePipelineConfigRequest,
};
use edgequake_api::namespaces::require_namespace;
use edgequake_api::registry::{get_registry, map_registry_error, NamespaceRegistryError};

fn make_config() -> PipelineConfig {
    PipelineConfig::default()
}

#[test]
fn test_valid_update_body_passes_validation() {
    let body = UpdatePipelineConfigRequest {
        llm_provider: None,
        llm_model: None,
        embedding_provider: None,
        embedding_model: None,
        embedding_dimension: None,
        chunking_strategy: Some("heading_boundary".to_string()),
        chunk_size: None,
        chunk_overlap: None,
        extraction_prompt: None,
        entity_types: None,
        relation_types: None,
        snapshot_uri: Some("s3://mybucket/prefix".to_string()),
        snapshot_uri_clear: None,
        snapshot_mode: Some("snapshot-only".to_string()),
        chunking_enabled: Some(true),
        target_tokens: Some(512),
        overlap_tokens: Some(64),
        prepend_header_path: Some(false),
    };
    let config = make_config();
    assert!(validate_pipeline_config_update(&body, &config).is_ok());
}

#[test]
fn test_invalid_snapshot_mode_rejected() {
    let body = UpdatePipelineConfigRequest { snapshot_mode: Some("garbage".to_string()), ..UpdatePipelineConfigRequest::default() };
    let config = make_config();
    let err = validate_pipeline_config_update(&body, &config).unwrap_err();
    assert!(matches!(err, ApiError::BadRequest(_)));
}

#[test]
fn test_invalid_chunking_strategy_rejected() {
    let body = UpdatePipelineConfigRequest { chunking_strategy: Some("garbage".to_string()), ..UpdatePipelineConfigRequest::default() };
    let config = make_config();
    let err = validate_pipeline_config_update(&body, &config).unwrap_err();
    assert!(matches!(err, ApiError::BadRequest(_)));
}

#[test]
fn test_target_tokens_too_small_rejected() {
    let body = UpdatePipelineConfigRequest { target_tokens: Some(32), ..UpdatePipelineConfigRequest::default() };
    let config = make_config();
    let err = validate_pipeline_config_update(&body, &config).unwrap_err();
    assert!(matches!(err, ApiError::BadRequest(_)));
}

#[test]
fn test_target_tokens_too_large_rejected() {
    let body = UpdatePipelineConfigRequest { target_tokens: Some(4096), ..UpdatePipelineConfigRequest::default() };
    let config = make_config();
    let err = validate_pipeline_config_update(&body, &config).unwrap_err();
    assert!(matches!(err, ApiError::BadRequest(_)));
}

#[test]
fn test_overlap_tokens_gte_target_rejected() {
    let body = UpdatePipelineConfigRequest { target_tokens: Some(256), overlap_tokens: Some(256), ..UpdatePipelineConfigRequest::default() };
    let config = make_config();
    let err = validate_pipeline_config_update(&body, &config).unwrap_err();
    assert!(matches!(err, ApiError::BadRequest(_)));
}

#[test]
fn test_overlap_tokens_exceeds_50_percent_rejected() {
    let body = UpdatePipelineConfigRequest { target_tokens: Some(256), overlap_tokens: Some(129), ..UpdatePipelineConfigRequest::default() };
    let config = make_config();
    let err = validate_pipeline_config_update(&body, &config).unwrap_err();
    assert!(matches!(err, ApiError::BadRequest(_)));
}

#[test]
fn test_target_only_update_validates_effective_overlap() {
    let body = UpdatePipelineConfigRequest { target_tokens: Some(64), overlap_tokens: None, ..UpdatePipelineConfigRequest::default() };
    let config = make_config();
    let err = validate_pipeline_config_update(&body, &config).unwrap_err();
    assert!(matches!(err, ApiError::BadRequest(_)));
}

#[test]
fn test_target_only_update_passes_when_effective_pair_valid() {
    let body = UpdatePipelineConfigRequest { target_tokens: Some(128), overlap_tokens: None, ..UpdatePipelineConfigRequest::default() };
    let config = make_config();
    assert!(validate_pipeline_config_update(&body, &config).is_ok());
}

#[test]
fn test_snapshot_uri_path_traversal_rejected() {
    let body = UpdatePipelineConfigRequest { snapshot_uri: Some("s3://bucket/../hack".to_string()), ..UpdatePipelineConfigRequest::default() };
    let config = make_config();
    let err = validate_pipeline_config_update(&body, &config).unwrap_err();
    assert!(matches!(err, ApiError::BadRequest(_)));
}

#[test]
fn test_snapshot_uri_invalid_scheme_rejected() {
    let body = UpdatePipelineConfigRequest { snapshot_uri: Some("http://evil.com/bucket".to_string()), ..UpdatePipelineConfigRequest::default() };
    let config = make_config();
    let err = validate_pipeline_config_update(&body, &config).unwrap_err();
    assert!(matches!(err, ApiError::BadRequest(_)));
}

#[test]
fn test_snapshot_uri_absolute_path_accepted() {
    let body = UpdatePipelineConfigRequest { snapshot_uri: Some("/var/data/snapshots/my-ns".to_string()), ..UpdatePipelineConfigRequest::default() };
    let config = make_config();
    assert!(validate_pipeline_config_update(&body, &config).is_ok());
}

#[test]
fn test_snapshot_uri_clear_sets_none() {
    let body = UpdatePipelineConfigRequest { snapshot_uri_clear: Some(true), ..UpdatePipelineConfigRequest::default() };
    let config = make_config();
    assert!(validate_pipeline_config_update(&body, &config).is_ok());
}

#[test]
fn validation_messages_are_exact() {
    let config = make_config();
    let body = UpdatePipelineConfigRequest { snapshot_mode: Some("garbage".to_string()), ..UpdatePipelineConfigRequest::default() };
    assert_eq!(
        validate_pipeline_config_update(&body, &config),
        Err(ApiError::BadRequest("Invalid snapshot_mode 'garbage': must be 'write-and-store' or 'snapshot-only'".to_string()))
    );
    let body = UpdatePipelineConfigRequest { target_tokens: Some(32), ..UpdatePipelineConfigRequest::default() };
    assert_eq!(
        validate_pipeline_config_update(&body, &config),
        Err(ApiError::BadRequest("target_tokens 32 is out of range: must be between 64 and 2048 inclusive".to_string()))
    );
    let body = UpdatePipelineConfigRequest { target_tokens: Some(256), overlap_tokens: Some(256), ..UpdatePipelineConfigRequest::default() };
    assert_eq!(
        validate_pipeline_config_update(&body, &config),
        Err(ApiError::BadRequest("effective overlap_tokens 256 must be less than effective target_tokens 256 (after merging this update with the stored config)".to_string()))
    );
    let body = UpdatePipelineConfigRequest { target_tokens: Some(64), ..UpdatePipelineConfigRequest::default() };
    assert_eq!(
        validate_pipeline_config_update(&body, &config),
        Err(ApiError::BadRequest("effective overlap_tokens 38 exceeds 50% of effective target_tokens 64 (overlap must be <= target/2 after merging this update with the stored config)".to_string()))
    );
    let body = UpdatePipelineConfigRequest { snapshot_uri: Some(String::new()), ..UpdatePipelineConfigRequest::default() };
    assert_eq!(validate_pipeline_config_update(&body, &config), Ok(()));
}

#[test]
fn boundary_targets_accepted() {
    let config = PipelineConfig { overlap_tokens: 10, ..make_config() };
    for t in [64usize, 2048] {
        let body = UpdatePipelineConfigRequest { target_tokens: Some(t), ..UpdatePipelineConfigRequest::default() };
        assert_eq!(validate_pipeline_config_update(&body, &config), Ok(()));
    }
    let body = UpdatePipelineConfigRequest { target_tokens: Some(128), overlap_tokens: Some(64), ..UpdatePipelineConfigRequest::default() };
    assert_eq!(validate_pipeline_config_update(&body, &config), Ok(()));
}

#[test]
fn clear_wins_over_new_snapshot_uri() {
    let config = PipelineConfig { snapshot_uri: Some("s3://old".to_string()), ..make_config() };
    let body = UpdatePipelineConfigRequest {
        snapshot_uri: Some("s3://new".to_string()),
        snapshot_uri_clear: Some(true),
        llm_model: Some("m".to_string()),
        target_tokens: Some(512),
        ..UpdatePipelineConfigRequest::default()
    };
    let updated = update_pipeline_config(config, body, 77).unwrap();
    assert_eq!(updated.snapshot_uri, None);
    assert_eq!(updated.llm_model, "m");
    assert_eq!(updated.target_tokens, 512);
    assert_eq!(updated.overlap_tokens, 38);
    assert_eq!(updated.updated_at, 77);
}

#[test]
fn empty_update_changes_only_time() {
    let config = PipelineConfig { entity_types: vec!["A".to_string()], ..make_config() };
    let updated = apply_pipeline_config_update(config.clone(), UpdatePipelineConfigRequest::default(), 9);
    assert_eq!(updated, PipelineConfig { updated_at: 9, ..config });
}

#[test]
fn refused_update_is_an_error() {
    let body = UpdatePipelineConfigRequest { chunking_strategy: Some("x".to_string()), ..UpdatePipelineConfigRequest::default() };
    assert!(update_pipeline_config(make_config(), body, 1).is_err());
}

#[test]
fn test_get_registry_returns_error_when_none() {
    let result = get_registry::<u8>(None);
    assert!(result.is_err());
    assert_eq!(
        result,
        Err(ApiError::NotImplemented { feature: "Namespace registry not configured (requires AWS DynamoDB)".to_string() })
    );
    assert_eq!(get_registry(Some(3u8)), Ok(3));
}

#[test]
fn test_map_registry_error_not_found() {
    let err = NamespaceRegistryError::NotFound("my-ns".to_string());
    let api_err = map_registry_error(err);
    assert!(matches!(api_err, ApiError::NotFound(_)));
}

#[test]
fn test_map_registry_error_internal() {
    let err = NamespaceRegistryError::Internal("db down".to_string());
    let api_err = map_registry_error(err);
    assert!(matches!(api_err, ApiError::Internal(_)));
}

#[test]
fn registry_errors_map_with_messages() {
    assert_eq!(map_registry_error(NamespaceRegistryError::AlreadyExists("a".to_string())), ApiError::Conflict("Namespace already exists: a".to_string()));
    assert_eq!(map_registry_error(NamespaceRegistryError::NotFound("a".to_string())), ApiError::NotFound("Namespace not found: a".to_string()));
    assert_eq!(map_registry_error(NamespaceRegistryError::SchemaNotFound("a".to_string())), ApiError::NotFound("Schema not found for namespace: a".to_string()));
    assert_eq!(map_registry_error(NamespaceRegistryError::InvalidSchemaState("x".to_string())), ApiError::BadRequest("Invalid schema state: x".to_string()));
    assert_eq!(map_registry_error(NamespaceRegistryError::Internal("db".to_string())), ApiError::Internal("db".to_string()));
}

#[test]
fn missing_namespace_is_not_found() {
    assert_eq!(require_namespace::<u8>(None, "ns"), Err(ApiError::NotFound("Namespace not found: ns".to_string())));
}
