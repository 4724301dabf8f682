use harpe::api::{
    admin_job_status_filter, admin_job_status_to_pb, metrics_to_pb, normalize_health_service,
    optional_model_override, page_info, preview_context_to_pb, request_limit,
    resolve_owner_user_id, status_from_error, truncate_to_limit, EstimatedMessage, LatencyBucket,
    MetricsSnapshot, StatusCode,
};
use harpe::config::{AppConfig, AppLlmConfig, HttpLlmConfig};
use harpe::domain::{GraphRelationKind, HarpeError, JobKind, JobStatus, MessageRole};
use harpe::ids::new_id;
use harpe::pb;
use harpe::store::{
    fixed_embedding, indexed_embedding_field, memory_candidate_limit, normalize_importance,
    normalize_limit, normalize_max_attempts, relation_spec, world_fact_content, RelationSpec,
};
use harpe::time::Timestamp;

fn owner_user_id_cases() {
    assert_eq!(resolve_owner_user_id(Some("user-1"), "").unwrap(), "user-1");
    assert_eq!(resolve_owner_user_id(Some("user-1"), "user-1").unwrap(), "user-1");
    assert_eq!(resolve_owner_user_id(None, "user-1").unwrap(), "user-1");

    let mismatch = resolve_owner_user_id(Some("user-1"), "user-2").unwrap_err();
    assert!(matches!(mismatch, HarpeError::PermissionDenied(_)));

    let missing = resolve_owner_user_id(None, "").unwrap_err();
    assert!(matches!(missing, HarpeError::PermissionDenied(_)));
}

#[test]
fn grpc_owner_user_id_uses_metadata_and_rejects_mismatch() {
    owner_user_id_cases();
}

#[test]
fn mod_owner_user_id_uses_metadata_and_rejects_mismatch() {
    owner_user_id_cases();
}

fn preview_cases() {
    let response = preview_context_to_pb(vec![
        EstimatedMessage {
            role: MessageRole::System,
            content: "Trusted state.".to_owned(),
            estimated_tokens: 4,
        },
        EstimatedMessage {
            role: MessageRole::User,
            content: format!("I open the {}.", "gate"),
            estimated_tokens: 5,
        },
    ]);

    assert_eq!(response.messages.len(), 2);
    assert!(response.estimated_tokens >= response.messages[0].estimated_tokens);
    assert_eq!(response.messages[1].role, 2);
    assert_eq!(response.estimated_tokens, 9);
}

#[test]
fn grpc_preview_context_response_includes_token_estimates() {
    preview_cases();
}

#[test]
fn mod_preview_context_response_includes_token_estimates() {
    preview_cases();
}

#[test]
fn optional_model_override_trims_blank_values() {
    assert_eq!(optional_model_override(""), None);
    assert_eq!(optional_model_override("   "), None);
    assert_eq!(optional_model_override(" gpt-5-mini "), Some("gpt-5-mini".to_owned()));
}

fn domain_error_cases() {
    let cases = [
        (HarpeError::Validation("content".to_owned()), StatusCode::InvalidArgument),
        (HarpeError::NotFound("summary".to_owned()), StatusCode::NotFound),
        (HarpeError::PermissionDenied("game-1".to_owned()), StatusCode::PermissionDenied),
        (HarpeError::Store("database".to_owned()), StatusCode::Internal),
        (HarpeError::Llm("model".to_owned()), StatusCode::Unavailable),
    ];

    for (error, code) in cases {
        assert_eq!(status_from_error(error).code, code);
    }
}

#[test]
fn grpc_domain_errors_map_to_expected_grpc_status_codes() {
    domain_error_cases();
}

#[test]
fn mod_domain_errors_map_to_expected_grpc_status_codes() {
    domain_error_cases();
}

fn health_service_cases() {
    assert_eq!(normalize_health_service(""), "harpe.v1");
    assert_eq!(normalize_health_service(" harpe.v1.MemoryService "), "harpe.v1.MemoryService");
}

#[test]
fn grpc_health_service_name_defaults_when_blank() {
    health_service_cases();
}

#[test]
fn mod_health_service_name_defaults_when_blank() {
    health_service_cases();
}

fn page_request_cases() {
    assert_eq!(request_limit(25, None), 25);
    assert_eq!(
        request_limit(25, Some(&pb::PageRequest { page_size: 3, page_token: String::new() })),
        3
    );
    assert_eq!(
        request_limit(
            25,
            Some(&pb::PageRequest { page_size: 0, page_token: "ignored-for-now".to_owned() })
        ),
        25
    );

    let mut items = vec![1, 2, 3, 4];
    truncate_to_limit(&mut items, 2);
    assert_eq!(items, vec![1, 2]);
    assert_eq!(page_info(items.len()).returned_count, 2);
}

#[test]
fn grpc_page_request_overrides_legacy_limit_and_reports_counts() {
    page_request_cases();
}

#[test]
fn mod_page_request_overrides_legacy_limit_and_reports_counts() {
    page_request_cases();
}

fn admin_filter_cases() {
    assert_eq!(admin_job_status_filter(0).unwrap(), None);
    assert_eq!(admin_job_status_filter(1).unwrap(), Some(JobStatus::Pending));
    assert_eq!(admin_job_status_filter(2).unwrap(), Some(JobStatus::Running));
    assert_eq!(admin_job_status_filter(3).unwrap(), Some(JobStatus::Succeeded));
    assert_eq!(admin_job_status_filter(4).unwrap(), Some(JobStatus::Failed));
    assert!(matches!(admin_job_status_filter(99), Err(HarpeError::Validation(_))));
}

#[test]
fn grpc_admin_job_status_filter_maps_proto_statuses() {
    admin_filter_cases();
}

#[test]
fn mod_admin_job_status_filter_maps_proto_statuses() {
    admin_filter_cases();
}

fn admin_status_cases() {
    let cases = [
        (JobStatus::Pending, 1),
        (JobStatus::Running, 2),
        (JobStatus::Succeeded, 3),
        (JobStatus::Failed, 4),
    ];

    for (status, proto_status) in cases {
        assert_eq!(admin_job_status_to_pb(status), proto_status);
    }
}

#[test]
fn grpc_admin_job_statuses_map_to_proto_values() {
    admin_status_cases();
}

#[test]
fn mod_admin_job_statuses_map_to_proto_values() {
    admin_status_cases();
}

fn snapshot_with_one_request_and_one_retry() -> MetricsSnapshot {
    MetricsSnapshot {
        grpc_requests: 1,
        grpc_failures: 0,
        streamed_messages: 0,
        jobs_processed: 0,
        jobs_succeeded: 0,
        jobs_retried: 1,
        jobs_failed: 0,
        health_checks: 0,
        grpc_latency_count: 1,
        grpc_latency_sum_ms: 3,
        grpc_latency_buckets: vec![
            LatencyBucket { upper_bound_ms: Some(5), count: 1 },
            LatencyBucket { upper_bound_ms: None, count: 1 },
        ],
        collected_at: Timestamp { secs: 0, nanos: 0 },
    }
}

#[test]
fn grpc_metrics_snapshot_maps_to_proto() {
    let response = metrics_to_pb(snapshot_with_one_request_and_one_retry());

    assert_eq!(response.grpc_requests, 1);
    assert_eq!(response.jobs_retried, 1);
    assert!(!response.grpc_latency_buckets.is_empty());
}

#[test]
fn mod_metrics_snapshot_maps_to_proto() {
    let response = metrics_to_pb(snapshot_with_one_request_and_one_retry());

    assert_eq!(response.grpc_requests, 1);
    assert_eq!(response.jobs_retried, 1);
    assert!(!response.grpc_latency_buckets.is_empty());
    assert!(!response.collected_at.is_empty());
}

#[test]
fn metrics_buckets_are_labelled_by_their_bound() {
    let response = metrics_to_pb(snapshot_with_one_request_and_one_retry());
    assert_eq!(response.grpc_latency_buckets[0].le, "5");
    assert_eq!(response.grpc_latency_buckets[1].le, "+Inf");
    assert_eq!(response.collected_at, "1970-01-01T00:00:00+00:00");
}

fn vars(pairs: &[(&str, &str)]) -> Vec<(String, String)> {
    pairs.iter().map(|(k, v)| (k.to_string(), v.to_string())).collect()
}

#[test]
fn config_uses_safe_development_defaults() {
    let vars = vars(&[]);
    let config = AppConfig::from_vars(&vars, None).unwrap();

    assert_eq!(AppConfig::grpc_addr_text(&vars), "[::1]:50051");
    assert_eq!(config.grpc_addr, "[::1]:50051");
    assert_eq!(config.surreal_endpoint, "memory");
    assert_eq!(config.surreal_namespace, "harpe");
    assert_eq!(config.surreal_database, "dev");
    assert_eq!(config.llm, AppLlmConfig::Echo);
    assert_eq!(config.job_interval_ms, 2000);
    assert_eq!(config.job_batch_limit, 25);
}

#[test]
fn config_builds_http_llm_settings_from_vars() {
    let vars = vars(&[
        ("HARPE_GRPC_ADDR", "127.0.0.1:50051"),
        ("HARPE_LLM_PROVIDER", "http"),
        ("HARPE_LLM_BASE_URL", "http://localhost:11434"),
        ("HARPE_LLM_API_KEY", "secret"),
        ("HARPE_LLM_CHAT_MODEL", "chat"),
        ("HARPE_LLM_EXTRACTION_MODEL", "extract"),
        ("HARPE_LLM_EMBEDDING_MODEL", "embed"),
        ("HARPE_LLM_TIMEOUT_MS", "15000"),
        ("HARPE_LLM_MAX_RETRIES", "4"),
        ("HARPE_LLM_RETRY_BASE_MS", "25"),
        ("HARPE_JOB_INTERVAL_MS", "500"),
        ("HARPE_JOB_BATCH_LIMIT", "7"),
    ]);

    let config = AppConfig::from_vars(&vars, None).unwrap();

    assert_eq!(config.grpc_addr, "127.0.0.1:50051");
    assert_eq!(config.job_interval_ms, 500);
    assert_eq!(config.job_batch_limit, 7);
    assert_eq!(
        config.llm,
        AppLlmConfig::Http(
            HttpLlmConfig::openai_compatible(
                "http://localhost:11434".to_owned(),
                Some("secret".to_owned()),
                "chat".to_owned(),
                "extract".to_owned(),
                "embed".to_owned(),
            )
            .with_request_policy(15000, 4, 25)
        )
    );
}

#[test]
fn config_rejects_invalid_values() {
    let invalid_addr = AppConfig::from_vars(
        &vars(&[("HARPE_GRPC_ADDR", "not-an-address")]),
        Some("invalid socket address syntax".to_owned()),
    )
    .unwrap_err();
    assert!(matches!(invalid_addr, HarpeError::Validation(_)));

    let missing_model =
        AppConfig::from_vars(&vars(&[("HARPE_LLM_PROVIDER", "http")]), None).unwrap_err();
    assert!(matches!(missing_model, HarpeError::Validation(_)));

    let unsupported_provider =
        AppConfig::from_vars(&vars(&[("HARPE_LLM_PROVIDER", "unknown")]), None).unwrap_err();
    assert!(matches!(unsupported_provider, HarpeError::Validation(_)));

    let invalid_interval =
        AppConfig::from_vars(&vars(&[("HARPE_JOB_INTERVAL_MS", "fast")]), None).unwrap_err();
    assert!(matches!(invalid_interval, HarpeError::Validation(_)));

    let invalid_batch =
        AppConfig::from_vars(&vars(&[("HARPE_JOB_BATCH_LIMIT", "many")]), None).unwrap_err();
    assert!(matches!(invalid_batch, HarpeError::Validation(_)));

    let http = [
        ("HARPE_LLM_PROVIDER", "http"),
        ("HARPE_LLM_BASE_URL", "http://localhost"),
        ("HARPE_LLM_CHAT_MODEL", "chat"),
        ("HARPE_LLM_EXTRACTION_MODEL", "extract"),
        ("HARPE_LLM_EMBEDDING_MODEL", "embed"),
    ];
    let mut timeout = http.to_vec();
    timeout.push(("HARPE_LLM_TIMEOUT_MS", "soon"));
    let invalid_llm_timeout = AppConfig::from_vars(&vars(&timeout), None).unwrap_err();
    assert!(matches!(invalid_llm_timeout, HarpeError::Validation(_)));

    let mut retries = http.to_vec();
    retries.push(("HARPE_LLM_MAX_RETRIES", "often"));
    let invalid_llm_retries = AppConfig::from_vars(&vars(&retries), None).unwrap_err();
    assert!(matches!(invalid_llm_retries, HarpeError::Validation(_)));
}

#[test]
fn config_reports_the_address_error_first() {
    let error = AppConfig::from_vars(
        &vars(&[("HARPE_JOB_BATCH_LIMIT", "many")]),
        Some("invalid socket address syntax".to_owned()),
    )
    .unwrap_err();
    assert_eq!(
        error,
        HarpeError::Validation("HARPE_GRPC_ADDR is invalid: invalid socket address syntax".to_owned())
    );
}

fn limit_cases() {
    assert_eq!(normalize_limit(0), 50);
    assert_eq!(normalize_limit(10), 10);
    assert_eq!(normalize_limit(10_000), 1_000);
}

#[test]
fn surreal_limit_defaults_and_caps() {
    limit_cases();
}

#[test]
fn mod_limit_defaults_and_caps() {
    limit_cases();
    assert_eq!(memory_candidate_limit(1), 32);
    assert_eq!(memory_candidate_limit(100), 512);
}

#[test]
fn extracted_importance_and_attempts_are_normalized() {
    assert_eq!(normalize_importance(-1), 1);
    assert_eq!(normalize_importance(3), 3);
    assert_eq!(normalize_importance(9), 5);
    assert_eq!(normalize_max_attempts(0), 1);
    assert_eq!(normalize_max_attempts(3), 3);
    assert_eq!(normalize_max_attempts(50), 10);
}

fn world_fact_cases() {
    assert_eq!(
        world_fact_content(" silver key ", " opens ", " lower vault ", ""),
        "silver key opens lower vault"
    );
    assert_eq!(
        world_fact_content("silver key", "opens", "lower vault", "A custom fact."),
        "A custom fact."
    );
}

#[test]
fn surreal_world_fact_content_is_derived_when_blank() {
    world_fact_cases();
}

#[test]
fn mod_world_fact_content_is_derived_when_blank() {
    world_fact_cases();
}

#[test]
fn fixed_embedding_is_only_populated_for_indexed_dimension() {
    assert_eq!(indexed_embedding_field(16), Some("embedding_16"));
    assert_eq!(indexed_embedding_field(1536), Some("embedding_1536"));
    assert_eq!(indexed_embedding_field(17), None);
    assert_eq!(fixed_embedding(&[1.0f32; 15], 16), None);
    assert_eq!(fixed_embedding(&[1.0f32; 17], 16), None);
    assert_eq!(fixed_embedding(&[1.0f32; 16], 16), Some(vec![1.0f32; 16]));
}

#[test]
fn relation_specs_cover_extraction_edge_tables() {
    assert_eq!(
        relation_spec(GraphRelationKind::EventInvolvesCharacter),
        RelationSpec { table: "event_involves_character", in_table: "event", out_table: "character" }
    );
    assert_eq!(
        relation_spec(GraphRelationKind::EventHappenedAtLocation),
        RelationSpec { table: "event_happened_at_location", in_table: "event", out_table: "location" }
    );
    assert_eq!(
        relation_spec(GraphRelationKind::CharacterKnowsWorldFact),
        RelationSpec { table: "character_knows_world_fact", in_table: "character", out_table: "world_fact" }
    );
    assert_eq!(
        relation_spec(GraphRelationKind::MemorySupportsWorldFact),
        RelationSpec { table: "memory_supports_world_fact", in_table: "memory_chunk", out_table: "world_fact" }
    );
}

#[test]
fn message_role_round_trips_db_value() {
    for role in [MessageRole::System, MessageRole::User, MessageRole::Assistant] {
        assert_eq!(MessageRole::from_db_value(role.as_db_value()), Some(role));
    }
}

#[test]
fn unknown_message_role_is_rejected() {
    assert_eq!(MessageRole::from_db_value("narrator"), None);
}

#[test]
fn new_ids_are_non_empty_and_distinct() {
    let first = new_id();
    let second = new_id();

    assert!(!first.is_empty());
    assert!(!second.is_empty());
    assert_ne!(first, second);
}

#[test]
fn job_kind_round_trips_db_value() {
    let kind = JobKind::UpdateMemoryAfterTurn;

    assert_eq!(JobKind::from_db_value(kind.as_db_value()), Some(kind));
    assert_eq!(JobKind::from_db_value("unknown"), None);
}

#[test]
fn job_status_round_trips_db_value() {
    for status in [JobStatus::Pending, JobStatus::Running, JobStatus::Succeeded, JobStatus::Failed] {
        assert_eq!(JobStatus::from_db_value(status.as_db_value()), Some(status));
    }

    assert_eq!(JobStatus::from_db_value("paused"), None);
}

#[test]
fn preview_total_saturates_and_still_covers_each_message() {
    let response = preview_context_to_pb(vec![
        EstimatedMessage {
            role: MessageRole::Assistant,
            content: "long".to_owned(),
            estimated_tokens: usize::MAX,
        },
        EstimatedMessage { role: MessageRole::User, content: "short".to_owned(), estimated_tokens: 1 },
    ]);
    assert_eq!(response.messages[0].estimated_tokens, u32::MAX);
    assert_eq!(response.messages[1].estimated_tokens, 1);
    assert_eq!(response.estimated_tokens, u32::MAX);
    for message in &response.messages {
        assert!(message.estimated_tokens <= response.estimated_tokens);
    }
}

#[test]
fn new_ids_are_hyphenated_version_seven_uuids() {
    let id = new_id();
    let chars: Vec<char> = id.chars().collect();
    assert_eq!(chars.len(), 36);
    for (i, c) in chars.iter().enumerate() {
        if i == 8 || i == 13 || i == 18 || i == 23 {
            assert_eq!(*c, '-');
        } else {
            assert!(c.is_ascii_digit() || ('a'..='f').contains(c));
        }
    }
    assert_eq!(chars[14], '7');
    assert!(['8', '9', 'a', 'b'].contains(&chars[19]));
}
