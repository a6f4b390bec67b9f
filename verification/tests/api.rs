use depin_orcha::api::auth::{
    expiry_at, CreateApiKeyRequest, UpdateApiKeyRequest, DEFAULT_RATE_LIMIT,
};
use depin_orcha::api::middleware::{check_rate_limit, AuthError, RateLimitError, RequestId};
use depin_orcha::api::models::{
    ErrorResponse, MetricsHistoryRequest, OpportunitiesRequest, ReallocationConfigDto,
    SuccessResponse,
};
use depin_orcha::api::ApiConfig;
use depin_orcha::db::DbConfig;
use depin_orcha::orchestration::reallocation::ReallocationConfig;
use uuid::Uuid;

#[test]
fn test_api_config_default() {
    let config = ApiConfig::default();
    assert_eq!(config.host, "127.0.0.1");
    assert_eq!(config.port, 8080);
}

#[test]
fn test_api_config_custom() {
    let config = ApiConfig {
        host: "0.0.0.0".to_string(),
        port: 3000,
        workers: 8,
        request_timeout: 60,
    };
    assert_eq!(config.port, 3000);
}

#[test]
fn api_config_default_workers_and_timeout() {
    let config = ApiConfig::default();
    assert_eq!(config.workers, 4);
    assert_eq!(config.request_timeout, 30);
}

#[test]
fn test_routes_configuration() {
    // Verify route configuration is defined
    assert!(true);
}

#[test]
fn test_db_config_default() {
    let config = DbConfig::default();
    assert!(!config.database_url.is_empty());
    assert!(config.max_connections > 0);
}

#[test]
fn test_db_config_custom() {
    let config = DbConfig {
        database_url: "sqlite::memory:".to_string(),
        max_connections: 5,
        min_connections: 1,
        connect_timeout: 60,
    };
    assert_eq!(config.max_connections, 5);
}

#[test]
fn db_config_default_values() {
    let config = DbConfig::default();
    assert_eq!(config.database_url, "sqlite:depin-orcha.db");
    assert_eq!(config.max_connections, 10);
    assert_eq!(config.min_connections, 2);
    assert_eq!(config.connect_timeout, 30);
}

#[test]
fn test_request_id_creation() {
    let id = RequestId(Uuid::new_v4().to_string());
    assert!(!id.0.is_empty());
}

#[test]
fn test_request_id_uuid_format() {
    let uuid = Uuid::new_v4().to_string();
    assert_eq!(uuid.len(), 36); // UUID v4 string length
}

#[test]
fn generated_request_ids_are_uuids_and_differ() {
    let a = RequestId::generate();
    let b = RequestId::generate();
    assert_eq!(a.0.len(), 36);
    assert_eq!(b.0.len(), 36);
    assert_ne!(a.0, b.0);
    assert!(Uuid::parse_str(&a.0).is_ok());
    assert_eq!(a.0.matches('-').count(), 4);
}

#[test]
fn auth_errors_have_texts_and_statuses() {
    assert_eq!(AuthError::MissingApiKey.to_string(), "API key is required");
    assert_eq!(AuthError::InvalidApiKey.to_string(), "Invalid API key");
    assert_eq!(AuthError::ExpiredApiKey.to_string(), "API key has expired");
    assert_eq!(AuthError::InactiveApiKey.to_string(), "API key is inactive");
    assert_eq!(AuthError::DatabaseError("down".to_string()).to_string(), "Database error: down");
    assert_eq!(AuthError::MissingApiKey.status_code(), 401);
    assert_eq!(AuthError::InvalidApiKey.status_code(), 401);
    assert_eq!(AuthError::ExpiredApiKey.status_code(), 401);
    assert_eq!(AuthError::InactiveApiKey.status_code(), 403);
    assert_eq!(AuthError::DatabaseError("down".to_string()).status_code(), 500);
}

#[test]
fn rate_limit_errors_have_texts_and_status() {
    let exceeded = RateLimitError::Exceeded { retry_after: 60 };
    assert_eq!(exceeded.to_string(), "Rate limit exceeded. Retry after 60 seconds");
    assert_eq!(exceeded.status_code(), 429);
    let database = RateLimitError::DatabaseError("down".to_string());
    assert_eq!(database.to_string(), "Database error: down");
    assert_eq!(database.status_code(), 429);
}

#[test]
fn rate_limit_is_reached_at_the_limit() {
    assert!(check_rate_limit(0, 60, 60).is_ok());
    assert!(check_rate_limit(59, 60, 60).is_ok());
    match check_rate_limit(60, 60, 90) {
        Err(RateLimitError::Exceeded { retry_after }) => assert_eq!(retry_after, 90),
        _ => panic!("the limit is reached"),
    }
    assert!(check_rate_limit(61, 60, 60).is_err());
    assert!(check_rate_limit(0, 0, 60).is_err());
}

#[test]
fn request_shapes_hold_their_fields() {
    let opportunities = OpportunitiesRequest { limit: Some(5) };
    assert_eq!(opportunities.limit, Some(5));
    let history = MetricsHistoryRequest { hours: Some(24), limit: None };
    assert_eq!(history.hours, Some(24));
    assert_eq!(history.limit, None);
    let create = CreateApiKeyRequest {
        name: "ci".to_string(),
        description: None,
        expires_in_days: Some(30),
        rate_limit_per_minute: None,
        permissions: None,
    };
    assert_eq!(create.rate_limit(), DEFAULT_RATE_LIMIT);
    assert_eq!(create.rate_limit(), 60);
    let limited = CreateApiKeyRequest { rate_limit_per_minute: Some(5), ..create.clone() };
    assert_eq!(limited.rate_limit(), 5);
    let update = UpdateApiKeyRequest {
        name: None,
        description: None,
        is_active: Some(false),
        rate_limit_per_minute: None,
        permissions: Some(vec!["read".to_string()]),
    };
    assert_eq!(update.is_active, Some(false));
}

#[test]
fn reallocation_config_as_shown() {
    let dto = ReallocationConfigDto::of(&ReallocationConfig::default());
    assert_eq!(dto.min_hold_duration_seconds, 3600);
    assert_eq!(dto.max_per_hour, 4);
    assert!(dto.auto_rollback);
    let negative = ReallocationConfig { min_hold_duration: -5, ..ReallocationConfig::default() };
    assert_eq!(ReallocationConfigDto::of(&negative).min_hold_duration_seconds, 0);
    let short = ReallocationConfig { min_hold_duration: 1999, ..ReallocationConfig::default() };
    assert_eq!(ReallocationConfigDto::of(&short).min_hold_duration_seconds, 1);
}

#[test]
fn test_error_response() {
    let error = ErrorResponse::new("TEST".to_string(), "Test message".to_string());
    assert_eq!(error.error, "TEST");
    assert_eq!(error.message, "Test message");
}

#[test]
fn test_error_response_creation() {
    let error = ErrorResponse::new("NOT_FOUND".to_string(), "Protocol not found".to_string());
    assert_eq!(error.error, "NOT_FOUND");
}

#[test]
fn test_success_response_serialization() {
    let data = vec!["a", "b", "c"];
    let response = SuccessResponse::new(data);
    assert!(response.success);
}

#[test]
fn an_answer_carries_its_instant_and_its_data() {
    let error = ErrorResponse::new_at(42, "E".to_string(), "m".to_string());
    assert_eq!(error.error, "E");
    assert_eq!(error.message, "m");
    assert_eq!(error.timestamp, 42);
    let answer = SuccessResponse::new_at(43, vec![1u8, 2]);
    assert!(answer.success);
    assert_eq!(answer.data, vec![1u8, 2]);
    assert_eq!(answer.timestamp, 43);
}

#[test]
fn a_key_expires_whole_days_after_it_was_made() {
    assert_eq!(expiry_at(0, 0), Some(0));
    assert_eq!(expiry_at(1_000, 1), Some(86_401_000));
    assert_eq!(expiry_at(1_700_000_000_000, 30), Some(1_702_592_000_000));
    assert_eq!(expiry_at(5, -1), Some(5 - 86_400_000));
    assert_eq!(expiry_at(i64::MAX, 1), None);
    assert_eq!(expiry_at(0, i64::MAX), None);
    assert_eq!(expiry_at(0, i64::MIN), None);
}

#[test]
fn a_request_that_changes_nothing_is_empty() {
    let nothing = UpdateApiKeyRequest {
        name: None,
        description: None,
        is_active: None,
        rate_limit_per_minute: None,
        permissions: None,
    };
    assert!(nothing.is_empty());
    let mut one = nothing.clone();
    one.is_active = Some(false);
    assert!(!one.is_empty());
    let mut one = nothing.clone();
    one.name = Some(String::new());
    assert!(!one.is_empty());
    let mut one = nothing.clone();
    one.description = Some("d".to_string());
    assert!(!one.is_empty());
    let mut one = nothing.clone();
    one.rate_limit_per_minute = Some(0);
    assert!(!one.is_empty());
    let mut one = nothing.clone();
    one.permissions = Some(Vec::new());
    assert!(!one.is_empty());
}
