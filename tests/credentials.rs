use std::collections::HashMap;

use client_core::auth_sync::{load_env_api_keys, EnvValue, LoadedKeys, SyncConfig};
use client_core::config::{CuratedModel, ModelsConfig, ModelsSection, ProviderConfig, ResponseFormat};
use client_core::error::{AuthSyncError, ErrorLocation, KeyValidationFailure};
use client_core::http_status::HttpStatusCode;
use client_core::redacted_key::RedactedApiKey;
use client_core::validation::{detect_placeholder, is_valid_key_chars, KeyValidator, ValidationResult};

fn provider(name: &str, env: &str) -> ProviderConfig {
    ProviderConfig {
        name: name.to_string(),
        display_name: name.to_string(),
        api_key_env: env.to_string(),
        models_url: "https://example.invalid/models".to_string(),
        auth_type: "bearer".to_string(),
        auth_header: None,
        auth_param: None,
        extra_headers: HashMap::new(),
        response_format: ResponseFormat {
            models_path: "data".to_string(),
            model_id_field: "id".to_string(),
            model_id_strip_prefix: None,
            model_name_field: "name".to_string(),
        },
    }
}

/// A key-shaped text, assembled at run time.
fn key(prefix: &str, body: &str) -> String {
    format!("{prefix}{body}")
}

fn validator(name: &str) -> KeyValidator {
    KeyValidator::from_config(&provider(name, "KEY"))
}

fn failure(r: ValidationResult) -> KeyValidationFailure {
    match r {
        ValidationResult::Invalid(f) => f,
        ValidationResult::Valid => panic!("expected a failure"),
    }
}

#[test]
fn provider_rules() {
    let v = validator("openai");
    assert_eq!(v.expected_prefix.as_deref(), Some("sk-"));
    assert_eq!((v.min_length, v.max_length), (20, 200));
    let v = validator("anthropic");
    assert_eq!(v.expected_prefix.as_deref(), Some("sk-ant-"));
    assert_eq!((v.min_length, v.max_length), (40, 200));
    let v = validator("google_generativeai");
    assert_eq!(v.expected_prefix.as_deref(), Some("AI"));
    assert_eq!((v.min_length, v.max_length), (30, 100));
    let v = validator("mistral");
    assert_eq!(v.expected_prefix, None);
    assert_eq!((v.min_length, v.max_length), (32, 64));
    let v = validator("cohere");
    assert_eq!((v.min_length, v.max_length), (30, 100));
    let v = validator("somebody");
    assert_eq!(v.expected_prefix, None);
    assert_eq!((v.min_length, v.max_length), (10, 500));
}

#[test]
fn valid_openai_key_passes() {
    assert!(matches!(validator("openai").validate(&format!("  {}  ", key("sk-", "abcdefghijklmnopqrstuv123"))), ValidationResult::Valid));
}

#[test]
fn each_failure_reason() {
    let v = validator("openai");
    assert_eq!(failure(v.validate("   ")), KeyValidationFailure::Empty);
    assert_eq!(failure(v.validate("sk-short")), KeyValidationFailure::TooShort { min: 20, actual: 8 });
    let long = format!("sk-{}", "a".repeat(300));
    assert_eq!(failure(v.validate(&long)), KeyValidationFailure::TooLong { max: 200, actual: 303 });
    assert_eq!(
        failure(v.validate(&key("pk-", "abcdefghijklmnopqrstuvwxyz"))),
        KeyValidationFailure::InvalidPrefix { expected: "sk-".to_string(), actual: "pk-".to_string() }
    );
    assert_eq!(
        failure(v.validate("sk-YOUR-API-KEY-goes-here-now")),
        KeyValidationFailure::PlaceholderDetected { pattern: "your-api-key".to_string() }
    );
    assert_eq!(failure(v.validate(&key("sk-", "abcdefghij klmnopqrstu"))), KeyValidationFailure::InvalidCharacters);
}

#[test]
fn placeholders_and_characters() {
    assert_eq!(detect_placeholder("my...key"), Some("ellipsis"));
    assert_eq!(detect_placeholder("INSERT_HERE"), Some("INSERT"));
    assert_eq!(detect_placeholder("aaaaaaaaaa"), Some("repeated_char"));
    assert_eq!(detect_placeholder("aaaaaaaaa"), None);
    assert_eq!(detect_placeholder("sk-real-looking-key"), None);
    assert!(is_valid_key_chars("abc-DEF_1.2:3"));
    assert!(!is_valid_key_chars("abc def"));
    assert!(!is_valid_key_chars("ключ"));
}

#[test]
fn validate_and_wrap_keeps_the_untrimmed_key_or_names_the_provider() {
    let v = validator("mistral");
    let uuid_like = "0123456789abcdef".repeat(2);
    let wrapped = v.validate_and_wrap(uuid_like.clone()).unwrap();
    assert_eq!(wrapped.as_str(), uuid_like);
    match v.validate_and_wrap("short".to_string()) {
        Err(AuthSyncError::KeyValidation { provider, reason, .. }) => {
            assert_eq!(provider, "mistral");
            assert_eq!(reason, KeyValidationFailure::TooShort { min: 32, actual: 5 });
        }
        _ => panic!("expected a key validation error"),
    }
}

#[test]
fn redacted_key_never_shows_its_value() {
    let secret = key("sk-", "secret-value-1234");
    let k = RedactedApiKey::new(secret.clone());
    assert_eq!(k.len(), 20);
    assert!(!k.is_empty());
    assert_eq!(k.as_str(), secret);
    assert_eq!(k.debug_text(), "RedactedApiKey([REDACTED])");
    assert_eq!(k.display_text(), "[REDACTED API KEY]");
    assert!(!k.debug_text().contains("secr"));
    match k.serialize() {
        Err(client_core::error::RedactError::Serialization { message, .. }) => {
            assert_eq!(message, "RedactedApiKey cannot be serialized - use as_str() explicitly")
        }
        Ok(()) => panic!("serialization must fail"),
    }
    let mut k = k;
    k.wipe();
    assert!(k.is_empty());
}

#[test]
fn retryability_follows_flags_and_status() {
    let loc = || ErrorLocation::new("t.rs", 1, 1);
    let net = |t, c| AuthSyncError::from_transport("openai", "boom".to_string(), t, c, None, loc());
    assert!(net(true, false).is_retryable());
    assert!(net(false, true).is_retryable());
    assert!(!net(false, false).is_retryable());
    for code in [429u16, 502, 503, 504] {
        assert!(AuthSyncError::from_http_response("openai", code, "x".to_string(), loc()).is_retryable());
    }
    for code in [400u16, 401, 500, 501, 200] {
        assert!(!AuthSyncError::from_http_response("openai", code, "x".to_string(), loc()).is_retryable());
    }
    assert!(!AuthSyncError::cancelled(loc()).is_retryable());
    assert!(!AuthSyncError::global_timeout(30, loc()).is_retryable());
}

#[test]
fn categories_provider_and_status() {
    let loc = || ErrorLocation::new("t.rs", 1, 1);
    let e = AuthSyncError::from_http_response("anthropic", 404, "nf".to_string(), loc());
    assert_eq!(e.error_category(), "client_error");
    assert_eq!(e.provider(), Some("anthropic"));
    assert_eq!(e.status_code(), Some(404));
    assert_eq!(AuthSyncError::from_http_response("a", 503, String::new(), loc()).error_category(), "server_error");
    assert_eq!(AuthSyncError::from_http_response("a", 302, String::new(), loc()).error_category(), "provider_sync");
    let t = AuthSyncError::from_transport("a", String::new(), false, false, Some(429), loc());
    assert_eq!(t.status_code(), Some(429));
    assert_eq!(AuthSyncError::from_transport("a", String::new(), true, true, None, loc()).error_category(), "timeout");
    assert_eq!(AuthSyncError::from_transport("a", String::new(), false, true, None, loc()).error_category(), "connection");
    assert_eq!(AuthSyncError::no_server(loc()).error_category(), "no_server");
    assert_eq!(AuthSyncError::no_server(loc()).provider(), None);
    assert_eq!(AuthSyncError::env_load("m".to_string(), loc()).error_category(), "env_load");
}

#[test]
fn http_status_classes() {
    assert!(HttpStatusCode(404).is_client_error());
    assert!(!HttpStatusCode(500).is_client_error());
    assert!(HttpStatusCode(599).is_server_error());
    assert!(!HttpStatusCode(600).is_server_error());
    assert!(HttpStatusCode::from(429).is_retryable());
    assert!(!HttpStatusCode(500).is_retryable());
}

#[test]
fn keys_are_collected_per_provider() {
    let config = ModelsConfig {
        providers: vec![provider("openai", "OPENAI_API_KEY"), provider("mistral", "MISTRAL_API_KEY"), provider("x", ""), provider("cohere", "CO_KEY"), provider("y", "Y_KEY")],
        models: ModelsSection::default(),
    };
    let values = vec![
        EnvValue::Value(key("sk-", "abcdefghijklmnopqrstuv123")),
        EnvValue::Value("short".to_string()),
        EnvValue::Value("ignored-because-no-variable".to_string()),
        EnvValue::NotPresent,
        EnvValue::NotUnicode,
    ];
    let loaded: LoadedKeys = load_env_api_keys(&config, &values);
    assert!(!loaded.is_empty());
    assert_eq!(loaded.keys.len(), 1);
    assert_eq!(loaded.keys[0].0, "openai");
    assert_eq!(loaded.validation_errors.len(), 2);
    assert_eq!(loaded.validation_errors[0].0, "mistral");
    assert_eq!(loaded.validation_errors[1].0, "y");
    assert_eq!(loaded.total_found(), 3);
    let _ = CuratedModel::new("a", "b", "c");
}

#[test]
fn sync_defaults() {
    let c = SyncConfig::default();
    assert!(c.skip_oauth_providers);
    assert_eq!(c.timeout_ms, 30_000);
    assert_eq!(c.max_retries, 3);
    assert_eq!(c.initial_delay_ms, 200);
    assert_eq!(c.max_delay_ms, 2_000);
}
