use std::collections::HashMap;

use client_core::config::{
    default_auto_start, default_model, default_push_to_talk_key, default_version, validate_server_config,
    validate_version, AudioConfig, ChatDensity, CuratedModel, FontSizePreset, ModelsConfig, ModelsSection,
    ProviderConfig, ResponseFormat, ServerConfig,
};
use client_core::ipc_config::IpcConfig;
use client_core::oauth::{check_oauth_status, check_oauth_status_batch, detect_opencode_paths, join_path, AuthFile, OAuthStatus, PathSource, Platform};
use client_core::field_normalizer::Json;

fn provider(name: &str, url: &str, auth: &str) -> ProviderConfig {
    ProviderConfig {
        name: name.to_string(),
        display_name: name.to_string(),
        api_key_env: String::new(),
        models_url: url.to_string(),
        auth_type: auth.to_string(),
        auth_header: None,
        auth_param: None,
        extra_headers: HashMap::new(),
        response_format: ResponseFormat {
            models_path: "data".to_string(),
            model_id_field: "id".to_string(),
            model_id_strip_prefix: None,
            model_name_field: "name".to_string(),
        },
    }
}

fn catalog(providers: Vec<ProviderConfig>) -> ModelsConfig {
    ModelsConfig { providers, models: ModelsSection::default() }
}

#[test]
fn defaults() {
    assert_eq!(default_version(), 1);
    assert!(default_auto_start());
    assert_eq!(default_push_to_talk_key(), "AltRight");
    assert_eq!(default_model(), "openai/gpt-4");
    assert_eq!(FontSizePreset::default(), FontSizePreset::Standard);
    assert_eq!(ChatDensity::default(), ChatDensity::Normal);
    assert!(ServerConfig::default().auto_start);
    assert_eq!(AudioConfig::default().push_to_talk_key, "AltRight");
    let m = ModelsConfig::default();
    assert!(m.providers.is_empty());
    assert_eq!(m.models.default_model, "openai/gpt-4");
}

#[test]
fn version_and_url_checks() {
    assert!(validate_version(1).is_ok());
    assert!(validate_version(0).is_err());
    assert!(validate_version(2).is_err());
    let mut s = ServerConfig::default();
    assert!(validate_server_config(&s).is_ok());
    s.last_opencode_url = Some(String::new());
    assert!(validate_server_config(&s).is_err());
    s.last_opencode_url = Some("ftp://x".to_string());
    assert!(validate_server_config(&s).is_err());
    s.last_opencode_url = Some("https://x".to_string());
    assert!(validate_server_config(&s).is_ok());
}

#[test]
fn provider_validation() {
    assert!(catalog(vec![provider("openai", "https://u", "bearer"), provider("g", "https://u", "query_param")]).validate().is_ok());
    assert!(catalog(vec![provider("", "https://u", "bearer")]).validate().is_err());
    assert!(catalog(vec![provider("a", "", "bearer")]).validate().is_err());
    assert!(catalog(vec![provider("a", "https://u", "basic")]).validate().is_err());
}

#[test]
fn load_takes_first_valid_candidate() {
    let bad = catalog(vec![provider("a", "https://u", "basic")]);
    let good = catalog(vec![provider("good", "https://u", "header")]);
    let loaded = ModelsConfig::load(vec![None, Some(bad), Some(good)]).unwrap();
    assert_eq!(loaded.providers[0].name, "good");
    let fallback = ModelsConfig::load(vec![None, None]).unwrap();
    assert!(fallback.providers.is_empty());
    assert!(fallback.get_provider("good").is_none());
    assert_eq!(loaded.get_provider("good").unwrap().auth_type, "header");
}

#[test]
fn curated_models_add_and_remove() {
    let mut m = ModelsConfig::default();
    m.add_curated_model(CuratedModel::new("GPT", "openai", "gpt-4"));
    m.add_curated_model(CuratedModel::new("Same", "openai", "gpt-4"));
    m.add_curated_model(CuratedModel::new("Sonnet", "anthropic", "sonnet-4"));
    assert_eq!(m.get_curated_models().len(), 2);
    assert_eq!(m.get_curated_models()[0].name, "GPT");
    m.remove_curated_model("openai", "gpt-4");
    assert_eq!(m.get_curated_models(), &[CuratedModel::new("Sonnet", "anthropic", "sonnet-4")]);
    m.remove_curated_model("nobody", "none");
    assert_eq!(m.get_curated_models().len(), 1);
}

#[test]
fn ipc_config_accessors() {
    let c = IpcConfig::new(19876, "tok".to_string());
    assert_eq!(c.port(), 19876);
    assert_eq!(c.auth_token(), "tok");
}

fn entry(kind: &str, fields: &[(&str, Json)]) -> Json {
    let mut es = vec![("type".to_string(), Json::Str(kind.to_string()))];
    for (k, v) in fields {
        let v = match v {
            Json::Str(s) => Json::Str(s.clone()),
            Json::Number(n) => Json::Number(n.clone()),
            _ => Json::Null,
        };
        es.push((k.to_string(), v));
    }
    Json::Object(es)
}

fn auth_file() -> AuthFile {
    let s = |v: &str| Json::Str(v.to_string());
    AuthFile::Content(Json::Object(vec![
        ("anthropic".to_string(), entry("oauth", &[("access", s("a")), ("refresh", s("r")), ("expires", Json::Number("1.5".to_string()))])),
        ("openai".to_string(), entry("api", &[("key", s("k"))])),
        ("corp".to_string(), entry("wellknown", &[("key", s("k")), ("token", s("t"))])),
        ("broken".to_string(), entry("api", &[])),
    ]))
}

#[test]
fn oauth_status_from_auth_file() {
    let f = auth_file();
    assert_eq!(check_oauth_status(&f, "anthropic"), OAuthStatus::Configured);
    assert!(check_oauth_status(&f, "anthropic").should_skip_api_key_sync());
    assert_eq!(check_oauth_status(&f, "openai"), OAuthStatus::ApiKeyConfigured);
    assert_eq!(check_oauth_status(&f, "corp"), OAuthStatus::WellKnownConfigured);
    assert_eq!(check_oauth_status(&f, "mistral"), OAuthStatus::NotConfigured);
    assert!(!check_oauth_status(&f, "broken").is_definitive());
    assert_eq!(check_oauth_status(&AuthFile::Missing, "openai"), OAuthStatus::NotConfigured);
    assert!(!check_oauth_status(&AuthFile::NoDataDir, "openai").is_definitive());
    match check_oauth_status(&AuthFile::Unparsable("eof".to_string()), "openai") {
        OAuthStatus::Unknown { reason } => assert_eq!(reason, "Parse error: eof"),
        other => panic!("unexpected {:?}", other),
    }
}

#[test]
fn batch_status_reads_once() {
    let names = vec!["openai".to_string(), "mistral".to_string()];
    let r = check_oauth_status_batch(&auth_file(), &names);
    assert_eq!(r[0], ("openai".to_string(), OAuthStatus::ApiKeyConfigured));
    assert_eq!(r[1], ("mistral".to_string(), OAuthStatus::NotConfigured));
    let r = check_oauth_status_batch(&AuthFile::Unparsable("x".to_string()), &names);
    assert!(!r[0].1.is_definitive());
    let r = check_oauth_status_batch(&AuthFile::Missing, &names);
    assert_eq!(r[1].1, OAuthStatus::NotConfigured);
    let r = check_oauth_status_batch(&AuthFile::NoDataDir, &names);
    assert!(!r[1].1.is_definitive());
}

#[test]
fn data_directory_lookup_order() {
    let p = detect_opencode_paths(Some("/data".to_string()), Some("/plat".to_string()), Platform::Linux, None, None).unwrap();
    assert_eq!(p.data_dir, "/data");
    assert_eq!(p.auth_file, "/data/auth.json");
    assert_eq!(p.source, PathSource::EnvVar);
    let p = detect_opencode_paths(None, Some("/home/u/.local/share/".to_string()), Platform::Linux, None, None).unwrap();
    assert_eq!(p.data_dir, "/home/u/.local/share/opencode");
    assert_eq!(p.source, PathSource::PlatformDefault);
    let p = detect_opencode_paths(None, None, Platform::Linux, Some("/home/u".to_string()), None).unwrap();
    assert_eq!(p.data_dir, "/home/u/.local/share/opencode");
    assert_eq!(p.source, PathSource::LinuxFallback);
    let p = detect_opencode_paths(None, None, Platform::MacOS, Some("/Users/u".to_string()), None).unwrap();
    assert_eq!(p.data_dir, "/Users/u/Library/Application Support/opencode");
    assert_eq!(p.source, PathSource::MacOSFallback);
    let p = detect_opencode_paths(None, None, Platform::Windows, None, Some("C:/AppData".to_string())).unwrap();
    assert_eq!(p.data_dir, "C:/AppData/opencode");
    assert_eq!(p.source, PathSource::WindowsFallback);
    assert!(detect_opencode_paths(None, None, Platform::Linux, None, None).is_err());
    assert!(detect_opencode_paths(None, None, Platform::Windows, Some("/h".to_string()), None).is_err());
}

#[test]
fn empty_data_dir_joins_to_the_bare_name() {
    let p = detect_opencode_paths(Some(String::new()), None, Platform::Linux, None, None).unwrap();
    assert_eq!(p.auth_file, "auth.json");
    assert_eq!(join_path("", "auth.json"), "auth.json");
    assert_eq!(join_path("/d/", "auth.json"), "/d/auth.json");
}
