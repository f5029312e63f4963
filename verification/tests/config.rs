use ppb_server::config::runtime::{cors_origins, CorsConfig};
use ppb_server::config::pmp::{pmp_config_descriptor, pmp_config_groups, PmpConfigManager};
use ppb_server::config::runtime::RuntimeConfig;
use ppb_server::config::values::{
    check_canonical_scheme, check_snapshot_scope, config_diff, config_values, merge_values, raw_projection,
    validate_ppf_build_config, validate_values, ConfigValidationIssueCode,
};
use ppb_server::error::ErrorCode;
use ppb_server::json::{Json, JsonNumber};

fn from_yaml(v: &serde_yaml::Value) -> Json {
    match v {
        serde_yaml::Value::Null => Json::Null,
        serde_yaml::Value::Bool(b) => Json::Bool(*b),
        serde_yaml::Value::Number(n) => {
            if let Some(u) = n.as_u64() {
                Json::Number(JsonNumber::PosInt(u))
            } else if let Some(i) = n.as_i64() {
                Json::Number(JsonNumber::NegInt(i))
            } else {
                Json::Number(JsonNumber::Float(n.to_string()))
            }
        }
        serde_yaml::Value::String(s) => Json::Str(s.clone()),
        serde_yaml::Value::Sequence(a) => Json::Array(a.iter().map(from_yaml).collect()),
        serde_yaml::Value::Mapping(m) => Json::Object(
            m.iter().map(|(k, v)| (k.as_str().unwrap_or_default().to_string(), from_yaml(v))).collect(),
        ),
        serde_yaml::Value::Tagged(t) => from_yaml(&t.value),
    }
}

fn to_yaml(j: &Json) -> serde_yaml::Value {
    match j {
        Json::Null => serde_yaml::Value::Null,
        Json::Bool(b) => serde_yaml::Value::Bool(*b),
        Json::Number(JsonNumber::PosInt(u)) => serde_yaml::Value::Number((*u).into()),
        Json::Number(JsonNumber::NegInt(i)) => serde_yaml::Value::Number((*i).into()),
        Json::Number(JsonNumber::Float(t)) => serde_yaml::Value::Number(t.parse::<f64>().unwrap().into()),
        Json::Str(s) => serde_yaml::Value::String(s.clone()),
        Json::Array(a) => serde_yaml::Value::Sequence(a.iter().map(to_yaml).collect()),
        Json::Object(es) => serde_yaml::Value::Mapping(
            es.iter().map(|(k, v)| (serde_yaml::Value::String(k.clone()), to_yaml(v))).collect(),
        ),
    }
}

fn yaml_doc(text: &str) -> Json {
    from_yaml(&serde_yaml::from_str(text).unwrap())
}

fn json(text: &str) -> Json {
    yaml_doc(text)
}

fn merge_yaml_patch(current: &str, values: &Json) -> String {
    let merged = merge_values(&yaml_doc(current), values).unwrap();
    serde_yaml::to_string(&to_yaml(&merged)).unwrap()
}

#[test]
fn credential_key_length_validated() {
    let key = vec![0u8; 32];
    let b64 = base64::Engine::encode(&base64::engine::general_purpose::STANDARD, key);
    assert_eq!(
        base64::Engine::decode::<String>(&base64::engine::general_purpose::STANDARD, b64).unwrap().len(),
        32
    );
}

#[test]
fn defaults_are_valid() {
    let config = RuntimeConfig::default();
    config.validate().unwrap();
}

#[test]
fn merge_preserves_unknown_fields_and_redacted() {
    let current = r#"server_name: "Old Server"
welcome: "hi"
custom_unknown_key: "keep-me"
openuds:
  enabled: true
  socket_path: "/run/old.sock"
  auth_token: "SECRET"
"#;
    let values = json(r#"{"server_name": "New Server", "openuds.auth_token": "[REDACTED]"}"#);
    let merged = merge_yaml_patch(current, &values);
    assert!(merged.contains("server_name: New Server"), "merged: {merged}");
    assert!(merged.contains("custom_unknown_key: keep-me"), "merged: {merged}");
    assert!(merged.contains("auth_token: SECRET"), "merged: {merged}");
    assert!(!merged.contains("REDACTED"), "merged: {merged}");
    assert!(merged.contains("socket_path: /run/old.sock"), "merged: {merged}");
}

#[test]
fn merge_redacted_case_insensitive() {
    let current = "database_url: \"postgres://secret\"\n";
    for sentinel in ["[REDACTED]", "[redacted]", "[Redacted]"] {
        let values = Json::Object(vec![("database_url".to_string(), Json::Str(sentinel.to_string()))]);
        let merged = merge_yaml_patch(current, &values);
        assert!(merged.contains("database_url: postgres://secret"), "merged: {merged}");
    }
}

#[test]
fn merge_patches_nested_descriptor_path() {
    let current = "openuds:\n  enabled: false\n  socket_path: \"/x\"\n";
    let values = json(r#"{"openuds.enabled": true}"#);
    let merged = merge_yaml_patch(current, &values);
    assert!(merged.contains("enabled: true"), "merged: {merged}");
    assert!(merged.contains("socket_path: /x"), "merged: {merged}");
}

#[test]
fn merge_creates_missing_sections() {
    let merged = merge_yaml_patch("port: 1\n", &json(r#"{"openuds.socket_path": "/s"}"#));
    assert!(merged.contains("openuds:"), "merged: {merged}");
    assert!(merged.contains("socket_path: /s"), "merged: {merged}");
    assert!(merged.contains("port: 1"), "merged: {merged}");
}

#[test]
fn merge_refuses_non_object_values_and_non_mapping_segments() {
    let e = merge_values(&yaml_doc("port: 1\n"), &Json::Array(vec![])).unwrap_err();
    assert_eq!(e.message, "values must be an object");
    let e = merge_values(&yaml_doc("openuds: 3\n"), &json(r#"{"openuds.enabled": true}"#)).unwrap_err();
    assert_eq!(e.code, ErrorCode::ConfigValidationFailed);
    assert_eq!(e.message, "existing config segment is not a mapping");
}

#[test]
fn validation_reports_type_errors_in_field_order() {
    let (ok, errors) = validate_values(&json(r#"{"chat_enabled": "yes", "port": "80", "welcome": 5}"#));
    assert!(!ok);
    assert_eq!(errors.len(), 2);
    assert_eq!(errors[0].path, "chat_enabled");
    assert_eq!(errors[0].code, ConfigValidationIssueCode::ExpectedType);
    assert_eq!(errors[0].message.as_deref(), Some("expected boolean"));
    assert_eq!(errors[0].params.get_str("expected"), Some("boolean"));
    assert_eq!(errors[1].path, "port");
    assert_eq!(errors[1].message.as_deref(), Some("expected number"));
}

#[test]
fn validation_accepts_good_values_and_sentinels() {
    let (ok, errors) = validate_values(&json(r#"{"chat_enabled": true, "port": 7000, "database_url": "[REDACTED]"}"#));
    assert!(ok);
    assert!(errors.is_empty());
    let (ok, errors) = validate_values(&Json::Str("x".to_string()));
    assert!(!ok);
    assert_eq!(errors[0].code, ConfigValidationIssueCode::ValuesMustBeObject);
    assert_eq!(errors[0].code.as_str(), "VALUES_MUST_BE_OBJECT");
    assert_eq!(errors[0].path, "");
}

#[test]
fn descriptor_types_follow_widgets() {
    let fields = pmp_config_descriptor();
    assert_eq!(fields.len(), 20);
    let chat = fields.iter().find(|f| f.path == "chat_enabled").unwrap();
    assert_eq!(chat.value_type, "boolean");
    assert_eq!(chat.permission, "config:reload");
    let port = fields.iter().find(|f| f.path == "port").unwrap();
    assert_eq!(port.value_type, "number");
    assert_eq!(port.permission, "config:rollback");
    assert!(fields.iter().find(|f| f.path == "openuds.auth_token").unwrap().sensitive);
}

#[test]
fn groups_in_first_appearance_order() {
    let groups = pmp_config_groups();
    let keys: Vec<&str> = groups.iter().map(|g| g.key).collect();
    assert_eq!(
        keys,
        vec!["server", "chat", "network", "room", "limit", "log", "phira", "database", "admin", "moderation", "openuds"]
    );
    let server: Vec<&str> = groups[0].fields.iter().map(|f| f.path).collect();
    assert_eq!(server, vec!["server_name", "welcome", "graceful_shutdown_timeout_secs"]);
    assert_eq!(groups[0].label, "服务器");
    assert_eq!(groups.iter().map(|g| g.fields.len()).sum::<usize>(), 20);
}

#[test]
fn values_are_redacted_and_nulls_filled() {
    let doc = yaml_doc("server_name: S\ndatabase_url: postgres://x\nopenuds:\n  enabled: true\n");
    let v = config_values(&doc);
    assert_eq!(v.get_str("server_name"), Some("S"));
    assert_eq!(v.get_str("database_url"), Some("[REDACTED]"));
    assert_eq!(v.get("openuds.enabled").and_then(|x| x.as_bool()), Some(true));
    assert!(matches!(v.get("welcome"), Some(Json::Null)));
    assert!(matches!(v.get("openuds.auth_token"), Some(Json::Null)));
}

#[test]
fn diff_lists_changed_fields_with_secrets_hidden() {
    let before = yaml_doc("server_name: A\ndatabase_url: one\nport: 1\n");
    let after = yaml_doc("server_name: B\ndatabase_url: two\nport: 1\n");
    let changes = config_diff(&before, &after);
    let paths: Vec<&str> = changes.iter().map(|c| c.path.as_str()).collect();
    assert_eq!(paths, vec!["server_name", "database_url"]);
    assert_eq!(changes[0].old.as_str(), Some("A"));
    assert_eq!(changes[0].new.as_str(), Some("B"));
    assert_eq!(changes[1].old.as_str(), Some("[REDACTED]"));
}

#[test]
fn raw_projection_keeps_descriptor_fields_only() {
    let doc = yaml_doc("server_name: S\nextra: 1\nopenuds:\n  auth_token: T\n  socket_path: /p\n");
    let p = raw_projection(&doc).unwrap();
    let text = serde_yaml::to_string(&to_yaml(&p)).unwrap();
    assert!(text.contains("server_name: S"), "{text}");
    assert!(!text.contains("extra"), "{text}");
    assert!(text.contains("auth_token: '[REDACTED]'") || text.contains("auth_token: \"[REDACTED]\""), "{text}");
    assert!(text.contains("socket_path: /p"), "{text}");
}

#[test]
fn field_value_walks_dotted_paths() {
    let m = PmpConfigManager::new(Some("/etc/pmp.yml".to_string()));
    assert!(m.configured());
    assert_eq!(m.path().unwrap(), "/etc/pmp.yml");
    let doc = yaml_doc("openuds:\n  enabled: true\n");
    assert_eq!(m.field_value(&doc, "openuds.enabled").and_then(|v| v.as_bool()), Some(true));
    assert!(m.field_value(&doc, "openuds.missing").is_none());
    let none = PmpConfigManager::new(None);
    assert_eq!(none.path().unwrap_err().code, ErrorCode::PmpUnavailable);
}

#[test]
fn ppf_build_config_rules() {
    assert!(validate_ppf_build_config(&json(r#"{"site_name": "P", "canonical_url": "https://p.example"}"#)).is_ok());
    assert_eq!(
        validate_ppf_build_config(&json(r#"{"theme": "dark"}"#)).unwrap_err().message,
        "unsupported PPF build config key"
    );
    assert_eq!(
        validate_ppf_build_config(&json(r#"{"canonical_url": "not a url"}"#)).unwrap_err().message,
        "canonical_url must be an absolute URL"
    );
    assert_eq!(
        validate_ppf_build_config(&json(r#"{"canonical_url": "ftp://p.example"}"#)).unwrap_err().message,
        "canonical_url must use http or https"
    );
    assert_eq!(
        validate_ppf_build_config(&json(r#"{"analytics_provider": "matomo"}"#)).unwrap_err().message,
        "analytics_provider must be plausible or ga4"
    );
    assert!(validate_ppf_build_config(&json(r#"{"analytics_provider": "", "canonical_url": "  "}"#)).is_ok());
    assert_eq!(validate_ppf_build_config(&Json::Null).unwrap_err().message, "PPF build config must be an object");
}

#[test]
fn canonical_scheme_verdicts() {
    assert!(check_canonical_scheme(Some("https")).is_ok());
    assert!(check_canonical_scheme(Some("http")).is_ok());
    assert!(check_canonical_scheme(Some("ftp")).is_err());
    assert!(check_canonical_scheme(None).is_err());
}

#[test]
fn rollback_scope_is_pmp_only() {
    assert!(check_snapshot_scope("pmp").is_ok());
    assert_eq!(check_snapshot_scope("ppf").unwrap_err().code, ErrorCode::ConfigScopeInvalid);
}

#[test]
fn cors_origins_keep_valid_values_and_star_without_credentials() {
    let with_credentials = CorsConfig::default();
    assert_eq!(
        cors_origins(&with_credentials),
        vec![
            "https://phira.htadiy.com".to_string(),
            "https://panel-phira.htadiy.com".to_string(),
            "http://localhost:3000".to_string(),
            "http://localhost:5173".to_string(),
        ]
    );
    let open = CorsConfig {
        credentials: false,
        allowed_origins: vec!["https://a.example".to_string(), "bad\nvalue".to_string()],
        dev_origins: vec!["http://\u{7f}x".to_string(), "http://localhost:1".to_string()],
    };
    assert_eq!(
        cors_origins(&open),
        vec!["https://a.example".to_string(), "http://localhost:1".to_string(), "*".to_string()]
    );
}

#[test]
fn rejects_star_origin_with_credentials() {
    // [server] listen_addr = "0.0.0.0:8080"; [cors] credentials = true, allowed_origins = ["*"]
    let mut config = RuntimeConfig::default();
    config.server.listen_addr = "0.0.0.0:8080".to_string();
    config.cors.credentials = true;
    config.cors.allowed_origins = vec!["*".to_string()];
    assert!(config.validate().is_err());
    assert_eq!(config.validate().unwrap_err(), "cors.credentials=true forbids '*' allowed_origins");
}
