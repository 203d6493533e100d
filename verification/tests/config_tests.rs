use cargo_deploy::codec::{config_to_json, parse_config};
use cargo_deploy::config::DeployConfig;
use cargo_deploy::errors::DeployError;

fn custom_config() -> DeployConfig {
    DeployConfig {
        target_arch: Some("armv7-unknown-linux-gnueabihf".to_string()),
        target_dest: Some("/opt/apps".to_string()),
        target_name: Some("pi.local".to_string()),
        target_user: Some("alice".to_string()),
    }
}

const DEFAULT_JSON: &str = "{\n  \"target_arch\": \"aarch64-unknown-linux-gnu\",\n  \"target_dest\": \"/home/raspberry/bin\",\n  \"target_name\": null,\n  \"target_user\": null\n}";

#[test]
fn default_config_fields() {
    let c = DeployConfig::default();
    assert_eq!(c.target_arch.as_deref(), Some("aarch64-unknown-linux-gnu"));
    assert_eq!(c.target_dest.as_deref(), Some("/home/raspberry/bin"));
    assert_eq!(c.target_name, None);
    assert_eq!(c.target_user, None);
}

#[test]
fn set_name_only_sets_name() {
    let mut c = DeployConfig::default();
    c.set_name("pi.local".to_string());
    assert_eq!(c.target_name.as_deref(), Some("pi.local"));
    assert_eq!(c.target_dest.as_deref(), Some("/home/raspberry/bin"));
    assert_eq!(c.target_user, None);
}

#[test]
fn set_user_rewrites_dest() {
    let mut c = DeployConfig::default();
    c.set_user("alice".to_string());
    assert_eq!(c.target_user.as_deref(), Some("alice"));
    assert_eq!(c.target_dest.as_deref(), Some("/home/alice/bin"));
}

#[test]
fn set_user_overwrites_custom_dest() {
    // Filling the user resets even a non-default destination.
    let mut c = custom_config();
    c.set_user("bob".to_string());
    assert_eq!(c.target_dest.as_deref(), Some("/home/bob/bin"));
}

#[test]
fn emit_default_exact_text() {
    let text = config_to_json(&DeployConfig::default());
    assert_eq!(text, DEFAULT_JSON);
}

#[test]
fn parse_emitted_default() {
    let c = parse_config(DEFAULT_JSON).unwrap();
    assert_eq!(c.target_arch.as_deref(), Some("aarch64-unknown-linux-gnu"));
    assert_eq!(c.target_dest.as_deref(), Some("/home/raspberry/bin"));
    assert_eq!(c.target_name, None);
    assert_eq!(c.target_user, None);
}

#[test]
fn round_trip_custom_config() {
    let c = custom_config();
    let d = parse_config(&config_to_json(&c)).unwrap();
    assert_eq!(d.target_arch, c.target_arch);
    assert_eq!(d.target_dest, c.target_dest);
    assert_eq!(d.target_name, c.target_name);
    assert_eq!(d.target_user, c.target_user);
}

#[test]
fn round_trip_special_characters() {
    let c = DeployConfig {
        target_arch: Some("x\"y\\z".to_string()),
        target_dest: Some("line1\nline2\ttab\rcr".to_string()),
        target_name: Some("ctrl:\u{01}\u{1f}".to_string()),
        target_user: Some("ünïcødé".to_string()),
    };
    let d = parse_config(&config_to_json(&c)).unwrap();
    assert_eq!(d.target_arch, c.target_arch);
    assert_eq!(d.target_dest, c.target_dest);
    assert_eq!(d.target_name, c.target_name);
    assert_eq!(d.target_user, c.target_user);
}

#[test]
fn parse_accepts_any_key_order_and_whitespace() {
    let text = "  {\"target_user\":\"bob\",\n\t\"target_name\": null ,\r\n \"target_dest\" : \"/x\", \"target_arch\": null }  ";
    let c = parse_config(text).unwrap();
    assert_eq!(c.target_user.as_deref(), Some("bob"));
    assert_eq!(c.target_name, None);
    assert_eq!(c.target_dest.as_deref(), Some("/x"));
    assert_eq!(c.target_arch, None);
}

#[test]
fn parse_accepts_escapes() {
    let text = "{\"target_arch\":\"a\\\"b\\\\c\\nd\\u0041e\\/f\",\"target_dest\":null,\"target_name\":null,\"target_user\":null}";
    let c = parse_config(text).unwrap();
    assert_eq!(c.target_arch.as_deref(), Some("a\"b\\c\ndAe/f"));
}

#[test]
fn parse_missing_field_counts_as_null() {
    let text = "{\"target_arch\":\"a\",\"target_dest\":\"/d\",\"target_name\":\"h\"}";
    let c = parse_config(text).unwrap();
    assert_eq!(c.target_arch.as_deref(), Some("a"));
    assert_eq!(c.target_user, None);
}

#[test]
fn parse_empty_object_is_all_null() {
    let c = parse_config("{}").unwrap();
    assert_eq!(c.target_arch, None);
    assert_eq!(c.target_dest, None);
    assert_eq!(c.target_name, None);
    assert_eq!(c.target_user, None);
    let c = parse_config(" {\n} ").unwrap();
    assert_eq!(c.target_user, None);
}

#[test]
fn parse_single_field_object() {
    let c = parse_config("{ \"target_user\": \"bob\" }").unwrap();
    assert_eq!(c.target_user.as_deref(), Some("bob"));
    assert_eq!(c.target_name, None);
}

#[test]
fn parse_rejects_trailing_comma() {
    let text = "{\"target_arch\":null,}";
    assert_eq!(parse_config(text), Err(DeployError::ConfigParse));
}

#[test]
fn parse_rejects_duplicate_field() {
    let text =
        "{\"target_arch\":null,\"target_arch\":null,\"target_name\":null,\"target_user\":null}";
    assert_eq!(parse_config(text), Err(DeployError::ConfigParse));
}

#[test]
fn parse_rejects_unknown_field() {
    let text =
        "{\"target_arch\":null,\"target_dest\":null,\"target_name\":null,\"target_port\":null}";
    assert_eq!(parse_config(text), Err(DeployError::ConfigParse));
}

#[test]
fn parse_rejects_trailing_text() {
    let mut text = String::from(DEFAULT_JSON);
    text.push_str("x");
    assert_eq!(parse_config(&text), Err(DeployError::ConfigParse));
}

#[test]
fn parse_rejects_non_object() {
    assert_eq!(parse_config(""), Err(DeployError::ConfigParse));
    assert_eq!(parse_config("42"), Err(DeployError::ConfigParse));
    assert_eq!(parse_config("[]"), Err(DeployError::ConfigParse));
}

#[test]
fn parse_rejects_bad_escape() {
    let text = "{\"target_arch\":\"a\\qb\",\"target_dest\":null,\"target_name\":null,\"target_user\":null}";
    assert_eq!(parse_config(text), Err(DeployError::ConfigParse));
}

#[test]
fn parse_rejects_raw_control_char() {
    let text = "{\"target_arch\":\"a\u{01}b\",\"target_dest\":null,\"target_name\":null,\"target_user\":null}";
    assert_eq!(parse_config(text), Err(DeployError::ConfigParse));
}

#[test]
fn emitted_json_is_valid_for_serde() {
    let text = config_to_json(&custom_config());
    let v: serde_json::Value = serde_json::from_str(&text).unwrap();
    assert_eq!(
        v.get("target_arch").and_then(|x| x.as_str()),
        Some("armv7-unknown-linux-gnueabihf")
    );
    assert_eq!(v.get("target_dest").and_then(|x| x.as_str()), Some("/opt/apps"));
    assert_eq!(v.get("target_name").and_then(|x| x.as_str()), Some("pi.local"));
    assert_eq!(v.get("target_user").and_then(|x| x.as_str()), Some("alice"));
}

#[test]
fn parse_accepts_serde_rendered_file() {
    let mut map = serde_json::Map::new();
    map.insert(
        "target_arch".to_string(),
        serde_json::Value::String("aarch64-unknown-linux-gnu".to_string()),
    );
    map.insert("target_dest".to_string(), serde_json::Value::Null);
    map.insert(
        "target_name".to_string(),
        serde_json::Value::String("pi.local".to_string()),
    );
    map.insert("target_user".to_string(), serde_json::Value::Null);
    let text = serde_json::to_string_pretty(&serde_json::Value::Object(map)).unwrap();
    let c = parse_config(&text).unwrap();
    assert_eq!(c.target_arch.as_deref(), Some("aarch64-unknown-linux-gnu"));
    assert_eq!(c.target_dest, None);
    assert_eq!(c.target_name.as_deref(), Some("pi.local"));
    assert_eq!(c.target_user, None);
}

#[test]
fn error_messages() {
    assert_eq!(DeployError::Build.message(), "Build failed");
    assert_eq!(DeployError::ConfigParse.message(), "Invalid JSON in cargo_deploy.json");
    assert_eq!(DeployError::KeyGeneration.message(), "SSH key generation failed");
    assert_eq!(
        DeployError::HomeDirectoryUnknown.message(),
        "HOME environment variable not set. Cannot locate '$HOME/.ssh/' on your machine."
    );
}
