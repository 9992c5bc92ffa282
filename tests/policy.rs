use assume_role::error::LaunchError;
use assume_role::policy::{policy_document, PolicyFormat};

const YAML_POLICY: &str = "Version: '2012-10-17'\nStatement:\n  - Effect: Allow\n    Action: s3:GetObject\n    Resource: '*'\n";

#[test]
fn yaml_policy_becomes_json() {
    let doc = policy_document(PolicyFormat::YamlToJson, "p.yaml", YAML_POLICY.to_string()).unwrap();
    assert_eq!(
        doc,
        r#"{"Version":"2012-10-17","Statement":[{"Effect":"Allow","Action":"s3:GetObject","Resource":"*"}]}"#
    );
}

#[test]
fn json_policy_is_reformatted() {
    let doc = policy_document(PolicyFormat::YamlToJson, "p.json", "{ \"a\" : [1, 2] }".to_string()).unwrap();
    assert_eq!(doc, r#"{"a":[1,2]}"#);
}

#[test]
fn raw_policy_passes_unchanged() {
    let text = "{ \"a\" : [1, 2] }".to_string();
    let doc = policy_document(PolicyFormat::RawJson, "p.json", text.clone()).unwrap();
    assert_eq!(doc, text);
}

#[test]
fn malformed_policy_names_its_path() {
    match policy_document(PolicyFormat::YamlToJson, "bad.yaml", "a: [1, 2".to_string()) {
        Err(LaunchError::PolicyMalformed { path }) => assert_eq!(path, "bad.yaml"),
        other => panic!("unexpected {:?}", other),
    }
}

#[test]
fn non_string_keys_are_malformed() {
    let r = policy_document(PolicyFormat::YamlToJson, "k.yaml", "? [1, 2]\n: x\n".to_string());
    assert!(matches!(r, Err(LaunchError::PolicyMalformed { .. })));
}

#[test]
fn yaml_json_round_trip() {
    let doc = policy_document(PolicyFormat::YamlToJson, "p.yaml", YAML_POLICY.to_string()).unwrap();
    let direct: serde_yaml::Value = serde_yaml::from_str(YAML_POLICY).unwrap();
    let again: serde_yaml::Value = serde_yaml::from_str(&doc).unwrap();
    assert_eq!(direct, again);
    let as_json: serde_json::Value = serde_json::from_str(&doc).unwrap();
    assert_eq!(as_json, serde_json::to_value(&direct).unwrap());
}
