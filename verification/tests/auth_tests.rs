use mini_claude_code::auth::{
    api_key_from_env, credentials_file_token, keychain_output_value, keychain_token,
    next_key_step, parse_hex_credentials, KeySearchStep, KeySource,
};

#[test]
fn test_parse_hex_credentials() {
    let json = r#"{"claudeAiOauth":{"accessToken":"test-token-123"}}"#;
    let hex = hex::encode(json.as_bytes());
    let result = parse_hex_credentials(&hex);
    assert_eq!(result, Some("test-token-123".to_string()));
}

#[test]
fn test_parse_hex_credentials_invalid() {
    assert_eq!(parse_hex_credentials("not-hex"), None);
    assert_eq!(parse_hex_credentials(""), None);
}

#[test]
fn hex_credentials_edge_cases() {
    let json = r#"{"claudeAiOauth":{"accessToken":"tok"}}"#;
    let upper = hex::encode_upper(json.as_bytes());
    assert_eq!(parse_hex_credentials(&format!("  {}\n", upper)), Some("tok".to_string()));
    assert_eq!(parse_hex_credentials("abc"), None);
    assert_eq!(parse_hex_credentials(&hex::encode([0xffu8, 0xfe])), None);
    let no_token = hex::encode(r#"{"claudeAiOauth":{"accessToken":5}}"#);
    assert_eq!(parse_hex_credentials(&no_token), None);
}

#[test]
fn keychain_and_file_tokens() {
    assert_eq!(keychain_token("sk-ant-123"), Some("sk-ant-123".to_string()));
    let hex = hex::encode(r#"{"claudeAiOauth":{"accessToken":"oauth"}}"#);
    assert_eq!(keychain_token(&hex), Some("oauth".to_string()));
    assert_eq!(keychain_output_value("  value \n"), Some("value".to_string()));
    assert_eq!(keychain_output_value(" \n"), None);
    assert_eq!(
        credentials_file_token(r#"{"claudeAiOauth":{"accessToken":"a"},"apiKey":"b"}"#),
        Some("a".to_string())
    );
    assert_eq!(credentials_file_token(r#"{"apiKey":"b"}"#), Some("b".to_string()));
    assert_eq!(credentials_file_token("{}"), None);
    assert_eq!(api_key_from_env(Some(String::new())), None);
    assert_eq!(api_key_from_env(Some("k".to_string())), Some("k".to_string()));
    assert_eq!(api_key_from_env(None), None);
}

#[test]
fn key_sources_are_tried_in_order() {
    assert!(matches!(next_key_step(None, None), KeySearchStep::Look(KeySource::Environment)));
    assert!(matches!(
        next_key_step(Some(KeySource::Environment), None),
        KeySearchStep::Look(KeySource::Keychain)
    ));
    assert!(matches!(
        next_key_step(Some(KeySource::Keychain), None),
        KeySearchStep::Look(KeySource::CredentialsFile)
    ));
    match next_key_step(Some(KeySource::Keychain), Some("sk-1".to_string())) {
        KeySearchStep::Found(k) => assert_eq!(k, "sk-1"),
        other => panic!("unexpected {:?}", other),
    }
    match next_key_step(Some(KeySource::CredentialsFile), None) {
        KeySearchStep::Missing(m) => assert!(m.starts_with("No API key found.")),
        other => panic!("unexpected {:?}", other),
    }
}
