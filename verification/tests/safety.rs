use portus_runtime::safety::{
    data_contains_secret_like, safe_metadata_key, secret_like_key, secret_like_text, SafeData,
};

#[test]
fn detects_secret_shaped_keys_and_nested_values_without_rejecting_normal_tokens() {
    assert!(secret_like_key("access_token"));
    assert!(secret_like_text("Authorization: Bearer do-not-store"));
    let nested = SafeData::Object(vec![(
        "nested".to_string(),
        SafeData::Array(vec![SafeData::Object(vec![(
            "authorization".to_string(),
            SafeData::Str("opaque".to_string()),
        )])]),
    )]);
    assert!(data_contains_secret_like(&nested));
    let note = SafeData::Object(vec![(
        "note".to_string(),
        SafeData::Str("token=do-not-store".to_string()),
    )]);
    assert!(data_contains_secret_like(&note));
    assert!(!secret_like_text("token count is 12"));
    let plain = SafeData::Object(vec![
        ("phase".to_string(), SafeData::Str("ready".to_string())),
        ("count".to_string(), SafeData::UInt(3)),
    ]);
    assert!(!data_contains_secret_like(&plain));
}

#[test]
fn metadata_keys_must_be_plain_names_without_credentials() {
    assert!(safe_metadata_key("display_name"));
    assert!(!safe_metadata_key("api_key"));
    assert!(!safe_metadata_key("line\nbreak"));
    assert!(!safe_metadata_key(""));
}

#[test]
fn secret_markers_are_matched_case_insensitively() {
    assert!(secret_like_key("Client_SECRET"));
    assert!(secret_like_text("PASSWORD=hunter2"));
    assert!(!secret_like_key("window_title"));
}
