use posthog_client::{
    env_var_name, production_endpoint_str, resolve_from_env, resolve_from_secret,
    secret_version_path, trimmed, ResolutionError, SecretStoreError,
};

#[test]
fn env_value_used_directly() {
    let resolved = resolve_from_env(Some("  key123  ".to_string())).unwrap();
    assert_eq!(resolved.key().as_str(), "key123");
    assert_eq!(resolved.endpoint().as_str(), "https://app.posthog.com/");
}

#[test]
fn env_unset_or_blank_falls_through() {
    assert!(resolve_from_env(None).is_none());
    assert!(resolve_from_env(Some(String::new())).is_none());
    assert!(resolve_from_env(Some("   \t\n".to_string())).is_none());
    assert!(resolve_from_env(Some("\u{00a0}\u{3000}".to_string())).is_none());
}

#[test]
fn secret_bytes_become_key() {
    let resolved = resolve_from_secret(Ok(b" sk_secret\n".to_vec())).unwrap();
    assert_eq!(resolved.key().as_str(), "sk_secret");
    assert_eq!(resolved.endpoint().as_str(), "https://app.posthog.com/");
}

#[test]
fn secret_store_failure_is_wrapped() {
    let err = resolve_from_secret(Err(SecretStoreError::NotFound)).unwrap_err();
    assert_eq!(err, ResolutionError::Store(SecretStoreError::NotFound));
    let err = resolve_from_secret(Err(SecretStoreError::Auth("denied".to_string()))).unwrap_err();
    assert_eq!(
        err,
        ResolutionError::Store(SecretStoreError::Auth("denied".to_string()))
    );
    let err =
        resolve_from_secret(Err(SecretStoreError::Service("http 500".to_string()))).unwrap_err();
    assert_eq!(
        err,
        ResolutionError::Store(SecretStoreError::Service("http 500".to_string()))
    );
}

#[test]
fn secret_bytes_not_utf8_rejected() {
    let err = resolve_from_secret(Ok(vec![0xff, 0xfe])).unwrap_err();
    assert_eq!(err, ResolutionError::NotUtf8);
}

#[test]
fn secret_bytes_blank_rejected() {
    let err = resolve_from_secret(Ok(b"   ".to_vec())).unwrap_err();
    assert_eq!(err, ResolutionError::BlankKey);
    let err = resolve_from_secret(Ok(Vec::new())).unwrap_err();
    assert_eq!(err, ResolutionError::BlankKey);
}

#[test]
fn trimmed_removes_unicode_whitespace() {
    assert_eq!(trimmed(" \t a b \u{3000}"), "a b");
    assert_eq!(trimmed(""), "");
    assert_eq!(trimmed("\u{2028}\u{202f}"), "");
    assert_eq!(trimmed("x"), "x");
}

#[test]
fn fixed_names() {
    assert_eq!(env_var_name(), "POSTHOG_API_KEY");
    assert_eq!(production_endpoint_str(), "https://app.posthog.com/");
    assert_eq!(
        secret_version_path("proj", "ph-key"),
        "projects/proj/secrets/ph-key/versions/latest"
    );
}
