use mcp_ectors::secrets::{BasicSecretsImports, SecretValue, SecretsError};
use mcp_ectors::sessions::ClientRegistryActor;
use mcp_ectors::transport::{decimal_string, endpoint_path, parse_session_id};

/// What the host environment holds under a key, as it would be looked up:
/// `MY_SECRET_KEY` is set, nothing else is.
fn fetch(key: &str) -> Option<SecretValue> {
    if key == "MY_SECRET_KEY" {
        Some(SecretValue::String("super_secret_value".to_string()))
    } else {
        None
    }
}

#[test]
fn test_get_secret() {
    let mut secrets_imports = BasicSecretsImports::new();
    let _ = secrets_imports.store_secret(fetch("MY_SECRET_KEY")).unwrap();
    let handle = secrets_imports.store_secret(fetch("MY_SECRET_KEY")).unwrap();
    assert!(handle != 0, "Resource handle should not be zero");
    match secrets_imports.reveal_secret(handle) {
        Ok(SecretValue::String(value)) => assert_eq!(value, "super_secret_value"),
        _ => panic!("Expected SecretValue::String, but got something else"),
    }
}

#[test]
fn test_reveal_valid_secret() {
    let mut secrets_imports = BasicSecretsImports::new();
    let handle = secrets_imports.store_secret(fetch("MY_SECRET_KEY")).unwrap();
    match secrets_imports.reveal_secret(handle) {
        Ok(SecretValue::String(value)) => assert_eq!(value, "super_secret_value"),
        _ => panic!("Expected SecretValue::String, but got something else"),
    }
}

#[test]
fn test_secret_not_found() {
    let mut secrets_imports = BasicSecretsImports::new();
    match secrets_imports.store_secret(fetch("NON_EXISTENT_KEY")) {
        Err(SecretsError::NotFound) => {}
        _ => panic!("Expected SecretsError::NotFound, but got something else"),
    }
}

#[test]
fn secret_handles_count_up_and_unknown_handles_fail() {
    let mut s = BasicSecretsImports::new();
    assert_eq!(s.store_secret(Some(SecretValue::String("a".to_string()))), Ok(1));
    assert_eq!(s.store_secret(Some(SecretValue::Bytes(vec![1, 2]))), Ok(2));
    assert!(matches!(s.reveal_secret(0), Err(SecretsError::NotFound)));
    assert!(matches!(s.reveal_secret(3), Err(SecretsError::NotFound)));
    assert!(matches!(s.reveal_secret(2), Ok(SecretValue::Bytes(b)) if b == &vec![1u8, 2]));
    assert_eq!(SecretValue::String("hidden".to_string()).redacted(), "<redacted>");
}

#[test]
fn session_ids_are_unique() {
    let mut c = ClientRegistryActor::new();
    let mut ids = Vec::new();
    for _ in 0..50 {
        ids.push(c.register_client());
    }
    let mut sorted = ids.clone();
    sorted.sort();
    sorted.dedup();
    assert_eq!(sorted.len(), 50);
    assert_eq!(c.broadcast_targets(), ids);
}

#[test]
fn session_with_taken_id_is_refused() {
    let mut c = ClientRegistryActor::new();
    assert!(c.register_with_id(5));
    assert!(!c.register_with_id(5));
    assert!(c.register_with_id(0));
    assert_eq!(c.broadcast_targets(), vec![5, 0]);
}

#[test]
fn notify_goes_to_one_live_session_only() {
    let mut c = ClientRegistryActor::new();
    c.register_with_id(1);
    c.register_with_id(2);
    assert_eq!(c.notify_targets(2), vec![2]);
    assert_eq!(c.notify_targets(3), Vec::<u64>::new());
    c.deregister_client(2);
    assert!(!c.is_live(2));
    assert!(c.is_live(1));
    assert_eq!(c.notify_targets(2), Vec::<u64>::new());
    c.deregister_client(2);
    assert_eq!(c.broadcast_targets(), vec![1]);
}

#[test]
fn endpoint_event_path() {
    assert_eq!(endpoint_path(17), "/messages/?session_id=17");
    assert_eq!(endpoint_path(0), "/messages/?session_id=0");
    assert_eq!(endpoint_path(u64::MAX), format!("/messages/?session_id={}", u64::MAX));
    assert_eq!(decimal_string(1234567890), "1234567890");
}

#[test]
fn session_id_parsing() {
    assert_eq!(parse_session_id("42"), Some(42));
    assert_eq!(parse_session_id("+42"), Some(42));
    assert_eq!(parse_session_id("18446744073709551615"), Some(u64::MAX));
    assert_eq!(parse_session_id("18446744073709551616"), None);
    assert_eq!(parse_session_id(""), None);
    assert_eq!(parse_session_id("+"), None);
    assert_eq!(parse_session_id("4a"), None);
    assert_eq!(parse_session_id("-1"), None);
    for id in [0u64, 7, 123456789, u64::MAX] {
        assert_eq!(parse_session_id(&id.to_string()), Some(id));
    }
}
