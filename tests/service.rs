use keyvault::{
    decrypt_data, lookup_summary, seal_data, CreateKeyRequest, Key, KeyError, KeyService,
    MemoryKeyStore, Text,
};

fn request(name: &str, data: &str) -> CreateKeyRequest {
    CreateKeyRequest { name: name.to_string(), data: data.to_string() }
}

#[test]
fn create_then_decrypt_with_same_secret() {
    let mut service = KeyService::new();
    let resp = service.create_key(request("db-secret", "top secret value"), "master-pass", 1_700_000_000).unwrap();
    assert_eq!(resp.name, "db-secret");
    assert_eq!(service.decrypt_key(resp.id, "master-pass").unwrap(), "top secret value");
}

#[test]
fn create_then_decrypt_with_wrong_secret() {
    let mut service = KeyService::new();
    let resp = service.create_key(request("db-secret", "top secret value"), "master-pass", 1_700_000_000).unwrap();
    assert_eq!(service.decrypt_key(resp.id, "wrong-pass"), Err(KeyError::AuthenticationFailure));
}

#[test]
fn delete_then_get_is_not_found() {
    let mut service = KeyService::new();
    let resp = service.create_key(request("db-secret", "top secret value"), "master-pass", 1_700_000_000).unwrap();
    assert!(service.get_key(resp.id).is_ok());
    assert_eq!(service.delete_key(resp.id), Ok(()));
    assert!(matches!(service.get_key(resp.id), Err(KeyError::NotFound)));
    assert_eq!(service.decrypt_key(resp.id, "master-pass"), Err(KeyError::NotFound));
}

#[test]
fn deleting_an_absent_record_is_not_found() {
    let mut service = KeyService::new();
    assert_eq!(service.delete_key(42), Err(KeyError::NotFound));
    let resp = service.create_key(request("a", "b"), "s", 0).unwrap();
    assert_eq!(service.delete_key(resp.id), Ok(()));
    assert_eq!(service.delete_key(resp.id), Err(KeyError::NotFound));
}

#[test]
fn get_key_returns_summary() {
    let mut service = KeyService::new();
    let resp = service.create_key_with(request("db-secret", "v"), "pass", &[1u8; 12], 1_700_000_000).unwrap();
    let got = service.get_key(resp.id).unwrap();
    assert_eq!(got.id, resp.id);
    assert_eq!(got.name, "db-secret");
    assert_eq!(got.created_at, 1_700_000_000);
    assert!(matches!(service.get_key(resp.id + 1), Err(KeyError::NotFound)));
}

#[test]
fn ids_are_assigned_in_order_from_one() {
    let mut service = KeyService::new();
    let a = service.create_key(request("a", "1"), "s", 0).unwrap();
    let b = service.create_key(request("b", "2"), "s", 0).unwrap();
    assert_eq!(a.id, 1);
    assert_eq!(b.id, 2);
    service.delete_key(b.id).unwrap();
    let c = service.create_key(request("c", "3"), "s", 0).unwrap();
    assert_eq!(c.id, 3);
}

#[test]
fn create_with_empty_secret_stores_nothing() {
    let mut service = KeyService::new();
    assert!(matches!(service.create_key(request("a", "b"), "", 0), Err(KeyError::InvalidKeyMaterial)));
    assert!(matches!(service.get_key(1), Err(KeyError::NotFound)));
}

#[test]
fn create_with_bad_nonce_stores_nothing() {
    let mut service = KeyService::new();
    assert!(matches!(
        service.create_key_with(request("a", "b"), "s", &[0u8; 3], 0),
        Err(KeyError::InvalidNonce)
    ));
    assert!(matches!(service.get_key(1), Err(KeyError::NotFound)));
}

#[test]
fn stored_envelope_is_what_seal_data_gives() {
    let mut store = MemoryKeyStore::new();
    let text = seal_data("v", "pass", &[8u8; 12]).unwrap();
    let id = store.create_key("n".to_string(), text.clone(), 5).unwrap();
    let k = store.get_key_by_id(id).unwrap();
    assert_eq!(k.encrypted_data, text);
    assert_eq!(k.created_at, 5);
    assert_eq!(k.updated_at, 5);
    assert_eq!(decrypt_data(&k.encrypted_data, "pass").unwrap(), "v");
    store.delete_key(id);
    assert!(store.get_key_by_id(id).is_none());
    store.delete_key(id);
}

#[test]
fn text_labels() {
    assert_eq!(Text::File.name(), "File");
    assert_eq!(Text::Home.name(), "Home");
}

#[test]
fn error_messages_hold_no_detail() {
    assert_eq!(KeyError::AuthenticationFailure.message(), "authentication failure");
    assert_eq!(KeyError::NotFound.message(), "not found");
}

#[test]
fn lookup_summary_cases() {
    let key = Key {
        id: 7,
        name: "n".to_string(),
        encrypted_data: "e".to_string(),
        created_at: 11,
        updated_at: 12,
    };
    let resp = lookup_summary(7, Some(key)).unwrap();
    assert_eq!((resp.id, resp.name.as_str(), resp.created_at), (7, "n", 11));
    let other = Key {
        id: 8,
        name: "n".to_string(),
        encrypted_data: "e".to_string(),
        created_at: 11,
        updated_at: 12,
    };
    assert!(matches!(lookup_summary(7, Some(other)), Err(KeyError::NotFound)));
    assert!(matches!(lookup_summary(7, None), Err(KeyError::NotFound)));
}

#[test]
fn created_record_carries_given_time() {
    let mut service = KeyService::new();
    let resp = service.create_key(request("a", "b"), "s", 42).unwrap();
    assert_eq!(resp.created_at, 42);
    assert_eq!(service.get_key(resp.id).unwrap().created_at, 42);
}

#[test]
fn every_error_message_is_fixed() {
    let all = [
        (KeyError::ConfigurationError, "configuration error"),
        (KeyError::InvalidKeyMaterial, "invalid key material"),
        (KeyError::InvalidNonce, "invalid nonce"),
        (KeyError::RandomnessUnavailable, "randomness unavailable"),
        (KeyError::AuthenticationFailure, "authentication failure"),
        (KeyError::FormatError, "format error"),
        (KeyError::PersistenceError, "persistence error"),
        (KeyError::NotFound, "not found"),
    ];
    for (e, m) in all {
        assert_eq!(e.message(), m);
    }
}
