use keyvault::{
    decode_envelope, decrypt, decrypt_data, decrypt_message, derive_key, encrypt, encrypt_data,
    encrypt_message, encode_envelope, seal_data, seal_message, KeyError,
};

#[test]
fn data_round_trip() {
    let text = encrypt_data("top secret value", "master-pass").unwrap();
    assert_eq!(decrypt_data(&text, "master-pass").unwrap(), "top secret value");
}

#[test]
fn data_round_trip_non_ascii() {
    let text = encrypt_data("clé secrète ✓", "mot de passe").unwrap();
    assert_eq!(decrypt_data(&text, "mot de passe").unwrap(), "clé secrète ✓");
}

#[test]
fn data_with_wrong_secret_fails_authentication() {
    let text = encrypt_data("top secret value", "master-pass").unwrap();
    assert_eq!(decrypt_data(&text, "wrong-pass"), Err(KeyError::AuthenticationFailure));
}

#[test]
fn encrypt_data_rejects_empty_secret() {
    assert_eq!(encrypt_data("x", ""), Err(KeyError::InvalidKeyMaterial));
}

#[test]
fn decrypt_data_checks_envelope_before_secret() {
    assert_eq!(decrypt_data("!!", ""), Err(KeyError::FormatError));
    let text = encrypt_data("x", "s").unwrap();
    assert_eq!(decrypt_data(&text, ""), Err(KeyError::InvalidKeyMaterial));
}

#[test]
fn two_encryptions_use_different_nonces() {
    let a = encrypt_data("same", "secret").unwrap();
    let b = encrypt_data("same", "secret").unwrap();
    assert_ne!(a, b);
    let (na, _) = decode_envelope(&a).unwrap();
    let (nb, _) = decode_envelope(&b).unwrap();
    assert_ne!(na, nb);
}

#[test]
fn seal_data_is_the_envelope_of_nonce_and_ciphertext() {
    let nonce = [9u8; 12];
    let text = seal_data("payload", "secret", &nonce).unwrap();
    let key = derive_key(b"secret").unwrap();
    let c = encrypt(&key, &nonce, b"payload").unwrap();
    assert_eq!(text, encode_envelope(&nonce, &c));
    assert_ne!(text, encode_envelope(&nonce, b"payload"));
}

#[test]
fn seal_data_errors() {
    assert_eq!(seal_data("p", "", &[0u8; 12]), Err(KeyError::InvalidKeyMaterial));
    assert_eq!(seal_data("p", "s", &[0u8; 8]), Err(KeyError::InvalidNonce));
}

#[test]
fn tampered_envelope_fails_authentication() {
    let text = encrypt_data("top secret value", "master-pass").unwrap();
    let (nonce, mut c) = decode_envelope(&text).unwrap();
    c[0] ^= 0xff;
    let tampered = encode_envelope(&nonce, &c);
    assert_eq!(decrypt_data(&tampered, "master-pass"), Err(KeyError::AuthenticationFailure));
}

#[test]
fn non_utf8_plaintext_is_a_format_error() {
    let key = derive_key(b"secret").unwrap();
    let nonce = [2u8; 12];
    let c = encrypt(&key, &nonce, &[0xff, 0xfe]).unwrap();
    let text = encode_envelope(&nonce, &c);
    assert_eq!(decrypt_data(&text, "secret"), Err(KeyError::FormatError));
}

#[test]
fn message_round_trip() {
    let key = [5u8; 32];
    let m = encrypt_message(&key, "hello").unwrap();
    assert_eq!(m.len(), 12 + 5 + 16);
    assert_eq!(decrypt_message(&key, &m), Some("hello".to_string()));
}

#[test]
fn seal_message_puts_nonce_first() {
    let key = [5u8; 32];
    let nonce = [4u8; 12];
    let m = seal_message(&key, "hello", &nonce).unwrap();
    assert_eq!(&m[..12], &nonce[..]);
    assert_eq!(m[12..].to_vec(), encrypt(&key, &nonce, b"hello").unwrap());
    assert_eq!(decrypt(&key, &nonce, &m[12..]).unwrap(), b"hello".to_vec());
}

#[test]
fn message_key_length_must_be_exact() {
    assert_eq!(encrypt_message(&[5u8; 31], "hello"), None);
    assert_eq!(encrypt_message(&[5u8; 64], "hello"), None);
    assert_eq!(decrypt_message(&[5u8; 16], &[0u8; 40]), None);
}

#[test]
fn short_or_tampered_message_is_rejected() {
    let key = [5u8; 32];
    assert_eq!(decrypt_message(&key, &[0u8; 11]), None);
    let mut m = encrypt_message(&key, "hello").unwrap();
    let last = m.len() - 1;
    m[last] ^= 1;
    assert_eq!(decrypt_message(&key, &m), None);
}

#[test]
fn envelope_length_depends_on_data_length_only() {
    for (data, secret) in [("", "a"), ("abc", "b"), ("0123456789", "another secret")] {
        let text = encrypt_data(data, secret).unwrap();
        assert_eq!(text.len(), 4 * ((12 + data.len() + 16 + 2) / 3));
    }
    let a = encrypt_data("same length", "one").unwrap();
    let b = encrypt_data("SAME LENGTH", "two").unwrap();
    assert_eq!(a.len(), b.len());
}

#[test]
fn message_length_is_nonce_plaintext_and_tag() {
    let key = [6u8; 32];
    for p in ["", "x", "a longer plaintext"] {
        assert_eq!(encrypt_message(&key, p).unwrap().len(), 12 + p.len() + 16);
    }
}

#[test]
fn altered_tag_with_intact_body_fails() {
    let key = derive_key(b"tag-test").unwrap();
    let nonce = [3u8; 12];
    let c = encrypt(&key, &nonce, b"body stays intact").unwrap();
    let mut t = c.clone();
    let last = t.len() - 1;
    t[last] = t[last].wrapping_add(1);
    assert_eq!(decrypt(&key, &nonce, &t), Err(KeyError::AuthenticationFailure));
}
