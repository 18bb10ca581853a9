use keyvault::{decode_envelope, encode_envelope, KeyError};

#[test]
fn encodes_nonce_then_ciphertext_as_base64() {
    assert_eq!(encode_envelope(&[0u8; 12], &[]), "AAAAAAAAAAAAAAAA");
    assert_eq!(encode_envelope(&[0u8; 12], b"Man"), "AAAAAAAAAAAAAAAATWFu");
    assert_eq!(encode_envelope(&[0u8; 12], b"M"), "AAAAAAAAAAAAAAAATQ==");
}

#[test]
fn envelope_round_trip() {
    let n: Vec<u8> = (0u8..12).collect();
    for c in [&b""[..], &b"x"[..], &b"ciphertext with tag"[..]] {
        let text = encode_envelope(&n, c);
        assert_eq!(decode_envelope(&text), Ok((n.clone(), c.to_vec())));
    }
}

#[test]
fn short_text_is_a_format_error() {
    for text in ["", "A", "AAAA", "AAAAAAAA", "AAAAAAAAAAA"] {
        assert_eq!(decode_envelope(text), Err(KeyError::FormatError));
    }
}

#[test]
fn fewer_bytes_than_a_nonce_is_a_format_error() {
    // Sixteen characters of base64 that hold only eleven bytes.
    assert_eq!(decode_envelope("AAAAAAAAAAAAAAA="), Err(KeyError::FormatError));
}

#[test]
fn invalid_base64_is_a_format_error() {
    assert_eq!(decode_envelope("not base64 at all!!"), Err(KeyError::FormatError));
    assert_eq!(decode_envelope("AAAAAAAAAAAAAAAAA"), Err(KeyError::FormatError));
}

#[test]
fn exactly_a_nonce_decodes_to_empty_ciphertext() {
    assert_eq!(decode_envelope("AAAAAAAAAAAAAAAA"), Ok((vec![0u8; 12], vec![])));
}
