//! The signed channel codec, exercised end to end with the real keyed
//! message-authentication primitive.

use guppybot::codec::{CodecError, SecretToken, decode, encode};
use guppybot::crypto::mac_sign;
use guppybot::bytes::u32_to_le;

fn token_from_key(key: &[u8]) -> (String, SecretToken) {
    let mut text = String::new();
    base64::encode_config_buf(key, base64::URL_SAFE, &mut text);
    let token = SecretToken::from_base64(&text).expect("32-byte key must resolve");
    (text, token)
}

#[test]
fn codec_round_trip_returns_original_payload() {
    let key = [7u8; 32];
    let (_, token) = token_from_key(&key);
    let payload: Vec<u8> = vec![1, 2, 3, 250, 0, 99];
    let frame = encode(&token, &payload);
    assert_eq!(frame.len(), 36 + payload.len());
    let decoded = decode(&token, &frame).expect("frame must verify");
    assert_eq!(decoded, payload);
}

#[test]
fn codec_round_trip_empty_payload() {
    let key = [0u8; 32];
    let (_, token) = token_from_key(&key);
    let payload: Vec<u8> = Vec::new();
    let frame = encode(&token, &payload);
    assert_eq!(frame.len(), 36);
    assert_eq!(decode(&token, &frame).expect("frame must verify"), payload);
}

#[test]
fn short_frames_fail_with_protocol_error() {
    let key = [9u8; 32];
    let (_, token) = token_from_key(&key);
    for n in 0..36usize {
        let frame: Vec<u8> = vec![0xab; n];
        assert_eq!(decode(&token, &frame), Err(CodecError::TooShort));
    }
}

#[test]
fn tampered_signature_fails_verification() {
    let key = [42u8; 32];
    let (_, token) = token_from_key(&key);
    let payload: Vec<u8> = b"hello registry".to_vec();
    let frame = encode(&token, &payload);
    for i in 0..32usize {
        let mut bad = frame.clone();
        bad[i] = bad[i].wrapping_add(1);
        assert_eq!(decode(&token, &bad), Err(CodecError::BadSignature));
    }
}

#[test]
fn tampered_payload_fails_verification() {
    let key = [42u8; 32];
    let (_, token) = token_from_key(&key);
    let payload: Vec<u8> = b"hello registry".to_vec();
    let frame = encode(&token, &payload);
    let mut bad = frame.clone();
    let last = bad.len() - 1;
    bad[last] ^= 0x80;
    assert_eq!(decode(&token, &bad), Err(CodecError::BadSignature));
}

#[test]
fn wrong_key_fails_verification() {
    let (_, token_a) = token_from_key(&[1u8; 32]);
    let (_, token_b) = token_from_key(&[2u8; 32]);
    let payload: Vec<u8> = b"cross-key".to_vec();
    let frame = encode(&token_a, &payload);
    assert_eq!(decode(&token_b, &frame), Err(CodecError::BadSignature));
}

#[test]
fn declared_length_mismatch_is_rejected() {
    // A frame whose tag is valid but whose length word lies: signed by
    // hand over a body with the wrong declared length.
    let key = [5u8; 32];
    let (_, token) = token_from_key(&key);
    let payload: Vec<u8> = b"abcd".to_vec();
    let mut body = u32_to_le(3);
    body.extend_from_slice(&payload);
    let mut frame = mac_sign(&key, &body);
    frame.extend_from_slice(&body);
    assert_eq!(decode(&token, &frame), Err(CodecError::LengthMismatch));
}

#[test]
fn secret_token_rejects_bad_text() {
    assert!(SecretToken::from_base64("!!!not base64!!!").is_none());
    // Valid base64 of the wrong decoded length.
    let mut text = String::new();
    base64::encode_config_buf(&[1u8; 16], base64::URL_SAFE, &mut text);
    assert!(SecretToken::from_base64(&text).is_none());
}
