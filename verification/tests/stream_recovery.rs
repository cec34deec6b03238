use aes::cipher::block_padding::Pkcs7;
use aes::cipher::{BlockModeEncrypt, KeyIvInit};
use base64::Engine;

use gaana_core::encryption::{
    decrypt_link, decrypt_stream_url, generate_fallback_urls, generate_quality_variants,
};

const KEY: &[u8] = b"g@1n!(f1#r.0$)&%";
const IV: &[u8] = b"asd!@#!@#@!12312";

fn encrypt_token(plain: &str) -> String {
    let enc = cbc::Encryptor::<aes::Aes128>::new_from_slices(KEY, IV).unwrap();
    let ct = enc.encrypt_padded_vec::<Pkcs7>(plain.as_bytes());
    base64::engine::general_purpose::STANDARD.encode(ct)
}

#[test]
fn test_generate_quality_variants() {
    let base_url = "https://stream-cdn.gaana.com/track/128.mp4";
    let variants = generate_quality_variants(base_url);

    assert!(variants.very_high_quality.is_some());
    assert!(variants.high_quality.is_some());
    assert!(variants.medium_quality.is_some());
    assert!(variants.low_quality.is_some());
}

#[test]
fn test_fallback_urls() {
    let fallback = generate_fallback_urls();

    assert!(fallback.very_high_quality.is_some());
    assert!(fallback.high_quality.is_some());
    assert!(fallback.medium_quality.is_some());
    assert!(fallback.low_quality.is_some());
}

#[test]
fn test_decrypt_link_invalid_base64() {
    let invalid_b64 = "invalid_base64!@#";
    let result = decrypt_link(invalid_b64);
    assert!(result.is_err());
}

#[test]
fn decrypt_link_round_trip() {
    let url = "https://stream-cdn.gaana.com/quality/track/64.mp4";
    let token = encrypt_token(url);
    let decrypted = decrypt_link(&token).unwrap();
    assert_eq!(decrypted, url);
}

#[test]
fn valid_token_yields_tier_variants() {
    let token = encrypt_token("https://stream-cdn.gaana.com/quality/track/64.mp4");
    let urls = decrypt_stream_url(&token);
    assert_eq!(
        urls.very_high_quality.as_deref(),
        Some("https://stream-cdn.gaana.com/quality/track/320.mp4")
    );
    assert_eq!(
        urls.high_quality.as_deref(),
        Some("https://stream-cdn.gaana.com/quality/track/128.mp4")
    );
    assert_eq!(
        urls.medium_quality.as_deref(),
        Some("https://stream-cdn.gaana.com/quality/track/64.mp4")
    );
    assert_eq!(
        urls.low_quality.as_deref(),
        Some("https://stream-cdn.gaana.com/quality/track/16.mp4")
    );
}

#[test]
fn corrupt_token_yields_identical_placeholders() {
    let urls = decrypt_stream_url("!!!not base64!!!");
    let placeholder = "https://stream-cdn.gaana.com/placeholder.m3u8";
    assert_eq!(urls.very_high_quality.as_deref(), Some(placeholder));
    assert_eq!(urls.high_quality.as_deref(), Some(placeholder));
    assert_eq!(urls.medium_quality.as_deref(), Some(placeholder));
    assert_eq!(urls.low_quality.as_deref(), Some(placeholder));
}

#[test]
fn well_formed_base64_with_bad_padding_fails() {
    // Valid base64, but not a valid AES-CBC ciphertext length.
    let result = decrypt_link("aGVsbG8=");
    assert!(result.is_err());
}

#[test]
fn decryption_error_messages() {
    let err = decrypt_link("invalid_base64!@#").unwrap_err();
    assert!(err.message().starts_with("Base64 decode error: "));
    let err = decrypt_link("aGVsbG8=").unwrap_err();
    assert_eq!(err.message(), "Decryption failed: AES decryption failed");
}
