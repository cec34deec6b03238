//! Stream-URL recovery: reverse a symmetric-cipher-encrypted token into a
//! playable base URL and derive the four quality-tier variants from it.
//!
//! The key and initialization vector are fixed, publicly known constants of
//! the upstream provider, not secrets this library manages.

use vstd::prelude::*;
use vstd::string::StringExecFns;

use cbc::cipher::BlockModeDecrypt;
use cbc::cipher::KeyIvInit;

use crate::models::stream_urls::StreamUrls;
use crate::text::{lemma_replaced_tail, replace_str, spec_match_at, spec_replaced};

verus! {

/// Why stream-URL recovery failed.  The caller's fallback is the same for
/// every variant; only diagnostics differ.
#[derive(Debug)]
pub enum DecryptionError {
    Base64Error(String),
    DecryptionFailed(String),
    Utf8Error(String),
}

impl DecryptionError {
    /// The diagnostic text for this failure.
    pub fn message(&self) -> (r: String)
        ensures
            r@ == match self {
                DecryptionError::Base64Error(e) => "Base64 decode error: "@ + e@,
                DecryptionError::DecryptionFailed(m) => "Decryption failed: "@ + m@,
                DecryptionError::Utf8Error(e) => "UTF-8 conversion error: "@ + e@,
            },
    {
        match self {
            DecryptionError::Base64Error(e) => {
                let mut m = String::from_str("Base64 decode error: ");
                m.append(e.as_str());
                m
            },
            DecryptionError::DecryptionFailed(msg) => {
                let mut m = String::from_str("Decryption failed: ");
                m.append(msg.as_str());
                m
            },
            DecryptionError::Utf8Error(e) => {
                let mut m = String::from_str("UTF-8 conversion error: ");
                m.append(e.as_str());
                m
            },
        }
    }
}

/// What standard-alphabet base64 decoding yields on a given text, if
/// anything.  Named rather than stated: writing it out would restate the
/// whole alphabet and padding rules.  It depends on the input text alone.
pub uninterp spec fn spec_base64_decoded(s: Seq<char>) -> Option<Seq<u8>>;

/// Relies on base64's `STANDARD` engine `decode`: it succeeds exactly on
/// well-formed standard base64, and its result is a function of the input
/// text alone.
#[verifier::external_body]
fn base64_decode(s: &str) -> (r: Result<Vec<u8>, String>)
    ensures
        match r {
            Ok(b) => spec_base64_decoded(s@) == Some(b@),
            Err(_) => spec_base64_decoded(s@) is None,
        },
{
    match base64::Engine::decode(&base64::engine::general_purpose::STANDARD, s) {
        Ok(b) => Ok(b),
        Err(e) => Err(e.to_string()),
    }
}

/// What AES-128-CBC decryption with PKCS#7 unpadding yields for a given
/// key, initialization vector and ciphertext, if anything.  It depends on
/// those three inputs alone.
pub uninterp spec fn spec_aes_cbc_decrypted(key: Seq<u8>, iv: Seq<u8>, data: Seq<u8>) -> Option<
    Seq<u8>,
>;

/// Relies on `cbc::Decryptor<aes::Aes128>` with `Pkcs7` unpadding: the
/// plaintext is a function of key, IV and ciphertext alone, and decryption
/// fails (rather than panicking) on ciphertext that is not a multiple of
/// the block size or whose padding is malformed.
#[verifier::external_body]
fn aes128_cbc_decrypt(key: &Vec<u8>, iv: &Vec<u8>, data: &Vec<u8>) -> (r: Option<Vec<u8>>)
    requires
        key@.len() == 16,
        iv@.len() == 16,
    ensures
        match r {
            Some(p) => spec_aes_cbc_decrypted(key@, iv@, data@) == Some(p@),
            None => spec_aes_cbc_decrypted(key@, iv@, data@) is None,
        },
{
    let dec = match cbc::Decryptor::<aes::Aes128>::new_from_slices(key, iv) {
        Ok(d) => d,
        Err(_) => return None,
    };
    dec.decrypt_padded_vec::<cbc::cipher::block_padding::Pkcs7>(data).ok()
}

/// Relies on `String::from_utf8`: it succeeds exactly on valid UTF-8 and
/// returns the decoded characters.
#[verifier::external_body]
fn utf8_to_string(bytes: Vec<u8>) -> (r: Option<String>)
    ensures
        match r {
            Some(s) => vstd::utf8::valid_utf8(bytes@) && s@ == vstd::utf8::decode_utf8(bytes@),
            None => !vstd::utf8::valid_utf8(bytes@),
        },
{
    String::from_utf8(bytes).ok()
}

/// The fixed 16-byte cipher key, the ASCII bytes of `g@1n!(f1#r.0$)&%`.
pub open spec fn spec_aes_key() -> Seq<u8> {
    seq![103u8, 64, 49, 110, 33, 40, 102, 49, 35, 114, 46, 48, 36, 41, 38, 37]
}

/// The fixed 16-byte initialization vector, the ASCII bytes of
/// `asd!@#!@#@!12312`.
pub open spec fn spec_aes_iv() -> Seq<u8> {
    seq![97u8, 115, 100, 33, 64, 35, 33, 64, 35, 64, 33, 49, 50, 51, 49, 50]
}

fn aes_key() -> (r: Vec<u8>)
    ensures
        r@ == spec_aes_key(),
{
    let r: Vec<u8> = vec![103u8, 64, 49, 110, 33, 40, 102, 49, 35, 114, 46, 48, 36, 41, 38, 37];
    proof {
        assert(r@ =~= spec_aes_key());
    }
    r
}

fn aes_iv() -> (r: Vec<u8>)
    ensures
        r@ == spec_aes_iv(),
{
    let r: Vec<u8> = vec![97u8, 115, 100, 33, 64, 35, 33, 64, 35, 64, 33, 49, 50, 51, 49, 50];
    proof {
        assert(r@ =~= spec_aes_iv());
    }
    r
}

/// The recovered base URL text for an encrypted token: base64 decode,
/// AES-128-CBC decrypt with the fixed key and IV, then read as UTF-8.
pub open spec fn spec_decrypted_link(s: Seq<char>) -> Option<Seq<char>> {
    match spec_base64_decoded(s) {
        Some(data) => match spec_aes_cbc_decrypted(spec_aes_key(), spec_aes_iv(), data) {
            Some(plain) => if vstd::utf8::valid_utf8(plain) {
                Some(vstd::utf8::decode_utf8(plain))
            } else {
                None
            },
            None => None,
        },
        None => None,
    }
}

/// Decrypt an encrypted link: base64 decode, AES-CBC decrypt with the fixed
/// constants, PKCS#7 unpad, convert to UTF-8 text.  Each step's failure is
/// reported as its own error variant.
pub fn decrypt_link(encrypted_link: &str) -> (r: Result<String, DecryptionError>)
    ensures
        (r is Ok) == (spec_decrypted_link(encrypted_link@) is Some),
        r matches Ok(url) ==> spec_decrypted_link(encrypted_link@) == Some(url@),
        r matches Err(e) ==> match e {
            DecryptionError::Base64Error(_) => spec_base64_decoded(encrypted_link@) is None,
            DecryptionError::DecryptionFailed(_) => spec_base64_decoded(encrypted_link@) matches
                Some(data) && spec_aes_cbc_decrypted(spec_aes_key(), spec_aes_iv(), data) is None,
            DecryptionError::Utf8Error(_) => spec_base64_decoded(encrypted_link@) matches Some(
                data,
            ) && spec_aes_cbc_decrypted(spec_aes_key(), spec_aes_iv(), data) matches Some(plain)
                && !vstd::utf8::valid_utf8(plain),
        },
{
    let data = match base64_decode(encrypted_link) {
        Ok(d) => d,
        Err(e) => {
            return Err(DecryptionError::Base64Error(e));
        },
    };
    let key = aes_key();
    let iv = aes_iv();
    let plain = match aes128_cbc_decrypt(&key, &iv, &data) {
        Some(p) => p,
        None => {
            return Err(
                DecryptionError::DecryptionFailed(String::from_str("AES decryption failed")),
            );
        },
    };
    match utf8_to_string(plain) {
        Some(url) => Ok(url),
        None => Err(
            DecryptionError::Utf8Error(String::from_str("decrypted data is not valid UTF-8")),
        ),
    }
}

/// Derive the four quality tiers from one decrypted base URL in a single
/// pass: the base is the medium tier, the others substitute its bitrate
/// filename token.
pub fn generate_quality_variants(base_url: &str) -> (r: StreamUrls)
    ensures
        r.very_high_quality.deep_view() == Some(spec_replaced(base_url@, "64.mp4"@, "320.mp4"@)),
        r.high_quality.deep_view() == Some(spec_replaced(base_url@, "64.mp4"@, "128.mp4"@)),
        r.medium_quality.deep_view() == Some(base_url@),
        r.low_quality.deep_view() == Some(spec_replaced(base_url@, "64.mp4"@, "16.mp4"@)),
{
    proof {
        reveal_strlit("64.mp4");
    }
    let vhq_url = replace_str(base_url, "64.mp4", "320.mp4");
    let hq_url = replace_str(base_url, "64.mp4", "128.mp4");
    let mq_url = String::from_str(base_url);
    let lq_url = replace_str(base_url, "64.mp4", "16.mp4");
    StreamUrls::new(Some(vhq_url), Some(hq_url), Some(mq_url), Some(lq_url))
}

/// The placeholder URL every tier carries when decryption fails.
pub open spec fn spec_placeholder_url() -> Seq<char> {
    "https://stream-cdn.gaana.com/placeholder.m3u8"@
}

/// All four tiers set to the identical placeholder URL.
pub fn generate_fallback_urls() -> (r: StreamUrls)
    ensures
        r.very_high_quality.deep_view() == Some(spec_placeholder_url()),
        r.high_quality.deep_view() == Some(spec_placeholder_url()),
        r.medium_quality.deep_view() == Some(spec_placeholder_url()),
        r.low_quality.deep_view() == Some(spec_placeholder_url()),
{
    let placeholder_url = String::from_str("https://stream-cdn.gaana.com/placeholder.m3u8");
    StreamUrls::new(
        Some(placeholder_url.clone()),
        Some(placeholder_url.clone()),
        Some(placeholder_url.clone()),
        Some(placeholder_url),
    )
}

/// The relation between an encrypted token and the recovered stream URLs:
/// on success all four tiers derive from the one decrypted base URL, on any
/// failure all four hold the identical placeholder.
pub open spec fn spec_stream_urls_of(token: Seq<char>, r: StreamUrls) -> bool {
    match spec_decrypted_link(token) {
        Some(base) => {
            &&& r.very_high_quality.deep_view() == Some(spec_replaced(base, "64.mp4"@, "320.mp4"@))
            &&& r.high_quality.deep_view() == Some(spec_replaced(base, "64.mp4"@, "128.mp4"@))
            &&& r.medium_quality.deep_view() == Some(base)
            &&& r.low_quality.deep_view() == Some(spec_replaced(base, "64.mp4"@, "16.mp4"@))
        },
        None => {
            &&& r.very_high_quality.deep_view() == Some(spec_placeholder_url())
            &&& r.high_quality.deep_view() == Some(spec_placeholder_url())
            &&& r.medium_quality.deep_view() == Some(spec_placeholder_url())
            &&& r.low_quality.deep_view() == Some(spec_placeholder_url())
        },
    }
}

/// Recover the quality-tier URLs from an encrypted token.  Base64, cipher
/// and UTF-8 failures collapse into one outcome: all four tiers hold the
/// identical placeholder URL; the caller cannot tell which step failed.
pub fn decrypt_stream_url(encrypted_url: &str) -> (r: StreamUrls)
    ensures
        spec_stream_urls_of(encrypted_url@, r),
{
    match decrypt_link(encrypted_url) {
        Ok(decrypted_url) => generate_quality_variants(decrypted_url.as_str()),
        Err(_) => generate_fallback_urls(),
    }
}

/// Law: when a base URL ends in the medium-quality bitrate token and holds
/// that token nowhere else, each derived tier differs from the base exactly
/// in that trailing token.
pub proof fn lemma_variants_differ_only_in_token(prefix: Seq<char>, sub: Seq<char>)
    requires
        forall|i: int| 0 <= i < prefix.len() ==> !spec_match_at(prefix + "64.mp4"@, "64.mp4"@, i),
    ensures
        spec_replaced(prefix + "64.mp4"@, "64.mp4"@, sub) == prefix + sub,
{
    reveal_strlit("64.mp4");
    lemma_replaced_tail(prefix, "64.mp4"@, sub);
}

} // verus!
