//! The calls this library makes into other crates: ciphers, encodings,
//! randomness, identifiers and the clock.
//!
//! Nothing in this file is proved: each function's contract is a statement
//! about the crate it calls. Results that are functions of the arguments
//! alone are named by a spec function, so that callers can state exactly
//! what they return.
use aes_gcm::aead::{Aead, KeyInit};
use aes_gcm::{Aes256Gcm, Key, Nonce};
use base64::engine::general_purpose::{STANDARD, STANDARD_NO_PAD};
use base64::Engine;
use chrono::{SecondsFormat, Utc};
use rand::rngs::OsRng;
use rand::RngCore;
use uuid::Uuid;
use vstd::prelude::*;

verus! {

/// Bytes of an AES-256 key.
pub const AES_GCM_KEY_BYTES: usize = 32;

/// Bytes of an AES-GCM nonce.
pub const AES_GCM_NONCE_BYTES: usize = 12;

/// Bytes of the authentication tag that follows the ciphertext.
pub const AES_GCM_TAG_BYTES: usize = 16;

/// The longest plaintext AES-GCM accepts, in bytes.
pub const AES_GCM_MAX_PLAINTEXT: u64 = 0x10_0000_0000;

/// The view of a fallible result whose two sides are a byte vector and a
/// message.
pub open spec fn bytes_or_message(r: Result<Vec<u8>, String>) -> Result<Seq<u8>, Seq<char>> {
    match r {
        Ok(bytes) => Ok(bytes@),
        Err(message) => Err(message@),
    }
}

/// A character of the standard base64 alphabet, or the padding sign.
pub open spec fn is_base64_char(c: char) -> bool {
    ||| ('A' <= c && c <= 'Z')
    ||| ('a' <= c && c <= 'z')
    ||| ('0' <= c && c <= '9')
    ||| c == '+'
    ||| c == '/'
    ||| c == '='
}

/// Text made of the standard base64 alphabet and padding signs only.
pub open spec fn is_base64_text(text: Seq<char>) -> bool {
    forall|i: int| 0 <= i < text.len() ==> is_base64_char(#[trigger] text[i])
}

/// What `base64`'s `STANDARD` engine encodes `bytes` to.
pub uninterp spec fn base64_standard_encoding(bytes: Seq<u8>) -> Seq<char>;

/// What `base64`'s `STANDARD` engine decodes `text` to: the bytes, or the
/// text of its error.
pub uninterp spec fn base64_standard_decoding(text: Seq<char>) -> Result<Seq<u8>, Seq<char>>;

/// What `base64`'s `STANDARD_NO_PAD` engine decodes `text` to: the bytes, or
/// the text of its error.
pub uninterp spec fn base64_unpadded_decoding(text: Seq<char>) -> Result<Seq<u8>, Seq<char>>;

/// What AES-256-GCM makes of `plaintext` under `key` and `nonce`, with no
/// associated data: ciphertext followed by tag, or the text of the error.
pub uninterp spec fn aes256_gcm_sealing(key: Seq<u8>, nonce: Seq<u8>, plaintext: Seq<u8>) -> Result<
    Seq<u8>,
    Seq<char>,
>;

/// What AES-256-GCM recovers from `sealed` under `key` and `nonce`, with no
/// associated data: the plaintext, or the text of the error.
pub uninterp spec fn aes256_gcm_opening(key: Seq<u8>, nonce: Seq<u8>, sealed: Seq<u8>) -> Result<
    Seq<u8>,
    Seq<char>,
>;

/// Whether the `STANDARD` engine decodes `text` to exactly `bytes`.
pub open spec fn base64_decodes_to(text: Seq<char>, bytes: Seq<u8>) -> bool {
    base64_standard_decoding(text) matches Ok(decoded) && decoded == bytes
}

/// `STANDARD.encode` of the `base64` crate. The output uses the standard
/// alphabet with padding, and the same engine decodes it back to the input.
/// The crate panics when the encoded text cannot be allocated; the
/// precondition keeps clear of that.
#[verifier::external_body]
pub(crate) fn base64_encode(bytes: &[u8]) -> (text: String)
    requires
        bytes@.len() <= usize::MAX / 4,
    ensures
        text@ == base64_standard_encoding(bytes@) && base64_decodes_to(text@, bytes@),
        is_base64_text(text@),
{
    STANDARD.encode(bytes)
}

/// `STANDARD.decode` of the `base64` crate, with the error rendered as text.
#[verifier::external_body]
pub(crate) fn base64_decode(text: &str) -> (decoded: Result<Vec<u8>, String>)
    ensures
        bytes_or_message(decoded) == base64_standard_decoding(text@),
{
    STANDARD.decode(text).map_err(|err| err.to_string())
}

/// `STANDARD_NO_PAD.decode` of the `base64` crate, with the error rendered as
/// text.
#[verifier::external_body]
pub(crate) fn base64_decode_unpadded(text: &str) -> (decoded: Result<Vec<u8>, String>)
    ensures
        bytes_or_message(decoded) == base64_unpadded_decoding(text@),
{
    STANDARD_NO_PAD.decode(text).map_err(|err| err.to_string())
}

/// `Aes256Gcm::encrypt` of the `aes-gcm` crate, called without associated
/// data. It fails only on a plaintext beyond the algorithm's limit; the output
/// is the ciphertext with the 16-byte tag appended, and opening it under the
/// same key and nonce gives the plaintext back.
#[verifier::external_body]
pub(crate) fn aes256_gcm_seal(key: &[u8], nonce: &[u8], plaintext: &[u8]) -> (sealed: Result<
    Vec<u8>,
    String,
>)
    requires
        key@.len() == AES_GCM_KEY_BYTES,
        nonce@.len() == AES_GCM_NONCE_BYTES,
        plaintext@.len() + AES_GCM_TAG_BYTES <= usize::MAX / 4,
    ensures
        bytes_or_message(sealed) == aes256_gcm_sealing(key@, nonce@, plaintext@),
        plaintext@.len() <= AES_GCM_MAX_PLAINTEXT ==> sealed is Ok,
        sealed matches Ok(bytes) ==> bytes@.len() == plaintext@.len() + AES_GCM_TAG_BYTES,
        sealed matches Ok(bytes) ==> (aes256_gcm_opening(key@, nonce@, bytes@) matches Ok(opened)
            && opened == plaintext@),
{
    let cipher = Aes256Gcm::new(Key::<Aes256Gcm>::from_slice(key));
    cipher.encrypt(Nonce::from_slice(nonce), plaintext).map_err(|err| err.to_string())
}

/// `Aes256Gcm::decrypt` of the `aes-gcm` crate, called without associated
/// data. It fails when the input is shorter than a tag or the tag does not
/// authenticate the ciphertext under this key and nonce; a plaintext that
/// comes back is 16 bytes shorter than the input.
#[verifier::external_body]
pub(crate) fn aes256_gcm_open(key: &[u8], nonce: &[u8], sealed: &[u8]) -> (opened: Result<
    Vec<u8>,
    String,
>)
    requires
        key@.len() == AES_GCM_KEY_BYTES,
        nonce@.len() == AES_GCM_NONCE_BYTES,
    ensures
        bytes_or_message(opened) == aes256_gcm_opening(key@, nonce@, sealed@),
        opened matches Ok(bytes) ==> bytes@.len() + AES_GCM_TAG_BYTES == sealed@.len(),
{
    let cipher = Aes256Gcm::new(Key::<Aes256Gcm>::from_slice(key));
    cipher.decrypt(Nonce::from_slice(nonce), sealed).map_err(|err| err.to_string())
}

/// `OsRng.fill_bytes` of the `rand` crate on a fresh buffer of `count` bytes.
/// Only the length is known of what the operating system hands out.
#[verifier::external_body]
pub(crate) fn random_bytes(count: usize) -> (bytes: Vec<u8>)
    ensures
        bytes@.len() == count,
{
    let mut bytes = vec![0u8; count];
    OsRng.fill_bytes(&mut bytes);
    bytes
}

/// `Uuid::new_v4` of the `uuid` crate, rendered as text. The identifier is
/// random: nothing is known of it here.
#[verifier::external_body]
pub(crate) fn fresh_identifier() -> String {
    Uuid::new_v4().to_string()
}

/// `Utc::now` of the `chrono` crate in RFC 3339 form with milliseconds, as
/// records are stamped. The text depends on the moment of the call: nothing
/// is known of it here.
#[verifier::external_body]
pub(crate) fn creation_stamp() -> String {
    Utc::now().to_rfc3339_opts(SecondsFormat::Millis, true)
}

/// `Utc::now` of the `chrono` crate in the compact form used in file names.
/// The text depends on the moment of the call: nothing is known of it here.
#[verifier::external_body]
pub(crate) fn file_stamp() -> String {
    Utc::now().format("%Y%m%dT%H%M%S%.3fZ").to_string()
}

} // verus!
