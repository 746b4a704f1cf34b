//! The crate's boundary with the outside cryptographic and encoding
//! crates.  Each function here wraps exactly one outside call; Verus
//! believes the stated contracts, so they say no more than the outside
//! crate's source shows.

use base64::Engine;
use vstd::prelude::*;
use vstd::utf8::{decode_utf8, valid_utf8};

use crate::krypto::defaults::TIMESTAMP_VALUE_LIMIT;

verus! {

/// What `blake3::derive_key` returns: a 32-byte key that is a function
/// of the context string and the key material alone.
pub uninterp spec fn derived_key_of(context: Seq<char>, key_material: Seq<u8>) -> Seq<u8>;

/// What `blake3::keyed_hash` returns: a 32-byte digest that is a
/// function of the key and the input alone.
pub uninterp spec fn keyed_hash_of(key: Seq<u8>, input: Seq<u8>) -> Seq<u8>;

/// What the URL-safe base64 engine's `encode` returns: a text that is a
/// function of the input bytes alone.
pub uninterp spec fn base64_of(bytes: Seq<u8>) -> Seq<char>;

/// Relies on `blake3::derive_key`: derives a 32-byte key from a context
/// string and key material, deterministically.
#[verifier::external_body]
pub(crate) fn blake3_derive_key(context: &str, key_material: &[u8]) -> (r: [u8; 32])
    ensures
        r@ == derived_key_of(context@, key_material@),
{
    blake3::derive_key(context, key_material)
}

/// Relies on `blake3::keyed_hash`: computes the 32-byte keyed digest of
/// the input, deterministically.
#[verifier::external_body]
pub(crate) fn blake3_keyed_hash(key: &[u8; 32], input: &[u8]) -> (r: [u8; 32])
    ensures
        r@ == keyed_hash_of(key@, input@),
{
    *blake3::keyed_hash(key, input).as_bytes()
}

/// Relies on `base64::engine::general_purpose::URL_SAFE.encode`:
/// produces the padded URL-safe base64 text of the input bytes — four
/// characters for every started group of three bytes.
#[verifier::external_body]
pub(crate) fn base64_encode(bytes: &[u8]) -> (r: String)
    ensures
        r@ == base64_of(bytes@),
        r@.len() == 4 * ((bytes@.len() + 2) / 3),
{
    base64::engine::general_purpose::URL_SAFE.encode(bytes)
}

/// Relies on `base64::engine::general_purpose::URL_SAFE.decode`: with
/// canonical padding required and trailing bits rejected, decoding
/// succeeds exactly on texts the engine's `encode` produces, and returns
/// the unique byte sequence that encodes to the given text.
#[verifier::external_body]
pub(crate) fn base64_decode(text: &str) -> (r: Option<Vec<u8>>)
    ensures
        match r {
            Some(d) => text@ == base64_of(d@) && (forall|b: Seq<u8>|
                text@ == base64_of(b) ==> b == d@),
            None => forall|b: Seq<u8>| text@ != base64_of(b),
        },
{
    match base64::engine::general_purpose::URL_SAFE.decode(text) {
        Ok(d) => Some(d),
        Err(_) => None,
    }
}

/// Relies on std's `str::from_utf8`: succeeds exactly on valid UTF-8 and
/// returns the character sequence the bytes encode.
#[verifier::external_body]
pub(crate) fn bytes_to_string(bytes: &[u8]) -> (r: Option<String>)
    ensures
        match r {
            Some(s) => valid_utf8(bytes@) && s@ == decode_utf8(bytes@),
            None => !valid_utf8(bytes@),
        },
{
    match core::str::from_utf8(bytes) {
        Ok(s) => Some(s.to_string()),
        Err(_) => None,
    }
}

/// Relies on `chrono::Utc::now` and `DateTime::timestamp_millis`: reads
/// the system clock as milliseconds since the Unix epoch.  Nothing can
/// be promised of a clock reading.
#[verifier::external_body]
pub(crate) fn now_timestamp_millis() -> i64 {
    chrono::Utc::now().timestamp_millis()
}

/// The current instant, clamped into the representable timestamp range.
/// Every non-negative clock reading fits: `i64::MAX` milliseconds lies
/// below the 19-digit field limit.
pub fn current_timestamp() -> (r: u64)
    ensures
        r < TIMESTAMP_VALUE_LIMIT,
{
    let raw = now_timestamp_millis();
    if raw < 0 {
        0
    } else {
        raw as u64
    }
}

} // verus!
