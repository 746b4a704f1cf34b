//! Reading a kpassport off an incoming request's auth cookie.
//!
//! The HTTP layer outside this crate finds the configured cookie on the
//! request and hands its value here; every way of failing — no cookie,
//! unparseable token, bad signature — is reported as one
//! `InvalidKpassport`, so a client cannot tell which sub-check failed.

use crate::krypto::error::KryptoError;
use crate::krypto::kpassport::{spec_parse_bytes, Kpassport};
use crate::krypto::outside::base64_of;
use crate::krypto::transport::spec_validate_claim;
use vstd::prelude::*;

verus! {

/// True when `r` is what reading a token whose decoded wire bytes are
/// `bytes` must return: the validated token on success, and
/// `InvalidKpassport` for every kind of failure.
pub open spec fn spec_read_result(
    bytes: Seq<u8>,
    key: Seq<char>,
    r: Result<Kpassport, KryptoError>,
) -> bool {
    match spec_parse_bytes(bytes) {
        Err(_) => r == Err::<Kpassport, KryptoError>(KryptoError::InvalidKpassport),
        Ok(parts) => match spec_validate_claim(parts.0.0, parts.0.1, parts.0.2, parts.1, key) {
            Ok(_) => {
                &&& r matches Ok(t)
                &&& t.content.username@ == parts.0.0
                &&& t.content.host@ == parts.0.1
                &&& t.content.timestamp == parts.0.2
                &&& t.signature matches Some(s) && s@ == parts.1
            },
            Err(_) => r == Err::<Kpassport, KryptoError>(KryptoError::InvalidKpassport),
        },
    }
}

/// Gets a valid auth token from the auth cookie's value, if the request
/// carried one.
pub fn get_kpassport(auth_cookie_value: Option<String>, kpassport_signing_key: &str) -> (r: Result<
    Kpassport,
    KryptoError,
>)
    ensures
        auth_cookie_value is None ==> r == Err::<Kpassport, KryptoError>(
            KryptoError::InvalidKpassport,
        ),
        auth_cookie_value matches Some(v) ==> ((forall|b: Seq<u8>| v@ != base64_of(b)) ==> r
            == Err::<Kpassport, KryptoError>(KryptoError::InvalidKpassport)) && (forall|b: Seq<u8>|
            v@ == base64_of(b) ==> spec_read_result(b, kpassport_signing_key@, r)),
{
    // Try to get kpassport from the HTTP cookie
    if let Some(cookie_value) = auth_cookie_value {
        if let Ok(kpassport) = Kpassport::from_str(cookie_value.as_str()) {
            // validate kpassport
            if kpassport.validate(kpassport_signing_key).is_ok() {
                Ok(kpassport)
            } else {
                // could not validate kpassport
                Err(KryptoError::InvalidKpassport)
            }
        } else {
            // could not read cookie token
            Err(KryptoError::InvalidKpassport)
        }
    } else {
        // Cookie not found
        Err(KryptoError::InvalidKpassport)
    }
}

} // verus!
