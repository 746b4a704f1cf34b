//! Transport adapter: how a kpassport travels over HTTP.
//!
//! A token is carried either in the configured auth cookie or in an
//! `Authorization: Bearer` header.  Detection prefers the cookie when
//! both are present — a fixed check order, not a guess — and fails with
//! `MissingAuthenticationCredentials` when neither carrier is there.

use crate::krypto::error::KryptoError;
use crate::krypto::kpassport::{
    spec_encode_content, spec_parse_bytes, spec_signature, Kpassport,
};
use crate::krypto::outside::base64_of;
use vstd::prelude::*;
use vstd::string::{StrSliceExecFns, StringExecFns};

verus! {

/// A tagged carrier identifying how a token arrived or will be sent,
/// holding the transport-encoded token text.
pub enum AuthCarrier {
    /// The token came from (or goes into) the auth cookie.
    Cookie(String),
    /// The token came from an `Authorization: Bearer` header.
    BearerToken(String),
}

/// The token text inside a carrier.
pub open spec fn spec_carrier_token(carrier: AuthCarrier) -> Seq<char> {
    match carrier {
        AuthCarrier::Cookie(s) => s@,
        AuthCarrier::BearerToken(s) => s@,
    }
}

/// The token text of an `Authorization` header value, when the header
/// uses the bearer scheme.
pub open spec fn spec_bearer_token(header: Seq<char>) -> Option<Seq<char>> {
    if header.len() >= "Bearer "@.len() && header.subrange(0, "Bearer "@.len() as int)
        == "Bearer "@ {
        Some(header.skip("Bearer "@.len() as int))
    } else {
        None
    }
}

/// The value of a `Set-Cookie` header carrying a token: always `Secure`
/// (HTTPS only) and `HttpOnly` (invisible to client-side scripts), with
/// no expiry attribute — a session cookie.
pub open spec fn spec_cookie_value(token: Seq<char>, cookie_name: Seq<char>) -> Seq<char> {
    cookie_name + "="@ + token + "; Secure; HttpOnly"@
}

/// The value of an `Authorization` header carrying a token.
pub open spec fn spec_bearer_value(token: Seq<char>) -> Seq<char> {
    "Bearer "@ + token
}

/// Locates the encoded token among the request's credentials: the auth
/// cookie's value when one is present, else the token of a bearer
/// `Authorization` header; `MissingAuthenticationCredentials` when
/// neither is there.  Cookie detection takes precedence when both are
/// present.
pub fn detect(auth_cookie: Option<String>, authorization: Option<String>) -> (r: Result<
    AuthCarrier,
    KryptoError,
>)
    ensures
        match r {
            Ok(carrier) => match carrier {
                AuthCarrier::Cookie(v) => auth_cookie matches Some(c) && v@ == c@,
                AuthCarrier::BearerToken(tok) => auth_cookie is None && (authorization matches Some(
                    h,
                ) && spec_bearer_token(h@) == Some(tok@)),
            },
            Err(e) => e == KryptoError::MissingAuthenticationCredentials && auth_cookie is None && (
            authorization matches Some(h) ==> spec_bearer_token(h@) is None),
        },
{
    if let Some(cookie_value) = auth_cookie {
        return Ok(AuthCarrier::Cookie(cookie_value));
    }
    if let Some(header) = authorization {
        proof {
            reveal_strlit("Bearer ");
        }
        let n = header.as_str().unicode_len();
        if n >= 7 && header.as_str().get_char(0) == 'B' && header.as_str().get_char(1) == 'e'
            && header.as_str().get_char(2) == 'a' && header.as_str().get_char(3) == 'r'
            && header.as_str().get_char(4) == 'e' && header.as_str().get_char(5) == 'r'
            && header.as_str().get_char(6) == ' ' {
            proof {
                assert(header@.subrange(0, 7) =~= "Bearer "@);
            }
            let token = header.as_str().substring_char(7, n).to_owned();
            proof {
                assert(token@ =~= header@.skip(7));
            }
            return Ok(AuthCarrier::BearerToken(token));
        }
        proof {
            if header@.len() >= 7 && header@.subrange(0, 7) == "Bearer "@ {
                assert(header@[0] == "Bearer "@[0]);
                assert(header@[1] == "Bearer "@[1]);
                assert(header@[2] == "Bearer "@[2]);
                assert(header@[3] == "Bearer "@[3]);
                assert(header@[4] == "Bearer "@[4]);
                assert(header@[5] == "Bearer "@[5]);
                assert(header@[6] == "Bearer "@[6]);
            }
        }
        return Err(KryptoError::MissingAuthenticationCredentials);
    }
    Err(KryptoError::MissingAuthenticationCredentials)
}

/// Formats a `Set-Cookie` header value carrying the exported token.
pub fn issue_as_cookie(token: &str, cookie_name: &str) -> (r: String)
    ensures
        r@ == spec_cookie_value(token@, cookie_name@),
{
    let mut value = String::new();
    value.append(cookie_name);
    value.append("=");
    value.append(token);
    value.append("; Secure; HttpOnly");
    proof {
        assert(value@ =~= spec_cookie_value(token@, cookie_name@));
    }
    value
}

/// Formats an `Authorization` header value carrying the exported token.
pub fn issue_as_bearer(token: &str) -> (r: String)
    ensures
        r@ == spec_bearer_value(token@),
{
    let mut value = String::new();
    value.append("Bearer ");
    value.append(token);
    proof {
        assert(value@ =~= spec_bearer_value(token@));
    }
    value
}

/// What validating a parsed claim and signature against a key must
/// yield: the claim's own encoding error if it is malformed, success
/// exactly when the signature is the one `sign` computes, and
/// `InvalidKpassportSignature` otherwise.
pub open spec fn spec_validate_claim(
    username: Seq<char>,
    host: Seq<char>,
    timestamp: u64,
    sig: Seq<u8>,
    key: Seq<char>,
) -> Result<(), KryptoError> {
    match spec_encode_content(username, host, timestamp) {
        Err(e) => Err(e),
        Ok(_) => if sig == spec_signature(username, host, timestamp, key) {
            Ok(())
        } else {
            Err(KryptoError::InvalidKpassportSignature)
        },
    }
}

/// True when `r` is what authenticating a token whose decoded wire bytes
/// are `bytes` must return under the given key.
pub open spec fn spec_authenticate_result(
    bytes: Seq<u8>,
    key: Seq<char>,
    r: Result<Kpassport, KryptoError>,
) -> bool {
    match spec_parse_bytes(bytes) {
        Err(e) => r == Err::<Kpassport, KryptoError>(e),
        Ok(parts) => match spec_validate_claim(parts.0.0, parts.0.1, parts.0.2, parts.1, key) {
            Ok(_) => {
                &&& r matches Ok(t)
                &&& t.content.username@ == parts.0.0
                &&& t.content.host@ == parts.0.1
                &&& t.content.timestamp == parts.0.2
                &&& t.signature matches Some(s) && s@ == parts.1
            },
            Err(e) => r == Err::<Kpassport, KryptoError>(e),
        },
    }
}

/// Extracts the token text from either carrier, parses it and validates
/// it against the master secret, handing back the validated token.
pub fn authenticate(carrier: AuthCarrier, key: &str) -> (r: Result<Kpassport, KryptoError>)
    ensures
        (forall|b: Seq<u8>| spec_carrier_token(carrier) != base64_of(b)) ==> r == Err::<
            Kpassport,
            KryptoError,
        >(KryptoError::InvalidKpassport),
        forall|b: Seq<u8>|
            spec_carrier_token(carrier) == base64_of(b) ==> spec_authenticate_result(b, key@, r),
{
    let token_text = match &carrier {
        AuthCarrier::Cookie(s) => s.as_str(),
        AuthCarrier::BearerToken(s) => s.as_str(),
    };
    let kpassport = Kpassport::from_str(token_text)?;
    match kpassport.validate(key) {
        Ok(_) => Ok(kpassport),
        Err(e) => Err(e),
    }
}

} // verus!
