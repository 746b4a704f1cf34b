//! Issuing kpassports as HTTP cookies.
//!
//! After a user authenticates, the node hands them a signed kpassport in
//! a `Set-Cookie` header.  The cookie is always `Secure` and `HttpOnly`;
//! it carries no expiry attribute.

use crate::krypto::defaults::{HOSTNAME_LENGTH_LIMIT, SEPARATOR_BYTE, USERNAME_LENGTH_LIMIT};
use crate::krypto::error::KryptoError;
use crate::krypto::kpassport::{
    spec_content_bytes, spec_content_valid, spec_signature, Kpassport,
};
use crate::krypto::outside::base64_of;
use crate::krypto::transport::{issue_as_cookie, spec_cookie_value};
use vstd::prelude::*;
use vstd::utf8::encode_utf8;

verus! {

/// Kong authentication and authorization management.
#[derive(Clone)]
pub struct Auth;

impl Auth {
    /// Issues a kpassport for `username`, signed with a key derived from
    /// `signing_key`, as a (`Set-Cookie`, value) header pair.  Fails
    /// with `KpassportSize` when a field exceeds its wire width, and
    /// with `InvalidKpassportUsername` when the username holds the
    /// reserved separator byte.
    pub fn issue_kpassport_cookie(
        username: &str,
        host: &str,
        signing_key: &str,
        cookie_name: &str,
    ) -> (r: Result<(String, String), KryptoError>)
        ensures
            match r {
                Ok(kv) => kv.0@ == "Set-Cookie"@ && exists|ts: u64|
                    #[trigger] spec_content_valid(username@, host@, ts) && kv.1@
                        == spec_cookie_value(
                        base64_of(
                            spec_content_bytes(username@, host@, ts) + spec_signature(
                                username@,
                                host@,
                                ts,
                                signing_key@,
                            ),
                        ),
                        cookie_name@,
                    ),
                Err(e) => if encode_utf8(username@).len() > USERNAME_LENGTH_LIMIT || encode_utf8(
                    host@,
                ).len() > HOSTNAME_LENGTH_LIMIT {
                    e == KryptoError::KpassportSize
                } else {
                    e == KryptoError::InvalidKpassportUsername && encode_utf8(username@).contains(
                        SEPARATOR_BYTE,
                    )
                },
            },
    {
        let mut kpassport = Kpassport::new_unsigned(username, host)?;
        kpassport.sign(signing_key)?;

        let header_key = "Set-Cookie".to_owned();

        match kpassport.export() {
            Ok(kpassport_str) => {
                let ghost ts = kpassport.content.timestamp;
                let value = Auth::cookie_value_string(kpassport_str.as_str(), cookie_name);
                proof {
                    assert(spec_content_valid(username@, host@, ts));
                }
                Ok((header_key, value))
            },
            Err(err) => Err(err),
        }
    }

    /// Generates a cookie value carrying an exported `kpassport`: the
    /// cookie is `Secure` (sent over HTTPS only) and `HttpOnly`
    /// (inaccessible to the JavaScript `Document.cookie` API).
    pub fn cookie_value_string(kpassport: &str, cookie_name: &str) -> (r: String)
        ensures
            r@ == spec_cookie_value(kpassport@, cookie_name@),
    {
        issue_as_cookie(kpassport, cookie_name)
    }
}

} // verus!
