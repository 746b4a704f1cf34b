//! Management of cryptographic keys.
//!
//! No raw master secret is ever used for signing: a per-token key is
//! derived from the secret and a public context that binds it to exactly
//! one (host, timestamp) pair, so a compromised derived key cannot forge
//! tokens for a different issuer or instant.

use crate::krypto::defaults::TIMESTAMP_LENGTH;
use crate::krypto::outside::{blake3_derive_key, derived_key_of};
use crate::krypto::timestamp::{spec_timestamp_chars, timestamp_string};
use vstd::prelude::*;
use vstd::string::StringExecFns;

verus! {

/// The context of a key derivation.
pub struct Context {
    /// Server or application that derives and uses the key.
    pub host: String,
    /// The instant for which the key is derived, in milliseconds since
    /// the Unix epoch.
    pub timestamp: u64,
}

/// The deterministic context string `"{host} {timestamp} kpassport-token"`,
/// with the timestamp in its fixed-width decimal form.
pub open spec fn spec_context_chars(host: Seq<char>, timestamp: u64) -> Seq<char> {
    host + " "@ + spec_timestamp_chars(timestamp as int, TIMESTAMP_LENGTH as nat)
        + " kpassport-token"@
}

impl Context {
    /// The context rendered as its derivation string.
    pub fn to_string(&self) -> (r: String)
        ensures
            r@ == spec_context_chars(self.host@, self.timestamp),
    {
        let mut s = String::new();
        s.append(self.host.as_str());
        s.append(" ");
        let ts = timestamp_string(self.timestamp);
        s.append(ts.as_str());
        s.append(" kpassport-token");
        proof {
            assert(s@ =~= spec_context_chars(self.host@, self.timestamp));
        }
        s
    }
}

/// Derives a 32-byte key from the specified context and key material.
/// Deterministic: the same context and material always yield the same key.
pub fn derive_key(context: Context, key_material: &[u8]) -> (r: [u8; 32])
    ensures
        r@ == derived_key_of(
            spec_context_chars(context.host@, context.timestamp),
            key_material@,
        ),
{
    let context_string = context.to_string();
    blake3_derive_key(context_string.as_str(), key_material)
}

} // verus!
