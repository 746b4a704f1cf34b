//! Cryptographic core: the `kpassport` credential token.
//!
//! A `kpassport` carries a claim — username, issuing host, issuance
//! timestamp — and a keyed-hash signature over the claim's fixed-layout
//! byte encoding.  The signing key is never the operator's master secret
//! itself: it is derived per (host, timestamp) pair.

pub mod authentication;
pub mod defaults;
pub mod error;
pub mod key_derivation;
pub mod kpassport;
pub mod laws;
pub mod outside;
pub mod password;
pub mod timestamp;
pub mod transport;
