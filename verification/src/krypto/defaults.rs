//! Field widths of the kpassport wire format.
//!
//! Decoded layout: `username || '@' || host || timestamp || signature`.
//! The single `'@'` separator delimits the username, and the fixed-width
//! timestamp lets the decoder find the host/timestamp boundary by
//! counting from the end, so the format is self-delimiting with exactly
//! one reserved byte.

use vstd::prelude::*;

verus! {

/// The maximum byte length of a username.  Account usernames are at most
/// 15 characters (alphanumeric plus at most one underscore).
pub const USERNAME_LENGTH_LIMIT: usize = 15;

/// The maximum byte length of the issuer identifier: 45 bytes fits the
/// longest IPv6 textual address, but any opaque identifier is accepted.
pub const HOSTNAME_LENGTH_LIMIT: usize = 45;

/// The byte width of the serialized issuance instant: a zero-padded
/// decimal count of milliseconds since the Unix epoch, always exactly
/// this many digits.
pub const TIMESTAMP_LENGTH: usize = 19;

/// Timestamps must stay below `10^19` so that they fit the fixed
/// 19-digit field; every 19-digit decimal number also fits in a `u64`.
pub const TIMESTAMP_VALUE_LIMIT: u64 = 10_000_000_000_000_000_000;

/// The byte length of a `blake3::keyed_hash` output.
pub const SIGNATURE_LENGTH: usize = 32;

/// The reserved byte that separates the username from the host: `'@'`.
pub const SEPARATOR_BYTE: u8 = 0x40;

} // verus!
