//! Verified core of the `kong` secure web node workspace.
//!
//! The heart of the crate is [`krypto`]: the signed credential-token
//! subsystem (the "kpassport"), with its fixed-layout content codec,
//! per-token key derivation, signing and validation, base64 transport
//! encoding, and the HTTP carrier adapter.  Around it stand the smaller
//! verified pieces of the workspace: user-input validation, error
//! taxonomies, and a few standalone utilities.

pub mod alkindi;
pub mod hamming_distance;
pub mod hex_to_bytes;
pub mod kdata;
pub mod kerror;
pub mod klient;
pub mod kollection;
pub mod konfig;
pub mod kong;
pub mod konnect;
pub mod kontainer;
pub mod krypto;
pub mod repeat_key_xor;
pub mod strutil;
