//! Password hashing with scrypt.
//!
//! Passwords are never stored: they are hashed with scrypt — a password
//! hash function designed to be expensive to brute-force even on
//! specialized hardware — and only the PHC-format hash string is kept.
//! Each hash carries its own random salt, so hashing is not a function
//! of the password alone and two hashes of one password differ.

use crate::krypto::error::KryptoError;
use scrypt::password_hash::{
    rand_core::OsRng, PasswordHash, PasswordHasher, PasswordVerifier, SaltString,
};
use scrypt::Scrypt;
use vstd::prelude::*;

verus! {

/// Whether a text is a well-formed PHC password-hash string, as
/// `password_hash::PasswordHash::new` decides it.
pub uninterp spec fn scrypt_phc_parses(hash: Seq<char>) -> bool;

/// Whether scrypt verification of a password against a parsed PHC hash
/// string succeeds, as `Scrypt.verify_password` decides it: a function
/// of the hash text (which carries its salt and parameters) and the
/// password alone.
pub uninterp spec fn scrypt_verifies(hash: Seq<char>, password: Seq<char>) -> bool;

/// Hashes a cleartext password using the scrypt hash function, with a
/// fresh random salt.
///
/// Relies on `SaltString::generate` and scrypt's
/// `PasswordHasher::hash_password`: the produced PHC string parses back,
/// and verifying the same password against it succeeds.  The string
/// itself depends on the random salt, so nothing more is stated of it.
#[verifier::external_body]
pub fn hash(cleartext_password: &str) -> (r: Result<String, KryptoError>)
    ensures
        r matches Ok(h) ==> scrypt_phc_parses(h@) && scrypt_verifies(h@, cleartext_password@),
        r matches Err(e) ==> e == KryptoError::PasswordHashing,
{
    let cleartext_password_bytes = cleartext_password.as_bytes();
    let salt = SaltString::generate(&mut OsRng);
    let password_hash = Scrypt
        .hash_password(cleartext_password_bytes, &salt)
        .map_err(|_| KryptoError::PasswordHashing)?
        .to_string();
    Ok(password_hash)
}

/// Checks whether a scrypt PHC hash string matches a cleartext password.
///
/// Relies on `PasswordHash::new` (fails exactly on malformed PHC text)
/// and scrypt's `PasswordVerifier::verify_password` (deterministic in
/// the hash text and the password).
#[verifier::external_body]
pub fn verify(password_hash: &str, password_cleartext: &str) -> (r: Result<bool, KryptoError>)
    ensures
        match r {
            Ok(b) => scrypt_phc_parses(password_hash@) && b == scrypt_verifies(
                password_hash@,
                password_cleartext@,
            ),
            Err(e) => e == KryptoError::PasswordVerifyHash && !scrypt_phc_parses(password_hash@),
        },
{
    let parsed_hash =
        PasswordHash::new(password_hash).map_err(|_| KryptoError::PasswordVerifyHash)?;
    if Scrypt
        .verify_password(password_cleartext.as_bytes(), &parsed_hash)
        .is_ok()
    {
        Ok(true)
    } else {
        Ok(false)
    }
}

} // verus!
