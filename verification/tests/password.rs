//! Tests of scrypt password verification.
//!
//! The hash below is the scrypt PHC string of the password
//! `manchester` with a deliberately low work factor (`ln=10`), so the
//! tests stay fast: the verifier reads the parameters out of the hash
//! string itself.

use krates::krypto::error::KryptoError;
use krates::krypto::password::verify;

const MANCHESTER_HASH: &str =
    "$scrypt$ln=10,r=8,p=1$MDEyMzQ1Njc4OWFiY2RlZg$ccFqyS2ru+m5CSPAEzHqWJc8JHTl8VkzxVRmkgtfHME";

#[test]
fn correct_password_verifies() {
    assert!(verify(MANCHESTER_HASH, "manchester").unwrap());
}

#[test]
fn wrong_password_fails_verification() {
    assert!(!verify(MANCHESTER_HASH, "chelsea").unwrap());
}

#[test]
fn malformed_hash_is_rejected() {
    let r = verify("not a phc string", "whatever");
    assert!(matches!(r, Err(KryptoError::PasswordVerifyHash)));
}
