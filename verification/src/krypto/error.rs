//! Error taxonomy of the cryptographic core.
//!
//! Every operation returns one of these kinds synchronously; nothing is
//! retried or swallowed.  Callers treat any error as "the client is not
//! authenticated".

use vstd::prelude::*;

verus! {

/// Errors of the credential-token and password subsystems.
#[derive(Clone, Copy, Debug, PartialEq, Eq, Structural)]
pub enum KryptoError {
    /// Invalid kpassport size
    KpassportSize,
    /// Invalid kpassport signature
    InvalidKpassportSignature,
    /// kpassport has not yet been signed
    KpassportNotSigned,
    /// Authentication credentials missing
    MissingAuthenticationCredentials,
    /// Kpassport username and host seperator not found
    MissingUsernameHostSeperator,
    /// Invalid kpassport
    InvalidKpassport,
    /// Invalid kpassport username
    InvalidKpassportUsername,
    /// Invalid kpassport host
    InvalidKpassportHost,
    /// Invalid kpassport timestamp
    InvalidKpassportTimestamp,
    /// Password hashing error
    PasswordHashing,
    /// Password hash verification error
    PasswordVerifyHash,
}

/// The human-readable description of each error kind.
pub open spec fn spec_message(e: KryptoError) -> Seq<char> {
    match e {
        KryptoError::KpassportSize => "Invalid kpassport size"@,
        KryptoError::InvalidKpassportSignature => "Invalid kpassport signature"@,
        KryptoError::KpassportNotSigned => "kpassport has not yet been signed"@,
        KryptoError::MissingAuthenticationCredentials => "Authentication credentials missing"@,
        KryptoError::MissingUsernameHostSeperator => (
        "Kpassport username and host seperator not found"@),
        KryptoError::InvalidKpassport => "Invalid Kpassport"@,
        KryptoError::InvalidKpassportUsername => "Invalid Kpassport username"@,
        KryptoError::InvalidKpassportHost => "Invalid Kpassport host"@,
        KryptoError::InvalidKpassportTimestamp => "Invalid Kpassport timestamp"@,
        KryptoError::PasswordHashing => "Could not hash password"@,
        KryptoError::PasswordVerifyHash => "Could not verify password hash"@,
    }
}

impl KryptoError {
    /// The human-readable description of this error kind.
    pub fn message(&self) -> (r: &'static str)
        ensures
            r@ == spec_message(*self),
    {
        match self {
            KryptoError::KpassportSize => "Invalid kpassport size",
            KryptoError::InvalidKpassportSignature => "Invalid kpassport signature",
            KryptoError::KpassportNotSigned => "kpassport has not yet been signed",
            KryptoError::MissingAuthenticationCredentials => "Authentication credentials missing",
            KryptoError::MissingUsernameHostSeperator => (
            "Kpassport username and host seperator not found"),
            KryptoError::InvalidKpassport => "Invalid Kpassport",
            KryptoError::InvalidKpassportUsername => "Invalid Kpassport username",
            KryptoError::InvalidKpassportHost => "Invalid Kpassport host",
            KryptoError::InvalidKpassportTimestamp => "Invalid Kpassport timestamp",
            KryptoError::PasswordHashing => "Could not hash password",
            KryptoError::PasswordVerifyHash => "Could not verify password hash",
        }
    }
}

} // verus!
