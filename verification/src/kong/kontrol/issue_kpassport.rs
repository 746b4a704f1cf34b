//! Issue kpassport — in other words, login.

use crate::krypto::kpassport::Kpassport;
use crate::strutil::str_eq;
use vstd::prelude::*;

verus! {

/// Message sent as JSON to the user after a successful login.
pub struct IssueKpassport {
    /// Message sent to the user.
    pub message: String,
    /// The account's type, when it has one (for example `admin`).
    pub account_type: Option<String>,
}

impl IssueKpassport {
    /// Whether the holder of a kpassport is the admin: the caller looks
    /// the admin account up by the configured admin email and hands its
    /// username here.  True exactly when the admin account was found, a
    /// kpassport is present, and the kpassport was issued to the admin's
    /// username.
    pub fn is_admin(admin_username: Option<&String>, kpassport: Option<&Kpassport>) -> (r: bool)
        ensures
            r == (admin_username matches Some(a) && (kpassport matches Some(k)
                && a@ == k.content.username@)),
    {
        if let Some(kpassport) = kpassport {
            if let Some(admin_username) = admin_username {
                // check if admin account username matches the username in the kpassport
                str_eq(admin_username.as_str(), kpassport.content.username.as_str())
            } else {
                // Admin account not found, for some reason. Cannot check if user is admin
                false
            }
        } else {
            // No kpassport found (user not logged in), cannot check if user is admin
            false
        }
    }
}

} // verus!
