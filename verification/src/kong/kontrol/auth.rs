//! Authorization and Authentication API endpoint controller.

use vstd::prelude::*;

verus! {

/// Authorization and Authentication API endpoint controller.  Password
/// verification and cookie issuance run through
/// [`crate::krypto::password`] and
/// [`crate::krypto::authentication::Auth`]; the request plumbing lives
/// with the HTTP server, outside this crate.
pub struct AuthKontroller;

} // verus!
