//! Custom HTTP endpoints of the stand-alone node runtime.  The handler
//! plumbing lives with the HTTP server, outside this crate.

use vstd::prelude::*;

verus! {

/// The error body a custom endpoint returns.
pub struct KonnectError {
    /// The error message.
    pub msg: String,
}

} // verus!
