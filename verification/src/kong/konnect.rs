//! Custom HTTP endpoints provided by users of the node.  The handler
//! plumbing itself lives with the HTTP server, outside this crate.

use vstd::prelude::*;

verus! {

/// The error body a custom endpoint returns.
pub struct KonnectError {
    /// The error message.
    pub msg: String,
}

} // verus!
