//! The body of an API error response.  Building the HTTP response
//! around it is the routing layer's job.

use vstd::prelude::*;

verus! {

/// An API error response body.
pub struct ErrorResponse {
    /// Error message
    pub error_message: String,
}

impl ErrorResponse {
    /// An error response with the given message.
    pub fn with_message(message: &str) -> (r: ErrorResponse)
        ensures
            r.error_message@ == message@,
    {
        ErrorResponse { error_message: message.to_owned() }
    }
}

} // verus!
