//! The body of an API request-handling error response, and which body
//! each resource error maps to.

use crate::kdata::resource::ResourceError;
use vstd::prelude::*;

verus! {

/// An API request-handling error response body.
pub struct ErrorResponse {
    /// The error message.
    pub error_message: String,
}

/// The HTTP status code a resource error maps to.
pub open spec fn spec_resource_error_status(err: ResourceError) -> int {
    match err {
        ResourceError::BadRequest => 400,
        ResourceError::Unauthorized => 401,
        ResourceError::Forbidden => 402,
        ResourceError::NotFound => 404,
        ResourceError::Conflict => 405,
        ResourceError::PreConditionFailed => 412,
        ResourceError::Internal => 500,
    }
}

impl ErrorResponse {
    /// An error response with the given message.
    pub fn with_message(message: &str) -> (r: ErrorResponse)
        ensures
            r.error_message@ == message@,
    {
        ErrorResponse { error_message: message.to_owned() }
    }

    /// Maps a resource error to the HTTP status code of the response
    /// that reports it.
    pub fn map_resource_error(err: &ResourceError) -> (r: u16)
        ensures
            r == spec_resource_error_status(*err),
    {
        match err {
            ResourceError::BadRequest => 400,
            ResourceError::Unauthorized => 401,
            ResourceError::Forbidden => 402,
            ResourceError::NotFound => 404,
            ResourceError::Conflict => 405,
            ResourceError::PreConditionFailed => 412,
            ResourceError::Internal => 500,
        }
    }
}

} // verus!
