//! A resource that can be accessed via HTTP.

use vstd::prelude::*;

verus! {

/// A generic resource.
pub struct GenericResource {
    /// The message carried by the resource.
    pub message: String,
}

/// The ways serving a resource can fail, mapped by the routing layer to
/// HTTP status codes.
#[derive(Clone, Copy, Debug, PartialEq, Eq, Structural)]
pub enum ResourceError {
    /// Generic error (400)
    BadRequest,
    /// Unauthorized (401)
    Unauthorized,
    /// Resource could not be found (404)
    NotFound,
    /// Forbidden (402)
    Forbidden,
    /// Conflict (409)
    Conflict,
    /// Pre-condition failed (412)
    PreConditionFailed,
    /// Internal Error (500)
    Internal,
}

/// The human-readable description of each resource error.
pub open spec fn spec_resource_message(e: ResourceError) -> Seq<char> {
    match e {
        ResourceError::BadRequest => "Bad Request"@,
        ResourceError::Unauthorized => "Unnauthorized"@,
        ResourceError::NotFound => "Resource not found"@,
        ResourceError::Forbidden => "Forbidden"@,
        ResourceError::Conflict => "Conflict"@,
        ResourceError::PreConditionFailed => "Pre-condition failed"@,
        ResourceError::Internal => "Internal"@,
    }
}

impl ResourceError {
    /// The human-readable description of this resource error.
    pub fn message(&self) -> (r: &'static str)
        ensures
            r@ == spec_resource_message(*self),
    {
        match self {
            ResourceError::BadRequest => "Bad Request",
            ResourceError::Unauthorized => "Unnauthorized",
            ResourceError::NotFound => "Resource not found",
            ResourceError::Forbidden => "Forbidden",
            ResourceError::Conflict => "Conflict",
            ResourceError::PreConditionFailed => "Pre-condition failed",
            ResourceError::Internal => "Internal",
        }
    }
}

} // verus!
