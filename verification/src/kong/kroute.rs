//! `kong` request router data: the HTTP methods routes are keyed by.
//! The routing loop and the HTTP server live outside this crate.

use crate::kong::error::KError;
use crate::strutil::str_eq;
use vstd::prelude::*;

verus! {

/// HTTP methods.
#[derive(Clone, Copy, Debug, PartialEq, Eq, Structural)]
pub enum Method {
    /// HTTP GET method
    Get,
    /// HTTP POST method
    Post,
    /// HTTP PUT method
    Put,
    /// HTTP HEAD method
    Head,
    /// HTTP DELETE method
    Delete,
    /// HTTP OPTIONS method
    Options,
}

/// Which method each upper-case name denotes.
pub open spec fn spec_method_from_str(s: Seq<char>) -> Result<Method, KError> {
    if s == "GET"@ {
        Ok(Method::Get)
    } else if s == "POST"@ {
        Ok(Method::Post)
    } else if s == "PUT"@ {
        Ok(Method::Put)
    } else if s == "HEAD"@ {
        Ok(Method::Head)
    } else if s == "DELETE"@ {
        Ok(Method::Delete)
    } else if s == "OPTIONS"@ {
        Ok(Method::Options)
    } else {
        Err(KError::InvalidHttpMethod)
    }
}

/// The upper-case name of each method.
pub open spec fn spec_method_str(m: Method) -> Seq<char> {
    match m {
        Method::Get => "GET"@,
        Method::Post => "POST"@,
        Method::Put => "PUT"@,
        Method::Head => "HEAD"@,
        Method::Delete => "DELETE"@,
        Method::Options => "OPTIONS"@,
    }
}

impl Method {
    /// Parses an upper-case method name.
    pub fn from_str(s: &str) -> (r: Result<Method, KError>)
        ensures
            r == spec_method_from_str(s@),
    {
        if str_eq(s, "GET") {
            Ok(Method::Get)
        } else if str_eq(s, "POST") {
            Ok(Method::Post)
        } else if str_eq(s, "PUT") {
            Ok(Method::Put)
        } else if str_eq(s, "HEAD") {
            Ok(Method::Head)
        } else if str_eq(s, "DELETE") {
            Ok(Method::Delete)
        } else if str_eq(s, "OPTIONS") {
            Ok(Method::Options)
        } else {
            Err(KError::InvalidHttpMethod)
        }
    }

    /// The method's upper-case name, as routes are keyed by it.
    pub fn as_str(&self) -> (r: &'static str)
        ensures
            r@ == spec_method_str(*self),
    {
        match self {
            Method::Get => "GET",
            Method::Post => "POST",
            Method::Put => "PUT",
            Method::Head => "HEAD",
            Method::Delete => "DELETE",
            Method::Options => "OPTIONS",
        }
    }
}

} // verus!
