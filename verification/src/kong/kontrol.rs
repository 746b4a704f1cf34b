//! `kong` API request controllers: the data and decisions of the
//! endpoint handlers.  The `rouille` request/response plumbing around
//! them lives outside this crate.

pub mod accounts;
pub mod auth;
pub mod error_response;
pub mod issue_kpassport;

use crate::kerror::KError;
use crate::strutil::str_eq;
use vstd::prelude::*;

verus! {

/// HTTP methods.
#[derive(Clone, Copy, Debug, PartialEq, Eq, Structural)]
pub enum Method {
    /// HTTP GET method
    Get,
    /// HTTP POST method
    Post,
    /// HTTP PUT method
    Put,
    /// HTTP HEAD method
    Head,
    /// HTTP DELETE method
    Delete,
    /// HTTP OPTIONS method
    Options,
}

/// Which method each name denotes.  Only `GET`, `POST`, `PUT` and `HEAD`
/// are matched upper-case; `Delete` and `Options` are matched as written
/// here.
pub open spec fn spec_method_from_str(s: Seq<char>) -> Result<Method, KError> {
    if s == "GET"@ {
        Ok(Method::Get)
    } else if s == "POST"@ {
        Ok(Method::Post)
    } else if s == "PUT"@ {
        Ok(Method::Put)
    } else if s == "HEAD"@ {
        Ok(Method::Head)
    } else if s == "Delete"@ {
        Ok(Method::Delete)
    } else if s == "Options"@ {
        Ok(Method::Options)
    } else {
        Err(KError::InvalidHttpMethod)
    }
}

impl Method {
    /// Parses a method name.
    pub fn from_str(s: &str) -> (r: Result<Method, KError>)
        ensures
            r == spec_method_from_str(s@),
    {
        if str_eq(s, "GET") {
            Ok(Method::Get)
        } else if str_eq(s, "POST") {
            Ok(Method::Post)
        } else if str_eq(s, "PUT") {
            Ok(Method::Put)
        } else if str_eq(s, "HEAD") {
            Ok(Method::Head)
        } else if str_eq(s, "Delete") {
            Ok(Method::Delete)
        } else if str_eq(s, "Options") {
            Ok(Method::Options)
        } else {
            Err(KError::InvalidHttpMethod)
        }
    }
}

} // verus!
