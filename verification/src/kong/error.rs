//! Kong errors.

use vstd::prelude::*;

verus! {

/// Errors of the node's configuration, routing and logging plumbing.
#[derive(Clone, Copy, Debug, PartialEq, Eq, Structural)]
pub enum KError {
    /// Configuration error
    Config,
    /// URL parsing error
    UrlParsing,
    /// Invalid HTTP Method
    InvalidHttpMethod,
    /// Log file error
    LogFile,
}

/// The human-readable description of each error kind.
pub open spec fn spec_kerror_message(e: KError) -> Seq<char> {
    match e {
        KError::Config => "Could not read config file"@,
        KError::UrlParsing => "Could not parse error"@,
        KError::InvalidHttpMethod => "Invalid HTTP method"@,
        KError::LogFile => "Log file error"@,
    }
}

impl KError {
    /// The human-readable description of this error kind.
    pub fn message(&self) -> (r: &'static str)
        ensures
            r@ == spec_kerror_message(*self),
    {
        match self {
            KError::Config => "Could not read config file",
            KError::UrlParsing => "Could not parse error",
            KError::InvalidHttpMethod => "Invalid HTTP method",
            KError::LogFile => "Log file error",
        }
    }
}

} // verus!
