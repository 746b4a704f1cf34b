//! The shared error kinds of the node's storage and configuration
//! layers.

use vstd::prelude::*;

verus! {

/// Errors of the database, password and configuration plumbing.
#[derive(Clone, Copy, Debug, PartialEq, Eq, Structural)]
pub enum KError {
    /// Database connection error
    DbConnection,
    /// Database table creation error
    DbTableCreation,
    /// Database transaction error
    DbTransaction,
    /// Database sql statement error
    DbSQL,
    /// Database field refferencing error
    DbField,
    /// Password hashing error
    PasswordHashing,
    /// Password hash verification
    PasswordVerifyHash,
    /// Configuration error
    Config,
    /// URL parsing error
    UrlParsing,
    /// Invalid HTTP Method
    InvalidHttpMethod,
}

/// The human-readable description of each error kind.
pub open spec fn spec_kerror_message(e: KError) -> Seq<char> {
    match e {
        KError::DbConnection => "Database connection error"@,
        KError::DbTableCreation => "Ann error occured while trying to create a database table"@,
        KError::DbTransaction => "Database transaction error"@,
        KError::DbSQL => "Something went wrong while processing the SQL statement"@,
        KError::DbField => "Could not refference the database table field"@,
        KError::PasswordHashing => "Could not hash password"@,
        KError::PasswordVerifyHash => "Could not verify password hash"@,
        KError::Config => "Could not read config file"@,
        KError::UrlParsing => "Could not parse error"@,
        KError::InvalidHttpMethod => "Invalid HTTP method"@,
    }
}

impl KError {
    /// The human-readable description of this error kind.
    pub fn message(&self) -> (r: &'static str)
        ensures
            r@ == spec_kerror_message(*self),
    {
        match self {
            KError::DbConnection => "Database connection error",
            KError::DbTableCreation => "Ann error occured while trying to create a database table",
            KError::DbTransaction => "Database transaction error",
            KError::DbSQL => "Something went wrong while processing the SQL statement",
            KError::DbField => "Could not refference the database table field",
            KError::PasswordHashing => "Could not hash password",
            KError::PasswordVerifyHash => "Could not verify password hash",
            KError::Config => "Could not read config file",
            KError::UrlParsing => "Could not parse error",
            KError::InvalidHttpMethod => "Invalid HTTP method",
        }
    }
}

} // verus!
