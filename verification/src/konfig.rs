//! Server configuration of the stand-alone node runtime.
//!
//! The configuration is read from a TOML file outside this crate; this
//! is the validated shape the runtime works with.

use vstd::prelude::*;

verus! {

/// Server configuration.
pub struct Konfig {
    /// Port to access the server
    pub port: u16,
    /// Admin email address
    pub admin_email: Option<String>,
    /// Kong server working directory, path should end with `/`;
    /// defaults to `~/kong/`
    pub working_directory: Option<String>,
    /// Whether kong should create a database for accounts when it
    /// starts up
    pub accounts: bool,
    /// Name of the authorization session cookie id
    pub auth_cookie_name: String,
    /// Path to static files; if not provided no static files are served
    pub static_files_path: Option<String>,
    /// Node hostname
    pub host: String,
    /// Kong secret key
    pub secret_key: String,
    /// Authentication/Login address (issue kpassport), defaults to
    /// `/auth`
    pub auth_route: Option<String>,
}

} // verus!
