//! `kong` server configuration.
//!
//! The configuration is read from a TOML file outside this crate; this
//! is the validated shape the node works with.

use vstd::prelude::*;

verus! {

/// Server configuration.
pub struct Konfig {
    /// Port to access the server
    pub port: u16,
    /// Admin email address
    pub admin_email: Option<String>,
    /// Kong server working directory, path should end with `/`;
    /// defaults to `kong/`
    pub working_directory: Option<String>,
    /// Name of the authorization session cookie id
    pub auth_cookie_name: String,
    /// Path to static files; if not provided no static files are served
    pub static_files_path: Option<String>,
    /// Node hostname
    pub hostname: String,
    /// Kong secret key
    pub secret_key: String,
    /// Whether the server should log information to console.
    /// Console logging is enabled by default.
    pub console_log: Option<bool>,
    /// Whether the server should log information to file; the file is
    /// stored in the working directory as LOG.
    /// Logging to the LOG file is disabled by default.
    pub log_file: Option<bool>,
}

} // verus!
