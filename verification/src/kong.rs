//! The `kong` secure web node: verified parts of the request-handling
//! layer — error kinds, configuration shape, HTTP methods, controller
//! data, and log-line formatting.  The routing loop itself and
//! everything that touches sockets or files lives outside this crate.

pub mod error;
pub mod error_response;
pub mod inputs;
pub mod konfig;
pub mod konnect;
pub mod kontrol;
pub mod kroute;
pub mod log;
pub mod read_kpassport;
