//! A loopback redirect receiver that completes a third-party OAuth
//! authorization-code flow for a desktop application: port allocation over a
//! fixed range, a per-session CSRF nonce protocol, minimal HTTP request
//! parsing, and assembly of the callback URL that is handed back to the rest
//! of the application.

pub mod digits;
pub mod http;
pub mod json;
pub mod laws;
pub mod nonce;
pub mod percent;
pub mod ports;
pub mod registry;
pub mod session;
