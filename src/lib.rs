//! Outbound HTTPS configuration for a client talking to a server fleet:
//! the authentication modes, the TLS connector they build on, and a scan of
//! endpoint URLs for the secure scheme.

pub mod scheme;
pub mod tls;
pub mod auth;
