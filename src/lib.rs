//! Endpoint resolution for outbound requests: a fixed endpoint (scheme and
//! authority) is substituted into a request URI whose path and query are kept.

pub mod uri;
pub mod endpoint;
