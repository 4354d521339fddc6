//! A client library for a chat platform's REST API: permission sets checked
//! before any request is sent, the building and decoding of requests, and the
//! bit-packed identifiers used throughout the API.

pub mod audit_log;
pub mod channel;
pub mod context;
pub mod http;
pub mod model;
pub mod permission;
pub mod routes;
pub mod sticker;

pub use context::{Context, ContextConfig};
