//! The JSON endpoints' payloads.

pub mod server_time;
