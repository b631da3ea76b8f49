//! Session and account core of a server-rendered web application:
//! credential storage, password hashing, cookie-based session issuance,
//! session validation with lazy expiry, and per-user session management.

pub mod api;
pub mod auth;
pub mod ids;
pub mod laws;
pub mod models;
pub mod password;
pub mod session;
pub mod store;
pub mod text;
pub mod util;
pub mod web;

use vstd::prelude::*;

verus! {

/// Fixed session lifetime: one week, in microseconds.
pub const SESSION_TTL_MICROS: i64 = 604_800_000_000;

} // verus!
