//! Row types of the store and their operations.

pub mod session;
pub mod user;
