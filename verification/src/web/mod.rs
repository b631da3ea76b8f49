//! The computational core of the web handlers: everything each handler
//! decides or produces, short of HTTP and HTML.

pub mod profile;
pub mod session;
pub mod settings;
pub mod signup;
