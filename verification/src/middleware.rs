//! The guards in front of the protected routes.

pub mod auth;
pub mod request;
