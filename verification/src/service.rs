//! Token codec, credential check, and the services built on them.

pub mod auth_service;
pub mod file_service;
pub mod password;
pub mod token;
pub mod user_service;
