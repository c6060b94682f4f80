//! The data that requests, tokens and stored accounts are made of.

pub mod auth;
pub mod file;
pub mod permission;
pub mod permission_set;
pub mod user;
