//! Authorization core of a small REST backend: permission catalog, signed
//! access tokens, login and identity resolution, and the request guards that
//! sit in front of every protected route.

pub mod config;
pub mod middleware;
pub mod model;
pub mod repository;
pub mod router;
pub mod service;
pub mod util;
