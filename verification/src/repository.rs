//! What the services see of the stores behind them.

pub mod file_repository;
pub mod user_repository;
