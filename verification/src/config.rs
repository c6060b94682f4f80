//! What a deployment configures.

pub mod settings;
