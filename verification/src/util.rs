//! Helpers shared by the other modules.

pub mod api_request;
pub mod api_response;
pub mod constants;
pub mod text;
