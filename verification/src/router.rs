//! The routes of the service and what each asks of a request.

pub mod root;
