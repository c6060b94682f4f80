//! How the body of a request is to be read.

use crate::util::api_response::{Failure, ServiceError};
use crate::util::text::{starts_with, view_text};
use vstd::prelude::*;

verus! {

/// The two encodings a body may come in.
#[derive(Clone, Copy, Debug, PartialEq, Eq, Structural)]
pub enum BodyFormat {
    Json,
    Form,
}

/// The encoding that a content type announces. A request without a
/// readable content type, or with one that is neither JSON nor a form, is
/// a bad request.
pub open spec fn format_of(content_type: Option<Seq<char>>) -> Result<BodyFormat, Failure> {
    match content_type {
        None => Err(Failure::BadRequest("Content-type header is required"@)),
        Some(value) => if "application/json"@.is_prefix_of(value) {
            Ok(BodyFormat::Json)
        } else if "application/x-www-form-urlencoded"@.is_prefix_of(value) {
            Ok(BodyFormat::Form)
        } else {
            Err(Failure::BadRequest("Unsupported content type"@))
        },
    }
}

/// How the body of a request with this content type is to be read.
pub fn body_format(content_type: Option<&str>) -> (format: Result<BodyFormat, ServiceError>)
    ensures
        match format {
            Ok(found) => format_of(view_text(content_type)) == Ok::<
                BodyFormat,
                Failure,
            >(found),
            Err(error) => format_of(view_text(content_type)) == Err::<
                BodyFormat,
                Failure,
            >(error@),
        },
{
    match content_type {
        None => Err(ServiceError::BadRequest("Content-type header is required".to_owned())),
        Some(value) => {
            if starts_with(value, "application/json") {
                Ok(BodyFormat::Json)
            } else if starts_with(value, "application/x-www-form-urlencoded") {
                Ok(BodyFormat::Form)
            } else {
                Err(ServiceError::BadRequest("Unsupported content type".to_owned()))
            }
        },
    }
}

} // verus!
