//! What the upload route answers, given what the file store answered.

use crate::model::file::FileResponseDto;
use crate::util::api_response::{ApiError, Failure, ServiceError};
use vstd::prelude::*;

verus! {

/// The answers of the upload route.
#[derive(Debug)]
pub struct FileServiceImpl;

impl FileServiceImpl {
    pub fn new() -> (service: FileServiceImpl) {
        FileServiceImpl {  }
    }

    /// The answer to an upload: where the image went, or the text of the
    /// failure to write it.
    pub fn save_image(&self, saved: Result<FileResponseDto, String>) -> (answer: Result<
        FileResponseDto,
        ApiError,
    >)
        ensures
            match saved {
                Ok(stored) => answer matches Ok(same) && same.image@ == stored.image@,
                Err(text) => answer matches Err(response) && response@ == Failure::Unknown(
                    text@,
                ).response(),
            },
    {
        match saved {
            Ok(stored) => Ok(stored),
            Err(err) => Err(ApiError::from(ServiceError::Unknown(err))),
        }
    }
}

} // verus!
