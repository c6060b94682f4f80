//! What an upload answers with.

use vstd::prelude::*;

verus! {

/// Where an uploaded image was stored.
#[derive(Debug, PartialEq, Eq)]
pub struct FileResponseDto {
    pub image: String,
}

} // verus!
