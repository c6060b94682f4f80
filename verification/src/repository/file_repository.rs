//! Where uploaded images go.

use crate::util::text::joined;
use vstd::prelude::*;

verus! {

/// The store of uploaded images: a directory of files.
#[derive(Debug)]
pub struct FileRepositoryImpl;

impl FileRepositoryImpl {
    pub fn new() -> (repository: FileRepositoryImpl) {
        FileRepositoryImpl {  }
    }

    /// The path an image is written to: its own file name inside the data
    /// directory, or `temp` where the upload names none.
    pub open spec fn path_of(file_name: Option<Seq<char>>) -> Seq<char> {
        "./data/"@ + match file_name {
            Some(name) => name,
            None => "temp"@,
        }
    }

    /// The path an upload is to be written to.
    pub fn image_path(&self, file_name: Option<String>) -> (path: String)
        ensures
            path@ == FileRepositoryImpl::path_of(
                match file_name {
                    Some(name) => Some(name@),
                    None => None,
                },
            ),
    {
        match file_name {
            Some(name) => joined("./data/", name.as_str()),
            None => joined("./data/", "temp"),
        }
    }
}

} // verus!
