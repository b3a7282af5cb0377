//! The two messages of the content-exchange protocol.

use vstd::prelude::*;

verus! {

/// A request for the content stored under a resource key.
#[derive(Debug, Clone, PartialEq, Eq)]
pub struct FileRequest(pub String);

/// The content sent in answer to a [`FileRequest`].
#[derive(Debug, Clone, PartialEq, Eq)]
pub struct FileResponse(pub Vec<u8>);

impl FileRequest {
    /// Wraps a resource key.
    pub fn new(file_name: String) -> (request: FileRequest)
        ensures
            request.0 == file_name,
    {
        FileRequest(file_name)
    }

    /// Gives the resource key back.
    pub fn into_file_name(self) -> (file_name: String)
        ensures
            file_name == self.0,
    {
        self.0
    }
}

impl FileResponse {
    /// Wraps a payload.
    pub fn new(file: Vec<u8>) -> (response: FileResponse)
        ensures
            response.0 == file,
    {
        FileResponse(file)
    }

    /// Gives the payload back.
    pub fn into_file(self) -> (file: Vec<u8>)
        ensures
            file == self.0,
    {
        self.0
    }
}

} // verus!
