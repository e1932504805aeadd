use crate::requests::Request;
use vstd::prelude::*;

verus! {

/// Use this struct to get basic info about a file and prepare it for downloading. For the moment,
/// bots can download files of up to 20MB in size. On success, a `File` object is returned.
/// The file can then be downloaded via the `download_file` method
#[derive(Debug, Clone)]
pub struct GetFile<'a> {
    /// File identifier to get info about
    pub file_id: &'a str,
}

impl<'a> Request for GetFile<'a> {
    open spec fn method_name(&self) -> Seq<char> {
        "getFile"@
    }

    fn method(&self) -> (name: &'static str) {
        "getFile"
    }
}

impl<'a> GetFile<'a> {
    /// A request with the values given and every option left out.
    pub fn new(file_id: &'a str) -> (request: Self)
        ensures
            request == (GetFile {
                file_id,
            }),
    {
        GetFile {
            file_id,
        }
    }
}

} // verus!
