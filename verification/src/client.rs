use crate::requests::{AllowedUpdate, GetUpdatesRequest, Request};
use crate::updates_pool_stream::PollRequest;
use vstd::prelude::*;
use vstd::string::StringExecFns;

verus! {

/// The address under which the methods of the API are called.
pub const BASE_API_URI: &'static str = "https://api.telegram.org/bot";

/// The address under which files are fetched.
pub const GET_FILE_URI: &'static str = "https://api.telegram.org/file/bot";

/// The address of one method of the API for the bot with the given token:
/// the base address, the token, a slash and the name of the method.
pub open spec fn method_address(token: Seq<char>, method: Seq<char>) -> Seq<char> {
    BASE_API_URI@ + token + "/"@ + method
}

/// The address of a file of the bot with the given token: the base address
/// for files, the token, a slash and the path of the file.
pub open spec fn file_address(token: Seq<char>, file_path: Seq<char>) -> Seq<char> {
    GET_FILE_URI@ + token + "/"@ + file_path
}

/// Puts together the address to which a call of `method` is sent.
pub fn api_uri(token: &str, method: &str) -> (uri: String)
    ensures
        uri@ == method_address(token@, method@),
{
    let mut uri = String::from_str(BASE_API_URI);
    uri.append(token);
    uri.append("/");
    uri.append(method);
    uri
}

/// Puts together the address to which `request` is sent.
pub fn request_uri<R: Request>(token: &str, request: &R) -> (uri: String)
    ensures
        uri@ == method_address(token@, request.method_name()),
{
    api_uri(token, request.method())
}

/// Puts together the address from which the file at `file_path` is fetched.
pub fn file_uri(token: &str, file_path: &str) -> (uri: String)
    ensures
        uri@ == file_address(token@, file_path@),
{
    let mut uri = String::from_str(GET_FILE_URI);
    uri.append(token);
    uri.append("/");
    uri.append(file_path);
    uri
}

impl PollRequest {
    /// The update types of the filter as the API takes them: a list that
    /// names each wanted type once, or nothing where no filter is set.
    pub fn allowed_updates(&self) -> (kinds: Option<Vec<AllowedUpdate>>)
        ensures
            match kinds {
                Some(list) => self.event_filter matches Some(filter) && list@ == filter.listed()
                    && (forall|kind: AllowedUpdate| list@.contains(kind) == filter.has(kind)),
                None => self.event_filter is None,
            },
    {
        match self.event_filter {
            Some(filter) => Some(filter.to_vec()),
            None => None,
        }
    }

    /// The `getUpdates` request of this poll: the cursor is the offset, and
    /// limit, timeout and the list of update types are handed on.
    pub fn get_updates<'a>(&self, allowed_updates: Option<&'a [AllowedUpdate]>) -> (request:
        GetUpdatesRequest<'a>)
        ensures
            request.offset == self.cursor,
            request.limit == self.batch_limit,
            request.timeout == self.long_poll_timeout,
            request.allowed_updates == allowed_updates,
    {
        GetUpdatesRequest {
            offset: self.cursor,
            limit: self.batch_limit,
            timeout: self.long_poll_timeout,
            allowed_updates,
        }
    }
}

} // verus!
