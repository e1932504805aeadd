use crate::requests::Request;
use vstd::prelude::*;

verus! {

/// A simple struct for testing your bot's auth token. Requires no parameters.
/// Returns basic information about the bot in form of a `User` object.
#[derive(Debug, Clone, Copy)]
pub struct GetMe;

impl Request for GetMe {
    open spec fn method_name(&self) -> Seq<char> {
        "getMe"@
    }

    fn method(&self) -> (name: &'static str) {
        "getMe"
    }
}

impl GetMe {
    /// A request with the values given and every option left out.
    pub fn new() -> (request: Self)
        ensures
            request == (GetMe),
    {
        GetMe
    }
}

} // verus!
