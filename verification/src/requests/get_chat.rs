use crate::requests::{ChatId, Request};
use vstd::prelude::*;
use vstd::std_specs::convert::IntoSpec;

verus! {

/// Use this struct to get up to date information about the chat
/// (current name of the user for one-on-one
/// conversations, current username of a user, group or channel, etc.). Returns a `Chat` object on success.
#[derive(Debug, Clone)]
pub struct GetChat<'a> {
    /// Unique identifier for the target group or username of the target supergroup or channel
    pub chat_id: ChatId<'a>,
}

impl<'a> Request for GetChat<'a> {
    open spec fn method_name(&self) -> Seq<char> {
        "getChat"@
    }

    fn method(&self) -> (name: &'static str) {
        "getChat"
    }
}

impl<'a> GetChat<'a> {
    /// A request with the values given and every option left out.
    ///
    /// A chat is named by whatever converts into a `ChatId`: the request holds
    /// what the conversion gives.
    pub fn new<I: Into<ChatId<'a>>>(chat_id: I) -> (request: Self)
        ensures
            call_ensures(<I as Into<ChatId<'a>>>::into, (chat_id,), request.chat_id),
            I::obeys_into_spec() ==> request.chat_id == chat_id.into_spec(),
    {
        GetChat {
            chat_id: chat_id.into(),
        }
    }
}

} // verus!
