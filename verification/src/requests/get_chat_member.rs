use crate::requests::{ChatId, Request};
use vstd::prelude::*;
use vstd::std_specs::convert::IntoSpec;

verus! {

/// Use this method to get information about a member of a chat. Returns a `ChatMember` object on success.
#[derive(Debug, Clone)]
pub struct GetChatMember<'a> {
    /// Unique identifier for the target group or username of the target supergroup or channel
    pub chat_id: ChatId<'a>,
    /// Unique identifier of the target user
    pub user_id: i64,
}

impl<'a> Request for GetChatMember<'a> {
    open spec fn method_name(&self) -> Seq<char> {
        "getChatMember"@
    }

    fn method(&self) -> (name: &'static str) {
        "getChatMember"
    }
}

impl<'a> GetChatMember<'a> {
    /// A request with the values given and every option left out.
    ///
    /// A chat is named by whatever converts into a `ChatId`: the request holds
    /// what the conversion gives.
    pub fn new<I: Into<ChatId<'a>>>(chat_id: I, user_id: i64) -> (request: Self)
        ensures
            call_ensures(<I as Into<ChatId<'a>>>::into, (chat_id,), request.chat_id),
            I::obeys_into_spec() ==> request.chat_id == chat_id.into_spec(),
            request.user_id == user_id,
    {
        GetChatMember {
            chat_id: chat_id.into(),
            user_id,
        }
    }
}

} // verus!
