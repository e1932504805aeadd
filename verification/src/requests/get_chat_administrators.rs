use crate::requests::{ChatId, Request};
use vstd::prelude::*;
use vstd::std_specs::convert::IntoSpec;

verus! {

/// Use this struct to get a list of administrators in a chat. On success,
/// returns an Array of `ChatMember` objects that contains information about all chat
/// administrators except other bots. If the chat is a group or a supergroup and no
/// administrators were appointed, only the creator will be returned.
#[derive(Debug, Clone)]
pub struct GetChatAdministrators<'a> {
    /// Unique identifier for the target group or username of the target supergroup or channel
    pub chat_id: ChatId<'a>,
}

impl<'a> Request for GetChatAdministrators<'a> {
    open spec fn method_name(&self) -> Seq<char> {
        "getChatAdministrators"@
    }

    fn method(&self) -> (name: &'static str) {
        "getChatAdministrators"
    }
}

impl<'a> GetChatAdministrators<'a> {
    /// A request with the values given and every option left out.
    ///
    /// A chat is named by whatever converts into a `ChatId`: the request holds
    /// what the conversion gives.
    pub fn new<I: Into<ChatId<'a>>>(chat_id: I) -> (request: Self)
        ensures
            call_ensures(<I as Into<ChatId<'a>>>::into, (chat_id,), request.chat_id),
            I::obeys_into_spec() ==> request.chat_id == chat_id.into_spec(),
    {
        GetChatAdministrators {
            chat_id: chat_id.into(),
        }
    }
}

} // verus!
