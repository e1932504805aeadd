use crate::requests::{ChatId, Request};
use vstd::prelude::*;
use vstd::std_specs::convert::IntoSpec;

verus! {

/// Use this struct to change the description of a supergroup or a channel.
/// The bot must be an administrator in the chat for this to work and must have the appropriate admin rights.
/// Returns `True` on success.
#[derive(Debug, Clone)]
pub struct SetChatDescription<'a> {
    /// Unique identifier for the target group or username of the target supergroup or channel
    pub chat_id: ChatId<'a>,
    /// New chat description, 0-255 characters
    pub description: Option<&'a str>,
}

impl<'a> Request for SetChatDescription<'a> {
    open spec fn method_name(&self) -> Seq<char> {
        "setChatDescription"@
    }

    fn method(&self) -> (name: &'static str) {
        "setChatDescription"
    }
}

impl<'a> SetChatDescription<'a> {
    /// A request with the values given and every option left out.
    ///
    /// A chat is named by whatever converts into a `ChatId`: the request holds
    /// what the conversion gives.
    pub fn new<I: Into<ChatId<'a>>>(chat_id: I) -> (request: Self)
        ensures
            call_ensures(<I as Into<ChatId<'a>>>::into, (chat_id,), request.chat_id),
            I::obeys_into_spec() ==> request.chat_id == chat_id.into_spec(),
            request.description is None,
    {
        SetChatDescription {
            chat_id: chat_id.into(),
            description: None,
        }
    }

    /// A request that sets the description given.
    ///
    /// A chat is named by whatever converts into a `ChatId`: the request holds
    /// what the conversion gives.
    pub fn new_description<I: Into<ChatId<'a>>>(chat_id: I, description: &'a str) -> (request: Self)
        ensures
            call_ensures(<I as Into<ChatId<'a>>>::into, (chat_id,), request.chat_id),
            I::obeys_into_spec() ==> request.chat_id == chat_id.into_spec(),
            request.description == Some(description),
    {
        SetChatDescription {
            chat_id: chat_id.into(),
            description: Some(description),
        }
    }
}

} // verus!
