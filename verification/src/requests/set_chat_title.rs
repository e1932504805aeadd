use crate::requests::{ChatId, Request};
use vstd::prelude::*;
use vstd::std_specs::convert::IntoSpec;

verus! {

/// Use this struct to change the title of a chat. Titles can't be changed for private chats.
/// The bot must be an administrator in the chat for this to work and must have the appropriate admin rights.
/// Returns `True` on success.
///
/// Note: In regular groups (non-supergroups), this method will only work if the
/// 'All Members Are Admins' setting is off in the target group.
#[derive(Debug, Clone)]
pub struct SetChatTitle<'a> {
    /// Unique identifier for the target group or username of the target supergroup or channel
    pub chat_id: ChatId<'a>,
    /// New chat title, 1-255 characters
    pub title: &'a str,
}

impl<'a> Request for SetChatTitle<'a> {
    open spec fn method_name(&self) -> Seq<char> {
        "setChatTitle"@
    }

    fn method(&self) -> (name: &'static str) {
        "setChatTitle"
    }
}

impl<'a> SetChatTitle<'a> {
    /// A request with the values given and every option left out.
    ///
    /// A chat is named by whatever converts into a `ChatId`: the request holds
    /// what the conversion gives.
    pub fn new<I: Into<ChatId<'a>>>(chat_id: I, title: &'a str) -> (request: Self)
        ensures
            call_ensures(<I as Into<ChatId<'a>>>::into, (chat_id,), request.chat_id),
            I::obeys_into_spec() ==> request.chat_id == chat_id.into_spec(),
            request.title == title,
    {
        SetChatTitle {
            chat_id: chat_id.into(),
            title,
        }
    }
}

} // verus!
