use crate::requests::{ChatId, Request};
use vstd::prelude::*;
use vstd::std_specs::convert::IntoSpec;

verus! {

/// Use this struct to delete a message, including service messages, with the following limitations:
/// - A message can only be deleted if it was sent less than 48 hours ago.
/// - Bots can delete outgoing messages in private chats, groups, and supergroups.
/// - Bots can delete incoming messages in private chats.
/// - Bots granted can_post_messages permissions can delete outgoing messages in channels.
/// - If the bot is an administrator of a group, it can delete any message there.
/// - If the bot has can_delete_messages permission in a supergroup or a channel, it can delete any message there.
/// Returns `True` on success.
#[derive(Debug, Clone)]
pub struct DeleteMessage<'a> {
    /// Identifier for the target chat
    pub chat_id: ChatId<'a>,
    /// Identifier of the message to delete
    pub message_id: i64,
}

impl<'a> Request for DeleteMessage<'a> {
    open spec fn method_name(&self) -> Seq<char> {
        "deleteMessage"@
    }

    fn method(&self) -> (name: &'static str) {
        "deleteMessage"
    }
}

impl<'a> DeleteMessage<'a> {
    /// A request with the values given and every option left out.
    ///
    /// A chat is named by whatever converts into a `ChatId`: the request holds
    /// what the conversion gives.
    pub fn new<I: Into<ChatId<'a>>>(chat_id: I, message_id: i64) -> (request: Self)
        ensures
            call_ensures(<I as Into<ChatId<'a>>>::into, (chat_id,), request.chat_id),
            I::obeys_into_spec() ==> request.chat_id == chat_id.into_spec(),
            request.message_id == message_id,
    {
        DeleteMessage {
            chat_id: chat_id.into(),
            message_id,
        }
    }
}

} // verus!
