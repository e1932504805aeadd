use crate::requests::{ChatId, Request};
use vstd::prelude::*;
use vstd::std_specs::convert::IntoSpec;

verus! {

/// Use this struct to pin a message in a group, a supergroup, or a channel.
/// The bot must be an administrator in the chat for this to work and must have the 'can_pin_messages'
/// admin right in the supergroup or 'can_edit_messages' admin right in the channel.
/// Returns `True` on success.
#[derive(Debug, Clone)]
pub struct PinChatMessage<'a> {
    /// Unique identifier for the target group or username of the target supergroup or channel
    pub chat_id: ChatId<'a>,
    /// Identifier of a message to pin
    pub message_id: i64,
    /// Pass True, if it is not necessary to send a notification to all chat members about
    /// the new pinned message. Notifications are always disabled in channels..
    pub disable_notification: bool,
}

impl<'a> Request for PinChatMessage<'a> {
    open spec fn method_name(&self) -> Seq<char> {
        "pinChatMessage"@
    }

    fn method(&self) -> (name: &'static str) {
        "pinChatMessage"
    }
}

impl<'a> PinChatMessage<'a> {
    /// A request with the values given and every option left out.
    ///
    /// A chat is named by whatever converts into a `ChatId`: the request holds
    /// what the conversion gives.
    pub fn new<I: Into<ChatId<'a>>>(chat_id: I, message_id: i64) -> (request: Self)
        ensures
            call_ensures(<I as Into<ChatId<'a>>>::into, (chat_id,), request.chat_id),
            I::obeys_into_spec() ==> request.chat_id == chat_id.into_spec(),
            request.message_id == message_id,
            !request.disable_notification,
    {
        PinChatMessage {
            chat_id: chat_id.into(),
            message_id,
            disable_notification: false,
        }
    }
}

} // verus!
