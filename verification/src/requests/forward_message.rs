use crate::requests::{ChatId, Request};
use vstd::prelude::*;
use vstd::std_specs::convert::IntoSpec;

verus! {

/// Use this struct to forward messages of any kind. On success, the sent `Message` is returned.
#[derive(Debug, Clone)]
pub struct ForwardMessage<'a> {
    /// Unique identifier for the target chat
    pub chat_id: ChatId<'a>,
    /// Unique identifier for the chat where the original message was sent
    pub from_chat_id: ChatId<'a>,
    /// Sends the message [silently](https://telegram.org/blog/channels-2-0#silent-messages).
    /// Users will receive a notification with no sound.
    pub disable_notification: bool,
    /// Message identifier in the chat specified in from_chat_id
    pub message_id: i64,
}

impl<'a> Request for ForwardMessage<'a> {
    open spec fn method_name(&self) -> Seq<char> {
        "forwardMessage"@
    }

    fn method(&self) -> (name: &'static str) {
        "forwardMessage"
    }
}

impl<'a> ForwardMessage<'a> {
    /// A request with the values given and every option left out.
    ///
    /// A chat is named by whatever converts into a `ChatId`: the request holds
    /// what the conversion gives.
    pub fn new<I: Into<ChatId<'a>>, J: Into<ChatId<'a>>>(
        from: I,
        to: J,
        message_id: i64,
    ) -> (request: Self)
        ensures
            call_ensures(<J as Into<ChatId<'a>>>::into, (to,), request.chat_id),
            J::obeys_into_spec() ==> request.chat_id == to.into_spec(),
            call_ensures(<I as Into<ChatId<'a>>>::into, (from,), request.from_chat_id),
            I::obeys_into_spec() ==> request.from_chat_id == from.into_spec(),
            !request.disable_notification,
            request.message_id == message_id,
    {
        ForwardMessage {
            chat_id: to.into(),
            from_chat_id: from.into(),
            disable_notification: false,
            message_id,
        }
    }
}

} // verus!
