use crate::requests::{ChatId, ReplyMarkup, Request};
use vstd::prelude::*;
use vstd::std_specs::convert::IntoSpec;

verus! {

/// Use this struct to stop a poll which was sent by the bot. On success, the stopped `Poll` with the final results is returned.
#[derive(Debug, Clone)]
pub struct StopPoll<'a> {
    /// Identifier for the target chat
    pub chat_id: ChatId<'a>,
    /// Identifier of the original message with the poll
    pub message_id: i64,
    /// Additional interface options.
    pub reply_markup: Option<ReplyMarkup<'a>>,
}

impl<'a> Request for StopPoll<'a> {
    open spec fn method_name(&self) -> Seq<char> {
        "stopPoll"@
    }

    fn method(&self) -> (name: &'static str) {
        "stopPoll"
    }
}

impl<'a> StopPoll<'a> {
    /// A request with the values given and every option left out.
    ///
    /// A chat is named by whatever converts into a `ChatId`: the request holds
    /// what the conversion gives.
    pub fn new<I: Into<ChatId<'a>>>(chat_id: I, message_id: i64) -> (request: Self)
        ensures
            call_ensures(<I as Into<ChatId<'a>>>::into, (chat_id,), request.chat_id),
            I::obeys_into_spec() ==> request.chat_id == chat_id.into_spec(),
            request.message_id == message_id,
            request.reply_markup is None,
    {
        StopPoll {
            chat_id: chat_id.into(),
            message_id,
            reply_markup: None,
        }
    }
}

} // verus!
