use crate::requests::{ChatId, MessageOrInlineMessageId, ReplyMarkup, Request};
use vstd::prelude::*;
use vstd::std_specs::convert::IntoSpec;

verus! {

/// Use this struct to edit live location messages.
/// A location can be edited until its live_period expires or editing is explicitly disabled by a
/// call to `StopMessageLiveLocation`. On success, if the edited message was sent by the bot,
/// the edited `EditLiveLocationResponse::Message` is returned, otherwise `EditLiveLocationResponse::True` is returned
#[derive(Debug, Clone)]
pub struct StopLiveLocation<'a> {
    /// Identifier where to stop live location
    pub edit_location_in: MessageOrInlineMessageId<'a>,
    /// Additional interface options.
    pub reply_markup: Option<ReplyMarkup<'a>>,
}

impl<'a> Request for StopLiveLocation<'a> {
    open spec fn method_name(&self) -> Seq<char> {
        "stopMessageLiveLocation"@
    }

    fn method(&self) -> (name: &'static str) {
        "stopMessageLiveLocation"
    }
}

impl<'a> StopLiveLocation<'a> {
    /// A request for a message that was sent inline, with every option left out.
    pub fn new_inline(inline_message_id: &'a str) -> (request: Self)
        ensures
            request == (StopLiveLocation {
                edit_location_in: MessageOrInlineMessageId::Inline { inline_message_id },
                reply_markup: None,
            }),
    {
        StopLiveLocation {
            edit_location_in: MessageOrInlineMessageId::Inline { inline_message_id },
            reply_markup: None,
        }
    }

    /// A request for a message of a chat, with every option left out.
    ///
    /// A chat is named by whatever converts into a `ChatId`: the request holds
    /// what the conversion gives.
    pub fn new_chat<I: Into<ChatId<'a>>>(chat_id: I, message_id: i64) -> (request: Self)
        ensures
            request.edit_location_in matches MessageOrInlineMessageId::Chat { chat_id: id, message_id: message }
                && message == message_id && call_ensures(<I as Into<ChatId<'a>>>::into, (chat_id,), id),
            I::obeys_into_spec() ==> request.edit_location_in == (MessageOrInlineMessageId::Chat {
                chat_id: chat_id.into_spec(),
                message_id,
            }),
            request.reply_markup is None,
    {
        StopLiveLocation {
            edit_location_in: MessageOrInlineMessageId::Chat { chat_id: chat_id.into(), message_id },
            reply_markup: None,
        }
    }
}

} // verus!
