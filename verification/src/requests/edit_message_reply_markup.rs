use crate::requests::{ChatId, MessageOrInlineMessageId, ReplyMarkup, Request};
use vstd::prelude::*;
use vstd::std_specs::convert::IntoSpec;

verus! {

/// Use this struct to edit only the reply markup of messages.
/// On success, if edited message is sent by the bot, the edited `Message` is returned, otherwise `True` is returned.
#[derive(Debug, Clone)]
pub struct EditMessageReplyMarkup<'a> {
    /// Identifier of message in chat or identifier of inline message
    pub message_or_inline_message_id: MessageOrInlineMessageId<'a>,
    /// Additional interface options.
    pub reply_markup: Option<ReplyMarkup<'a>>,
}

impl<'a> Request for EditMessageReplyMarkup<'a> {
    open spec fn method_name(&self) -> Seq<char> {
        "editMessageReplyMarkup"@
    }

    fn method(&self) -> (name: &'static str) {
        "editMessageReplyMarkup"
    }
}

impl<'a> EditMessageReplyMarkup<'a> {
    /// A request for a message that was sent inline, with the values given
    /// and every option left out.
    pub fn new_inline_message(
        inline_message_id: &'a str,
        reply_markup: ReplyMarkup<'a>,
    ) -> (request: Self)
        ensures
            request == (EditMessageReplyMarkup {
                message_or_inline_message_id: MessageOrInlineMessageId::Inline { inline_message_id },
                reply_markup: Some(reply_markup),
            }),
    {
        EditMessageReplyMarkup {
            message_or_inline_message_id: MessageOrInlineMessageId::Inline { inline_message_id },
            reply_markup: Some(reply_markup),
        }
    }

    /// A request for a message of a chat, with the values given and every
    /// option left out.
    ///
    /// A chat is named by whatever converts into a `ChatId`: the request holds
    /// what the conversion gives.
    pub fn new_message<I: Into<ChatId<'a>>>(
        chat_id: I,
        message_id: i64,
        reply_markup: ReplyMarkup<'a>,
    ) -> (request: Self)
        ensures
            request.message_or_inline_message_id matches MessageOrInlineMessageId::Chat { chat_id: id, message_id: message }
                && message == message_id && call_ensures(<I as Into<ChatId<'a>>>::into, (chat_id,), id),
            I::obeys_into_spec() ==> request.message_or_inline_message_id == (MessageOrInlineMessageId::Chat {
                chat_id: chat_id.into_spec(),
                message_id,
            }),
            request.reply_markup == Some(reply_markup),
    {
        EditMessageReplyMarkup {
            message_or_inline_message_id: MessageOrInlineMessageId::Chat { chat_id: chat_id.into(), message_id },
            reply_markup: Some(reply_markup),
        }
    }
}

} // verus!
