use crate::requests::{ChatId, MessageOrInlineMessageId, ParseMode, ReplyMarkup, Request};
use vstd::prelude::*;
use vstd::std_specs::convert::IntoSpec;

verus! {

/// Use this struct to edit text and game messages. On success, if edited message is sent by the bot, the edited
/// `Message `is returned, otherwise `True` is returned.
#[derive(Debug, Clone)]
pub struct EditMessageText<'a> {
    /// Identifier of message in chat or identifier of inline message
    pub message_or_inline_message_id: MessageOrInlineMessageId<'a>,
    /// New text of the message.
    pub text: &'a str,
    /// Send `ParseMode::Markdown` or `ParseMode::Html`,
    /// if you want Telegram apps to show
    /// [bold, italic, fixed-width text or inline URLs](https://core.telegram.org/bots/api#formatting-options) in your bot's message.
    pub parse_mode: Option<ParseMode>,
    /// Disables link previews for links in this message
    pub disable_web_page_preview: bool,
    /// Additional interface options.
    pub reply_markup: Option<ReplyMarkup<'a>>,
}

impl<'a> Request for EditMessageText<'a> {
    open spec fn method_name(&self) -> Seq<char> {
        "editMessageText"@
    }

    fn method(&self) -> (name: &'static str) {
        "editMessageText"
    }
}

impl<'a> EditMessageText<'a> {
    /// A request for a message that was sent inline, with the values given
    /// and every option left out.
    pub fn new_inline_message(inline_message_id: &'a str, text: &'a str) -> (request: Self)
        ensures
            request == (EditMessageText {
                message_or_inline_message_id: MessageOrInlineMessageId::Inline { inline_message_id },
                text,
                parse_mode: None,
                disable_web_page_preview: false,
                reply_markup: None,
            }),
    {
        EditMessageText {
            message_or_inline_message_id: MessageOrInlineMessageId::Inline { inline_message_id },
            text,
            parse_mode: None,
            disable_web_page_preview: false,
            reply_markup: None,
        }
    }

    /// A request for a message of a chat, with the values given and every
    /// option left out.
    ///
    /// A chat is named by whatever converts into a `ChatId`: the request holds
    /// what the conversion gives.
    pub fn new_message<I: Into<ChatId<'a>>>(
        chat_id: I,
        message_id: i64,
        text: &'a str,
    ) -> (request: Self)
        ensures
            request.message_or_inline_message_id matches MessageOrInlineMessageId::Chat { chat_id: id, message_id: message }
                && message == message_id && call_ensures(<I as Into<ChatId<'a>>>::into, (chat_id,), id),
            I::obeys_into_spec() ==> request.message_or_inline_message_id == (MessageOrInlineMessageId::Chat {
                chat_id: chat_id.into_spec(),
                message_id,
            }),
            request.text == text,
            request.parse_mode is None,
            !request.disable_web_page_preview,
            request.reply_markup is None,
    {
        EditMessageText {
            message_or_inline_message_id: MessageOrInlineMessageId::Chat { chat_id: chat_id.into(), message_id },
            text,
            parse_mode: None,
            disable_web_page_preview: false,
            reply_markup: None,
        }
    }
}

} // verus!
