use crate::requests::{ChatId, ParseMode, ReplyMarkup, Request};
use vstd::prelude::*;

verus! {

/// Represents [sendMessage](https://core.telegram.org/bots/api#sendMessage) request
#[derive(Debug, Clone)]
pub struct SendTextMessageRequest<'a> {
    /// Identifier for the target chat
    pub chat_id: ChatId<'a>,
    /// Text of the message to be sent.
    pub text: &'a str,
    /// Sends the message [silently](https://telegram.org/blog/channels-2-0#silent-messages).
    /// Users will receive a notification with no sound.
    pub disable_notification: bool,
    /// Send `ParseMode::Markdown` or `ParseMode::Html`,
    /// if you want Telegram apps to show
    /// [bold, italic, fixed-width text or inline URLs](https://core.telegram.org/bots/api#formatting-options) in your bot's message.
    pub parse_mode: Option<ParseMode>,
    /// Disables link previews for links in this message
    pub disable_web_page_preview: bool,
    /// If the message is a reply, ID of the original message
    pub reply_to_message_id: Option<i64>,
    /// Additional interface options.
    pub reply_markup: Option<ReplyMarkup<'a>>,
}

impl<'a> Request for SendTextMessageRequest<'a> {
    open spec fn method_name(&self) -> Seq<char> {
        "sendMessage"@
    }

    fn method(&self) -> (name: &'static str) {
        "sendMessage"
    }
}

impl<'a> SendTextMessageRequest<'a> {
    /// A request with the values given and every option left out.
    pub fn new(chat_id: ChatId<'a>, text: &'a str) -> (request: Self)
        ensures
            request == (SendTextMessageRequest {
                chat_id,
                text,
                disable_notification: false,
                parse_mode: None,
                disable_web_page_preview: false,
                reply_to_message_id: None,
                reply_markup: None,
            }),
    {
        SendTextMessageRequest {
            chat_id,
            text,
            disable_notification: false,
            parse_mode: None,
            disable_web_page_preview: false,
            reply_to_message_id: None,
            reply_markup: None,
        }
    }

    /// A request that answers the message `reply_to_message_id`, with the
    /// values given and every other option left out.
    pub fn new_reply(
        chat_id: ChatId<'a>,
        text: &'a str,
        reply_to_message_id: i64,
    ) -> (request: Self)
        ensures
            request == (SendTextMessageRequest {
                chat_id,
                text,
                disable_notification: false,
                parse_mode: None,
                disable_web_page_preview: false,
                reply_to_message_id: Some(reply_to_message_id),
                reply_markup: None,
            }),
    {
        SendTextMessageRequest {
            chat_id,
            text,
            disable_notification: false,
            parse_mode: None,
            disable_web_page_preview: false,
            reply_to_message_id: Some(reply_to_message_id),
            reply_markup: None,
        }
    }
}

} // verus!
