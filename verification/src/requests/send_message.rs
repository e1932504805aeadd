use crate::requests::{ChatId, ParseMode, ReplyMarkup, Request};
use vstd::prelude::*;
use vstd::std_specs::convert::IntoSpec;

verus! {

/// Use this struct to send text messages. On success, the sent `Message` is returned.
#[derive(Debug, Clone)]
pub struct SendMessage<'a> {
    /// Identifier for the target chat
    pub chat_id: ChatId<'a>,
    /// Text of the message to be sent.
    pub text: &'a str,
    /// Sends the message [silently](https://telegram.org/blog/channels-2-0#silent-messages).
    /// Users will receive a notification with no sound.
    pub disable_notification: bool,
    /// Send `ParseMode::Markdown` or `ParseMode::Html`,
    /// if you want Telegram apps to show
    /// [bold, italic, fixed-width text or inline URLs](https://core.telegram.org/bots/api#formatting-options) in your bot's message.
    pub parse_mode: Option<ParseMode>,
    /// Disables link previews for links in this message
    pub disable_web_page_preview: bool,
    /// If the message is a reply, ID of the original message
    pub reply_to_message_id: Option<i64>,
    /// Additional interface options.
    pub reply_markup: Option<ReplyMarkup<'a>>,
}

impl<'a> Request for SendMessage<'a> {
    open spec fn method_name(&self) -> Seq<char> {
        "sendMessage"@
    }

    fn method(&self) -> (name: &'static str) {
        "sendMessage"
    }
}

impl<'a> SendMessage<'a> {
    /// A request with the values given and every option left out.
    ///
    /// A chat is named by whatever converts into a `ChatId`: the request holds
    /// what the conversion gives.
    pub fn new<I: Into<ChatId<'a>>>(chat_id: I, text: &'a str) -> (request: Self)
        ensures
            call_ensures(<I as Into<ChatId<'a>>>::into, (chat_id,), request.chat_id),
            I::obeys_into_spec() ==> request.chat_id == chat_id.into_spec(),
            request.text == text,
            !request.disable_notification,
            request.parse_mode is None,
            !request.disable_web_page_preview,
            request.reply_to_message_id is None,
            request.reply_markup is None,
    {
        SendMessage {
            chat_id: chat_id.into(),
            text,
            disable_notification: false,
            parse_mode: None,
            disable_web_page_preview: false,
            reply_to_message_id: None,
            reply_markup: None,
        }
    }

    /// A request that answers the message `reply_to_message_id`, with the
    /// values given and every other option left out.
    ///
    /// A chat is named by whatever converts into a `ChatId`: the request holds
    /// what the conversion gives.
    pub fn new_reply<I: Into<ChatId<'a>>>(
        chat_id: I,
        text: &'a str,
        reply_to_message_id: i64,
    ) -> (request: Self)
        ensures
            call_ensures(<I as Into<ChatId<'a>>>::into, (chat_id,), request.chat_id),
            I::obeys_into_spec() ==> request.chat_id == chat_id.into_spec(),
            request.text == text,
            !request.disable_notification,
            request.parse_mode is None,
            !request.disable_web_page_preview,
            request.reply_to_message_id == Some(reply_to_message_id),
            request.reply_markup is None,
    {
        SendMessage {
            chat_id: chat_id.into(),
            text,
            disable_notification: false,
            parse_mode: None,
            disable_web_page_preview: false,
            reply_to_message_id: Some(reply_to_message_id),
            reply_markup: None,
        }
    }
}

} // verus!
