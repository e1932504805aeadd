use crate::requests::{ChatId, ReplyMarkup, Request};
use vstd::prelude::*;
use vstd::std_specs::convert::IntoSpec;

verus! {

/// Use this struct to send phone contacts. On success, the sent `Message` is returned.
#[derive(Debug, Clone)]
pub struct SendContact<'a> {
    /// Identifier for the target chat
    pub chat_id: ChatId<'a>,
    /// Contact's phone number
    pub phone_number: &'a str,
    /// Contact's first name
    pub first_name: &'a str,
    /// Contact's last name
    pub last_name: Option<&'a str>,
    /// Additional data about the contact in the form of a
    /// [vCard](https://en.wikipedia.org/wiki/VCard), 0-2048 bytes
    pub vcard: Option<&'a str>,
    /// Sends the message [silently](https://telegram.org/blog/channels-2-0#silent-messages).
    /// Users will receive a notification with no sound.
    pub disable_notification: bool,
    /// If the message is a reply, ID of the original message
    pub reply_to_message_id: Option<i64>,
    /// Additional interface options.
    pub reply_markup: Option<ReplyMarkup<'a>>,
}

impl<'a> Request for SendContact<'a> {
    open spec fn method_name(&self) -> Seq<char> {
        "sendContact"@
    }

    fn method(&self) -> (name: &'static str) {
        "sendContact"
    }
}

impl<'a> SendContact<'a> {
    /// A request with the values given and every option left out.
    ///
    /// A chat is named by whatever converts into a `ChatId`: the request holds
    /// what the conversion gives.
    pub fn new<I: Into<ChatId<'a>>>(
        chat_id: I,
        phone_number: &'a str,
        first_name: &'a str,
    ) -> (request: Self)
        ensures
            call_ensures(<I as Into<ChatId<'a>>>::into, (chat_id,), request.chat_id),
            I::obeys_into_spec() ==> request.chat_id == chat_id.into_spec(),
            request.phone_number == phone_number,
            request.first_name == first_name,
            request.last_name is None,
            request.vcard is None,
            !request.disable_notification,
            request.reply_to_message_id is None,
            request.reply_markup is None,
    {
        SendContact {
            chat_id: chat_id.into(),
            phone_number,
            first_name,
            last_name: None,
            vcard: None,
            disable_notification: false,
            reply_to_message_id: None,
            reply_markup: None,
        }
    }

    /// A request that answers the message `reply_to_message_id`, with the
    /// values given and every other option left out.
    ///
    /// A chat is named by whatever converts into a `ChatId`: the request holds
    /// what the conversion gives.
    pub fn new_reply<I: Into<ChatId<'a>>>(
        chat_id: I,
        phone_number: &'a str,
        first_name: &'a str,
        reply_to_message_id: i64,
    ) -> (request: Self)
        ensures
            call_ensures(<I as Into<ChatId<'a>>>::into, (chat_id,), request.chat_id),
            I::obeys_into_spec() ==> request.chat_id == chat_id.into_spec(),
            request.phone_number == phone_number,
            request.first_name == first_name,
            request.last_name is None,
            request.vcard is None,
            !request.disable_notification,
            request.reply_to_message_id == Some(reply_to_message_id),
            request.reply_markup is None,
    {
        SendContact {
            chat_id: chat_id.into(),
            phone_number,
            first_name,
            last_name: None,
            vcard: None,
            disable_notification: false,
            reply_to_message_id: Some(reply_to_message_id),
            reply_markup: None,
        }
    }
}

} // verus!
