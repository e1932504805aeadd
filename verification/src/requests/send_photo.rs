use crate::requests::{
    add_fields_to_form,
    add_file_to_form,
    form_parts,
    json_object,
    member_parts,
    new_form,
    ChatId,
    FileKind,
    ParseMode,
    Part,
    ReplyMarkup,
    Request,
};
use hyper_multipart_rfc7578::client::multipart::Form;
use vstd::prelude::*;
use vstd::std_specs::convert::IntoSpec;

verus! {

/// Use this struct to send photos. On success, the sent `Message` is returned.
#[derive(Debug, Clone)]
pub struct SendPhoto<'a> {
    /// Identifier for the target chat
    pub chat_id: ChatId<'a>,
    /// Photo to send.
    pub photo: FileKind<'a>,
    /// Photo caption (may also be used when resending photos by file_id), 0-1024 characters
    pub caption: Option<&'a str>,
    /// Sends the message [silently](https://telegram.org/blog/channels-2-0#silent-messages).
    /// Users will receive a notification with no sound.
    pub disable_notification: bool,
    /// Send `ParseMode::Markdown` or `ParseMode::Html`,
    /// if you want Telegram apps to show
    /// [bold, italic, fixed-width text or inline URLs](https://core.telegram.org/bots/api#formatting-options) in the media caption..
    pub parse_mode: Option<ParseMode>,
    /// If the message is a reply, ID of the original message
    pub reply_to_message_id: Option<i64>,
    /// Additional interface options.
    pub reply_markup: Option<ReplyMarkup<'a>>,
}

impl<'a> Request for SendPhoto<'a> {
    open spec fn method_name(&self) -> Seq<char> {
        "sendPhoto"@
    }

    fn method(&self) -> (name: &'static str) {
        "sendPhoto"
    }
}

impl<'a> SendPhoto<'a> {
    /// A request with the values given and every option left out.
    ///
    /// A chat is named by whatever converts into a `ChatId`: the request holds
    /// what the conversion gives.
    pub fn new<I: Into<ChatId<'a>>>(chat_id: I, photo: FileKind<'a>) -> (request: Self)
        ensures
            call_ensures(<I as Into<ChatId<'a>>>::into, (chat_id,), request.chat_id),
            I::obeys_into_spec() ==> request.chat_id == chat_id.into_spec(),
            request.photo == photo,
            request.caption is None,
            !request.disable_notification,
            request.parse_mode is None,
            request.reply_to_message_id is None,
            request.reply_markup is None,
    {
        SendPhoto {
            chat_id: chat_id.into(),
            photo,
            caption: None,
            disable_notification: false,
            parse_mode: None,
            reply_to_message_id: None,
            reply_markup: None,
        }
    }

    /// A request that answers the message `reply_to_message_id`, with the
    /// values given and every other option left out.
    ///
    /// A chat is named by whatever converts into a `ChatId`: the request holds
    /// what the conversion gives.
    pub fn new_reply<I: Into<ChatId<'a>>>(
        chat_id: I,
        photo: FileKind<'a>,
        reply_to_message_id: i64,
    ) -> (request: Self)
        ensures
            call_ensures(<I as Into<ChatId<'a>>>::into, (chat_id,), request.chat_id),
            I::obeys_into_spec() ==> request.chat_id == chat_id.into_spec(),
            request.photo == photo,
            request.caption is None,
            !request.disable_notification,
            request.parse_mode is None,
            request.reply_to_message_id == Some(reply_to_message_id),
            request.reply_markup is None,
    {
        SendPhoto {
            chat_id: chat_id.into(),
            photo,
            caption: None,
            disable_notification: false,
            parse_mode: None,
            reply_to_message_id: Some(reply_to_message_id),
            reply_markup: None,
        }
    }

    /// True when the request uploads a file and so goes out as a multipart
    /// form; otherwise it goes out as JSON.
    pub open spec fn has_upload(&self) -> bool {
        self.photo.spec_is_input_file()
    }

    /// The file parts of the multipart form: the file of `photo` under the field name `photo`, with its thumbnail.
    pub open spec fn upload_parts(self) -> Seq<Part> {
        self.photo.parts(Some("photo"))
    }

    /// Tells whether the request uploads a file and so goes out as a
    /// multipart form.
    pub fn uploads(&self) -> (multipart: bool)
        ensures
            multipart == self.has_upload(),
    {
        self.photo.is_input_file()
    }

    /// The multipart form of the request: the fields of `json`, the JSON
    /// value that the request serialises to, as text parts, and behind them
    /// the file of `photo` under the field name `photo`, with its thumbnail.
    pub fn multipart_form(self, json: serde_json::Value) -> (form: Form<'static>)
        ensures
            form_parts(form) == member_parts(json_object(json)) + self.upload_parts(),
    {
        let mut form = new_form();
        add_fields_to_form(&mut form, json);
        add_file_to_form(&mut form, self.photo, Some("photo"));
        form
    }
}

} // verus!
