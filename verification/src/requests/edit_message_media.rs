use crate::requests::{
    add_fields_to_form,
    add_plain_file_to_form,
    form_parts,
    json_object,
    member_parts,
    new_form,
    ChatId,
    InputMedia,
    MessageOrInlineMessageId,
    Part,
    ReplyMarkup,
    Request,
};
use hyper_multipart_rfc7578::client::multipart::Form;
use vstd::prelude::*;
use vstd::std_specs::convert::IntoSpec;

verus! {

/// Use this struct to edit animation, audio, document, photo, or video messages.
/// If a message is a part of a message album, then it can be edited only to a photo or a video.
/// Otherwise, message type can be changed arbitrarily. When inline message is edited, new file
/// can't be uploaded. Use previously uploaded file via its file_id or specify a URL. On success,
/// if the edited message was sent by the bot, the edited `Message` is returned, otherwise `True` is returned.
#[derive(Debug, Clone)]
pub struct EditMessageMedia<'a> {
    /// Identifier of message in chat or identifier of inline message
    pub message_or_inline_message_id: MessageOrInlineMessageId<'a>,
    /// New media content of the message.
    pub media: InputMedia<'a>,
    /// Additional interface options.
    pub reply_markup: Option<ReplyMarkup<'a>>,
}

impl<'a> Request for EditMessageMedia<'a> {
    open spec fn method_name(&self) -> Seq<char> {
        "editMessageMedia"@
    }

    fn method(&self) -> (name: &'static str) {
        "editMessageMedia"
    }
}

impl<'a> EditMessageMedia<'a> {
    /// A request for a message that was sent inline, with the values given
    /// and every option left out.
    pub fn new_inline_message(inline_message_id: &'a str, media: InputMedia<'a>) -> (request: Self)
        ensures
            request == (EditMessageMedia {
                message_or_inline_message_id: MessageOrInlineMessageId::Inline { inline_message_id },
                media,
                reply_markup: None,
            }),
    {
        EditMessageMedia {
            message_or_inline_message_id: MessageOrInlineMessageId::Inline { inline_message_id },
            media,
            reply_markup: None,
        }
    }

    /// A request for a message of a chat, with the values given and every
    /// option left out.
    ///
    /// A chat is named by whatever converts into a `ChatId`: the request holds
    /// what the conversion gives.
    pub fn new_message<I: Into<ChatId<'a>>>(
        chat_id: I,
        message_id: i64,
        media: InputMedia<'a>,
    ) -> (request: Self)
        ensures
            request.message_or_inline_message_id matches MessageOrInlineMessageId::Chat { chat_id: id, message_id: message }
                && message == message_id && call_ensures(<I as Into<ChatId<'a>>>::into, (chat_id,), id),
            I::obeys_into_spec() ==> request.message_or_inline_message_id == (MessageOrInlineMessageId::Chat {
                chat_id: chat_id.into_spec(),
                message_id,
            }),
            request.media == media,
            request.reply_markup is None,
    {
        EditMessageMedia {
            message_or_inline_message_id: MessageOrInlineMessageId::Chat { chat_id: chat_id.into(), message_id },
            media,
            reply_markup: None,
        }
    }

    /// True when the request uploads a file and so goes out as a multipart
    /// form; otherwise it goes out as JSON.
    pub open spec fn has_upload(&self) -> bool {
        self.media.spec_contains_input_file()
    }

    /// The file parts of the multipart form: the file of `media` under its own name.
    pub open spec fn upload_parts(self) -> Seq<Part> {
        self.media.file().plain_parts(None)
    }

    /// Tells whether the request uploads a file and so goes out as a
    /// multipart form.
    pub fn uploads(&self) -> (multipart: bool)
        ensures
            multipart == self.has_upload(),
    {
        self.media.contains_input_file()
    }

    /// The multipart form of the request: the fields of `json`, the JSON
    /// value that the request serialises to, as text parts, and behind them
    /// the file of `media` under its own name.
    pub fn multipart_form(self, json: serde_json::Value) -> (form: Form<'static>)
        ensures
            form_parts(form) == member_parts(json_object(json)) + self.upload_parts(),
    {
        let mut form = new_form();
        add_fields_to_form(&mut form, json);
        add_plain_file_to_form(&mut form, self.media.get_file(), None);
        form
    }
}

} // verus!
