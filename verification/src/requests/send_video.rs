use crate::requests::{
    add_fields_to_form,
    add_plain_file_to_form,
    form_parts,
    json_object,
    member_parts,
    new_form,
    ChatId,
    FileKind,
    ParseMode,
    Part,
    ReplyMarkup,
    Request,
};
use hyper_multipart_rfc7578::client::multipart::Form;
use vstd::prelude::*;
use vstd::std_specs::convert::IntoSpec;

verus! {

/// Use this struct to send video files, Telegram clients support mp4 videos (other formats may be sent by `SendDocument`).
/// On success, the sent `Message` is returned. Bots can currently
/// send video files of up to 50 MB in size, this limit may be changed in the future
#[derive(Debug, Clone)]
pub struct SendVideo<'a> {
    /// Identifier for the target chat
    pub chat_id: ChatId<'a>,
    /// Video to send.
    pub video: FileKind<'a>,
    /// Video caption (may also be used when resending videos by file_id), 0-1024 characters
    pub caption: Option<&'a str>,
    /// Duration of sent video in seconds
    pub duration: Option<i64>,
    /// Video width
    pub width: Option<i64>,
    /// Video height
    pub height: Option<i64>,
    /// Sends the message [silently](https://telegram.org/blog/channels-2-0#silent-messages).
    /// Users will receive a notification with no sound.
    pub disable_notification: bool,
    /// Pass True, if the uploaded video is suitable for streaming.
    pub supports_streaming: bool,
    /// Send `ParseMode::Markdown` or `ParseMode::Html`,
    /// if you want Telegram apps to show
    /// [bold, italic, fixed-width text or inline URLs](https://core.telegram.org/bots/api#formatting-options) in the media caption.
    pub parse_mode: Option<ParseMode>,
    /// If the message is a reply, ID of the original message
    pub reply_to_message_id: Option<i64>,
    /// Additional interface options.
    pub reply_markup: Option<ReplyMarkup<'a>>,
}

impl<'a> Request for SendVideo<'a> {
    open spec fn method_name(&self) -> Seq<char> {
        "sendVideo"@
    }

    fn method(&self) -> (name: &'static str) {
        "sendVideo"
    }
}

impl<'a> SendVideo<'a> {
    /// A request with the values given and every option left out.
    ///
    /// A chat is named by whatever converts into a `ChatId`: the request holds
    /// what the conversion gives.
    pub fn new<I: Into<ChatId<'a>>>(chat_id: I, video: FileKind<'a>) -> (request: Self)
        ensures
            call_ensures(<I as Into<ChatId<'a>>>::into, (chat_id,), request.chat_id),
            I::obeys_into_spec() ==> request.chat_id == chat_id.into_spec(),
            request.video == video,
            request.caption is None,
            request.duration is None,
            request.width is None,
            !request.disable_notification,
            !request.supports_streaming,
            request.parse_mode is None,
            request.reply_to_message_id is None,
            request.reply_markup is None,
            request.height is None,
    {
        SendVideo {
            chat_id: chat_id.into(),
            video,
            caption: None,
            duration: None,
            width: None,
            disable_notification: false,
            supports_streaming: false,
            parse_mode: None,
            reply_to_message_id: None,
            reply_markup: None,
            height: None,
        }
    }

    /// A request that answers the message `reply_to_message_id`, with the
    /// values given and every other option left out.
    ///
    /// A chat is named by whatever converts into a `ChatId`: the request holds
    /// what the conversion gives.
    pub fn new_reply<I: Into<ChatId<'a>>>(
        chat_id: I,
        video: FileKind<'a>,
        reply_to_message_id: i64,
    ) -> (request: Self)
        ensures
            call_ensures(<I as Into<ChatId<'a>>>::into, (chat_id,), request.chat_id),
            I::obeys_into_spec() ==> request.chat_id == chat_id.into_spec(),
            request.video == video,
            request.caption is None,
            request.duration is None,
            request.width is None,
            !request.disable_notification,
            !request.supports_streaming,
            request.parse_mode is None,
            request.reply_to_message_id == Some(reply_to_message_id),
            request.reply_markup is None,
            request.height is None,
    {
        SendVideo {
            chat_id: chat_id.into(),
            video,
            caption: None,
            duration: None,
            width: None,
            disable_notification: false,
            supports_streaming: false,
            parse_mode: None,
            reply_to_message_id: Some(reply_to_message_id),
            reply_markup: None,
            height: None,
        }
    }

    /// True when the request uploads a file and so goes out as a multipart
    /// form; otherwise it goes out as JSON.
    pub open spec fn has_upload(&self) -> bool {
        self.video.spec_is_input_file()
    }

    /// The file parts of the multipart form: the file of `video` under the field name `video`.
    pub open spec fn upload_parts(self) -> Seq<Part> {
        self.video.plain_parts(Some("video"))
    }

    /// Tells whether the request uploads a file and so goes out as a
    /// multipart form.
    pub fn uploads(&self) -> (multipart: bool)
        ensures
            multipart == self.has_upload(),
    {
        self.video.is_input_file()
    }

    /// The multipart form of the request: the fields of `json`, the JSON
    /// value that the request serialises to, as text parts, and behind them
    /// the file of `video` under the field name `video`.
    pub fn multipart_form(self, json: serde_json::Value) -> (form: Form<'static>)
        ensures
            form_parts(form) == member_parts(json_object(json)) + self.upload_parts(),
    {
        let mut form = new_form();
        add_fields_to_form(&mut form, json);
        add_plain_file_to_form(&mut form, self.video, Some("video"));
        form
    }
}

} // verus!
