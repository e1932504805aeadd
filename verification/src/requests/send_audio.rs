use crate::requests::{
    add_fields_to_form,
    add_plain_file_to_form,
    form_parts,
    json_object,
    member_parts,
    new_form,
    ChatId,
    FileKind,
    ParseMode,
    Part,
    ReplyMarkup,
    Request,
};
use hyper_multipart_rfc7578::client::multipart::Form;
use vstd::prelude::*;
use vstd::std_specs::convert::IntoSpec;

verus! {

/// Use this struct to send audio files, if you want Telegram clients to display them in the music player.
/// Your audio must be in the .mp3 format. On success, the sent `Message` is returned.
/// Bots can currently send audio files of up to 50 MB in size, this limit may be changed in the future
#[derive(Debug, Clone)]
pub struct SendAudio<'a> {
    /// Identifier for the target chat
    pub chat_id: ChatId<'a>,
    /// Audio file to send.
    pub audio: FileKind<'a>,
    /// Audio caption, 0-1024 characters
    pub caption: Option<&'a str>,
    /// Duration of the audio in seconds
    pub duration: Option<i64>,
    /// Performer
    pub performer: Option<&'a str>,
    /// Track name
    pub title: Option<&'a str>,
    /// Thumbnail of the file sent; can be ignored if thumbnail generation for the file is supported server-side.
    /// The thumbnail should be in JPEG format and less than 200 kB in size.
    /// A thumbnail's width and height should not exceed 320. Ignored if the file is not uploaded using
    /// FileKind::InputFile
    pub thumb: Option<FileKind<'a>>,
    /// Sends the message [silently](https://telegram.org/blog/channels-2-0#silent-messages).
    /// Users will receive a notification with no sound.
    pub disable_notification: bool,
    /// Send `ParseMode::Markdown` or `ParseMode::Html`,
    /// if you want Telegram apps to show
    /// [bold, italic, fixed-width text or inline URLs](https://core.telegram.org/bots/api#formatting-options) in the media caption.
    pub parse_mode: Option<ParseMode>,
    /// If the message is a reply, ID of the original message
    pub reply_to_message_id: Option<i64>,
    /// Additional interface options.
    pub reply_markup: Option<ReplyMarkup<'a>>,
}

impl<'a> Request for SendAudio<'a> {
    open spec fn method_name(&self) -> Seq<char> {
        "sendAudio"@
    }

    fn method(&self) -> (name: &'static str) {
        "sendAudio"
    }
}

impl<'a> SendAudio<'a> {
    /// A request with the values given and every option left out.
    ///
    /// A chat is named by whatever converts into a `ChatId`: the request holds
    /// what the conversion gives.
    pub fn new<I: Into<ChatId<'a>>>(chat_id: I, audio: FileKind<'a>) -> (request: Self)
        ensures
            call_ensures(<I as Into<ChatId<'a>>>::into, (chat_id,), request.chat_id),
            I::obeys_into_spec() ==> request.chat_id == chat_id.into_spec(),
            request.audio == audio,
            request.thumb is None,
            request.caption is None,
            request.duration is None,
            request.performer is None,
            !request.disable_notification,
            request.parse_mode is None,
            request.reply_to_message_id is None,
            request.reply_markup is None,
            request.title is None,
    {
        SendAudio {
            chat_id: chat_id.into(),
            audio,
            thumb: None,
            caption: None,
            duration: None,
            performer: None,
            disable_notification: false,
            parse_mode: None,
            reply_to_message_id: None,
            reply_markup: None,
            title: None,
        }
    }

    /// A request that answers the message `reply_to_message_id`, with the
    /// values given and every other option left out.
    ///
    /// A chat is named by whatever converts into a `ChatId`: the request holds
    /// what the conversion gives.
    pub fn new_reply<I: Into<ChatId<'a>>>(
        chat_id: I,
        audio: FileKind<'a>,
        reply_to_message_id: i64,
    ) -> (request: Self)
        ensures
            call_ensures(<I as Into<ChatId<'a>>>::into, (chat_id,), request.chat_id),
            I::obeys_into_spec() ==> request.chat_id == chat_id.into_spec(),
            request.audio == audio,
            request.thumb is None,
            request.caption is None,
            request.duration is None,
            request.performer is None,
            !request.disable_notification,
            request.parse_mode is None,
            request.reply_to_message_id == Some(reply_to_message_id),
            request.reply_markup is None,
            request.title is None,
    {
        SendAudio {
            chat_id: chat_id.into(),
            audio,
            thumb: None,
            caption: None,
            duration: None,
            performer: None,
            disable_notification: false,
            parse_mode: None,
            reply_to_message_id: Some(reply_to_message_id),
            reply_markup: None,
            title: None,
        }
    }

    /// True when the request uploads a file and so goes out as a multipart
    /// form; otherwise it goes out as JSON.
    pub open spec fn has_upload(&self) -> bool {
        self.audio.spec_is_input_file() || (self.thumb matches Some(thumb) && thumb.spec_is_input_file())
    }

    /// The file parts of the multipart form: the file of `audio` under the field name `audio`, then the file of `thumb` under the field name `thumb`.
    pub open spec fn upload_parts(self) -> Seq<Part> {
        self.audio.plain_parts(Some("audio")) + match self.thumb {
            Some(thumb) => thumb.plain_parts(Some("thumb")),
            None => Seq::empty(),
        }
    }

    /// Tells whether the request uploads a file and so goes out as a
    /// multipart form.
    pub fn uploads(&self) -> (multipart: bool)
        ensures
            multipart == self.has_upload(),
    {
        self.audio.is_input_file() || FileKind::is_option_input_file(&self.thumb)
    }

    /// The multipart form of the request: the fields of `json`, the JSON
    /// value that the request serialises to, as text parts, and behind them
    /// the file of `audio` under the field name `audio`, then the file of `thumb` under the field name `thumb`.
    pub fn multipart_form(self, json: serde_json::Value) -> (form: Form<'static>)
        ensures
            form_parts(form) == member_parts(json_object(json)) + self.upload_parts(),
    {
        let mut form = new_form();
        add_fields_to_form(&mut form, json);
        add_plain_file_to_form(&mut form, self.audio, Some("audio"));
        if let Some(thumb) = self.thumb {
            add_plain_file_to_form(&mut form, thumb, Some("thumb"));
        }
        form
    }
}

} // verus!
