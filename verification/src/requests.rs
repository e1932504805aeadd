use hyper_multipart_rfc7578::client::multipart::Form;
use std::io::Cursor;
use vstd::prelude::*;
use vstd::std_specs::convert::FromSpecImpl;
use vstd::string::StringExecFns;

pub use answer_callback_query::AnswerCallbackQuery;
pub use delete_chat_photo::DeleteChatPhoto;
pub use delete_chat_sticker_set::DeleteChatStickerSet;
pub use delete_message::DeleteMessage;
pub use edit_message_caption::EditMessageCaption;
pub use edit_message_media::EditMessageMedia;
pub use edit_message_reply_markup::EditMessageReplyMarkup;
pub use edit_message_text::EditMessageText;
pub use export_chat_invite_link::ExportChatInviteLink;
pub use forward_message::ForwardMessage;
pub use get_chat::GetChat;
pub use get_chat_administrators::GetChatAdministrators;
pub use get_chat_member::GetChatMember;
pub use get_chat_members_count::GetChatMembersCount;
pub use get_file::GetFile;
pub use get_me::GetMe;
pub use get_updates::{AllowedUpdate, EventFilter, GetUpdatesRequest};
pub use get_user_profile_photos::GetUserProfilePhotos;
pub use kick_chat_member::KickChatMember;
pub use leave_chat::LeaveChat;
pub use pin_chat_message::PinChatMessage;
pub use promote_chat_member::PromoteChatMember;
pub use restrict_chat_member::RestrictChatMember;
pub use send_animation::SendAnimation;
pub use send_audio::SendAudio;
pub use send_chat_action::{ChatAction, SendChatAction};
pub use send_contact::SendContact;
pub use send_document::SendDocument;
pub use send_media_group::{InputMediaPhotoOrVideo, SendMediaGroup};
pub use send_message::SendMessage;
pub use send_photo::SendPhoto;
pub use send_poll::SendPoll;
pub use send_text_message::SendTextMessageRequest;
pub use send_video::SendVideo;
pub use send_video_note::SendVideoNote;
pub use send_voice::SendVoice;
pub use set_chat_description::SetChatDescription;
pub use set_chat_photo::SetChatPhoto;
pub use set_chat_sticker_set::SetChatStickerSet;
pub use set_chat_title::SetChatTitle;
pub use stop_live_location::StopLiveLocation;
pub use stop_poll::StopPoll;
pub use unban_chat_member::UnbanChatMember;
pub use unpin_chat_message::UnpinChatMessage;

mod answer_callback_query;
mod delete_chat_photo;
mod delete_chat_sticker_set;
mod delete_message;
mod edit_message_caption;
mod edit_message_media;
mod edit_message_reply_markup;
mod edit_message_text;
mod export_chat_invite_link;
mod forward_message;
mod get_chat;
mod get_chat_administrators;
mod get_chat_member;
mod get_chat_members_count;
mod get_file;
mod get_me;
mod get_updates;
mod get_user_profile_photos;
mod kick_chat_member;
mod leave_chat;
mod pin_chat_message;
mod promote_chat_member;
mod restrict_chat_member;
mod send_animation;
mod send_audio;
mod send_chat_action;
mod send_contact;
mod send_document;
mod send_media_group;
mod send_message;
mod send_photo;
mod send_poll;
mod send_text_message;
mod send_video;
mod send_video_note;
mod send_voice;
mod set_chat_description;
mod set_chat_photo;
mod set_chat_sticker_set;
mod set_chat_title;
mod stop_live_location;
mod stop_poll;
mod unban_chat_member;
mod unpin_chat_message;

verus! {

/// Basic request type: every request names the method of the API that it calls.
pub trait Request: Sized {
    /// The name of the API's method.
    spec fn method_name(&self) -> Seq<char>;

    /// The name of the API's method, as it stands in the address of the call.
    fn method(&self) -> (name: &'static str)
        ensures
            name@ == self.method_name(),
    ;
}

/// The multipart form of `hyper_multipart_rfc7578`, which collects the parts
/// of a request that uploads files.
#[verifier::external_type_specification]
#[verifier::external_body]
pub struct ExForm<'a>(hyper_multipart_rfc7578::client::multipart::Form<'a>);

/// A JSON value of `serde_json`, carried through unread.
#[verifier::external_type_specification]
#[verifier::external_body]
pub struct ExJsonValue(serde_json::Value);

/// What one part of a multipart form carries.
pub enum PartContent {
    /// A text field
    Text(Seq<char>),
    /// The bytes of a file
    Bytes(Seq<u8>),
}

/// One part of a multipart form, as the form holds it: the text of its
/// `Content-Disposition` header and what it carries.
pub struct Part {
    /// The text of the `Content-Disposition` header
    pub disposition: Seq<char>,
    /// What the part carries
    pub content: PartContent,
}

/// The text of the `Content-Disposition` header of a part with the given
/// field name and file name. Both stand between double quotes as they are:
/// nothing in them is escaped, so a name that holds a double quote changes
/// how the header reads.
pub open spec fn content_disposition(name: Seq<char>, filename: Option<Seq<char>>) -> Seq<char> {
    let named = "form-data; name=\""@ + name + "\""@;
    match filename {
        Some(file) => named + "; filename=\""@ + file + "\""@,
        None => named,
    }
}

impl Part {
    /// The part of a text field.
    pub open spec fn text(name: Seq<char>, text: Seq<char>) -> Part {
        Part { disposition: content_disposition(name, None), content: PartContent::Text(text) }
    }

    /// The part of a file.
    pub open spec fn file(name: Seq<char>, filename: Seq<char>, content: Seq<u8>) -> Part {
        Part {
            disposition: content_disposition(name, Some(filename)),
            content: PartContent::Bytes(content),
        }
    }
}

/// The parts that a form holds, in the order in which they were added, each
/// with the header text that the form made for it and with what it carries.
pub uninterp spec fn form_parts(form: Form<'static>) -> Seq<Part>;

/// `Form::default`: a form that holds no part yet. (Its boundary is drawn at
/// random; nothing is said of it.)
#[verifier::external_body]
fn new_form() -> (form: Form<'static>)
    ensures
        form_parts(form) == Seq::<Part>::empty(),
{
    Form::default()
}

/// `Form::add_text`: puts a text part behind the parts that the form holds.
/// The part's header is the text that the form writes for the name alone.
#[verifier::external_body]
fn form_add_text(form: &mut Form<'static>, name: &str, text: String)
    ensures
        form_parts(*final(form)) == form_parts(*old(form)).push(Part::text(name@, text@)),
{
    form.add_text(name, text)
}

/// `Form::add_reader_file`, with a reader over `content`: puts a file part
/// behind the parts that the form holds. The part's header is the text that
/// the form writes for the name and the file name.
#[verifier::external_body]
fn form_add_file(form: &mut Form<'static>, name: &str, content: Vec<u8>, filename: &str)
    ensures
        form_parts(*final(form)) == form_parts(*old(form)).push(
            Part::file(name@, filename@, content@),
        ),
{
    form.add_reader_file(name, Cursor::new(content), filename)
}

/// One member of a JSON object: its name, the text it holds where it is a
/// string, and the JSON text that it is written as.
#[derive(Debug, Clone)]
pub struct JsonMember {
    /// The name of the member
    pub name: String,
    /// The text of the member, where the member is a JSON string
    pub string: Option<String>,
    /// The member as JSON text
    pub json: String,
}

impl View for JsonMember {
    type V = (Seq<char>, Option<Seq<char>>, Seq<char>);

    open spec fn view(&self) -> Self::V {
        (
            self.name@,
            match self.string {
                Some(text) => Some(text@),
                None => None,
            },
            self.json@,
        )
    }
}

/// The members of a JSON object in the order in which `serde_json` walks
/// them, each with its name, the text it holds where it is a string, and its
/// JSON text; no member for a value that is no object.
pub uninterp spec fn json_object(json: serde_json::Value) -> Seq<
    (Seq<char>, Option<Seq<char>>, Seq<char>),
>;

/// Takes a `serde_json::Value` apart: the members of its `Object` variant by
/// `Map::into_iter`, each with what `Value::as_str` and `Value::to_string`
/// give for it, and no member for any other variant. The contract gives what
/// comes back the name `json_object` and claims nothing else of it.
#[verifier::external_body]
fn json_members(json: serde_json::Value) -> (members: Vec<JsonMember>)
    ensures
        members@.map_values(|m: JsonMember| m@) == json_object(json),
{
    match json {
        serde_json::Value::Object(members) => members.into_iter().map(
            |(name, value)|
                JsonMember { name, string: value.as_str().map(String::from), json: value.to_string() },
        ).collect(),
        _ => Vec::new(),
    }
}

/// File to send
#[derive(Debug, Clone)]
pub enum FileKind<'a> {
    /// Identifier of file on the telegram servers
    FileId(&'a str),
    /// Http url for the file to be sent. Telegram will download and send the file.
    /// 5 MB max size for photos and 20 MB max for other types of content
    Url(&'a str),
    /// Arbitrary file to be uploaded
    InputFile {
        /// Name of the file
        name: &'a str,
        /// File content
        content: Vec<u8>,
        /// Thumbnail of the file sent; can be ignored if thumbnail generation for the file is supported server-side.
        /// The thumbnail should be in JPEG format and less than 200 kB in size. A thumbnail's width and height should not exceed 320
        thumb: Option<Vec<u8>>,
    },
}

impl<'a> FileKind<'a> {
    /// True for a file that is uploaded with the request.
    pub open spec fn spec_is_input_file(&self) -> bool {
        self is InputFile
    }

    /// True for a file that is uploaded with the request.
    #[verifier::when_used_as_spec(spec_is_input_file)]
    pub fn is_input_file(&self) -> (upload: bool)
        ensures
            upload == self.spec_is_input_file(),
    {
        match self {
            FileKind::InputFile { .. } => true,
            _ => false,
        }
    }

    /// True for a file that is there and is uploaded with the request.
    pub fn is_option_input_file(file: &Option<FileKind<'a>>) -> (upload: bool)
        ensures
            upload == (file matches Some(f) && f.spec_is_input_file()),
    {
        match file {
            Some(FileKind::InputFile { .. }) => true,
            _ => false,
        }
    }

    /// The reference by which a JSON body names an uploaded file: the
    /// scheme `attach://` before the name of the file.
    pub fn serialize_attach(name: &str) -> (reference: String)
        ensures
            reference@ == "attach://"@ + name@,
    {
        let mut reference = String::from_str("attach://");
        reference.append(name);
        reference
    }

    /// The parts that the file alone brings to a form: one file part for an
    /// uploaded file, none for a file that the servers have or fetch. The
    /// part goes under the field name `upload_type`, or under the file's own
    /// name where none is given, and announces the file's name.
    pub open spec fn plain_parts(self, upload_type: Option<&str>) -> Seq<Part> {
        match self {
            FileKind::InputFile { name, content, .. } => seq![
                Part::file(
                    match upload_type {
                        Some(field) => field@,
                        None => name@,
                    },
                    name@,
                    content@,
                ),
            ],
            _ => Seq::empty(),
        }
    }

    /// The parts that the file and its thumbnail bring to a form. The file
    /// goes under the field name `upload_type`, or under its own name where
    /// none is given. A thumbnail goes under the file's name with `thumb_`
    /// before it, followed by the text field `thumb` that refers to it.
    pub open spec fn parts(self, upload_type: Option<&str>) -> Seq<Part> {
        match self {
            FileKind::InputFile { name, content, thumb } => {
                let file = self.plain_parts(upload_type);
                match thumb {
                    Some(picture) => file.push(
                        Part::file("thumb_"@ + name@, "thumb_"@ + name@, picture@),
                    ).push(Part::text("thumb"@, "attach://"@ + ("thumb_"@ + name@))),
                    None => file,
                }
            },
            _ => Seq::empty(),
        }
    }
}

/// The text parts that a list of named texts brings to a form.
pub open spec fn text_parts(fields: Seq<(String, String)>) -> Seq<Part> {
    Seq::new(
        fields.len(),
        |i: int| Part::text(fields[i].0@, fields[i].1@),
    )
}

/// Puts the file of `file`, without its thumbnail, into the form, if it is a
/// file to upload.
pub fn add_plain_file_to_form(form: &mut Form<'static>, file: FileKind, upload_type: Option<&str>)
    ensures
        form_parts(*final(form)) == form_parts(*old(form)) + file.plain_parts(upload_type),
{
    if let FileKind::InputFile { name, content, thumb } = file {
        let field = match upload_type {
            Some(field) => field,
            None => name,
        };
        form_add_file(form, field, content, name);
    }
}

/// Puts the file of `file` and its thumbnail into the form, if it is a file
/// to upload.
pub fn add_file_to_form(form: &mut Form<'static>, file: FileKind, upload_type: Option<&str>)
    ensures
        form_parts(*final(form)) == form_parts(*old(form)) + file.parts(upload_type),
{
    if let FileKind::InputFile { name, content, thumb } = file {
        let field = match upload_type {
            Some(field) => field,
            None => name,
        };
        form_add_file(form, field, content, name);
        if let Some(picture) = thumb {
            let mut thumb_name = String::from_str("thumb_");
            thumb_name.append(name);
            form_add_file(form, thumb_name.as_str(), picture, thumb_name.as_str());
            let reference = FileKind::serialize_attach(thumb_name.as_str());
            form_add_text(form, "thumb", reference);
        }
    }
}

/// Puts one text part for each of `fields` into the form, in their order.
pub fn add_text_fields(form: &mut Form<'static>, fields: Vec<(String, String)>)
    ensures
        form_parts(*final(form)) == form_parts(*old(form)) + text_parts(fields@),
{
    let ghost before = form_parts(*form);
    let ghost all = fields@;
    for field in iter: fields
        invariant
            iter.seq() == all,
            form_parts(*form) == before + text_parts(all.take(iter.index())),
    {
        let (name, text) = field;
        proof {
            assert(text_parts(all.take(iter.index() + 1)) =~= text_parts(
                all.take(iter.index()),
            ).push(Part::text(name@, text@)));
        }
        form_add_text(form, name.as_str(), text);
    }
    proof {
        assert(all.take(all.len() as int) =~= all);
    }
}

/// The text that a form carries for a member of a JSON object: the text of
/// a string as it is, the JSON text of every other value.
pub open spec fn member_text(member: (Seq<char>, Option<Seq<char>>, Seq<char>)) -> Seq<char> {
    match member.1 {
        Some(text) => text,
        None => member.2,
    }
}

/// The text parts that the members of a JSON object bring to a form, one for
/// each member and in their order.
pub open spec fn member_parts(members: Seq<(Seq<char>, Option<Seq<char>>, Seq<char>)>) -> Seq<
    Part,
> {
    Seq::new(
        members.len(),
        |i: int| Part::text(members[i].0, member_text(members[i])),
    )
}

/// The fields of a request as a form carries them, one for each member of
/// the JSON object: its name, and its text if it is a string, else its JSON
/// text.
pub fn fields_of(members: Vec<JsonMember>) -> (fields: Vec<(String, String)>)
    ensures
        text_parts(fields@) == member_parts(members@.map_values(|m: JsonMember| m@)),
        fields@.len() == members@.len(),
        forall|i: int|
            0 <= i < members@.len() ==> (#[trigger] fields@[i]).0@ == members@[i].name@
                && fields@[i].1@ == member_text(members@[i]@),
{
    let mut fields: Vec<(String, String)> = Vec::new();
    let ghost all = members@;
    for member in iter: members
        invariant
            iter.seq() == all,
            fields@.len() == iter.index(),
            forall|i: int|
                0 <= i < iter.index() ==> (#[trigger] fields@[i]).0@ == all[i].name@
                    && fields@[i].1@ == member_text(all[i]@),
    {
        let JsonMember { name, string, json } = member;
        let text = match string {
            Some(text) => text,
            None => json,
        };
        fields.push((name, text));
    }
    proof {
        assert(text_parts(fields@) =~= member_parts(all.map_values(|m: JsonMember| m@)));
    }
    fields
}

/// The fields of a request as a form carries them, given the JSON value that
/// the request serialises to: a member of the JSON object that is a string
/// goes in as that string, every other member as its JSON text. A JSON value
/// that is no object has no fields.
pub fn json_fields(json: serde_json::Value) -> (fields: Vec<(String, String)>)
    ensures
        text_parts(fields@) == member_parts(json_object(json)),
{
    fields_of(json_members(json))
}

/// Puts the fields of a request, given as the JSON value that it serialises
/// to, into the form as text parts, behind the parts that the form holds.
pub fn add_fields_to_form(form: &mut Form<'static>, json: serde_json::Value)
    ensures
        form_parts(*final(form)) == form_parts(*old(form)) + member_parts(json_object(json)),
{
    let fields = json_fields(json);
    add_text_fields(form, fields);
}

/// Unique identifier for the target group or username of the target supergroup or channel (in the format @channelusername)
#[derive(Debug, Clone)]
pub enum ChatId<'a> {
    /// Unique identifier for the target group
    Id(i64),
    /// Username of the target supergroup or channel (in the format @channelusername)
    Username(&'a str),
}

impl<'a> From<i64> for ChatId<'a> {
    fn from(x: i64) -> (id: Self) {
        ChatId::Id(x)
    }
}

impl<'a> FromSpecImpl<i64> for ChatId<'a> {
    open spec fn obeys_from_spec() -> bool {
        true
    }

    open spec fn from_spec(x: i64) -> Self {
        ChatId::Id(x)
    }
}

impl<'a> From<&'a str> for ChatId<'a> {
    fn from(x: &'a str) -> (id: Self) {
        ChatId::Username(x)
    }
}

impl<'a> FromSpecImpl<&'a str> for ChatId<'a> {
    open spec fn obeys_from_spec() -> bool {
        true
    }

    open spec fn from_spec(x: &'a str) -> Self {
        ChatId::Username(x)
    }
}

/// Represents a photo to be sent.
#[derive(Debug, Clone)]
pub struct InputMediaPhoto<'a> {
    /// File to send
    pub media: FileKind<'a>,
    /// Caption of the photo to be sent, 0-1024 characters
    pub caption: Option<&'a str>,
    /// Send `ParseMode::Markdown` or `ParseMode::Html`,
    /// if you want Telegram apps to show
    /// [bold, italic, fixed-width text or inline URLs](https://core.telegram.org/bots/api#formatting-options) in the media caption.
    pub parse_mode: Option<ParseMode>,
}

/// Represents a video to be sent.
#[derive(Debug, Clone)]
pub struct InputMediaVideo<'a> {
    /// File to send
    pub media: FileKind<'a>,
    /// Caption of the photo to be sent, 0-1024 characters
    pub caption: Option<&'a str>,
    /// Send `ParseMode::Markdown` or `ParseMode::Html`,
    /// if you want Telegram apps to show
    /// [bold, italic, fixed-width text or inline URLs](https://core.telegram.org/bots/api#formatting-options) in the media caption.
    pub parse_mode: Option<ParseMode>,
    /// Duration of sent video in seconds
    pub duration: Option<i64>,
    /// Video width
    pub width: Option<i64>,
    /// Video height
    pub height: Option<i64>,
    /// Pass True, if the uploaded video is suitable for streaming.
    pub supports_streaming: bool,
}

/// Represents an animation file (GIF or H.264/MPEG-4 AVC video without sound) to be sent.
#[derive(Debug, Clone)]
pub struct InputMediaAnimation<'a> {
    /// File to send
    pub media: FileKind<'a>,
    /// Caption of the animation to be sent, 0-1024 characters
    pub caption: Option<&'a str>,
    /// Send `ParseMode::Markdown` or `ParseMode::Html`,
    /// if you want Telegram apps to show
    /// [bold, italic, fixed-width text or inline URLs](https://core.telegram.org/bots/api#formatting-options) in the media caption.
    pub parse_mode: Option<ParseMode>,
    /// Animation duration
    pub duration: Option<i64>,
    /// Animation width
    pub width: Option<i64>,
    /// Animation height
    pub height: Option<i64>,
}

/// Represents a general file to be sent.
#[derive(Debug, Clone)]
pub struct InputMediaDocument<'a> {
    /// File to send
    pub media: FileKind<'a>,
    /// Caption of the document to be sent, 0-1024 characters
    pub caption: Option<&'a str>,
    /// Send `ParseMode::Markdown` or `ParseMode::Html`,
    /// if you want Telegram apps to show
    /// [bold, italic, fixed-width text or inline URLs](https://core.telegram.org/bots/api#formatting-options) in the media caption.
    pub parse_mode: Option<ParseMode>,
}

/// Represents an audio file to be treated as music to be sent.
#[derive(Debug, Clone)]
pub struct InputMediaAudio<'a> {
    /// File to send
    pub media: FileKind<'a>,
    /// Thumbnail of the file sent; can be ignored if thumbnail generation for the file is supported server-side.
    /// The thumbnail should be in JPEG format and less than 200 kB in size. A thumbnail's width and height should not exceed 320
    pub thumb: Option<Vec<u8>>,
    /// Caption of the audio to be sent, 0-1024 characters
    pub caption: Option<&'a str>,
    /// Send `ParseMode::Markdown` or `ParseMode::Html`,
    /// if you want Telegram apps to show
    /// [bold, italic, fixed-width text or inline URLs](https://core.telegram.org/bots/api#formatting-options) in the media caption.
    pub parse_mode: Option<ParseMode>,
    /// Duration of the audio in seconds
    pub duration: Option<i64>,
    /// Performer of the audio
    pub performer: Option<&'a str>,
    /// Title of the audio
    pub title: Option<&'a str>,
}

/// InputMedia
#[derive(Debug, Clone)]
pub enum InputMedia<'a> {
    Video(InputMediaVideo<'a>),
    Photo(InputMediaPhoto<'a>),
    Animation(InputMediaAnimation<'a>),
    Document(InputMediaDocument<'a>),
    Audio(InputMediaAudio<'a>),
}

/// Additional interface options
#[derive(Debug, Clone)]
pub enum ReplyMarkup<'a> {
    InlineKeyboard(InlineKeyboard<'a>),
    ReplyKeyboardMarkup(ReplyKeyboardMarkup<'a>),
    ReplyKeyboardRemove(ReplyKeyboardRemove),
    ForceReply(ForceReply),
}

/// This object represents an [inline keyboard](https://core.telegram.org/bots#inline-keyboards-and-on-the-fly-updating)
/// that appears right next to the message it belongs to
#[derive(Debug, Clone)]
pub struct InlineKeyboard<'a> {
    /// Array of button rows, each represented by an Array of `InlineKeyboardButton` objects
    pub inline_keyboard: &'a [Vec<InlineKeyboardButton<'a>>],
}

/// This object represents a custom keyboard with reply options.
#[derive(Debug, Clone)]
pub struct ReplyKeyboardMarkup<'a> {
    /// Array of button rows, each represented by an Array of `KeyboardButton` objects
    pub keyboard: &'a [Vec<KeyboardButton<'a>>],
    /// Requests clients to resize the keyboard vertically for optimal fit
    /// (e.g., make the keyboard smaller if there are just two rows of buttons).
    /// Defaults to false, in which case the custom keyboard is always of the same height as the app's standard keyboard
    pub resize_keyboard: bool,
    /// Requests clients to hide the keyboard as soon as it's been used.
    /// The keyboard will still be available, but clients will automatically display the usual
    /// letter-keyboard in the chat - the user can press a special button in the input field to
    /// see the custom keyboard again. Defaults to false
    pub one_time_keyboard: bool,
    /// Use this parameter if you want to show the keyboard to specific users only.
    /// Targets: 1) users that are @mentioned in the text of the Message object; 2)
    /// if the bot's message is a reply (has `reply_to_message_id`), sender of the original message.
    /// Example: A user requests to change the bot's language, bot replies to the request with a
    /// keyboard to select the new language. Other users in the group don't see the keyboard
    pub selective: bool,
}

/// Upon receiving a message with this object, Telegram clients will remove the current custom keyboard
/// and display the default letter-keyboard. By default, custom keyboards are displayed until a
/// new keyboard is sent by a bot. An exception is made for one-time keyboards that are hidden
/// immediately after the user presses a button (see `ReplyKeyboardMarkup`)
#[derive(Debug, Clone)]
pub struct ReplyKeyboardRemove {
    /// Requests clients to remove the custom keyboard
    /// (user will not be able to summon this keyboard; if you want to hide the keyboard from sight but keep it accessible,
    /// use `one_time_keyboard` in `ReplyKeyboardMarkup`)
    pub remove_keyboard: bool,
    /// Use this parameter if you want to remove the keyboard for specific users only.
    /// Targets: 1) users that are @mentioned in the text of the Message object; 2) if the bot's
    /// message is a reply (has `reply_to_message_id`), sender of the original message.
    ///
    /// Example: A user votes in a poll, bot returns confirmation message in reply
    /// to the vote and removes the keyboard for that user, while still showing the keyboard
    /// with poll options to users who haven't voted yet
    pub selective: bool,
}

/// Upon receiving a message with this object, Telegram clients will display a reply interface
/// to the user (act as if the user has selected the bot's message and tapped 'Reply').
/// This can be extremely useful if you want to create user-friendly step-by-step interfaces
/// without having to sacrifice [privacy mode](https://core.telegram.org/bots#privacy-mode).
#[derive(Debug, Clone)]
pub struct ForceReply {
    /// Shows reply interface to the user, as if they manually selected the bot's message and tapped 'Reply'
    pub force_reply: bool,
    /// Use this parameter if you want to force reply from specific users only.
    /// Targets: 1) users that are @mentioned in the text of the Message object; 2)
    /// if the bot's message is a reply (has `reply_to_message_id`), sender of the original message
    pub selective: bool,
}

/// InlineKeyboardButton
#[derive(Debug, Clone)]
pub enum InlineKeyboardButton<'a> {
    Url {
        /// Label text on the button
        text: &'a str,
        /// HTTP or tg:// url to be opened when button is pressed
        url: &'a str,
    },
    CallbackData {
        /// Label text on the button
        text: &'a str,
        /// Data to be sent in a [callback query](https://core.telegram.org/bots/api#callbackquery)
        /// to the bot when button is pressed, 1-64 bytes
        callback_data: &'a str,
    },
}

/// This object represents one button of the reply keyboard
#[derive(Debug, Clone)]
pub enum KeyboardButton<'a> {
    /// Text of the button. It will be sent as a message when the button is pressed
    Text(&'a str),
}

/// ParseMode
#[derive(Debug, Clone, Copy)]
pub enum ParseMode {
    Html,
    Markdown,
}

/// MessageOrInlineMessageId
#[derive(Debug, Clone)]
pub enum MessageOrInlineMessageId<'a> {
    Inline {
        inline_message_id: &'a str,
    },
    Chat {
        chat_id: ChatId<'a>,
        message_id: i64,
    },
}

impl<'a> InputMediaPhoto<'a> {
    /// A request with the values given and every option left out.
    pub fn new(media: FileKind<'a>) -> (request: Self)
        ensures
            request == (InputMediaPhoto {
                media,
                caption: None,
                parse_mode: None,
            }),
    {
        InputMediaPhoto {
            media,
            caption: None,
            parse_mode: None,
        }
    }
}

impl<'a> InputMediaVideo<'a> {
    /// A request with the values given and every option left out.
    pub fn new(media: FileKind<'a>) -> (request: Self)
        ensures
            request == (InputMediaVideo {
                media,
                caption: None,
                parse_mode: None,
                duration: None,
                width: None,
                height: None,
                supports_streaming: false,
            }),
    {
        InputMediaVideo {
            media,
            caption: None,
            parse_mode: None,
            duration: None,
            width: None,
            height: None,
            supports_streaming: false,
        }
    }
}

impl<'a> InputMediaAnimation<'a> {
    /// A request with the values given and every option left out.
    pub fn new(media: FileKind<'a>) -> (request: Self)
        ensures
            request == (InputMediaAnimation {
                media,
                caption: None,
                parse_mode: None,
                duration: None,
                width: None,
                height: None,
            }),
    {
        InputMediaAnimation {
            media,
            caption: None,
            parse_mode: None,
            duration: None,
            width: None,
            height: None,
        }
    }
}

impl<'a> InputMediaDocument<'a> {
    /// A request with the values given and every option left out.
    pub fn new(media: FileKind<'a>) -> (request: Self)
        ensures
            request == (InputMediaDocument {
                media,
                caption: None,
                parse_mode: None,
            }),
    {
        InputMediaDocument {
            media,
            caption: None,
            parse_mode: None,
        }
    }
}

impl<'a> InputMediaAudio<'a> {
    /// A request with the values given and every option left out.
    pub fn new(media: FileKind<'a>) -> (request: Self)
        ensures
            request == (InputMediaAudio {
                media,
                thumb: None,
                caption: None,
                parse_mode: None,
                duration: None,
                performer: None,
                title: None,
            }),
    {
        InputMediaAudio {
            media,
            thumb: None,
            caption: None,
            parse_mode: None,
            duration: None,
            performer: None,
            title: None,
        }
    }
}

impl<'a> InputMedia<'a> {
    /// True when the medium is a file that is uploaded with the request.
    pub open spec fn spec_contains_input_file(&self) -> bool {
        self.file().spec_is_input_file()
    }

    /// The file of the medium.
    pub open spec fn file(self) -> FileKind<'a> {
        match self {
            InputMedia::Photo(x) => x.media,
            InputMedia::Video(x) => x.media,
            InputMedia::Animation(x) => x.media,
            InputMedia::Document(x) => x.media,
            InputMedia::Audio(x) => x.media,
        }
    }

    /// Takes the file out of the medium.
    pub fn get_file(self) -> (file: FileKind<'a>)
        ensures
            file == self.file(),
    {
        match self {
            InputMedia::Photo(x) => x.media,
            InputMedia::Video(x) => x.media,
            InputMedia::Animation(x) => x.media,
            InputMedia::Document(x) => x.media,
            InputMedia::Audio(x) => x.media,
        }
    }

    /// Tells whether the medium is a file that is uploaded with the request.
    #[verifier::when_used_as_spec(spec_contains_input_file)]
    pub fn contains_input_file(&self) -> (upload: bool)
        ensures
            upload == self.spec_contains_input_file(),
    {
        match &self {
            InputMedia::Video(x) => x.media.is_input_file(),
            InputMedia::Photo(x) => x.media.is_input_file(),
            InputMedia::Animation(x) => x.media.is_input_file(),
            InputMedia::Document(x) => x.media.is_input_file(),
            InputMedia::Audio(x) => x.media.is_input_file(),
        }
    }
}

} // verus!
