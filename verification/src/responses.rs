use crate::error::Error;
use vstd::prelude::*;

verus! {

/// The envelope in which the API wraps every answer.
#[derive(Debug, Clone)]
pub struct TgResponse<T> {
    /// If  equals true, the request was successful and the result
    /// of the query can be found in the 'result' field
    pub ok: bool,
    /// Response object
    pub result: Option<T>,
    /// Human-readable description of the result
    pub description: Option<String>,
    /// Http error code
    pub error_code: Option<i32>,
    /// This field can help to automatically handle the error
    pub parameters: Option<ResponseParameters>,
}

/// Contains information about why a request was unsuccessful.
#[derive(Debug, Clone)]
pub struct ResponseParameters {
    /// The group has been migrated to a supergroup with the specified identifier
    pub migrate_to_chat_id: Option<i64>,
    /// In case of exceeding flood control, the number of seconds left to wait
    /// before the request can be repeated
    pub retry_after: Option<i64>,
}

impl<T> TgResponse<T> {
    /// True for the error that the API's answer stands for: the code it
    /// sent, or 0 where it sent none; the description it sent, or the words
    /// "Unknown error"; and the parameters as they came.
    pub open spec fn reports(self, error: Error) -> bool {
        match error {
            Error::Api { error_code, description, parameters } => {
                &&& error_code == match self.error_code {
                    Some(code) => code,
                    None => 0,
                }
                &&& description@ == match self.description {
                    Some(text) => text@,
                    None => "Unknown error"@,
                }
                &&& parameters == self.parameters
            },
            _ => false,
        }
    }

    /// An answer is a success when it says so and carries a result.
    pub open spec fn is_success(self) -> bool {
        self.ok && self.result is Some
    }

    /// Turns an answer that is known to be a failure, as the answer to a
    /// request that ended with an error status is, into the error that it
    /// reports.
    pub fn into_error(self) -> (error: Error)
        ensures
            self.reports(error),
    {
        let error_code = match self.error_code {
            Some(code) => code,
            None => 0,
        };
        let description = match self.description {
            Some(text) => text,
            None => "Unknown error".to_owned(),
        };
        Error::Api { error_code, description, parameters: self.parameters }
    }

    /// Turns the API's answer into the result of the request: the object it
    /// carries when it is a success, the error that it reports otherwise.
    pub fn into_result(self) -> (result: Result<T, Error>)
        ensures
            match result {
                Ok(value) => self.is_success() && self.result == Some(value),
                Err(error) => !self.is_success() && self.reports(error),
            },
    {
        if self.ok {
            match self.result {
                Some(value) => Ok(value),
                None => Err(
                    TgResponse::<T> {
                        ok: self.ok,
                        result: None,
                        description: self.description,
                        error_code: self.error_code,
                        parameters: self.parameters,
                    }.into_error(),
                ),
            }
        } else {
            Err(self.into_error())
        }
    }
}

///This object represents one special entity in a text message. For example, hashtags, usernames, URLs, etc
#[derive(Debug, Clone)]
pub struct MessageEntity {
    /// Type of the entity. Can be mention (@username), hashtag, cashtag,
    /// bot_command, url, email, phone_number, bold (bold text), italic (italic text),
    /// code (monowidth string), pre (monowidth block), text_link (for clickable text URLs),
    /// text_mention ([for users without usernames](https://telegram.org/blog/edit#new-mentions))
    pub typ: String,
    /// Offset in UTF-16 code units to the start of the entity
    pub offset: i64,
    /// Length of the entity in UTF-16 code units
    pub length: i64,
    /// For "text_link" only, url that will be opened after user taps on the text
    pub url: Option<String>,
    /// For "text_mention" only, the mentioned user
    pub user: Option<User>,
}

/// What an entity marks in the text of its message.
#[derive(Clone, Debug)]
pub enum MessageEntityValue<'a> {
    Mention(String),
    Hashtag(String),
    Cashtag(String),
    BotCommand(String),
    Url(String),
    Email(String),
    PhoneNumber(String),
    Bold(String),
    Italic(String),
    Code(String),
    Pre(String),
    TextLink { text: String, link: &'a String },
    TextMention { mention: String, user: &'a User },
}

/// What an entity marks in the text of its message, as plain text.
pub enum EntityMark {
    Mention(Seq<char>),
    Hashtag(Seq<char>),
    Cashtag(Seq<char>),
    BotCommand(Seq<char>),
    Url(Seq<char>),
    Email(Seq<char>),
    PhoneNumber(Seq<char>),
    Bold(Seq<char>),
    Italic(Seq<char>),
    Code(Seq<char>),
    Pre(Seq<char>),
    TextLink { text: Seq<char>, link: Seq<char> },
    TextMention { mention: Seq<char>, user: User },
}

impl<'a> View for MessageEntityValue<'a> {
    type V = EntityMark;

    open spec fn view(&self) -> EntityMark {
        match self {
            MessageEntityValue::Mention(s) => EntityMark::Mention(s@),
            MessageEntityValue::Hashtag(s) => EntityMark::Hashtag(s@),
            MessageEntityValue::Cashtag(s) => EntityMark::Cashtag(s@),
            MessageEntityValue::BotCommand(s) => EntityMark::BotCommand(s@),
            MessageEntityValue::Url(s) => EntityMark::Url(s@),
            MessageEntityValue::Email(s) => EntityMark::Email(s@),
            MessageEntityValue::PhoneNumber(s) => EntityMark::PhoneNumber(s@),
            MessageEntityValue::Bold(s) => EntityMark::Bold(s@),
            MessageEntityValue::Italic(s) => EntityMark::Italic(s@),
            MessageEntityValue::Code(s) => EntityMark::Code(s@),
            MessageEntityValue::Pre(s) => EntityMark::Pre(s@),
            MessageEntityValue::TextLink { text, link } => EntityMark::TextLink {
                text: text@,
                link: link@,
            },
            MessageEntityValue::TextMention { mention, user } => EntityMark::TextMention {
                mention: mention@,
                user: **user,
            },
        }
    }
}

/// The UTF-16 code units of one character: the character's number where it
/// is below 0x10000, else the pair of a high and a low surrogate.
pub open spec fn utf16_units_of(c: char) -> Seq<u16> {
    let code = c as u32;
    if code < 0x10000 {
        seq![code as u16]
    } else {
        seq![
            (0xD800 + (code - 0x10000) / 0x400) as u16,
            (0xDC00 + (code - 0x10000) % 0x400) as u16,
        ]
    }
}

/// The UTF-16 code units of a text, in order and without a byte-order mark.
pub open spec fn utf16_units(text: Seq<char>) -> Seq<u16>
    decreases text.len(),
{
    if text.len() == 0 {
        Seq::empty()
    } else {
        utf16_units(text.drop_last()) + utf16_units_of(text.last())
    }
}

/// True for a code unit that is one half of a surrogate pair.
pub open spec fn is_surrogate(unit: u16) -> bool {
    0xD800 <= unit <= 0xDFFF
}

/// True for a code unit that opens a surrogate pair.
pub open spec fn is_high_surrogate(unit: u16) -> bool {
    0xD800 <= unit <= 0xDBFF
}

/// True for a code unit that closes a surrogate pair.
pub open spec fn is_low_surrogate(unit: u16) -> bool {
    0xDC00 <= unit <= 0xDFFF
}

/// The text that a run of UTF-16 code units decodes to, with the replacement
/// character U+FFFD in place of every code unit that is no part of a valid
/// pair: a code unit that is no surrogate is its character, a high surrogate
/// with the low surrogate behind it is the character of the pair, and every
/// other surrogate is replaced by itself alone.
pub open spec fn utf16_lossy_text(units: Seq<u16>) -> Seq<char>
    decreases units.len(),
{
    if units.len() == 0 {
        Seq::empty()
    } else if !is_surrogate(units[0]) {
        seq![(units[0] as u32) as char] + utf16_lossy_text(units.drop_first())
    } else if is_high_surrogate(units[0]) && units.len() > 1 && is_low_surrogate(units[1]) {
        seq![
            ((0x10000 + (units[0] - 0xD800) * 0x400 + (units[1] - 0xDC00)) as u32) as char,
        ] + utf16_lossy_text(units.skip(2))
    } else {
        seq!['\u{FFFD}'] + utf16_lossy_text(units.drop_first())
    }
}

/// `str::encode_utf16`, collected: the code units of the text in UTF-16.
#[verifier::external_body]
fn encode_utf16(text: &str) -> (units: Vec<u16>)
    ensures
        units@ == utf16_units(text@),
{
    text.encode_utf16().collect()
}

/// `String::from_utf16_lossy`: the text that the code units decode to, with
/// U+FFFD where they do not decode.
#[verifier::external_body]
fn decode_utf16_lossy(units: &Vec<u16>) -> (text: String)
    ensures
        text@ == utf16_lossy_text(units@),
{
    String::from_utf16_lossy(units)
}

/// Where a capture starts in a text of `len` code units: at `offset`, or at
/// the end of the text for an offset that is negative or lies behind it.
pub open spec fn capture_start(len: nat, offset: i64) -> nat {
    if offset < 0 || offset > len {
        len
    } else {
        offset as nat
    }
}

/// Where a capture ends: `length` code units behind its start, or at the end
/// of the text for a length that is negative or reaches behind it.
pub open spec fn capture_end(len: nat, offset: i64, length: i64) -> nat {
    let start = capture_start(len, offset);
    if length < 0 || start + length > len {
        len
    } else {
        (start + length) as nat
    }
}

/// The code units that an entity at `offset` of `length` marks.
pub open spec fn captured(units: Seq<u16>, offset: i64, length: i64) -> Seq<u16> {
    units.subrange(
        capture_start(units.len(), offset) as int,
        capture_end(units.len(), offset, length) as int,
    )
}

/// Cuts the code units that an entity at `offset` of `length` marks out of
/// the code units of a text.
pub fn capture(units: &Vec<u16>, offset: i64, length: i64) -> (marked: Vec<u16>)
    ensures
        marked@ == captured(units@, offset, length),
{
    let len: usize = units.len();
    let start: usize = if offset < 0 || offset as u64 > len as u64 {
        len
    } else {
        offset as usize
    };
    let end: usize = if length < 0 || length as u64 > (len - start) as u64 {
        len
    } else {
        start + length as usize
    };
    let mut marked: Vec<u16> = Vec::new();
    let mut i: usize = start;
    while i < end
        invariant
            start <= i <= end <= units.len(),
            marked@ == units@.subrange(start as int, i as int),
        decreases end - i,
    {
        marked.push(units[i]);
        proof {
            assert(units@.subrange(start as int, i + 1) =~= units@.subrange(
                start as int,
                i as int,
            ).push(units@[i as int]));
        }
        i = i + 1;
    }
    marked
}

impl MessageEntity {
    /// What this entity makes of the text that it marks: a value of the kind
    /// that its type names, a link or a mention only where the entity
    /// carries the url or the user, and nothing for a type that is not known.
    pub open spec fn marks(&self, marked: Seq<char>) -> Option<EntityMark> {
        let typ = self.typ@;
        if typ == "mention"@ {
            Some(EntityMark::Mention(marked))
        } else if typ == "hashtag"@ {
            Some(EntityMark::Hashtag(marked))
        } else if typ == "cashtag"@ {
            Some(EntityMark::Cashtag(marked))
        } else if typ == "bot_command"@ {
            Some(EntityMark::BotCommand(marked))
        } else if typ == "url"@ {
            Some(EntityMark::Url(marked))
        } else if typ == "email"@ {
            Some(EntityMark::Email(marked))
        } else if typ == "phone_number"@ {
            Some(EntityMark::PhoneNumber(marked))
        } else if typ == "bold"@ {
            Some(EntityMark::Bold(marked))
        } else if typ == "italic"@ {
            Some(EntityMark::Italic(marked))
        } else if typ == "code"@ {
            Some(EntityMark::Code(marked))
        } else if typ == "pre"@ {
            Some(EntityMark::Pre(marked))
        } else if typ == "text_link"@ {
            match self.url {
                Some(link) => Some(EntityMark::TextLink { text: marked, link: link@ }),
                None => None,
            }
        } else if typ == "text_mention"@ {
            match self.user {
                Some(user) => Some(EntityMark::TextMention { mention: marked, user }),
                None => None,
            }
        } else {
            None
        }
    }

    /// True when the type of this entity is `name`.
    fn is_a(&self, name: &str) -> (same: bool)
        ensures
            same == (self.typ@ == name@),
    {
        self.typ == name.to_owned()
    }

    /// Makes the value of this entity out of the text that it marks.
    pub fn value_of<'a>(&'a self, marked: String) -> (value: Option<MessageEntityValue<'a>>)
        ensures
            match value {
                Some(v) => self.marks(marked@) == Some(v@),
                None => self.marks(marked@) is None,
            },
    {
        if self.is_a("mention") {
            Some(MessageEntityValue::Mention(marked))
        } else if self.is_a("hashtag") {
            Some(MessageEntityValue::Hashtag(marked))
        } else if self.is_a("cashtag") {
            Some(MessageEntityValue::Cashtag(marked))
        } else if self.is_a("bot_command") {
            Some(MessageEntityValue::BotCommand(marked))
        } else if self.is_a("url") {
            Some(MessageEntityValue::Url(marked))
        } else if self.is_a("email") {
            Some(MessageEntityValue::Email(marked))
        } else if self.is_a("phone_number") {
            Some(MessageEntityValue::PhoneNumber(marked))
        } else if self.is_a("bold") {
            Some(MessageEntityValue::Bold(marked))
        } else if self.is_a("italic") {
            Some(MessageEntityValue::Italic(marked))
        } else if self.is_a("code") {
            Some(MessageEntityValue::Code(marked))
        } else if self.is_a("pre") {
            Some(MessageEntityValue::Pre(marked))
        } else if self.is_a("text_link") {
            match &self.url {
                Some(link) => Some(MessageEntityValue::TextLink { text: marked, link }),
                None => None,
            }
        } else if self.is_a("text_mention") {
            match &self.user {
                Some(user) => Some(MessageEntityValue::TextMention { mention: marked, user }),
                None => None,
            }
        } else {
            None
        }
    }

    /// Try to extract correct messageEntity from text message.
    ///
    /// The entity marks `length` UTF-16 code units of `text` from `offset`
    /// on, cut off at the end of the text; they are decoded to the text of
    /// the value.
    pub fn extract_value<'a>(&'a self, text: &str) -> (value: Option<MessageEntityValue<'a>>)
        ensures
            ({
                let marked = utf16_lossy_text(
                    captured(utf16_units(text@), self.offset, self.length),
                );
                match value {
                    Some(v) => self.marks(marked) == Some(v@),
                    None => self.marks(marked) is None,
                }
            }),
    {
        let units = encode_utf16(text);
        let marked = capture(&units, self.offset, self.length);
        let decoded = decode_utf16_lossy(&marked);
        self.value_of(decoded)
    }
}

/// This object represents an audio file to be treated as music by the Telegram clients
#[derive(Debug, Clone)]
pub struct Audio {
    /// Unique identifier for this file
    pub file_id: String,
    /// Duration of the audio in seconds as defined by sender
    pub duration: i64,
    /// Performer of the audio as defined by sender or by audio tags
    pub performer: Option<String>,
    /// Title of the audio as defined by sender or by audio tags
    pub title: Option<String>,
    /// MIME type of the file as defined by sender
    pub mime_type: Option<String>,
    /// File size
    pub file_size: Option<i64>,
    /// Thumbnail of the album cover to which the music file belongs
    pub thumb: Option<PhotoSize>,
}

/// This object represents a general file (as opposed to
/// [photos](https://core.telegram.org/bots/api#photosize),
/// [voice messages](https://core.telegram.org/bots/api#voice) and
/// [audio files](https://core.telegram.org/bots/api#audio))
#[derive(Debug, Clone)]
pub struct Document {
    /// Unique file identifier
    pub file_id: String,
    /// Document thumbnail as defined by sender
    pub thumb: Option<PhotoSize>,
    /// Original filename as defined by sender
    pub file_name: Option<String>,
    /// MIME type of the file as defined by sender
    pub mime_type: Option<String>,
    /// File size
    pub file_size: Option<i64>,
}

/// This object represents an animation file (GIF or H.264/MPEG-4 AVC video without sound)
#[derive(Debug, Clone)]
pub struct Animation {
    /// Unique file identifier
    pub file_id: String,
    /// Video width as defined by sender
    pub width: i64,
    /// Video height as defined by sender
    pub height: i64,
    /// Duration of the video in seconds as defined by sender
    pub duration: i64,
    /// Animation thumbnail as defined by sender
    pub thumb: Option<PhotoSize>,
    /// Original animation filename as defined by sender
    pub file_name: Option<String>,
    /// MIME type of the file as defined by sender
    pub mime_type: Option<String>,
    /// File size
    pub file_size: Option<i64>,
}

/// This object represents a game. Use BotFather to create and edit games,
/// their short names will act as unique identifiers
#[derive(Debug, Clone)]
pub struct Game {
    /// Title of the game
    pub title: String,
    /// Description of the game
    pub description: String,
    /// Photo that will be displayed in the game message in chats.
    pub photo: Vec<PhotoSize>,
    /// Brief description of the game or high scores included in the game message.
    /// Can be automatically edited to include current high scores for the game when the bot
    /// calls [set_game_score], or manually edited using
    /// [edit_message_text]. 0-4096 characters
    pub text: Option<String>,
    /// Special entities that appear in text, such as usernames, URLs, bot commands, etc
    pub text_entities: Option<MessageEntity>,
    /// Animation that will be displayed in the game message in chats. Upload via
    /// [BotFather](https://t.me/botfather)
    pub animation: Option<Animation>,
}

/// This object represents one size of a photo or a
/// [file](https://core.telegram.org/bots/api#document) /
/// [sticker](https://core.telegram.org/bots/api#sticker) thumbnail
#[derive(Debug, Clone)]
pub struct PhotoSize {
    /// Unique identifier for this file
    pub file_id: String,
    /// Photo width
    pub width: i64,
    /// Photo height
    pub height: i64,
    /// File size
    pub file_size: Option<i64>,
}

/// This object represents a video file
#[derive(Debug, Clone)]
pub struct Video {
    /// Unique identifier for this file
    pub file_id: String,
    /// Video width as defined by sender
    pub width: i64,
    /// Video height as defined by sender
    pub height: i64,
    /// Duration of the video in seconds as defined by sender
    pub duration: i64,
    /// Video thumbnail
    pub thumb: Option<PhotoSize>,
    /// Mime type of a file as defined by sender
    pub mime_type: Option<String>,
    /// File size
    pub file_size: Option<i64>,
}

/// This object represents a voice note
#[derive(Debug, Clone)]
pub struct Voice {
    /// Unique identifier for this file
    pub file_id: String,
    /// Duration of the audio in seconds as defined by sender
    pub duration: i64,
    /// MIME type of the file as defined by sender
    pub mime_type: Option<String>,
    /// File size
    pub file_size: Option<i64>,
}

/// This object represents a [video message](https://telegram.org/blog/video-messages-and-telescope)
/// (available in Telegram apps as of [v.4.0](https://telegram.org/blog/video-messages-and-telescope)
#[derive(Debug, Clone)]
pub struct VideoNote {
    /// Unique identifier for this file
    pub file_id: String,
    /// Video width and height (diameter of the video message) as defined by sender
    pub length: i64,
    /// Duration of the video in seconds as defined by sender
    pub duration: i64,
    /// Video thumbnail
    pub thumb: Option<PhotoSize>,
    /// File size
    pub file_size: Option<i64>,
}

/// This object represents a phone contact
#[derive(Debug, Clone)]
pub struct Contact {
    /// Contact's phone number
    pub phone_number: String,
    /// Contact's first name
    pub first_name: String,
    /// Contact's last name
    pub last_name: Option<String>,
    /// Contact's user identifier in Telegram
    pub user_d: Option<i64>,
    /// Additional data about the contact in the
    /// form of a [vCard](https://en.wikipedia.org/wiki/VCard)
    pub vcard: Option<String>,
}

#[derive(Debug, Clone)]
pub struct Invoice {
}

#[derive(Debug, Clone)]
pub struct SuccessfulPayment {
}

#[derive(Debug, Clone)]
pub struct PassportData {
}

/// This object represents a file ready to be downloaded. The file can be downloaded via method
/// `download_file`
#[derive(Debug, Clone)]
pub struct File {
    /// Unique identifier for this file
    pub file_id: String,
    /// File size, if known
    pub file_size: Option<i64>,
    /// File path. Pass it to `download_file` method to download it
    pub file_path: Option<String>,
}

/// This object represents a chat photo.
#[derive(Debug, Clone)]
pub struct ChatPhoto {
    /// Unique file identifier of small (160x160) chat photo. This file_id can be used only
    /// for photo download
    pub small_file_id: String,
    /// Unique file identifier of big (640x640) chat photo.
    /// This file_id can be used only for photo download
    pub big_file_id: String,
}

/// This object represents a shipping address
#[derive(Debug, Clone)]
pub struct ShippingAddress {
    /// ISO 3166-1 alpha-2 country code
    pub country_code: String,
    /// State, if applicable
    pub state: String,
    /// City
    pub city: String,
    /// First line for the address
    pub street_line1: String,
    /// Second line for the address
    pub street_line2: String,
    /// Address post code
    pub post_code: String,
}

/// This object represents information about an order
#[derive(Debug, Clone)]
pub struct OrderInfo {
    /// User name
    pub name: Option<String>,
    /// User's phone number
    pub phone_number: Option<String>,
    /// User email
    pub email: Option<String>,
    /// User shipping address
    pub shipping_address: Option<ShippingAddress>,
}

/// This object represents a Telegram user or bot.
#[derive(Debug, Clone)]
pub struct User {
    /// Unique identifier for this user or bot
    pub id: i64,
    /// True, if this user is a bot
    pub is_bot: bool,
    /// User's or bot's first name
    pub first_name: String,
    /// User's or bot's last name
    pub last_name: Option<String>,
    /// User's or bot's username
    pub username: Option<String>,
    /// [IETF language tag](https://en.wikipedia.org/wiki/IETF_language_tag) of the user's language
    pub language_code: Option<String>,
}

} // verus!
