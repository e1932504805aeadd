use crate::requests::{
    add_fields_to_form,
    add_file_to_form,
    form_parts,
    json_object,
    member_parts,
    new_form,
    ChatId,
    FileKind,
    InputMediaPhoto,
    InputMediaVideo,
    Part,
    Request,
};
use hyper_multipart_rfc7578::client::multipart::Form;
use vstd::prelude::*;
use vstd::std_specs::convert::IntoSpec;

verus! {

/// InputMediaPhotoOrVideo
#[derive(Debug, Clone)]
pub enum InputMediaPhotoOrVideo<'a> {
    Video(InputMediaVideo<'a>),
    Photo(InputMediaPhoto<'a>),
}

/// Use this struct to send a group of photos or videos as an album.
/// On success, an array of the sent `Messages` is returned.
#[derive(Debug, Clone)]
pub struct SendMediaGroup<'a> {
    /// Identifier for the target chat
    pub chat_id: ChatId<'a>,
    /// Photos and videos to be sent, must include 2-10 items
    pub media: Vec<InputMediaPhotoOrVideo<'a>>,
    /// Sends the message [silently](https://telegram.org/blog/channels-2-0#silent-messages).
    /// Users will receive a notification with no sound.
    pub disable_notification: bool,
    /// If the message is a reply, ID of the original message
    pub reply_to_message_id: Option<i64>,
}

impl<'a> InputMediaPhotoOrVideo<'a> {
    /// True when the medium is a file that is uploaded with the request.
    pub open spec fn spec_contains_input_file(&self) -> bool {
        match self {
            InputMediaPhotoOrVideo::Video(x) => x.media.spec_is_input_file(),
            InputMediaPhotoOrVideo::Photo(x) => x.media.spec_is_input_file(),
        }
    }

    /// The file of the medium.
    pub open spec fn file(self) -> FileKind<'a> {
        match self {
            InputMediaPhotoOrVideo::Photo(x) => x.media,
            InputMediaPhotoOrVideo::Video(x) => x.media,
        }
    }

    /// Tells whether the medium is a file that is uploaded with the request.
    #[verifier::when_used_as_spec(spec_contains_input_file)]
    pub fn contains_input_file(&self) -> (upload: bool)
        ensures
            upload == self.spec_contains_input_file(),
    {
        match &self {
            InputMediaPhotoOrVideo::Video(x) => x.media.is_input_file(),
            InputMediaPhotoOrVideo::Photo(x) => x.media.is_input_file(),
        }
    }

    /// Takes the file out of the medium.
    pub fn get_file(self) -> (file: FileKind<'a>)
        ensures
            file == self.file(),
    {
        match self {
            InputMediaPhotoOrVideo::Photo(x) => x.media,
            InputMediaPhotoOrVideo::Video(x) => x.media,
        }
    }
}

impl<'a> Request for SendMediaGroup<'a> {
    open spec fn method_name(&self) -> Seq<char> {
        "sendMediaGroup"@
    }

    fn method(&self) -> (name: &'static str) {
        "sendMediaGroup"
    }
}

impl<'a> SendMediaGroup<'a> {
    /// A request with the values given and every option left out.
    ///
    /// A chat is named by whatever converts into a `ChatId`: the request holds
    /// what the conversion gives.
    pub fn new<I: Into<ChatId<'a>>>(
        chat_id: I,
        photo_or_video: Vec<InputMediaPhotoOrVideo<'a>>,
    ) -> (request: Self)
        ensures
            call_ensures(<I as Into<ChatId<'a>>>::into, (chat_id,), request.chat_id),
            I::obeys_into_spec() ==> request.chat_id == chat_id.into_spec(),
            request.media == photo_or_video,
            !request.disable_notification,
            request.reply_to_message_id is None,
    {
        SendMediaGroup {
            chat_id: chat_id.into(),
            media: photo_or_video,
            disable_notification: false,
            reply_to_message_id: None,
        }
    }

    /// A request that answers the message `reply_to_message_id`, with the
    /// values given and every other option left out.
    ///
    /// A chat is named by whatever converts into a `ChatId`: the request holds
    /// what the conversion gives.
    pub fn new_reply<I: Into<ChatId<'a>>>(
        chat_id: I,
        photo_or_video: Vec<InputMediaPhotoOrVideo<'a>>,
        reply_to_message_id: i64,
    ) -> (request: Self)
        ensures
            call_ensures(<I as Into<ChatId<'a>>>::into, (chat_id,), request.chat_id),
            I::obeys_into_spec() ==> request.chat_id == chat_id.into_spec(),
            request.media == photo_or_video,
            !request.disable_notification,
            request.reply_to_message_id == Some(reply_to_message_id),
    {
        SendMediaGroup {
            chat_id: chat_id.into(),
            media: photo_or_video,
            disable_notification: false,
            reply_to_message_id: Some(reply_to_message_id),
        }
    }

    /// True when one of the media is a file that is uploaded with the
    /// request, which then goes out as a multipart form; otherwise it goes
    /// out as JSON.
    pub open spec fn has_upload(&self) -> bool {
        exists|i: int| 0 <= i < self.media@.len() && (#[trigger] self.media@[i]).spec_contains_input_file()
    }

    /// The file parts of the first `count` media, in their order, each file
    /// under its own name and with its thumbnail.
    pub open spec fn parts_of(media: Seq<InputMediaPhotoOrVideo<'a>>, count: nat) -> Seq<Part>
        decreases count,
    {
        if count == 0 {
            Seq::empty()
        } else {
            Self::parts_of(media, (count - 1) as nat) + media[count - 1].file().parts(None)
        }
    }

    /// The file parts of the multipart form: those of all media.
    pub open spec fn upload_parts(self) -> Seq<Part> {
        Self::parts_of(self.media@, self.media@.len())
    }

    /// Tells whether the request uploads a file and so goes out as a
    /// multipart form.
    pub fn uploads(&self) -> (multipart: bool)
        ensures
            multipart == self.has_upload(),
    {
        let mut i: usize = 0;
        while i < self.media.len()
            invariant
                i <= self.media.len(),
                forall|j: int| 0 <= j < i ==> !(#[trigger] self.media@[j]).spec_contains_input_file(),
            decreases self.media.len() - i,
        {
            if self.media[i].contains_input_file() {
                return true;
            }
            i = i + 1;
        }
        false
    }

    /// The multipart form of the request: the fields of `json`, the JSON
    /// value that the request serialises to, as text parts, and behind them
    /// the files of the media in their order.
    pub fn multipart_form(self, json: serde_json::Value) -> (form: Form<'static>)
        ensures
            form_parts(form) == member_parts(json_object(json)) + self.upload_parts(),
    {
        let mut form = new_form();
        add_fields_to_form(&mut form, json);
        let ghost fields = form_parts(form);
        let ghost all = self.media@;
        for media in iter: self.media
            invariant
                iter.seq() == all,
                form_parts(form) == fields + Self::parts_of(all, iter.index() as nat),
        {
            add_file_to_form(&mut form, media.get_file(), None);
        }
        form
    }
}

} // verus!
