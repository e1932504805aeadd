use crate::requests::{
    add_fields_to_form,
    form_add_file,
    form_parts,
    json_object,
    member_parts,
    new_form,
    ChatId,
    Part,
    Request,
};
use hyper_multipart_rfc7578::client::multipart::Form;
use vstd::prelude::*;
use vstd::std_specs::convert::IntoSpec;

verus! {

/// Use this struct to set a new profile photo for the chat. Photos can't be changed for private chats.
/// The bot must be an administrator in the chat for this to work and must have the appropriate admin rights. Returns True on success.
///
/// Note: In regular groups (non-supergroups), this method will only work if the 'All Members Are Admins' setting is off in the target group.
#[derive(Debug, Clone)]
pub struct SetChatPhoto<'a> {
    /// Unique identifier for the target group or username of the target supergroup or channel
    pub chat_id: ChatId<'a>,
    /// New chat photo content
    pub photo: Vec<u8>,
}

impl<'a> Request for SetChatPhoto<'a> {
    open spec fn method_name(&self) -> Seq<char> {
        "setChatPhoto"@
    }

    fn method(&self) -> (name: &'static str) {
        "setChatPhoto"
    }
}

impl<'a> SetChatPhoto<'a> {
    /// A request with the values given and every option left out.
    ///
    /// A chat is named by whatever converts into a `ChatId`: the request holds
    /// what the conversion gives.
    pub fn new<I: Into<ChatId<'a>>>(chat_id: I, photo: Vec<u8>) -> (request: Self)
        ensures
            call_ensures(<I as Into<ChatId<'a>>>::into, (chat_id,), request.chat_id),
            I::obeys_into_spec() ==> request.chat_id == chat_id.into_spec(),
            request.photo == photo,
    {
        SetChatPhoto {
            chat_id: chat_id.into(),
            photo,
        }
    }

    /// The file part of the multipart form: the photo, under the field name
    /// and the file name `photo`.
    pub open spec fn upload_parts(self) -> Seq<Part> {
        seq![Part::file("photo"@, "photo"@, self.photo@)]
    }

    /// The multipart form of the request, which always uploads: the fields
    /// of `json`, the JSON value that the request serialises to, as text
    /// parts, and behind them the photo.
    pub fn multipart_form(self, json: serde_json::Value) -> (form: Form<'static>)
        ensures
            form_parts(form) == member_parts(json_object(json)) + self.upload_parts(),
    {
        let mut form = new_form();
        add_fields_to_form(&mut form, json);
        form_add_file(&mut form, "photo", self.photo, "photo");
        form
    }
}

} // verus!
