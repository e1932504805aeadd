use crate::requests::{ChatId, Request};
use vstd::prelude::*;
use vstd::std_specs::convert::IntoSpec;

verus! {

/// Use this struct to set a new group sticker set for a supergroup.
/// The bot must be an administrator in the chat for this to work and must have the
/// appropriate admin rights. Use the field `can_set_sticker_set optionally` returned in
/// getChat requests to check if the bot can use this method. Returns `True` on success.
#[derive(Debug, Clone)]
pub struct SetChatStickerSet<'a> {
    /// Unique identifier for the target group or username of the target supergroup or channel
    pub chat_id: ChatId<'a>,
    /// Name of the sticker set to be set as the group sticker set
    pub sticker_set_name: &'a str,
}

impl<'a> Request for SetChatStickerSet<'a> {
    open spec fn method_name(&self) -> Seq<char> {
        "setChatStickerSet"@
    }

    fn method(&self) -> (name: &'static str) {
        "setChatStickerSet"
    }
}

impl<'a> SetChatStickerSet<'a> {
    /// A request with the values given and every option left out.
    ///
    /// A chat is named by whatever converts into a `ChatId`: the request holds
    /// what the conversion gives.
    pub fn new<I: Into<ChatId<'a>>>(chat_id: I, sticker_set_name: &'a str) -> (request: Self)
        ensures
            call_ensures(<I as Into<ChatId<'a>>>::into, (chat_id,), request.chat_id),
            I::obeys_into_spec() ==> request.chat_id == chat_id.into_spec(),
            request.sticker_set_name == sticker_set_name,
    {
        SetChatStickerSet {
            chat_id: chat_id.into(),
            sticker_set_name,
        }
    }
}

} // verus!
