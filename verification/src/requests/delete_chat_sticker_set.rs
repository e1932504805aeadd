use crate::requests::{ChatId, Request};
use vstd::prelude::*;
use vstd::std_specs::convert::IntoSpec;

verus! {

/// Use this struct to delete a group sticker set from a supergroup.
/// The bot must be an administrator in the chat for this to work and must have the appropriate
/// admin rights. Use the field can_set_sticker_set optionally returned in
/// getChat requests to check if the bot can use this method. Returns `True` on success.
#[derive(Debug, Clone)]
pub struct DeleteChatStickerSet<'a> {
    /// Unique identifier for the target group or username of the target supergroup or channel
    pub chat_id: ChatId<'a>,
}

impl<'a> Request for DeleteChatStickerSet<'a> {
    open spec fn method_name(&self) -> Seq<char> {
        "deleteChatStickerSet"@
    }

    fn method(&self) -> (name: &'static str) {
        "deleteChatStickerSet"
    }
}

impl<'a> DeleteChatStickerSet<'a> {
    /// A request with the values given and every option left out.
    ///
    /// A chat is named by whatever converts into a `ChatId`: the request holds
    /// what the conversion gives.
    pub fn new<I: Into<ChatId<'a>>>(chat_id: I) -> (request: Self)
        ensures
            call_ensures(<I as Into<ChatId<'a>>>::into, (chat_id,), request.chat_id),
            I::obeys_into_spec() ==> request.chat_id == chat_id.into_spec(),
    {
        DeleteChatStickerSet {
            chat_id: chat_id.into(),
        }
    }
}

} // verus!
