use crate::requests::{ChatId, Request};
use vstd::prelude::*;
use vstd::std_specs::convert::IntoSpec;

verus! {

/// Use this struct when you need to tell the user that something is happening on the bot's side.
/// The status is set for 5 seconds or less (when a message arrives from your bot, Telegram clients clear its typing status).
/// Returns `True` on success.
#[derive(Debug, Clone)]
pub struct SendChatAction<'a> {
    /// Unique identifier for the target chat
    pub chat_id: ChatId<'a>,
    /// Type of action to broadcast
    pub action: ChatAction,
}

/// ChatAction
#[derive(Debug, Clone)]
pub enum ChatAction {
    Typing,
    UploadPhoto,
    RecordVideo,
    UploadVideo,
    RecordAudio,
    UploadAudio,
    UploadDocument,
    FindLocation,
    RecordVideoNote,
    UploadVideoNote,
}

impl<'a> Request for SendChatAction<'a> {
    open spec fn method_name(&self) -> Seq<char> {
        "sendChatAction"@
    }

    fn method(&self) -> (name: &'static str) {
        "sendChatAction"
    }
}

impl<'a> SendChatAction<'a> {
    /// A request with the values given and every option left out.
    ///
    /// A chat is named by whatever converts into a `ChatId`: the request holds
    /// what the conversion gives.
    pub fn new<I: Into<ChatId<'a>>>(chat_id: I, action: ChatAction) -> (request: Self)
        ensures
            call_ensures(<I as Into<ChatId<'a>>>::into, (chat_id,), request.chat_id),
            I::obeys_into_spec() ==> request.chat_id == chat_id.into_spec(),
            request.action == action,
    {
        SendChatAction {
            chat_id: chat_id.into(),
            action,
        }
    }
}

} // verus!
