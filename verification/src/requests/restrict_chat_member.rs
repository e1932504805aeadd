use crate::requests::{ChatId, Request};
use vstd::prelude::*;
use vstd::std_specs::convert::IntoSpec;

verus! {

/// Use this struct to restrict a user in a supergroup. The bot must be an administrator in
/// the supergroup for this to work and must have the appropriate admin rights.
/// Pass True for all boolean parameters to lift restrictions from a user. Returns `True` on success
#[derive(Debug, Clone)]
pub struct RestrictChatMember<'a> {
    /// Unique identifier for the target group or username of the target supergroup or channel
    pub chat_id: ChatId<'a>,
    /// Unique identifier of the target user
    pub user_id: i64,
    /// Date when restrictions will be lifted for the user, unix time. If user is restricted for more than
    /// 366 days or less than 30 seconds from the current time, they are considered to be restricted forever
    pub until_date: Option<i64>,
    /// Pass True, if the user can send text messages, contacts, locations and venues
    pub can_send_messages: Option<bool>,
    /// Pass True, if the user can send audios, documents, photos, videos, video notes and voice notes, implies can_send_messages
    pub can_send_media_messages: Option<bool>,
    /// Pass True, if the user can send animations, games, stickers and use inline bots, implies can_send_media_messages
    pub can_send_other_messages: Option<bool>,
    /// Pass True, if the user may add web page previews to their messages, implies can_send_media_messages
    pub can_add_web_page_previews: Option<bool>,
}

impl<'a> Request for RestrictChatMember<'a> {
    open spec fn method_name(&self) -> Seq<char> {
        "restrictChatMember"@
    }

    fn method(&self) -> (name: &'static str) {
        "restrictChatMember"
    }
}

impl<'a> RestrictChatMember<'a> {
    /// A request with the values given and every option left out.
    ///
    /// A chat is named by whatever converts into a `ChatId`: the request holds
    /// what the conversion gives.
    pub fn new<I: Into<ChatId<'a>>>(chat_id: I, user_id: i64) -> (request: Self)
        ensures
            call_ensures(<I as Into<ChatId<'a>>>::into, (chat_id,), request.chat_id),
            I::obeys_into_spec() ==> request.chat_id == chat_id.into_spec(),
            request.user_id == user_id,
            request.until_date is None,
            request.can_send_messages is None,
            request.can_send_media_messages is None,
            request.can_send_other_messages is None,
            request.can_add_web_page_previews is None,
    {
        RestrictChatMember {
            chat_id: chat_id.into(),
            user_id,
            until_date: None,
            can_send_messages: None,
            can_send_media_messages: None,
            can_send_other_messages: None,
            can_add_web_page_previews: None,
        }
    }
}

} // verus!
