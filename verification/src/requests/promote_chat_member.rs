use crate::requests::{ChatId, Request};
use vstd::prelude::*;
use vstd::std_specs::convert::IntoSpec;

verus! {

/// Use this struct to promote or demote a user in a supergroup or a channel.
/// The bot must be an administrator in the chat for this to work and must have the appropriate admin rights.
/// Pass False for all boolean parameters to demote a user. Returns `True` on success
#[derive(Debug, Clone)]
pub struct PromoteChatMember<'a> {
    /// Unique identifier for the target group or username of the target supergroup or channel
    pub chat_id: ChatId<'a>,
    /// Unique identifier of the target user
    pub user_id: i64,
    /// Pass True, if the administrator can change chat title, photo and other settings
    pub can_change_info: Option<bool>,
    /// Pass True, if the administrator can create channel posts, channels only
    pub can_post_messages: Option<bool>,
    /// Pass True, if the administrator can edit messages of other users and can pin messages, channels only
    pub can_edit_messages: Option<bool>,
    /// Pass True, if the administrator can delete messages of other users
    pub can_delete_messages: Option<bool>,
    /// Pass True, if the administrator can invite new users to the chat
    pub can_invite_users: Option<bool>,
    /// Pass True, if the administrator can restrict, ban or unban chat members
    pub can_restrict_members: Option<bool>,
    /// Pass True, if the administrator can pin messages, supergroups only
    pub can_pin_messages: Option<bool>,
    /// Pass True, if the administrator can add new administrators with a subset of his own privileges
    /// or demote administrators that he has promoted, directly or indirectly (promoted by administrators that were appointed by him)
    pub can_promote_members: Option<bool>,
}

impl<'a> Request for PromoteChatMember<'a> {
    open spec fn method_name(&self) -> Seq<char> {
        "promoteChatMember"@
    }

    fn method(&self) -> (name: &'static str) {
        "promoteChatMember"
    }
}

impl<'a> PromoteChatMember<'a> {
    /// A request with the values given and every option left out.
    ///
    /// A chat is named by whatever converts into a `ChatId`: the request holds
    /// what the conversion gives.
    pub fn new<I: Into<ChatId<'a>>>(chat_id: I, user_id: i64) -> (request: Self)
        ensures
            call_ensures(<I as Into<ChatId<'a>>>::into, (chat_id,), request.chat_id),
            I::obeys_into_spec() ==> request.chat_id == chat_id.into_spec(),
            request.user_id == user_id,
            request.can_change_info is None,
            request.can_post_messages is None,
            request.can_edit_messages is None,
            request.can_delete_messages is None,
            request.can_invite_users is None,
            request.can_restrict_members is None,
            request.can_pin_messages is None,
            request.can_promote_members is None,
    {
        PromoteChatMember {
            chat_id: chat_id.into(),
            user_id,
            can_change_info: None,
            can_post_messages: None,
            can_edit_messages: None,
            can_delete_messages: None,
            can_invite_users: None,
            can_restrict_members: None,
            can_pin_messages: None,
            can_promote_members: None,
        }
    }
}

} // verus!
