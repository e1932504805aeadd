use crate::requests::{ChatId, Request};
use vstd::prelude::*;
use vstd::std_specs::convert::IntoSpec;

verus! {

/// Use this struct to unban a previously kicked user in a supergroup or channel.
/// The user will not return to the group or channel automatically, but will be able to join via link,
/// etc. The bot must be an administrator for this to work. Returns `True` on success.
#[derive(Debug, Clone)]
pub struct UnbanChatMember<'a> {
    /// Unique identifier for the target group or username of the target supergroup or channel
    pub chat_id: ChatId<'a>,
    /// Unique identifier of the target user
    pub user_id: i64,
}

impl<'a> Request for UnbanChatMember<'a> {
    open spec fn method_name(&self) -> Seq<char> {
        "unbanChatMember"@
    }

    fn method(&self) -> (name: &'static str) {
        "unbanChatMember"
    }
}

impl<'a> UnbanChatMember<'a> {
    /// A request with the values given and every option left out.
    ///
    /// A chat is named by whatever converts into a `ChatId`: the request holds
    /// what the conversion gives.
    pub fn new<I: Into<ChatId<'a>>>(chat_id: I, user_id: i64) -> (request: Self)
        ensures
            call_ensures(<I as Into<ChatId<'a>>>::into, (chat_id,), request.chat_id),
            I::obeys_into_spec() ==> request.chat_id == chat_id.into_spec(),
            request.user_id == user_id,
    {
        UnbanChatMember {
            chat_id: chat_id.into(),
            user_id,
        }
    }
}

} // verus!
