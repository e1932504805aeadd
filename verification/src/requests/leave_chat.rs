use crate::requests::{ChatId, Request};
use vstd::prelude::*;
use vstd::std_specs::convert::IntoSpec;

verus! {

/// Use this method for your bot to leave a group, supergroup or channel. Returns `True` on success.
#[derive(Debug, Clone)]
pub struct LeaveChat<'a> {
    /// Unique identifier for the target group or username of the target supergroup or channel
    pub chat_id: ChatId<'a>,
}

impl<'a> Request for LeaveChat<'a> {
    open spec fn method_name(&self) -> Seq<char> {
        "leaveChat"@
    }

    fn method(&self) -> (name: &'static str) {
        "leaveChat"
    }
}

impl<'a> LeaveChat<'a> {
    /// A request with the values given and every option left out.
    ///
    /// A chat is named by whatever converts into a `ChatId`: the request holds
    /// what the conversion gives.
    pub fn new<I: Into<ChatId<'a>>>(chat_id: I) -> (request: Self)
        ensures
            call_ensures(<I as Into<ChatId<'a>>>::into, (chat_id,), request.chat_id),
            I::obeys_into_spec() ==> request.chat_id == chat_id.into_spec(),
    {
        LeaveChat {
            chat_id: chat_id.into(),
        }
    }
}

} // verus!
