use crate::requests::Request;
use vstd::prelude::*;

verus! {

/// Use this struct to send answers to callback queries sent from inline keyboards.
/// The answer will be displayed to the user as a notification at the top of the chat screen or as an alert.
/// On success, `True` is returned.
#[derive(Debug, Clone)]
pub struct AnswerCallbackQuery<'a> {
    /// Unique identifier for the query to be answered
    pub callback_query_id: &'a str,
    /// Text of the notification. If not specified, nothing will be shown to the user, 0-200 characters
    pub text: Option<&'a str>,
    /// If true, an alert will be shown by the client instead of a notification at the top of the chat screen. Defaults to false.
    pub show_alert: bool,
    /// URL that will be opened by the user's client
    pub url: Option<&'a str>,
    /// The maximum amount of time in seconds that the result of the callback query may be cached client-side.
    /// Defaults to 0.
    pub cache_time: Option<i32>,
}

impl<'a> Request for AnswerCallbackQuery<'a> {
    open spec fn method_name(&self) -> Seq<char> {
        "answerCallbackQuery"@
    }

    fn method(&self) -> (name: &'static str) {
        "answerCallbackQuery"
    }
}

impl<'a> AnswerCallbackQuery<'a> {
    /// A request with the values given and every option left out.
    pub fn new(query_id: &'a str, notification_text: &'a str) -> (request: Self)
        ensures
            request == (AnswerCallbackQuery {
                callback_query_id: query_id,
                text: Some(notification_text),
                show_alert: false,
                url: None,
                cache_time: None,
            }),
    {
        AnswerCallbackQuery {
            callback_query_id: query_id,
            text: Some(notification_text),
            show_alert: false,
            url: None,
            cache_time: None,
        }
    }
}

} // verus!
