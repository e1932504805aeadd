use rutebot::error::Error;
use rutebot::responses::{
    capture, MessageEntity, MessageEntityValue, ResponseParameters, TgResponse, User,
};

fn entity(typ: &str, offset: i64, length: i64) -> MessageEntity {
    MessageEntity { typ: typ.to_string(), offset, length, url: None, user: None }
}

fn user() -> User {
    User {
        id: 7,
        is_bot: false,
        first_name: "Ada".to_string(),
        last_name: None,
        username: None,
        language_code: None,
    }
}

#[test]
fn text_link_is_extracted_from_a_text_outside_ascii() {
    let text = "великий и могучий: экзамл.ком очень могучий и великий";
    let link = MessageEntity {
        typ: "text_link".to_string(),
        offset: 19,
        length: 10,
        url: Some("http://example.com/".to_string()),
        user: None,
    };
    match link.extract_value(text) {
        Some(MessageEntityValue::TextLink { link, text }) => {
            assert_eq!(link.as_str(), "http://example.com/");
            assert_eq!(text.as_str(), "экзамл.ком");
        }
        x => panic!("wrong message entity: {:?}", x),
    }
}

#[test]
fn every_known_type_gives_its_value() {
    let text = "hello @world and more";
    let marked = |typ: &str| entity(typ, 6, 6).extract_value(text).map(|v| format!("{:?}", v));
    assert_eq!(marked("mention"), Some("Mention(\"@world\")".to_string()));
    assert_eq!(marked("hashtag"), Some("Hashtag(\"@world\")".to_string()));
    assert_eq!(marked("cashtag"), Some("Cashtag(\"@world\")".to_string()));
    assert_eq!(marked("bot_command"), Some("BotCommand(\"@world\")".to_string()));
    assert_eq!(marked("url"), Some("Url(\"@world\")".to_string()));
    assert_eq!(marked("email"), Some("Email(\"@world\")".to_string()));
    assert_eq!(marked("phone_number"), Some("PhoneNumber(\"@world\")".to_string()));
    assert_eq!(marked("bold"), Some("Bold(\"@world\")".to_string()));
    assert_eq!(marked("italic"), Some("Italic(\"@world\")".to_string()));
    assert_eq!(marked("code"), Some("Code(\"@world\")".to_string()));
    assert_eq!(marked("pre"), Some("Pre(\"@world\")".to_string()));
    assert_eq!(marked("strikethrough"), None);
    assert_eq!(marked(""), None);
    assert_eq!(marked("Mention"), None);
}

#[test]
fn link_and_mention_need_their_target() {
    let text = "see this";
    assert!(entity("text_link", 0, 3).extract_value(text).is_none());
    assert!(entity("text_mention", 0, 3).extract_value(text).is_none());
    let mention = MessageEntity {
        typ: "text_mention".to_string(),
        offset: 4,
        length: 4,
        url: None,
        user: Some(user()),
    };
    match mention.extract_value(text) {
        Some(MessageEntityValue::TextMention { mention, user }) => {
            assert_eq!(mention, "this");
            assert_eq!(user.id, 7);
            assert_eq!(user.first_name, "Ada");
        }
        x => panic!("wrong message entity: {:?}", x),
    }
}

#[test]
fn offsets_count_utf16_code_units() {
    // The emoji takes two code units.
    let text = "a\u{1F600}b";
    let bold = |offset, length| match entity("bold", offset, length).extract_value(text) {
        Some(MessageEntityValue::Bold(s)) => s,
        x => panic!("wrong message entity: {:?}", x),
    };
    assert_eq!(bold(0, 1), "a");
    assert_eq!(bold(1, 2), "\u{1F600}");
    assert_eq!(bold(3, 1), "b");
    assert_eq!(bold(0, 4), text);
    // Half a pair decodes to the replacement character.
    assert_eq!(bold(1, 1), "\u{FFFD}");
    assert_eq!(bold(2, 2), "\u{FFFD}b");
}

#[test]
fn capture_is_cut_off_at_the_end_of_the_text() {
    let units: Vec<u16> = vec![10, 11, 12, 13, 14];
    assert_eq!(capture(&units, 1, 3), vec![11, 12, 13]);
    assert_eq!(capture(&units, 0, 5), vec![10, 11, 12, 13, 14]);
    assert_eq!(capture(&units, 3, 10), vec![13, 14]);
    assert_eq!(capture(&units, 5, 1), Vec::<u16>::new());
    assert_eq!(capture(&units, 6, 1), Vec::<u16>::new());
    assert_eq!(capture(&units, 2, 0), Vec::<u16>::new());
    assert_eq!(capture(&units, i64::MAX, i64::MAX), Vec::<u16>::new());
    assert_eq!(capture(&units, 4, i64::MAX), vec![14]);
    // A negative offset marks nothing, a negative length everything that follows.
    assert_eq!(capture(&units, -1, 3), Vec::<u16>::new());
    assert_eq!(capture(&units, i64::MIN, i64::MIN), Vec::<u16>::new());
    assert_eq!(capture(&units, 2, -1), vec![12, 13, 14]);
    assert_eq!(capture(&Vec::new(), 0, 3), Vec::<u16>::new());
}

#[test]
fn value_of_wraps_the_marked_text() {
    let hashtag = entity("hashtag", 0, 0);
    match hashtag.value_of("#rust".to_string()) {
        Some(MessageEntityValue::Hashtag(s)) => assert_eq!(s, "#rust"),
        x => panic!("wrong message entity: {:?}", x),
    }
}

#[test]
fn successful_response_gives_its_result() {
    let response = TgResponse {
        ok: true,
        result: Some(5u8),
        description: Some("ignored".to_string()),
        error_code: Some(1),
        parameters: None,
    };
    assert_eq!(response.into_result().unwrap(), 5);
}

#[test]
fn failed_response_gives_the_error_it_reports() {
    let response: TgResponse<u8> = TgResponse {
        ok: false,
        result: Some(5),
        description: Some("Bad Request: chat not found".to_string()),
        error_code: Some(400),
        parameters: Some(ResponseParameters { migrate_to_chat_id: Some(12), retry_after: None }),
    };
    match response.into_result() {
        Err(Error::Api { error_code, description, parameters }) => {
            assert_eq!(error_code, 400);
            assert_eq!(description, "Bad Request: chat not found");
            let parameters = parameters.unwrap();
            assert_eq!(parameters.migrate_to_chat_id, Some(12));
            assert_eq!(parameters.retry_after, None);
        }
        other => panic!("{:?}", other),
    }
}

#[test]
fn response_without_a_result_is_an_error_with_defaults() {
    let response: TgResponse<u8> = TgResponse {
        ok: true,
        result: None,
        description: None,
        error_code: None,
        parameters: None,
    };
    match response.into_result() {
        Err(Error::Api { error_code, description, parameters }) => {
            assert_eq!(error_code, 0);
            assert_eq!(description, "Unknown error");
            assert!(parameters.is_none());
        }
        other => panic!("{:?}", other),
    }
}

#[test]
fn into_error_reports_whatever_the_response_says_of_success() {
    let response: TgResponse<()> = TgResponse {
        ok: true,
        result: Some(()),
        description: Some("Not Found".to_string()),
        error_code: Some(404),
        parameters: None,
    };
    match response.into_error() {
        Error::Api { error_code, description, parameters } => {
            assert_eq!(error_code, 404);
            assert_eq!(description, "Not Found");
            assert!(parameters.is_none());
        }
        other => panic!("{:?}", other),
    }
    let rate_limited: TgResponse<()> = TgResponse {
        ok: false,
        result: None,
        description: None,
        error_code: Some(429),
        parameters: Some(ResponseParameters { migrate_to_chat_id: None, retry_after: Some(5) }),
    };
    let error = rate_limited.into_error();
    assert_eq!(error.status_code(), Some(429));
    assert_eq!(error.retry_after(), Some(5));
    assert_eq!(error.rate_limit(), Some(5));
}
