use hyper_multipart_rfc7578::client::multipart::{Body, Form};
use rutebot::client::{api_uri, file_uri, request_uri, BASE_API_URI, GET_FILE_URI};
use rutebot::requests::{
    add_fields_to_form, add_file_to_form, add_plain_file_to_form, add_text_fields, json_fields,
    AnswerCallbackQuery, ChatAction, ChatId, DeleteMessage, EditMessageMedia, EditMessageText,
    FileKind, ForwardMessage, GetFile, GetMe, GetUpdatesRequest, InputMedia, InputMediaPhoto,
    InputMediaPhotoOrVideo, InputMediaVideo, MessageOrInlineMessageId, Request, SendAudio,
    SendChatAction, SendDocument, SendMediaGroup, SendMessage, SendPoll, SendVoice,
    SetChatDescription, SetChatPhoto, StopLiveLocation,
};

fn upload(name: &'static str, content: &[u8], thumb: Option<&[u8]>) -> FileKind<'static> {
    FileKind::InputFile { name, content: content.to_vec(), thumb: thumb.map(|t| t.to_vec()) }
}

/// The body that the form sends, as text.
fn sent(form: Form<'static>) -> String {
    let request = form
        .set_body_convert::<hyper::Body, Body>(hyper::Request::post("http://localhost/"))
        .unwrap();
    let runtime = tokio::runtime::Builder::new_current_thread().build().unwrap();
    let bytes = runtime.block_on(hyper::body::to_bytes(request.into_body())).unwrap();
    String::from_utf8(bytes.to_vec()).unwrap()
}

fn place(haystack: &str, needle: &str) -> usize {
    match haystack.find(needle) {
        Some(at) => at,
        None => panic!("{:?} is not in {:?}", needle, haystack),
    }
}

fn json(text: &str) -> serde_json::Value {
    serde_json::from_str(text).unwrap()
}

#[test]
fn addresses_are_put_together_from_their_parts() {
    assert_eq!(BASE_API_URI, "https://api.telegram.org/bot");
    assert_eq!(GET_FILE_URI, "https://api.telegram.org/file/bot");
    assert_eq!(api_uri("123:abc", "sendMessage"), "https://api.telegram.org/bot123:abc/sendMessage");
    assert_eq!(api_uri("", ""), "https://api.telegram.org/bot/");
    assert_eq!(
        file_uri("123:abc", "photos/file_1.jpg"),
        "https://api.telegram.org/file/bot123:abc/photos/file_1.jpg"
    );
    assert_eq!(request_uri("t", &GetMe::new()), "https://api.telegram.org/bott/getMe");
    assert_eq!(
        request_uri("t", &GetUpdatesRequest::new()),
        "https://api.telegram.org/bott/getUpdates"
    );
}

#[test]
fn requests_name_their_methods() {
    assert_eq!(GetMe.method(), "getMe");
    assert_eq!(SendMessage::new(1, "x").method(), "sendMessage");
    assert_eq!(GetFile::new("id").method(), "getFile");
    assert_eq!(StopLiveLocation::new_inline("id").method(), "stopMessageLiveLocation");
    assert_eq!(SendChatAction::new(1, ChatAction::Typing).method(), "sendChatAction");
    assert_eq!(SetChatPhoto::new(1, vec![]).method(), "setChatPhoto");
    assert_eq!(GetUpdatesRequest::new().method(), "getUpdates");
}

#[test]
fn chat_id_comes_from_a_number_or_a_name() {
    assert!(matches!(ChatId::from(5), ChatId::Id(5)));
    assert!(matches!(ChatId::from("@channel"), ChatId::Username("@channel")));
    assert!(matches!(SendMessage::new(5, "x").chat_id, ChatId::Id(5)));
    assert!(matches!(SendMessage::new("@channel", "x").chat_id, ChatId::Username("@channel")));
    assert!(matches!(SendMessage::new(ChatId::Id(7), "x").chat_id, ChatId::Id(7)));
}

#[test]
fn send_message_starts_with_every_option_left_out() {
    let request = SendMessage::new(42, "Some text");
    assert!(matches!(request.chat_id, ChatId::Id(42)));
    assert_eq!(request.text, "Some text");
    assert!(!request.disable_notification);
    assert!(request.parse_mode.is_none());
    assert!(!request.disable_web_page_preview);
    assert_eq!(request.reply_to_message_id, None);
    assert!(request.reply_markup.is_none());

    let reply = SendMessage::new_reply(42, "Some text", 9);
    assert_eq!(reply.reply_to_message_id, Some(9));
    assert_eq!(reply.text, "Some text");
}

#[test]
fn constructors_put_their_arguments_in_place() {
    let forward = ForwardMessage::new(1, "@to", 3);
    assert!(matches!(forward.from_chat_id, ChatId::Id(1)));
    assert!(matches!(forward.chat_id, ChatId::Username("@to")));
    assert_eq!(forward.message_id, 3);
    assert!(!forward.disable_notification);

    let delete = DeleteMessage::new(4, 5);
    assert!(matches!(delete.chat_id, ChatId::Id(4)));
    assert_eq!(delete.message_id, 5);

    let answer = AnswerCallbackQuery::new("query", "done");
    assert_eq!(answer.callback_query_id, "query");
    assert_eq!(answer.text, Some("done"));
    assert!(!answer.show_alert);
    assert_eq!(answer.url, None);

    let described = SetChatDescription::new_description(1, "about");
    assert_eq!(described.description, Some("about"));
    assert_eq!(SetChatDescription::new(1).description, None);

    let options = ["a", "b"];
    let poll = SendPoll::new_reply(1, "which?", &options, 8);
    assert_eq!(poll.question, "which?");
    assert_eq!(poll.options, &["a", "b"]);
    assert_eq!(poll.reply_to_message_id, Some(8));

    let inline = EditMessageText::new_inline_message("inline", "new text");
    assert!(matches!(
        inline.message_or_inline_message_id,
        MessageOrInlineMessageId::Inline { inline_message_id: "inline" }
    ));
    assert_eq!(inline.text, "new text");
    let chat = EditMessageText::new_message("@chat", 6, "new text");
    assert!(matches!(
        chat.message_or_inline_message_id,
        MessageOrInlineMessageId::Chat { chat_id: ChatId::Username("@chat"), message_id: 6 }
    ));

    let updates = GetUpdatesRequest::new();
    assert_eq!(updates.offset, None);
    assert_eq!(updates.limit, None);
    assert_eq!(updates.timeout, None);
    assert!(updates.allowed_updates.is_none());
}

#[test]
fn only_an_input_file_is_uploaded() {
    assert!(upload("a.txt", b"abc", None).is_input_file());
    assert!(!FileKind::FileId("id").is_input_file());
    assert!(!FileKind::Url("http://example.com/a.txt").is_input_file());
    assert!(FileKind::is_option_input_file(&Some(upload("a.txt", b"abc", None))));
    assert!(!FileKind::is_option_input_file(&Some(FileKind::FileId("id"))));
    assert!(!FileKind::is_option_input_file(&None));
    assert_eq!(FileKind::serialize_attach("a.txt"), "attach://a.txt");

    assert!(SendDocument::new(1, upload("a.txt", b"abc", None)).uploads());
    assert!(!SendDocument::new(1, FileKind::FileId("id")).uploads());
    assert!(SendVoice::new(1, upload("a.ogg", b"abc", None)).uploads());
    assert!(!SendVoice::new(1, FileKind::Url("http://example.com/a.ogg")).uploads());

    let mut audio = SendAudio::new(1, FileKind::FileId("id"));
    assert!(!audio.uploads());
    audio.thumb = Some(upload("cover.jpg", b"jpg", None));
    assert!(audio.uploads());
}

#[test]
fn input_media_hand_out_their_file() {
    let photo = InputMedia::Photo(InputMediaPhoto::new(upload("p.jpg", b"p", None)));
    assert!(photo.contains_input_file());
    assert!(matches!(photo.get_file(), FileKind::InputFile { name: "p.jpg", .. }));
    let video = InputMedia::Video(InputMediaVideo::new(FileKind::FileId("v")));
    assert!(!video.contains_input_file());
    assert!(matches!(video.get_file(), FileKind::FileId("v")));

    let either = InputMediaPhotoOrVideo::Video(InputMediaVideo::new(upload("v.mp4", b"v", None)));
    assert!(either.contains_input_file());
    assert!(matches!(either.get_file(), FileKind::InputFile { name: "v.mp4", .. }));
    let stored = InputMediaPhotoOrVideo::Photo(InputMediaPhoto::new(FileKind::Url("u")));
    assert!(!stored.contains_input_file());

    let media = InputMediaVideo::new(FileKind::FileId("v"));
    assert!(media.caption.is_none());
    assert!(media.duration.is_none());
    assert!(!media.supports_streaming);
}

#[test]
fn json_fields_take_strings_as_they_are_and_render_the_rest() {
    let fields = json_fields(json(
        r#"{"chat_id":5,"caption":"hi \"there\"","silent":true,"markup":{"k":[1,"a"]},"none":null}"#,
    ));
    let as_pairs: Vec<(&str, &str)> =
        fields.iter().map(|(name, text)| (name.as_str(), text.as_str())).collect();
    let mut sorted = as_pairs.clone();
    sorted.sort();
    assert_eq!(
        sorted,
        vec![
            ("caption", "hi \"there\""),
            ("chat_id", "5"),
            ("markup", "{\"k\":[1,\"a\"]}"),
            ("none", "null"),
            ("silent", "true"),
        ]
    );
    assert!(json_fields(json("[1,2]")).is_empty());
    assert!(json_fields(json("\"text\"")).is_empty());
    assert!(json_fields(json("{}")).is_empty());
}

#[test]
fn text_fields_become_text_parts_in_their_order() {
    let mut form = Form::default();
    add_text_fields(
        &mut form,
        vec![
            ("first".to_string(), "one".to_string()),
            ("second".to_string(), "two".to_string()),
        ],
    );
    let body = sent(form);
    let first = place(&body, "name=\"first\"\r\n\r\none\r\n");
    let second = place(&body, "name=\"second\"\r\n\r\ntwo\r\n");
    assert!(first < second);
    assert!(!body.contains("filename"));
}

#[test]
fn request_fields_become_text_parts() {
    let mut form = Form::default();
    add_fields_to_form(&mut form, json(r#"{"chat_id":5,"caption":"hi"}"#));
    let body = sent(form);
    place(&body, "name=\"chat_id\"\r\n\r\n5\r\n");
    place(&body, "name=\"caption\"\r\n\r\nhi\r\n");
}

#[test]
fn file_with_thumb_brings_three_parts() {
    let mut form = Form::default();
    add_file_to_form(&mut form, upload("a.txt", b"CONTENT", Some(b"THUMB")), Some("document"));
    let body = sent(form);
    let file = place(&body, "name=\"document\"; filename=\"a.txt\"\r\n\r\nCONTENT\r\n");
    let thumb = place(&body, "name=\"thumb_a.txt\"; filename=\"thumb_a.txt\"\r\n\r\nTHUMB\r\n");
    let reference = place(&body, "name=\"thumb\"\r\n\r\nattach://thumb_a.txt\r\n");
    assert!(file < thumb && thumb < reference);
}

#[test]
fn file_without_an_upload_type_goes_under_its_own_name() {
    let mut form = Form::default();
    add_file_to_form(&mut form, upload("a.txt", b"CONTENT", None), None);
    let body = sent(form);
    place(&body, "name=\"a.txt\"; filename=\"a.txt\"\r\n\r\nCONTENT\r\n");
    assert!(!body.contains("thumb"));
}

#[test]
fn plain_file_leaves_the_thumb_out() {
    let mut form = Form::default();
    add_plain_file_to_form(&mut form, upload("a.ogg", b"CONTENT", Some(b"THUMB")), Some("voice"));
    let body = sent(form);
    place(&body, "name=\"voice\"; filename=\"a.ogg\"\r\n\r\nCONTENT\r\n");
    assert!(!body.contains("THUMB"));
    assert!(!body.contains("thumb"));
}

#[test]
fn names_stand_in_the_header_as_they_are() {
    let mut form = Form::default();
    add_file_to_form(&mut form, upload("c", b"X", None), Some("a\"; filename=\"b"));
    let first = sent(form);
    let mut form = Form::default();
    add_file_to_form(&mut form, upload("b\"; filename=\"c", b"X", None), Some("a"));
    let second = sent(form);
    let header = "content-disposition: form-data; name=\"a\"; filename=\"b\"; filename=\"c\"\r\n";
    place(&first, header);
    place(&second, header);

    let mut form = Form::default();
    add_text_fields(&mut form, vec![("say \"hi\"".to_string(), "text".to_string())]);
    place(&sent(form), "content-disposition: form-data; name=\"say \"hi\"\"\r\n\r\ntext\r\n");
}

#[test]
fn parts_announce_what_they_carry() {
    let mut form = Form::default();
    add_text_fields(&mut form, vec![("field".to_string(), "text".to_string())]);
    add_plain_file_to_form(&mut form, upload("a.bin", b"BYTES", None), Some("file"));
    let body = sent(form);
    place(
        &body,
        "content-type: text/plain\r\ncontent-disposition: form-data; name=\"field\"\r\n\r\ntext\r\n",
    );
    place(
        &body,
        "content-type: application/octet-stream\r\ncontent-disposition: form-data; name=\"file\"; filename=\"a.bin\"\r\n\r\nBYTES\r\n",
    );
}

#[test]
fn stored_files_bring_no_part() {
    let mut form = Form::default();
    add_file_to_form(&mut form, FileKind::FileId("id"), Some("document"));
    add_plain_file_to_form(&mut form, FileKind::Url("http://example.com/"), Some("voice"));
    assert_eq!(sent(form), "");
}

#[test]
fn document_form_holds_fields_then_file() {
    let request = SendDocument::new(5, upload("a.txt", b"CONTENT", Some(b"THUMB")));
    let body = sent(request.multipart_form(json(r#"{"chat_id":5}"#)));
    let field = place(&body, "name=\"chat_id\"\r\n\r\n5\r\n");
    let file = place(&body, "name=\"document\"; filename=\"a.txt\"\r\n\r\nCONTENT\r\n");
    let thumb = place(&body, "name=\"thumb_a.txt\"; filename=\"thumb_a.txt\"\r\n\r\nTHUMB\r\n");
    assert!(field < file && file < thumb);
}

#[test]
fn audio_form_holds_audio_then_thumb() {
    let mut request = SendAudio::new(5, upload("a.mp3", b"AUDIO", None));
    request.thumb = Some(upload("cover.jpg", b"COVER", None));
    let body = sent(request.multipart_form(json(r#"{"chat_id":5}"#)));
    let audio = place(&body, "name=\"audio\"; filename=\"a.mp3\"\r\n\r\nAUDIO\r\n");
    let thumb = place(&body, "name=\"thumb\"; filename=\"cover.jpg\"\r\n\r\nCOVER\r\n");
    assert!(audio < thumb);
}

#[test]
fn media_group_form_holds_the_files_in_their_order() {
    let media = vec![
        InputMediaPhotoOrVideo::Photo(InputMediaPhoto::new(upload("one.jpg", b"ONE", None))),
        InputMediaPhotoOrVideo::Video(InputMediaVideo::new(FileKind::FileId("stored"))),
        InputMediaPhotoOrVideo::Video(InputMediaVideo::new(upload("two.mp4", b"TWO", Some(b"T")))),
    ];
    let request = SendMediaGroup::new(5, media);
    assert!(request.uploads());
    let body = sent(request.multipart_form(json(r#"{"chat_id":5}"#)));
    let field = place(&body, "name=\"chat_id\"");
    let one = place(&body, "name=\"one.jpg\"; filename=\"one.jpg\"\r\n\r\nONE\r\n");
    let two = place(&body, "name=\"two.mp4\"; filename=\"two.mp4\"\r\n\r\nTWO\r\n");
    let thumb = place(&body, "name=\"thumb_two.mp4\"; filename=\"thumb_two.mp4\"\r\n\r\nT\r\n");
    assert!(field < one && one < two && two < thumb);
    assert!(!body.contains("stored"));

    let stored = vec![InputMediaPhotoOrVideo::Photo(InputMediaPhoto::new(FileKind::FileId("a")))];
    assert!(!SendMediaGroup::new(5, stored).uploads());
    assert!(!SendMediaGroup::new(5, vec![]).uploads());
}

#[test]
fn edit_media_form_holds_the_file_under_its_name() {
    let media = InputMedia::Photo(InputMediaPhoto::new(upload("p.jpg", b"PHOTO", Some(b"T"))));
    let request = EditMessageMedia::new_message(5, 6, media);
    assert!(request.uploads());
    let body = sent(request.multipart_form(json(r#"{"chat_id":5,"message_id":6}"#)));
    place(&body, "name=\"p.jpg\"; filename=\"p.jpg\"\r\n\r\nPHOTO\r\n");
    assert!(!body.contains("thumb"));
}

#[test]
fn chat_photo_form_holds_the_photo() {
    let request = SetChatPhoto::new(5, b"PHOTO".to_vec());
    let body = sent(request.multipart_form(json(r#"{"chat_id":5}"#)));
    let field = place(&body, "name=\"chat_id\"\r\n\r\n5\r\n");
    let photo = place(&body, "name=\"photo\"; filename=\"photo\"\r\n\r\nPHOTO\r\n");
    assert!(field < photo);
}
