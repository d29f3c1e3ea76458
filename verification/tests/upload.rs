use url_uploader::bot::{Bot, CallbackAction, CallbackQuery};
use url_uploader::filename::{ResponseHead, MAX_UPLOAD};
use url_uploader::links::Link;
use url_uploader::messages::{BUSY, CANCELLED, NOT_YOURS, NO_DOWNLOAD_LINK, PROCESSING, PROCESS_FAILED};
use url_uploader::upload::{
    FilePlan, Resolution, Upload, UploadAction, UploadError, UploadEvent, UploadStart,
};

fn link(text: &str, domain: &str) -> Link {
    Link { text: text.to_string(), domain: Some(domain.to_string()) }
}

fn head(length: Option<u64>, path: &str) -> ResponseHead {
    ResponseHead { content_length: length, content_disposition: None, content_type: None, path: path.to_string() }
}

fn begin(bot: &mut Bot, chat: i64, sender: i64) -> (Upload, UploadAction) {
    match bot.handle_url(chat, 9, Some(sender), link("https://example.com/f.mp4", "example.com")) {
        UploadStart::Begun(upload, action) => (upload, action),
        other => panic!("{:?}", other),
    }
}

fn begin_terabox(bot: &mut Bot) -> (Upload, UploadAction) {
    match bot.handle_url(1, 9, Some(7), link("https://terabox.com/s/1", "terabox.com")) {
        UploadStart::Begun(upload, action) => (upload, action),
        other => panic!("{:?}", other),
    }
}

fn press(chat: i64, sender: i64) -> CallbackQuery {
    CallbackQuery { chat_id: chat, sender_id: sender, data: b"cancel".to_vec() }
}

fn free(bot: &mut Bot, chat: i64) -> bool {
    match bot.handle_url(chat, 9, Some(1), link("https://example.com/", "example.com")) {
        UploadStart::Begun(mut upload, _) => {
            bot.advance_upload(&mut upload, UploadEvent::Failed);
            true
        }
        _ => false,
    }
}

#[test]
fn a_whole_upload() {
    let mut bot = Bot::new(None, 0, 0);
    let (mut upload, action) = begin(&mut bot, 1, 7);
    match action {
        UploadAction::Download(url) => assert_eq!(url, "https://example.com/f.mp4"),
        other => panic!("{:?}", other),
    }
    match bot.advance_upload(&mut upload, UploadEvent::Response(head(Some(10), "/f.mp4"))) {
        UploadAction::SendStatus { text, button, data } => {
            assert_eq!(text, "🚀 Starting upload of <code>f.mp4</code>...");
            assert_eq!(button, "⛔ Cancel");
            assert_eq!(data, "cancel");
        }
        other => panic!("{:?}", other),
    }
    match bot.advance_upload(&mut upload, UploadEvent::Done) {
        UploadAction::Transfer { name, length } => {
            assert_eq!(name, "f.mp4");
            assert_eq!(length, 10);
        }
        other => panic!("{:?}", other),
    }
    match bot.advance_upload(&mut upload, UploadEvent::Uploaded { seconds: "1.50".to_string() }) {
        UploadAction::SendFile { text, is_video } => {
            assert_eq!(text, "Uploaded in <b>1.50 secs</b>");
            assert!(is_video);
        }
        other => panic!("{:?}", other),
    }
    assert!(matches!(bot.advance_upload(&mut upload, UploadEvent::Done), UploadAction::DeleteStatus));
    assert!(!upload.is_finished());
    assert!(!free(&mut bot, 1));
    assert!(matches!(bot.advance_upload(&mut upload, UploadEvent::Done), UploadAction::Finish));
    assert!(upload.is_finished());
    assert!(free(&mut bot, 1));
}

#[test]
fn one_upload_per_chat() {
    let mut bot = Bot::new(None, 0, 0);
    let (mut upload, _) = begin(&mut bot, 1, 7);
    match bot.handle_url(1, 10, Some(7), link("https://example.com/", "example.com")) {
        UploadStart::Busy(text) => assert_eq!(text, BUSY),
        other => panic!("{:?}", other),
    }
    assert!(free(&mut bot, 2));
    bot.advance_upload(&mut upload, UploadEvent::Failed);
    assert!(free(&mut bot, 1));
}

#[test]
fn nobody_sent_it() {
    let mut bot = Bot::new(None, 0, 0);
    let answer = bot.handle_url(1, 9, None, link("https://example.com/", "example.com"));
    assert!(matches!(answer, UploadStart::NoSender));
    assert!(free(&mut bot, 1));
}

#[test]
fn terabox_links_are_looked_up() {
    let mut bot = Bot::new(None, 0, 0);
    let (mut upload, action) = begin_terabox(&mut bot);
    match action {
        UploadAction::Reply(text) => assert_eq!(text, PROCESSING),
        other => panic!("{:?}", other),
    }
    match bot.advance_upload(&mut upload, UploadEvent::Done) {
        UploadAction::AskApi(request) => assert_eq!(request.query[0].1, "https://terabox.com/s/1"),
        other => panic!("{:?}", other),
    }
    let body = b"{\"success\":true,\"proxy_url\":\"https://cdn.example/f\"}".to_vec();
    match bot.advance_upload(&mut upload, UploadEvent::ApiReply { status: 200, body }) {
        UploadAction::Download(url) => assert_eq!(url, "https://cdn.example/f"),
        other => panic!("{:?}", other),
    }
}

#[test]
fn terabox_links_that_fail() {
    let replies: Vec<(UploadEvent, &str)> = vec![
        (UploadEvent::ApiReply { status: 500, body: Vec::new() }, NO_DOWNLOAD_LINK),
        (UploadEvent::ApiReply { status: 200, body: Vec::new() }, PROCESS_FAILED),
        (UploadEvent::Failed, PROCESS_FAILED),
        (
            UploadEvent::ApiReply { status: 200, body: b"{\"success\":true,\"proxy_url\":\"x\"}".to_vec() },
            "❌ Failed to parse proxy URL: relative URL without a base",
        ),
    ];
    for (event, expected) in replies {
        let mut bot = Bot::new(None, 0, 0);
        let (mut upload, _) = begin_terabox(&mut bot);
        bot.advance_upload(&mut upload, UploadEvent::Done);
        match bot.advance_upload(&mut upload, event) {
            UploadAction::Reply(text) => assert_eq!(text, expected),
            other => panic!("{:?}", other),
        }
        assert!(matches!(bot.advance_upload(&mut upload, UploadEvent::Done), UploadAction::Finish));
        assert!(free(&mut bot, 1));
    }
}

#[test]
fn resolutions_lead_on() {
    let (mut upload, _) = Upload::begin(1, 9, link("https://terabox.com/s/1", "terabox.com"), true);
    match upload.resolved(Resolution::Found(link("https://cdn.example/f", "cdn.example"))) {
        UploadAction::Download(url) => assert_eq!(url, "https://cdn.example/f"),
        other => panic!("{:?}", other),
    }
    match upload.resolved(Resolution::NotFound) {
        UploadAction::Reply(text) => assert_eq!(text, NO_DOWNLOAD_LINK),
        other => panic!("{:?}", other),
    }
}

#[test]
fn sizes_are_checked() {
    let cases: Vec<(Option<u64>, &str)> = vec![
        (None, "⚠️ File is empty"),
        (Some(0), "⚠️ File is empty"),
        (Some(MAX_UPLOAD as u64 + 1), "⚠️ File is too large"),
    ];
    for (length, expected) in cases {
        let mut bot = Bot::new(None, 0, 0);
        let (mut upload, _) = begin(&mut bot, 1, 7);
        match bot.advance_upload(&mut upload, UploadEvent::Response(head(length, "/f.mp4"))) {
            UploadAction::Reply(text) => assert_eq!(text, expected),
            other => panic!("{:?}", other),
        }
        assert!(matches!(bot.advance_upload(&mut upload, UploadEvent::Done), UploadAction::Finish));
        assert!(free(&mut bot, 1));
    }
    let mut bot = Bot::new(None, 0, 0);
    let (mut upload, _) = begin(&mut bot, 1, 7);
    let action = bot.advance_upload(&mut upload, UploadEvent::Response(head(Some(MAX_UPLOAD as u64), "/f.mp4")));
    assert!(matches!(action, UploadAction::SendStatus { .. }));
}

#[test]
fn names_that_are_no_text() {
    let mut bot = Bot::new(None, 0, 0);
    let (mut upload, _) = begin(&mut bot, 1, 7);
    let action = bot.advance_upload(&mut upload, UploadEvent::Response(head(Some(0), "/%FF.mp4")));
    match action {
        UploadAction::Fail(error) => {
            assert_eq!(error.message(), "invalid utf-8 sequence of 1 bytes from index 0");
            assert_eq!(error, UploadError::NameNotText(error.message()));
        }
        other => panic!("{:?}", other),
    }
    assert!(free(&mut bot, 1));
}

#[test]
fn failures_free_the_chat() {
    let mut bot = Bot::new(None, 0, 0);
    let (mut upload, _) = begin(&mut bot, 1, 7);
    let action = bot.advance_upload(&mut upload, UploadEvent::Failed);
    match action {
        UploadAction::Fail(error) => {
            assert_eq!(error, UploadError::ActionFailed);
            assert_eq!(error.message(), "Action failed");
        }
        other => panic!("{:?}", other),
    }
    assert!(free(&mut bot, 1));

    let (mut upload, _) = begin(&mut bot, 1, 7);
    let action = bot.advance_upload(&mut upload, UploadEvent::Done);
    assert!(matches!(action, UploadAction::Fail(UploadError::UnexpectedEvent)));
    assert!(free(&mut bot, 1));
    let action = bot.advance_upload(&mut upload, UploadEvent::Done);
    assert!(matches!(action, UploadAction::Fail(UploadError::UnexpectedEvent)));
}

#[test]
fn only_the_starter_cancels() {
    let mut bot = Bot::new(None, 0, 0);
    assert!(matches!(bot.handle_callback(&press(1, 7)), CallbackAction::Nothing));
    let (mut upload, _) = begin(&mut bot, 1, 7);
    assert!(matches!(bot.handle_callback(&press(1, 7)), CallbackAction::Nothing));
    bot.planned(&mut upload, FilePlan { name: Ok("f".to_string()), length: 3, is_video: false });
    match bot.handle_callback(&press(1, 8)) {
        CallbackAction::Alert { text, cache_secs } => {
            assert_eq!(text, NOT_YOURS);
            assert_eq!(cache_secs, 0);
        }
        other => panic!("{:?}", other),
    }
    assert!(matches!(bot.handle_callback(&press(2, 7)), CallbackAction::Nothing));
    match bot.handle_callback(&press(1, 7)) {
        CallbackAction::Cancel { message, text } => {
            assert_eq!(message, 9);
            assert_eq!(text, CANCELLED);
        }
        other => panic!("{:?}", other),
    }
    assert!(matches!(bot.handle_callback(&press(1, 7)), CallbackAction::Nothing));
    assert!(matches!(bot.handle_cancel(1, 8), CallbackAction::Nothing));
    assert!(!free(&mut bot, 1));
    bot.advance_upload(&mut upload, UploadEvent::Failed);
    assert!(free(&mut bot, 1));
}

#[test]
fn other_buttons_do_nothing() {
    let mut bot = Bot::new(None, 0, 0);
    let (mut upload, _) = begin(&mut bot, 1, 7);
    bot.planned(&mut upload, FilePlan { name: Ok("f".to_string()), length: 3, is_video: false });
    for data in ["Cancel", "cancel ", "", "cance"] {
        let query = CallbackQuery { chat_id: 1, sender_id: 7, data: data.as_bytes().to_vec() };
        assert!(matches!(bot.handle_callback(&query), CallbackAction::Nothing));
    }
    assert!(matches!(bot.handle_callback(&press(1, 7)), CallbackAction::Cancel { .. }));
}
