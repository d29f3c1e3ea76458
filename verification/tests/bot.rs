use url_uploader::bot::{
    handle_start, handle_upload, route_command, Bot, CallbackAction, CallbackQuery, ChatKind, Command, Message,
    MessageAction, Route, Update, UpdateAction,
};
use url_uploader::messages::{NO_URL, WELCOME};

fn bot() -> Bot {
    Bot::new(Some("UploadBot".to_string()), -100, -200)
}

fn message(chat_id: i64, chat: ChatKind, text: &str) -> Message {
    Message { id: 5, chat_id, chat, sender_id: Some(7), text: text.to_string() }
}

fn command(name: &str, via: Option<&str>, arg: Option<&str>) -> Option<Command> {
    Some(Command {
        name: name.to_string(),
        via: via.map(|v| v.to_string()),
        arg: arg.map(|a| a.to_string()),
    })
}

#[test]
fn input_channel_posts_are_batches() {
    let msg = message(-100, ChatKind::Channel, "/start");
    assert!(matches!(bot().handle_message(&msg, command("start", None, None)), MessageAction::Batch));
    let msg = message(-101, ChatKind::Channel, "https://example.com");
    assert!(matches!(bot().handle_message(&msg, None), MessageAction::Ignore));
    assert_eq!(bot().store_channel_id(), -200);
}

#[test]
fn start_command() {
    let user = message(1, ChatKind::User, "/start");
    let group = message(2, ChatKind::Group, "/start");
    match bot().handle_message(&user, command("start", None, None)) {
        MessageAction::Reply { text, html } => {
            assert_eq!(text, WELCOME);
            assert!(html);
        }
        other => panic!("{:?}", other),
    }
    assert!(matches!(handle_start(), MessageAction::Reply { .. }));
    assert!(matches!(bot().route_message(&group, command("start", None, None)), Route::Ignore));
    assert!(matches!(bot().route_message(&group, command("start", Some("uploadBOT"), None)), Route::Start));
    assert!(matches!(bot().route_message(&group, command("start", Some("other"), None)), Route::Ignore));
    assert!(matches!(bot().route_message(&user, command("start", Some("other"), None)), Route::Ignore));
}

#[test]
fn bots_without_a_name() {
    let nameless = Bot::new(None, 0, 0);
    let user = message(1, ChatKind::User, "/start");
    assert!(matches!(nameless.route_message(&user, command("start", Some("x"), None)), Route::Ignore));
    assert!(matches!(nameless.route_message(&user, command("start", Some(""), None)), Route::Start));
}

#[test]
fn upload_command() {
    for kind in [ChatKind::User, ChatKind::Group] {
        let msg = message(2, kind, "/upload");
        match bot().handle_message(&msg, command("upload", None, Some("https://Example.com/a b"))) {
            MessageAction::Upload(link) => {
                assert_eq!(link.text, "https://example.com/a%20b");
                assert_eq!(link.domain, Some("example.com".to_string()));
            }
            other => panic!("{:?}", other),
        }
        match bot().handle_message(&msg, command("upload", None, None)) {
            MessageAction::Reply { text, html } => {
                assert_eq!(text, NO_URL);
                assert!(!html);
            }
            other => panic!("{:?}", other),
        }
    }
    match handle_upload(Some("example.com".to_string())) {
        MessageAction::Reply { text, .. } => assert_eq!(text, "Invalid URL: relative URL without a base"),
        other => panic!("{:?}", other),
    }
}

#[test]
fn plain_texts() {
    let user = message(1, ChatKind::User, "https://example.com/f.zip");
    let group = message(2, ChatKind::Group, "https://example.com/f.zip");
    let words = message(1, ChatKind::User, "hello there");
    assert!(matches!(bot().handle_message(&user, None), MessageAction::Upload(_)));
    assert!(matches!(bot().handle_message(&user, command("help", None, None)), MessageAction::Upload(_)));
    assert!(matches!(bot().handle_message(&group, None), MessageAction::Ignore));
    assert!(matches!(bot().handle_message(&group, command("help", None, None)), MessageAction::Ignore));
    assert!(matches!(bot().handle_message(&words, None), MessageAction::Ignore));
}

#[test]
fn routes_of_commands() {
    let c = |name: &str| command(name, None, Some("x")).unwrap();
    assert!(matches!(route_command(ChatKind::User, c("upload"), false), Route::Ignore));
    match route_command(ChatKind::Group, c("upload"), true) {
        Route::Upload(arg) => assert_eq!(arg, Some("x".to_string())),
        other => panic!("{:?}", other),
    }
    assert!(matches!(route_command(ChatKind::User, c("other"), true), Route::Text));
}

#[test]
fn updates() {
    let mut bot = bot();
    let msg = message(1, ChatKind::User, "hello");
    assert!(matches!(
        bot.handle_update(Update::NewMessage(msg, None)),
        UpdateAction::Message(MessageAction::Ignore)
    ));
    let query = CallbackQuery { chat_id: 1, sender_id: 7, data: b"cancel".to_vec() };
    assert!(matches!(
        bot.handle_update(Update::CallbackQuery(query)),
        UpdateAction::Callback(CallbackAction::Nothing)
    ));
    assert!(matches!(bot.handle_update(Update::Other), UpdateAction::Nothing));
}
