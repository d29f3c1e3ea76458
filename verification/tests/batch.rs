use url_uploader::batch::{
    close_batch, extract_file_id_from_message, get_batch_post, handle_input_channel_message, mark_batch_failed,
    mark_batch_timeout, completion_message, start_batch, BatchAction, BatchEvent, BatchOutcome, BatchRun,
    BatchStart, LinkAction, LinkError, LinkEvent, LinkRun, Media, PostChange, BATCH_TIMEOUT_SECS,
};
use url_uploader::bot::{ChatKind, Message};
use url_uploader::filename::ResponseHead;
use url_uploader::models::{BatchPost, PostStatus, Timestamp, UploadedFile, BATCH_HOURS};

const NOW: Timestamp = Timestamp { secs: 1_700_000_000, nanos: 5 };

fn post(text: &str) -> Message {
    Message { id: 3, chat_id: -100, chat: ChatKind::Channel, sender_id: None, text: text.to_string() }
}

fn file(id: &str) -> UploadedFile {
    UploadedFile {
        original_url: "https://terabox.com/1".to_string(),
        file_name: "f".to_string(),
        telegram_file_id: id.to_string(),
        store_channel_msg_id: 4,
    }
}

fn batch(links: &[&str]) -> BatchPost {
    let links = links.iter().map(|l| l.to_string()).collect();
    BatchPost::new_at(3, -100, "text".to_string(), links, NOW).unwrap()
}

fn head(length: u64, path: &str) -> ResponseHead {
    ResponseHead { content_length: Some(length), content_disposition: None, content_type: None, path: path.to_string() }
}

#[test]
fn new_batches() {
    let post = batch(&["a", "b"]);
    assert_eq!(post.id, None);
    assert_eq!((post.post_id, post.channel_id), (3, -100));
    assert_eq!(post.message_text, "text");
    assert_eq!(post.detected_links, vec!["a".to_string(), "b".to_string()]);
    assert_eq!(post.uploaded.len(), 0);
    assert_eq!(post.status, PostStatus::InProgress);
    assert_eq!(post.created_at, NOW);
    assert_eq!(post.expires_at, Timestamp { secs: 1_700_021_600, nanos: 5 });
}

#[test]
fn batches_of_now() {
    let post = BatchPost::new(1, 2, String::new(), Vec::new()).unwrap();
    assert_eq!(post.expires_at.secs - post.created_at.secs, 6 * 60 * 60);
    assert_eq!(post.expires_at.nanos, post.created_at.nanos);
    assert!(post.created_at.secs > 1_600_000_000);
    assert!(!post.is_expired());
    let mut old = post.clone();
    old.expires_at = NOW;
    assert!(old.is_expired());
}

#[test]
fn batches_at_the_end_of_time() {
    let last = Timestamp { secs: 8_210_266_876_799, nanos: 999_999_999 };
    let links = || vec!["a".to_string()];
    assert!(BatchPost::new_at(1, 2, String::new(), links(), last).is_none());
    let late = Timestamp { secs: last.secs - 6 * 3600, nanos: 0 };
    assert_eq!(BatchPost::new_at(1, 2, String::new(), links(), late).unwrap().expires_at.secs, last.secs);
    let later = Timestamp { secs: late.secs + 1, nanos: 0 };
    assert!(BatchPost::new_at(1, 2, String::new(), links(), later).is_none());
    assert!(matches!(start_batch(&post("x"), links(), last), BatchStart::NoTime));
    let first = Timestamp { secs: -8_334_601_228_800, nanos: 0 };
    assert_eq!(
        BatchPost::new_at(1, 2, String::new(), links(), first).unwrap().expires_at.secs,
        -8_334_601_228_800 + 21_600
    );
}

#[test]
fn expiry() {
    let post = batch(&["a"]);
    assert!(!post.is_expired_at(NOW));
    assert!(!post.is_expired_at(post.expires_at));
    assert!(post.is_expired_at(Timestamp { secs: post.expires_at.secs, nanos: 6 }));
    assert!(!post.is_expired_at(Timestamp { secs: post.expires_at.secs, nanos: 4 }));
    assert!(post.is_expired_at(Timestamp { secs: post.expires_at.secs + 1, nanos: 0 }));
    assert_eq!(BATCH_TIMEOUT_SECS, 6 * 60 * 60);
    assert_eq!(BATCH_HOURS, 6);
}

#[test]
fn done_with_the_last_file() {
    let mut post = batch(&["a", "b"]);
    post.add_uploaded_file(file("1"));
    assert_eq!(post.status, PostStatus::InProgress);
    post.add_uploaded_file(file("2"));
    assert_eq!(post.status, PostStatus::Done);
    post.add_uploaded_file(file("3"));
    assert_eq!(post.status, PostStatus::Done);
    let ids: Vec<String> = post.uploaded.iter().map(|f| f.telegram_file_id.clone()).collect();
    assert_eq!(ids, vec!["1".to_string(), "2".to_string(), "3".to_string()]);
}

#[test]
fn batches_without_links_stay_in_progress() {
    let mut post = batch(&[]);
    assert_eq!(post.status, PostStatus::InProgress);
    post.add_uploaded_file(file("1"));
    assert_eq!(post.status, PostStatus::InProgress);
}

#[test]
fn marks() {
    let mut post = batch(&["a"]);
    post.mark_timeout();
    assert_eq!(post.status, PostStatus::Timeout);
    post.mark_failed();
    assert_eq!(post.status, PostStatus::Failed);
    post.add_uploaded_file(file("1"));
    assert_eq!(post.status, PostStatus::Done);
}

#[test]
fn names_of_statuses() {
    let all = [PostStatus::InProgress, PostStatus::Done, PostStatus::Timeout, PostStatus::Failed];
    let names = ["in_progress", "done", "timeout", "failed"];
    for (status, name) in all.iter().zip(names) {
        assert_eq!(status.as_str(), name);
        assert_eq!(PostStatus::from_name(name), Some(*status));
    }
    assert_eq!(PostStatus::from_name("Done"), None);
}

#[test]
fn posts_start_batches() {
    assert!(matches!(handle_input_channel_message(&post("no links, terabox.com")), BatchStart::NoLinks));
    match handle_input_channel_message(&post("https://terabox.com/1 https://example.com/2")) {
        BatchStart::Begun(batch) => {
            assert_eq!(batch.detected_links, vec!["https://terabox.com/1".to_string()]);
            assert_eq!(batch.post_id, 3);
            assert_eq!(batch.channel_id, -100);
            assert_eq!(batch.message_text, "https://terabox.com/1 https://example.com/2");
        }
        other => panic!("{:?}", other),
    }
    assert!(matches!(start_batch(&post("x"), Vec::new(), NOW), BatchStart::NoLinks));
}

fn done_batch() -> BatchPost {
    let mut post = batch(&["a", "b"]);
    post.add_uploaded_file(file("11"));
    post.add_uploaded_file(file("-22"));
    post
}

fn at_review() -> BatchRun {
    let (mut run, action) = BatchRun::start(3, -100, &vec!["a".to_string(), "b".to_string()]);
    match action {
        BatchAction::Process(link) => assert_eq!(link, "a"),
        other => panic!("{:?}", other),
    }
    match run.advance(BatchEvent::LinkEnded { stored: false }) {
        BatchAction::Process(link) => assert_eq!(link, "b"),
        other => panic!("{:?}", other),
    }
    match run.advance(BatchEvent::LinkEnded { stored: true }) {
        BatchAction::Fetch { post_id, channel_id } => assert_eq!((post_id, channel_id), (3, -100)),
        other => panic!("{:?}", other),
    }
    run
}

#[test]
fn every_link_has_its_turn() {
    at_review();
    let (_, action) = BatchRun::start(3, -100, &Vec::new());
    assert!(matches!(action, BatchAction::Fetch { .. }));
}

#[test]
fn done_batches_are_reported() {
    let mut run = at_review();
    match run.advance(BatchEvent::Post(Some(done_batch()))) {
        BatchAction::Report(text) => assert_eq!(text, "/store_file_id\n11\n-22"),
        other => panic!("{:?}", other),
    }
    assert!(matches!(run.advance(BatchEvent::Done), BatchAction::Finish(None)));
    assert!(matches!(run.advance(BatchEvent::TimedOut), BatchAction::Finish(None)));
}

#[test]
fn other_batches_are_not() {
    assert!(matches!(at_review().advance(BatchEvent::Post(Some(batch(&["a"])))), BatchAction::Finish(None)));
    assert!(matches!(at_review().advance(BatchEvent::Post(None)), BatchAction::Finish(None)));
    assert!(matches!(at_review().advance(BatchEvent::Failed), BatchAction::Finish(None)));
}

#[test]
fn batches_that_fail() {
    let mut run = at_review();
    run.advance(BatchEvent::Post(Some(done_batch())));
    match run.advance(BatchEvent::Failed) {
        BatchAction::Finish(Some(update)) => {
            assert_eq!((update.post_id, update.channel_id), (3, -100));
            assert!(matches!(update.change, PostChange::SetStatus(PostStatus::Failed)));
        }
        other => panic!("{:?}", other),
    }
}

#[test]
fn batches_that_take_too_long() {
    match at_review().advance(BatchEvent::TimedOut) {
        BatchAction::Finish(Some(update)) => {
            assert!(matches!(update.change, PostChange::SetStatus(PostStatus::Timeout)));
        }
        other => panic!("{:?}", other),
    }
    let (mut run, _) = BatchRun::start(3, -100, &vec!["a".to_string()]);
    assert!(matches!(run.advance(BatchEvent::TimedOut), BatchAction::Finish(Some(_))));
}

#[test]
fn batches_end() {
    let (mut run, _) = BatchRun::start(3, -100, &vec!["a".to_string()]);
    run.advance(BatchEvent::LinkEnded { stored: true });
    run.advance(BatchEvent::Post(Some(done_batch())));
    assert!(matches!(run.advance(BatchEvent::Done), BatchAction::Finish(None)));
    assert!(matches!(run.advance(BatchEvent::LinkEnded { stored: true }), BatchAction::Finish(None)));
    let (mut run, _) = BatchRun::start(3, -100, &vec!["a".to_string()]);
    assert!(matches!(run.advance(BatchEvent::Done), BatchAction::Finish(Some(_))));
    assert!(matches!(run.advance(BatchEvent::Done), BatchAction::Finish(None)));
}

#[test]
fn outcomes() {
    assert!(close_batch(1, 2, BatchOutcome::Completed).is_none());
    let failed = close_batch(1, 2, BatchOutcome::Failed).unwrap();
    assert_eq!((failed.post_id, failed.channel_id), (1, 2));
    assert!(matches!(failed.change, PostChange::SetStatus(PostStatus::Failed)));
    let late = close_batch(1, 2, BatchOutcome::TimedOut).unwrap();
    assert!(matches!(late.change, PostChange::SetStatus(PostStatus::Timeout)));
    assert!(matches!(mark_batch_failed(1, 2).change, PostChange::SetStatus(PostStatus::Failed)));
    assert!(matches!(mark_batch_timeout(1, 2).change, PostChange::SetStatus(PostStatus::Timeout)));
}

#[test]
fn reports() {
    assert_eq!(completion_message(&done_batch()), "/store_file_id\n11\n-22");
    assert_eq!(completion_message(&batch(&[])), "/store_file_id");
}

#[test]
fn ids_of_files() {
    assert_eq!(extract_file_id_from_message(Some(Media::Document(12))), Ok("12".to_string()));
    assert_eq!(extract_file_id_from_message(Some(Media::Video(-3))), Ok("-3".to_string()));
    assert_eq!(extract_file_id_from_message(Some(Media::Other)), Err(LinkError::UnsupportedMedia));
    assert_eq!(extract_file_id_from_message(None), Err(LinkError::NoMedia));
}

#[test]
fn missing_records() {
    assert!(matches!(get_batch_post(None), Err(LinkError::PostNotFound)));
    assert!(get_batch_post(Some(batch(&["a"]))).is_ok());
    assert_eq!(LinkError::PostNotFound.message(), "Batch post not found");
    assert_eq!(LinkError::NoDownloadLink.message(), "Failed to get download link from Terabox");
    assert_eq!(LinkError::FileEmpty.message(), "File is empty");
    assert_eq!(LinkError::FileTooLarge.message(), "File is too large");
    assert_eq!(LinkError::UnsupportedMedia.message(), "Unsupported media type");
    assert_eq!(LinkError::NoMedia.message(), "No media found in message");
}

fn start() -> (LinkRun, LinkAction) {
    LinkRun::start(3, -100, -200, "https://terabox.com/1".to_string())
}

fn at_record() -> LinkRun {
    let (mut run, action) = start();
    match action {
        LinkAction::AskApi(request) => assert_eq!(request.query[0].1, "https://terabox.com/1"),
        other => panic!("{:?}", other),
    }
    let body = b"{\"success\":true,\"proxy_url\":\"https://cdn.example/f\"}".to_vec();
    match run.advance(LinkEvent::ApiReply { status: 200, body }) {
        LinkAction::Download(url) => assert_eq!(url, "https://cdn.example/f"),
        other => panic!("{:?}", other),
    }
    match run.advance(LinkEvent::Response(head(5, "/a%20b.MP4"))) {
        LinkAction::Transfer { name, length } => {
            assert_eq!(name, "a%20b.MP4");
            assert_eq!(length, 5);
        }
        other => panic!("{:?}", other),
    }
    match run.advance(LinkEvent::Done) {
        LinkAction::Store { channel_id, text, is_video } => {
            assert_eq!(channel_id, -200);
            assert_eq!(text, "File: a%20b.MP4");
            assert!(is_video);
        }
        other => panic!("{:?}", other),
    }
    match run.advance(LinkEvent::Sent { message_id: 8, media: Some(Media::Document(77)) }) {
        LinkAction::Update(update) => {
            assert_eq!((update.post_id, update.channel_id), (3, -100));
            match update.change {
                PostChange::Push(file) => {
                    assert_eq!(file.original_url, "https://terabox.com/1");
                    assert_eq!(file.file_name, "a%20b.MP4");
                    assert_eq!(file.telegram_file_id, "77");
                    assert_eq!(file.store_channel_msg_id, 8);
                }
                other => panic!("{:?}", other),
            }
        }
        other => panic!("{:?}", other),
    }
    match run.advance(LinkEvent::Done) {
        LinkAction::Fetch { post_id, channel_id } => assert_eq!((post_id, channel_id), (3, -100)),
        other => panic!("{:?}", other),
    }
    run
}

#[test]
fn the_last_link_ends_the_batch() {
    let mut run = at_record();
    let mut post = batch(&["https://terabox.com/1"]);
    post.uploaded.push(file("77"));
    match run.advance(LinkEvent::Post(Some(post))) {
        LinkAction::Update(update) => assert!(matches!(update.change, PostChange::SetStatus(PostStatus::Done))),
        other => panic!("{:?}", other),
    }
    match run.advance(LinkEvent::Done) {
        LinkAction::Finish(file) => assert_eq!(file.telegram_file_id, "77"),
        other => panic!("{:?}", other),
    }
}

#[test]
fn other_links_do_not() {
    let mut post = batch(&["a", "b"]);
    post.uploaded.push(file("77"));
    assert!(matches!(at_record().advance(LinkEvent::Post(Some(post))), LinkAction::Finish(_)));
    assert!(matches!(at_record().advance(LinkEvent::Post(None)), LinkAction::Finish(_)));
    assert!(matches!(at_record().advance(LinkEvent::Failed), LinkAction::Finish(_)));
}

#[test]
fn links_that_fail() {
    let (mut run, _) = start();
    let action = run.advance(LinkEvent::ApiReply { status: 403, body: Vec::new() });
    assert!(matches!(action, LinkAction::Fail(LinkError::NoDownloadLink)));
    let (mut run, _) = start();
    let action = run.advance(LinkEvent::ApiReply { status: 200, body: Vec::new() });
    match action {
        LinkAction::Fail(error) => {
            assert_eq!(error.message(), "EOF while parsing a value at line 1 column 0");
            assert_eq!(error, LinkError::BadReply(error.message()));
        }
        other => panic!("{:?}", other),
    }
    let (mut run, _) = start();
    assert!(matches!(run.advance(LinkEvent::Failed), LinkAction::Fail(LinkError::ActionFailed)));
    let (mut run, _) = start();
    assert!(matches!(run.advance(LinkEvent::Done), LinkAction::Fail(LinkError::UnexpectedEvent)));
    assert!(matches!(run.advance(LinkEvent::Done), LinkAction::Fail(LinkError::UnexpectedEvent)));
}

#[test]
fn steps_of_a_link() {
    let (mut run, _) = start();
    match run.looked_up(Err("x".to_string())) {
        LinkAction::Fail(error) => assert_eq!(error, LinkError::BadReply("x".to_string())),
        other => panic!("{:?}", other),
    }
    let (mut run, _) = start();
    assert!(matches!(run.responded(&head(0, "/f")), LinkAction::Fail(LinkError::FileEmpty)));
    let (mut run, _) = start();
    let action = run.responded(&head(2_147_483_649, "/f"));
    assert!(matches!(action, LinkAction::Fail(LinkError::FileTooLarge)));
    let (mut run, _) = start();
    match run.responded(&head(1, "mail")) {
        LinkAction::Transfer { name, .. } => assert_eq!(name, "unknown_file.bin"),
        other => panic!("{:?}", other),
    }
    assert!(matches!(run.transferred(false), LinkAction::Store { is_video: false, .. }));
    assert!(matches!(run.stored(1, None), LinkAction::Fail(LinkError::NoMedia)));
    let (mut run, _) = start();
    assert!(matches!(run.stored(1, Some(Media::Other)), LinkAction::Fail(LinkError::UnsupportedMedia)));
    assert!(matches!(run.reviewed(None), LinkAction::Finish(_)));
}

/// Works a batch through: `lengths` are the lengths of its links' files. The report, if
/// there is one, and the status at the end.
fn work_through(lengths: &[u64]) -> (Option<String>, PostStatus) {
    let links: Vec<String> = (0..lengths.len()).map(|i| format!("https://terabox.com/{}", i)).collect();
    let mut record = BatchPost::new_at(3, -100, String::new(), links.clone(), NOW).unwrap();
    let mut turn = 0;
    let mut report = None;
    let (mut run, mut action) = BatchRun::start(3, -100, &links);
    loop {
        let event = match action {
            BatchAction::Process(link) => {
                assert_eq!(link, links[turn]);
                turn += 1;
                let (mut work, mut next) = LinkRun::start(3, -100, -200, link);
                let stored = loop {
                    let event = match next {
                        LinkAction::AskApi(_) => LinkEvent::ApiReply {
                            status: 200,
                            body: b"{\"success\":true,\"proxy_url\":\"https://cdn.example/f\"}".to_vec(),
                        },
                        LinkAction::Download(_) => LinkEvent::Response(head(lengths[turn - 1], "/f")),
                        LinkAction::Transfer { .. } => LinkEvent::Done,
                        LinkAction::Store { .. } => {
                            LinkEvent::Sent { message_id: 1, media: Some(Media::Document(turn as i64)) }
                        }
                        LinkAction::Update(update) => {
                            match update.change {
                                PostChange::Push(file) => record.uploaded.push(file),
                                PostChange::SetStatus(status) => record.status = status,
                            }
                            LinkEvent::Done
                        }
                        LinkAction::Fetch { .. } => LinkEvent::Post(Some(record.clone())),
                        LinkAction::Finish(_) => break true,
                        LinkAction::Fail(_) => break false,
                    };
                    next = work.advance(event);
                };
                BatchEvent::LinkEnded { stored }
            }
            BatchAction::Fetch { .. } => BatchEvent::Post(Some(record.clone())),
            BatchAction::Report(text) => {
                report = Some(text);
                BatchEvent::Done
            }
            BatchAction::Finish(update) => {
                assert!(update.is_none());
                return (report, record.status);
            }
        };
        action = run.advance(event);
    }
}

#[test]
fn whole_batches() {
    assert_eq!(work_through(&[5, 6]), (Some("/store_file_id\n1\n2".to_string()), PostStatus::Done));
    assert_eq!(work_through(&[5, 0, 7]), (None, PostStatus::InProgress));
    assert_eq!(work_through(&[0]), (None, PostStatus::InProgress));
}
