//! Batches: a post of the input channel with Terabox links, whose files go one after
//! the other into the store channel.
//!
//! Like an upload, the work on a link alternates with the world outside: actions go
//! out, their outcomes come back as events.

use vstd::prelude::*;

use crate::bot::{Message, MessageView};
use crate::external::{clock, lower};
use crate::filename::{
    body_length, body_length_of, extract_filename_from_response, is_video_file, size_error,
    size_error_of, stored_name, video_name, ResponseHead, ResponseHeadView, SizeError,
};
use crate::links::{
    extract_terabox_links, final_stream_link, reply_link, resolution_view, stream_link_request,
    stream_link_request_for, terabox_links, ApiRequest, ApiRequestView,
};
use crate::messages::{caption, caption_text, STORE_COMMAND};
use crate::models::{
    BatchPost, BatchPostView, PostStatus, Timestamp, UploadedFile, UploadedFileView, BATCH_HOURS,
};
use crate::text::{decimal, join, joined, opt_text, signed_decimal, texts};

verus! {

/// How many seconds the links of a batch may take altogether.
pub const BATCH_TIMEOUT_SECS: u64 = 21600;

// ---------------------------------------------------------------------------
// The start

/// What a post of the input channel starts.
#[derive(Debug)]
pub enum BatchStart {
    /// Nothing: it has no Terabox link.
    NoLinks,
    /// Nothing: the clock is at its end.
    NoTime,
    /// This batch.
    Begun(BatchPost),
}

/// The value of a [`BatchStart`].
pub ghost enum BatchStartView {
    NoLinks,
    NoTime,
    Begun(BatchPostView),
}

impl View for BatchStart {
    type V = BatchStartView;

    open spec fn view(&self) -> BatchStartView {
        match self {
            BatchStart::NoLinks => BatchStartView::NoLinks,
            BatchStart::NoTime => BatchStartView::NoTime,
            BatchStart::Begun(post) => BatchStartView::Begun(post@),
        }
    }
}

/// What a post with these links starts at `now`.
pub open spec fn batch_start(msg: MessageView, links: Seq<Seq<char>>, now: Timestamp) -> BatchStartView {
    if links.len() == 0 {
        BatchStartView::NoLinks
    } else if now.secs + 3600 * BATCH_HOURS > Timestamp::last_second() {
        BatchStartView::NoTime
    } else {
        BatchStartView::Begun(BatchPostView::starting(msg.id, msg.chat_id, msg.text, links, now))
    }
}

/// What a post with these links starts at `now`.
pub fn start_batch(msg: &Message, links: Vec<String>, now: Timestamp) -> (r: BatchStart)
    requires
        now.valid(),
    ensures
        r@ == batch_start(msg@, texts(links@), now),
        r is NoLinks <==> links@.len() == 0,
        r matches BatchStart::Begun(post) ==> {
            &&& post@.detected_links == texts(links@)
            &&& post@.message_text == msg@.text
            &&& post.post_id == msg.id
            &&& post.channel_id == msg.chat_id
        },
{
    if links.len() == 0 {
        return BatchStart::NoLinks;
    }
    match BatchPost::new_at(msg.id, msg.chat_id, msg.text.clone(), links, now) {
        Some(post) => BatchStart::Begun(post),
        None => BatchStart::NoTime,
    }
}

/// What a post of the input channel starts now. The clock is read only where the post
/// has Terabox links.
pub fn handle_input_channel_message(msg: &Message) -> (r: BatchStart)
    ensures
        r is NoLinks <==> terabox_links(msg@.text).len() == 0,
        r matches BatchStart::Begun(post) ==> {
            &&& post@.detected_links == terabox_links(msg@.text)
            &&& post@.message_text == msg@.text
            &&& post.post_id == msg.id
            &&& post.channel_id == msg.chat_id
        },
        exists|now: Timestamp| #[trigger]
            now.valid() && now.secs >= 0 && r@ == batch_start(msg@, terabox_links(msg@.text), now),
{
    let links: Vec<String> = extract_terabox_links(msg.text.as_str());
    if links.len() == 0 {
        proof {
            let now = Timestamp { secs: 0, nanos: 0 };
            assert(now.valid() && batch_start(msg@, terabox_links(msg@.text), now) is NoLinks);
        }
        return BatchStart::NoLinks;
    }
    let now: Timestamp = clock();
    start_batch(msg, links, now)
}

// ---------------------------------------------------------------------------
// The record

/// A change of a batch's record.
#[derive(Debug)]
pub enum PostChange {
    /// One more file.
    Push(UploadedFile),
    /// Another status.
    SetStatus(PostStatus),
}

/// The value of a [`PostChange`].
pub ghost enum PostChangeView {
    Push(UploadedFileView),
    SetStatus(PostStatus),
}

impl View for PostChange {
    type V = PostChangeView;

    open spec fn view(&self) -> PostChangeView {
        match self {
            PostChange::Push(file) => PostChangeView::Push(file@),
            PostChange::SetStatus(status) => PostChangeView::SetStatus(*status),
        }
    }
}

impl PostChangeView {
    /// The record after the change.
    pub open spec fn applied_to(self, post: BatchPostView) -> BatchPostView {
        match self {
            PostChangeView::Push(file) => post.with_file(file),
            PostChangeView::SetStatus(status) => post.with_status(status),
        }
    }
}

/// A change of the record of the batch for one post of one channel.
#[derive(Debug)]
pub struct PostUpdate {
    pub post_id: i32,
    pub channel_id: i64,
    pub change: PostChange,
}

/// The value of a [`PostUpdate`].
pub ghost struct PostUpdateView {
    pub post_id: i32,
    pub channel_id: i64,
    pub change: PostChangeView,
}

impl View for PostUpdate {
    type V = PostUpdateView;

    open spec fn view(&self) -> PostUpdateView {
        PostUpdateView {
            post_id: self.post_id,
            channel_id: self.channel_id,
            change: self.change@,
        }
    }
}

/// The change that notes that a batch failed.
pub fn mark_batch_failed(post_id: i32, channel_id: i64) -> (r: PostUpdate)
    ensures
        r@ == (PostUpdateView {
            post_id,
            channel_id,
            change: PostChangeView::SetStatus(PostStatus::Failed),
        }),
{
    PostUpdate { post_id, channel_id, change: PostChange::SetStatus(PostStatus::Failed) }
}

/// The change that notes that a batch took too long.
pub fn mark_batch_timeout(post_id: i32, channel_id: i64) -> (r: PostUpdate)
    ensures
        r@ == (PostUpdateView {
            post_id,
            channel_id,
            change: PostChangeView::SetStatus(PostStatus::Timeout),
        }),
{
    PostUpdate { post_id, channel_id, change: PostChange::SetStatus(PostStatus::Timeout) }
}

/// How the work on a batch ended.
#[derive(Clone, Copy, Debug, PartialEq, Eq, Structural)]
pub enum BatchOutcome {
    Completed,
    Failed,
    TimedOut,
}

/// The change that the end of the work on a batch calls for: none where it went well.
pub open spec fn closing_update(post_id: i32, channel_id: i64, outcome: BatchOutcome) -> Option<
    PostUpdateView,
> {
    match outcome {
        BatchOutcome::Completed => None,
        BatchOutcome::Failed => Some(
            PostUpdateView {
                post_id,
                channel_id,
                change: PostChangeView::SetStatus(PostStatus::Failed),
            },
        ),
        BatchOutcome::TimedOut => Some(
            PostUpdateView {
                post_id,
                channel_id,
                change: PostChangeView::SetStatus(PostStatus::Timeout),
            },
        ),
    }
}

/// The change that the end of the work on a batch calls for.
pub fn close_batch(post_id: i32, channel_id: i64, outcome: BatchOutcome) -> (r: Option<PostUpdate>)
    ensures
        opt_update(r) == closing_update(post_id, channel_id, outcome),
{
    match outcome {
        BatchOutcome::Completed => None,
        BatchOutcome::Failed => Some(mark_batch_failed(post_id, channel_id)),
        BatchOutcome::TimedOut => Some(mark_batch_timeout(post_id, channel_id)),
    }
}

// ---------------------------------------------------------------------------
// The links, one after the other

/// What the work on a batch waits for.
#[derive(Clone, Copy, Debug, PartialEq, Eq, Structural)]
pub enum BatchStage {
    /// The end of the work on a link.
    Links,
    /// The batch's record.
    Review,
    /// The report.
    Report,
    /// Nothing: the work has ended.
    Finished,
}

/// The work on a batch.
#[derive(Debug)]
pub struct BatchRun {
    post_id: i32,
    channel_id: i64,
    links: Vec<String>,
    next: usize,
    stage: BatchStage,
}

/// The value of a [`BatchRun`].
pub ghost struct BatchRunView {
    /// The post of the batch.
    pub post_id: i32,
    /// The channel of the post.
    pub channel_id: i64,
    pub links: Seq<Seq<char>>,
    /// How many links had their turn.
    pub next: int,
    pub stage: BatchStage,
}

impl View for BatchRun {
    type V = BatchRunView;

    closed spec fn view(&self) -> BatchRunView {
        BatchRunView {
            post_id: self.post_id,
            channel_id: self.channel_id,
            links: texts(self.links@),
            next: self.next as int,
            stage: self.stage,
        }
    }
}

impl BatchRunView {
    /// The work at another stage.
    pub open spec fn at(self, stage: BatchStage) -> BatchRunView {
        BatchRunView { stage, ..self }
    }

    /// How many more events the work can take at most.
    pub open spec fn events_left(self) -> int {
        match self.stage {
            BatchStage::Links => self.links.len() - self.next + 3,
            BatchStage::Review => 2,
            BatchStage::Report => 1,
            BatchStage::Finished => 0,
        }
    }
}

/// The outcome of the work's last action.
#[derive(Debug)]
pub enum BatchEvent {
    /// The work on the link has ended, well or badly.
    LinkEnded { stored: bool },
    /// The batch's record, if there is one.
    Post(Option<BatchPost>),
    /// The report was sent.
    Done,
    /// The action failed.
    Failed,
    /// The batch has used up its time.
    TimedOut,
}

/// The value of a [`BatchEvent`].
pub ghost enum BatchEventView {
    LinkEnded { stored: bool },
    Post(Option<BatchPostView>),
    Done,
    Failed,
    TimedOut,
}

/// The value of a record that may be absent.
pub open spec fn opt_post(post: Option<BatchPost>) -> Option<BatchPostView> {
    match post {
        Some(p) => Some(p@),
        None => None,
    }
}

impl View for BatchEvent {
    type V = BatchEventView;

    open spec fn view(&self) -> BatchEventView {
        match self {
            BatchEvent::LinkEnded { stored } => BatchEventView::LinkEnded { stored: *stored },
            BatchEvent::Post(post) => BatchEventView::Post(opt_post(*post)),
            BatchEvent::Done => BatchEventView::Done,
            BatchEvent::Failed => BatchEventView::Failed,
            BatchEvent::TimedOut => BatchEventView::TimedOut,
        }
    }
}

/// What is to be done next for a batch.
#[derive(Debug)]
pub enum BatchAction {
    /// Work on the link.
    Process(String),
    /// Fetch the batch's record.
    Fetch { post_id: i32, channel_id: i64 },
    /// Reply to the post with the text.
    Report(String),
    /// Change the batch's record where a change is called for, and stop.
    Finish(Option<PostUpdate>),
}

/// The value of a [`BatchAction`].
pub ghost enum BatchActionView {
    Process(Seq<char>),
    Fetch { post_id: i32, channel_id: i64 },
    Report(Seq<char>),
    Finish(Option<PostUpdateView>),
}

/// The value of a change that may be absent.
pub open spec fn opt_update(update: Option<PostUpdate>) -> Option<PostUpdateView> {
    match update {
        Some(u) => Some(u@),
        None => None,
    }
}

impl View for BatchAction {
    type V = BatchActionView;

    open spec fn view(&self) -> BatchActionView {
        match self {
            BatchAction::Process(link) => BatchActionView::Process(link@),
            BatchAction::Fetch { post_id, channel_id } => BatchActionView::Fetch {
                post_id: *post_id,
                channel_id: *channel_id,
            },
            BatchAction::Report(text) => BatchActionView::Report(text@),
            BatchAction::Finish(update) => BatchActionView::Finish(opt_update(*update)),
        }
    }
}

/// The next turn: the first link that had none, or, after the last one, the batch's
/// record.
pub open spec fn next_turn(run: BatchRunView) -> (BatchRunView, BatchActionView) {
    if run.next < run.links.len() {
        (
            BatchRunView { next: run.next + 1, ..run },
            BatchActionView::Process(run.links[run.next]),
        )
    } else {
        (
            run.at(BatchStage::Review),
            BatchActionView::Fetch { post_id: run.post_id, channel_id: run.channel_id },
        )
    }
}

/// The start of the work on a batch.
pub open spec fn batch_run_start(post_id: i32, channel_id: i64, links: Seq<Seq<char>>) -> (
    BatchRunView,
    BatchActionView,
) {
    next_turn(BatchRunView { post_id, channel_id, links, next: 0, stage: BatchStage::Links })
}

/// The end of the work on a batch.
pub open spec fn batch_close(run: BatchRunView, outcome: BatchOutcome) -> (
    BatchRunView,
    BatchActionView,
) {
    (
        run.at(BatchStage::Finished),
        BatchActionView::Finish(closing_update(run.post_id, run.channel_id, outcome)),
    )
}

/// The step after the batch's record was fetched: only a batch that is done is
/// reported.
pub open spec fn after_links(run: BatchRunView, post: Option<BatchPostView>) -> (
    BatchRunView,
    BatchActionView,
) {
    if post is Some && post->0.status == PostStatus::Done {
        (
            run.at(BatchStage::Report),
            BatchActionView::Report(completion_text(post->0.uploaded)),
        )
    } else {
        batch_close(run, BatchOutcome::Completed)
    }
}

/// The step of the work on a batch on an event. A link that failed does not stop the
/// others, and a record that cannot be fetched is no failure.
pub open spec fn batch_step(run: BatchRunView, event: BatchEventView) -> (
    BatchRunView,
    BatchActionView,
) {
    match (run.stage, event) {
        (BatchStage::Finished, _) => (run, BatchActionView::Finish(None)),
        (_, BatchEventView::TimedOut) => batch_close(run, BatchOutcome::TimedOut),
        (BatchStage::Links, BatchEventView::LinkEnded { .. }) => next_turn(run),
        (BatchStage::Review, BatchEventView::Post(post)) => after_links(run, post),
        (BatchStage::Review, BatchEventView::Failed) => after_links(run, None),
        (BatchStage::Report, BatchEventView::Done) => batch_close(run, BatchOutcome::Completed),
        (_, _) => batch_close(run, BatchOutcome::Failed),
    }
}

/// The message that ends a batch: the command that stores files, then the id of each
/// file on a line of its own.
pub open spec fn completion_text(uploaded: Seq<UploadedFileView>) -> Seq<char> {
    joined(seq![STORE_COMMAND@] + uploaded.map_values(|f: UploadedFileView| f.telegram_file_id), '\n')
}

/// The message that ends a batch.
pub fn completion_message(post: &BatchPost) -> (r: String)
    ensures
        r@ == completion_text(post@.uploaded),
{
    let mut lines: Vec<String> = Vec::new();
    lines.push(STORE_COMMAND.to_owned());
    let ghost ids = post@.uploaded.map_values(|f: UploadedFileView| f.telegram_file_id);
    assert(texts(lines@) == seq![STORE_COMMAND@] + ids.take(0));
    for i in 0..post.uploaded.len()
        invariant
            ids == post@.uploaded.map_values(|f: UploadedFileView| f.telegram_file_id),
            texts(lines@) == seq![STORE_COMMAND@] + ids.take(i as int),
    {
        let ghost before = lines@;
        lines.push(post.uploaded[i].telegram_file_id.clone());
        proof {
            assert(ids[i as int] == post.uploaded@[i as int].telegram_file_id@);
            assert(ids.take(i + 1) == ids.take(i as int).push(ids[i as int]));
            assert(texts(lines@) == texts(before).push(ids[i as int]));
            assert((seq![STORE_COMMAND@] + ids.take(i as int)).push(ids[i as int]) == seq![
                STORE_COMMAND@,
            ] + ids.take(i + 1));
        }
    }
    assert(ids.take(ids.len() as int) == ids);
    join(&lines, '\n')
}

impl BatchRun {
    /// Starts the work on a batch with these links.
    pub fn start(post_id: i32, channel_id: i64, links: &Vec<String>) -> (r: (BatchRun, BatchAction))
        ensures
            (r.0@, r.1@) == batch_run_start(post_id, channel_id, texts(links@)),
    {
        let copy: Vec<String> = links.clone();
        assert(texts(copy@) == texts(links@));
        let mut run: BatchRun = BatchRun {
            post_id,
            channel_id,
            links: copy,
            next: 0,
            stage: BatchStage::Links,
        };
        let action: BatchAction = run.take_turn();
        (run, action)
    }

    /// The next turn.
    fn take_turn(&mut self) -> (r: BatchAction)
        ensures
            (final(self)@, r@) == next_turn(old(self)@),
    {
        if self.next < self.links.len() {
            let link: String = self.links[self.next].clone();
            self.next = self.next + 1;
            BatchAction::Process(link)
        } else {
            self.stage = BatchStage::Review;
            BatchAction::Fetch { post_id: self.post_id, channel_id: self.channel_id }
        }
    }

    /// Ends the work.
    fn close(&mut self, outcome: BatchOutcome) -> (r: BatchAction)
        ensures
            (final(self)@, r@) == batch_close(old(self)@, outcome),
    {
        self.stage = BatchStage::Finished;
        BatchAction::Finish(close_batch(self.post_id, self.channel_id, outcome))
    }

    /// The step after the batch's record was fetched.
    fn links_ended(&mut self, post: Option<BatchPost>) -> (r: BatchAction)
        ensures
            (final(self)@, r@) == after_links(old(self)@, opt_post(post)),
    {
        if let Ok(post) = get_batch_post(post) {
            if post.status == PostStatus::Done {
                self.stage = BatchStage::Report;
                return BatchAction::Report(completion_message(&post));
            }
        }
        self.close(BatchOutcome::Completed)
    }

    /// The step of the work on an event.
    pub fn advance(&mut self, event: BatchEvent) -> (r: BatchAction)
        ensures
            (final(self)@, r@) == batch_step(old(self)@, event@),
    {
        match (self.stage, event) {
            (BatchStage::Finished, _) => BatchAction::Finish(None),
            (_, BatchEvent::TimedOut) => self.close(BatchOutcome::TimedOut),
            (BatchStage::Links, BatchEvent::LinkEnded { .. }) => self.take_turn(),
            (BatchStage::Review, BatchEvent::Post(post)) => self.links_ended(post),
            (BatchStage::Review, BatchEvent::Failed) => self.links_ended(None),
            (BatchStage::Report, BatchEvent::Done) => self.close(BatchOutcome::Completed),
            (_, _) => self.close(BatchOutcome::Failed),
        }
    }
}

// ---------------------------------------------------------------------------
// One link

/// Why the work on a link failed.
#[derive(Debug, PartialEq, Eq)]
pub enum LinkError {
    /// The service gave no address.
    NoDownloadLink,
    /// The service's reply could not be understood, for this reason.
    BadReply(String),
    /// The file is empty.
    FileEmpty,
    /// The file is too large.
    FileTooLarge,
    /// The message in the store channel holds something else than a file.
    UnsupportedMedia,
    /// The message in the store channel holds no file.
    NoMedia,
    /// There is no record of the batch.
    PostNotFound,
    /// An action failed.
    ActionFailed,
    /// The event was not one that the work waited for.
    UnexpectedEvent,
}

/// The value of a [`LinkError`].
pub ghost enum LinkErrorView {
    NoDownloadLink,
    BadReply(Seq<char>),
    FileEmpty,
    FileTooLarge,
    UnsupportedMedia,
    NoMedia,
    PostNotFound,
    ActionFailed,
    UnexpectedEvent,
}

impl View for LinkError {
    type V = LinkErrorView;

    open spec fn view(&self) -> LinkErrorView {
        match self {
            LinkError::NoDownloadLink => LinkErrorView::NoDownloadLink,
            LinkError::BadReply(reason) => LinkErrorView::BadReply(reason@),
            LinkError::FileEmpty => LinkErrorView::FileEmpty,
            LinkError::FileTooLarge => LinkErrorView::FileTooLarge,
            LinkError::UnsupportedMedia => LinkErrorView::UnsupportedMedia,
            LinkError::NoMedia => LinkErrorView::NoMedia,
            LinkError::PostNotFound => LinkErrorView::PostNotFound,
            LinkError::ActionFailed => LinkErrorView::ActionFailed,
            LinkError::UnexpectedEvent => LinkErrorView::UnexpectedEvent,
        }
    }
}

impl LinkErrorView {
    /// The error in words.
    pub open spec fn text(self) -> Seq<char> {
        match self {
            LinkErrorView::NoDownloadLink => "Failed to get download link from Terabox"@,
            LinkErrorView::BadReply(reason) => reason,
            LinkErrorView::FileEmpty => "File is empty"@,
            LinkErrorView::FileTooLarge => "File is too large"@,
            LinkErrorView::UnsupportedMedia => "Unsupported media type"@,
            LinkErrorView::NoMedia => "No media found in message"@,
            LinkErrorView::PostNotFound => "Batch post not found"@,
            LinkErrorView::ActionFailed => "Action failed"@,
            LinkErrorView::UnexpectedEvent => "Unexpected event"@,
        }
    }
}

impl LinkError {
    /// The error in words.
    pub fn message(&self) -> (r: String)
        ensures
            r@ == self@.text(),
    {
        match self {
            LinkError::NoDownloadLink => "Failed to get download link from Terabox".to_owned(),
            LinkError::BadReply(reason) => reason.clone(),
            LinkError::FileEmpty => "File is empty".to_owned(),
            LinkError::FileTooLarge => "File is too large".to_owned(),
            LinkError::UnsupportedMedia => "Unsupported media type".to_owned(),
            LinkError::NoMedia => "No media found in message".to_owned(),
            LinkError::PostNotFound => "Batch post not found".to_owned(),
            LinkError::ActionFailed => "Action failed".to_owned(),
            LinkError::UnexpectedEvent => "Unexpected event".to_owned(),
        }
    }
}

/// The record that was looked for, or the error that there is none.
pub fn get_batch_post(found: Option<BatchPost>) -> (r: Result<BatchPost, LinkError>)
    ensures
        r == (match found {
            Some(post) => Ok(post),
            None => Err(LinkError::PostNotFound),
        }),
{
    match found {
        Some(post) => Ok(post),
        None => Err(LinkError::PostNotFound),
    }
}

/// What a message holds besides its text.
#[derive(Clone, Copy, Debug, PartialEq, Eq, Structural)]
pub enum Media {
    /// A document of this id.
    Document(i64),
    /// A video of this id.
    Video(i64),
    /// Anything else.
    Other,
}

/// The id of the file of a message.
pub open spec fn file_id(media: Option<Media>) -> Result<Seq<char>, LinkErrorView> {
    match media {
        Some(Media::Document(id)) => Ok(decimal(id as int)),
        Some(Media::Video(id)) => Ok(decimal(id as int)),
        Some(Media::Other) => Err(LinkErrorView::UnsupportedMedia),
        None => Err(LinkErrorView::NoMedia),
    }
}

/// The id of the file of a message.
pub fn extract_file_id_from_message(media: Option<Media>) -> (r: Result<String, LinkError>)
    ensures
        match r {
            Ok(id) => file_id(media) == (Ok::<Seq<char>, LinkErrorView>(id@)),
            Err(error) => file_id(media) == (Err::<Seq<char>, LinkErrorView>(error@)),
        },
{
    match media {
        Some(Media::Document(id)) => Ok(signed_decimal(id)),
        Some(Media::Video(id)) => Ok(signed_decimal(id)),
        Some(Media::Other) => Err(LinkError::UnsupportedMedia),
        None => Err(LinkError::NoMedia),
    }
}

/// What the work on a link waits for.
#[derive(Clone, Copy, Debug, PartialEq, Eq, Structural)]
pub enum LinkStage {
    /// The reply of the service that resolves Terabox links.
    Api,
    /// The response that brings the file.
    Download,
    /// The transfer of the file.
    Transfer,
    /// The message in the store channel.
    Store,
    /// The file in the batch's record.
    Record,
    /// The batch's record.
    Review,
    /// The status in the batch's record.
    Mark,
    /// Nothing: the work has ended.
    Finished,
}

/// The work on a link of a batch.
#[derive(Debug)]
pub struct LinkRun {
    post_id: i32,
    channel_id: i64,
    store_channel_id: i64,
    stage: LinkStage,
    url: String,
    name: String,
    length: usize,
    file_id: String,
    message_id: i32,
}

/// The value of a [`LinkRun`].
pub ghost struct LinkRunView {
    /// The post of the batch.
    pub post_id: i32,
    /// The channel of the post.
    pub channel_id: i64,
    pub store_channel_id: i64,
    pub stage: LinkStage,
    /// The link.
    pub url: Seq<char>,
    /// The name of the file, once it is known.
    pub name: Seq<char>,
    /// The length of the file, once it is known.
    pub length: usize,
    /// The id of the file, once it is stored.
    pub file_id: Seq<char>,
    /// The message in the store channel, once it is sent.
    pub message_id: i32,
}

impl View for LinkRun {
    type V = LinkRunView;

    closed spec fn view(&self) -> LinkRunView {
        LinkRunView {
            post_id: self.post_id,
            channel_id: self.channel_id,
            store_channel_id: self.store_channel_id,
            stage: self.stage,
            url: self.url@,
            name: self.name@,
            length: self.length,
            file_id: self.file_id@,
            message_id: self.message_id,
        }
    }
}

impl LinkRunView {
    /// The work at another stage.
    pub open spec fn at(self, stage: LinkStage) -> LinkRunView {
        LinkRunView { stage, ..self }
    }

    /// How far the work has come.
    pub open spec fn rank(self) -> int {
        match self.stage {
            LinkStage::Api => 0,
            LinkStage::Download => 1,
            LinkStage::Transfer => 2,
            LinkStage::Store => 3,
            LinkStage::Record => 4,
            LinkStage::Review => 5,
            LinkStage::Mark => 6,
            LinkStage::Finished => 7,
        }
    }

    /// The file that the work brought.
    pub open spec fn file(self) -> UploadedFileView {
        UploadedFileView {
            original_url: self.url,
            file_name: self.name,
            telegram_file_id: self.file_id,
            store_channel_msg_id: self.message_id,
        }
    }

    /// A change of the batch's record.
    pub open spec fn update(self, change: PostChangeView) -> PostUpdateView {
        PostUpdateView { post_id: self.post_id, channel_id: self.channel_id, change }
    }
}

/// The outcome of the work's last action.
#[derive(Debug)]
pub enum LinkEvent {
    /// The file was transferred, or the record changed.
    Done,
    /// The service replied with this status and, where that reports success, this body.
    ApiReply { status: u16, body: Vec<u8> },
    /// The file's response has come.
    Response(ResponseHead),
    /// The message in the store channel has this id and holds this.
    Sent { message_id: i32, media: Option<Media> },
    /// The batch's record, if there is one.
    Post(Option<BatchPost>),
    /// The action failed.
    Failed,
}

/// The value of a [`LinkEvent`].
pub ghost enum LinkEventView {
    Done,
    ApiReply { status: u16, body: Seq<u8> },
    Response(ResponseHeadView),
    Sent { message_id: i32, media: Option<Media> },
    Post(Option<BatchPostView>),
    Failed,
}

impl View for LinkEvent {
    type V = LinkEventView;

    open spec fn view(&self) -> LinkEventView {
        match self {
            LinkEvent::Done => LinkEventView::Done,
            LinkEvent::ApiReply { status, body } => LinkEventView::ApiReply {
                status: *status,
                body: body@,
            },
            LinkEvent::Response(head) => LinkEventView::Response(head@),
            LinkEvent::Sent { message_id, media } => LinkEventView::Sent {
                message_id: *message_id,
                media: *media,
            },
            LinkEvent::Post(post) => LinkEventView::Post(opt_post(*post)),
            LinkEvent::Failed => LinkEventView::Failed,
        }
    }
}

/// What is to be done next for a link.
#[derive(Debug)]
pub enum LinkAction {
    /// Ask the service that resolves Terabox links.
    AskApi(ApiRequest),
    /// Start the download.
    Download(String),
    /// Transfer the file.
    Transfer { name: String, length: usize },
    /// Send the file with the text to the channel.
    Store { channel_id: i64, text: String, is_video: bool },
    /// Change the batch's record.
    Update(PostUpdate),
    /// Fetch the batch's record.
    Fetch { post_id: i32, channel_id: i64 },
    /// Nothing: the file is stored and recorded.
    Finish(UploadedFile),
    /// Nothing: the work has failed.
    Fail(LinkError),
}

/// The value of a [`LinkAction`].
pub ghost enum LinkActionView {
    AskApi(ApiRequestView),
    Download(Seq<char>),
    Transfer { name: Seq<char>, length: usize },
    Store { channel_id: i64, text: Seq<char>, is_video: bool },
    Update(PostUpdateView),
    Fetch { post_id: i32, channel_id: i64 },
    Finish(UploadedFileView),
    Fail(LinkErrorView),
}

impl View for LinkAction {
    type V = LinkActionView;

    open spec fn view(&self) -> LinkActionView {
        match self {
            LinkAction::AskApi(request) => LinkActionView::AskApi(request@),
            LinkAction::Download(url) => LinkActionView::Download(url@),
            LinkAction::Transfer { name, length } => LinkActionView::Transfer {
                name: name@,
                length: *length,
            },
            LinkAction::Store { channel_id, text, is_video } => LinkActionView::Store {
                channel_id: *channel_id,
                text: text@,
                is_video: *is_video,
            },
            LinkAction::Update(update) => LinkActionView::Update(update@),
            LinkAction::Fetch { post_id, channel_id } => LinkActionView::Fetch {
                post_id: *post_id,
                channel_id: *channel_id,
            },
            LinkAction::Finish(file) => LinkActionView::Finish(file@),
            LinkAction::Fail(error) => LinkActionView::Fail(error@),
        }
    }
}

/// The start of the work on a link: its file is looked up.
pub open spec fn link_start(post_id: i32, channel_id: i64, store_channel_id: i64, url: Seq<char>) -> (
    LinkRunView,
    LinkActionView,
) {
    (
        LinkRunView {
            post_id,
            channel_id,
            store_channel_id,
            stage: LinkStage::Api,
            url,
            name: Seq::empty(),
            length: 0,
            file_id: Seq::empty(),
            message_id: 0,
        },
        LinkActionView::AskApi(stream_link_request_for(url)),
    )
}

/// The end of the work on a link.
pub open spec fn link_close(run: LinkRunView, action: LinkActionView) -> (LinkRunView, LinkActionView) {
    (run.at(LinkStage::Finished), action)
}

/// The step after the link was looked up.
pub open spec fn after_lookup(run: LinkRunView, found: Result<Option<Seq<char>>, Seq<char>>) -> (
    LinkRunView,
    LinkActionView,
) {
    match found {
        Ok(Some(address)) => (run.at(LinkStage::Download), LinkActionView::Download(address)),
        Ok(None) => link_close(run, LinkActionView::Fail(LinkErrorView::NoDownloadLink)),
        Err(reason) => link_close(run, LinkActionView::Fail(LinkErrorView::BadReply(reason))),
    }
}

/// The step after the file's response has come: a file that is empty or too large is
/// refused.
pub open spec fn after_head(run: LinkRunView, head: ResponseHeadView) -> (LinkRunView, LinkActionView) {
    let name = match stored_name(head) {
        Some(name) => name,
        None => "unknown_file.bin"@,
    };
    match size_error(body_length(head)) {
        Some(SizeError::Empty) => link_close(run, LinkActionView::Fail(LinkErrorView::FileEmpty)),
        Some(SizeError::TooLarge) => link_close(run, LinkActionView::Fail(LinkErrorView::FileTooLarge)),
        None => (
            LinkRunView { stage: LinkStage::Transfer, name, length: body_length(head), ..run },
            LinkActionView::Transfer { name, length: body_length(head) },
        ),
    }
}

/// The step after the file was transferred; `is_video` says whether its name is that
/// of a video.
pub open spec fn after_transfer(run: LinkRunView, is_video: bool) -> (LinkRunView, LinkActionView) {
    (
        run.at(LinkStage::Store),
        LinkActionView::Store {
            channel_id: run.store_channel_id,
            text: caption_text(run.name),
            is_video,
        },
    )
}

/// The step after the message was sent to the store channel: its file is recorded.
pub open spec fn after_store(run: LinkRunView, message_id: i32, media: Option<Media>) -> (
    LinkRunView,
    LinkActionView,
) {
    match file_id(media) {
        Ok(id) => {
            let next = LinkRunView { stage: LinkStage::Record, file_id: id, message_id, ..run };
            (next, LinkActionView::Update(next.update(PostChangeView::Push(next.file()))))
        },
        Err(error) => link_close(run, LinkActionView::Fail(error)),
    }
}

/// The step after the batch's record was fetched: once each link has its file, the
/// batch is done.
pub open spec fn after_review(run: LinkRunView, post: Option<BatchPostView>) -> (
    LinkRunView,
    LinkActionView,
) {
    if post is Some && post->0.complete() {
        (
            run.at(LinkStage::Mark),
            LinkActionView::Update(run.update(PostChangeView::SetStatus(PostStatus::Done))),
        )
    } else {
        link_close(run, LinkActionView::Finish(run.file()))
    }
}

/// The step of the work on a link on an event. Every event that the stage does not
/// wait for ends the work, and so does a failure, but for that to fetch the record:
/// then the batch's status is left alone.
pub open spec fn link_step(run: LinkRunView, event: LinkEventView) -> (LinkRunView, LinkActionView) {
    match (run.stage, event) {
        (LinkStage::Finished, _) => (run, LinkActionView::Fail(LinkErrorView::UnexpectedEvent)),
        (LinkStage::Api, LinkEventView::ApiReply { status, body }) => after_lookup(
            run,
            reply_link(status, body),
        ),
        (LinkStage::Download, LinkEventView::Response(head)) => after_head(run, head),
        (LinkStage::Transfer, LinkEventView::Done) => after_transfer(
            run,
            video_name(lower(run.name)),
        ),
        (LinkStage::Store, LinkEventView::Sent { message_id, media }) => after_store(
            run,
            message_id,
            media,
        ),
        (LinkStage::Record, LinkEventView::Done) => (
            run.at(LinkStage::Review),
            LinkActionView::Fetch { post_id: run.post_id, channel_id: run.channel_id },
        ),
        (LinkStage::Review, LinkEventView::Post(post)) => after_review(run, post),
        (LinkStage::Review, LinkEventView::Failed) => after_review(run, None),
        (LinkStage::Mark, LinkEventView::Done) => link_close(
            run,
            LinkActionView::Finish(run.file()),
        ),
        (_, LinkEventView::Failed) => link_close(run, LinkActionView::Fail(LinkErrorView::ActionFailed)),
        (_, _) => link_close(run, LinkActionView::Fail(LinkErrorView::UnexpectedEvent)),
    }
}

impl LinkRun {
    /// Starts the work on a link of a batch.
    pub fn start(post_id: i32, channel_id: i64, store_channel_id: i64, url: String) -> (r: (
        LinkRun,
        LinkAction,
    ))
        ensures
            (r.0@, r.1@) == link_start(post_id, channel_id, store_channel_id, url@),
    {
        let action: LinkAction = LinkAction::AskApi(stream_link_request(url.as_str()));
        (
            LinkRun {
                post_id,
                channel_id,
                store_channel_id,
                stage: LinkStage::Api,
                url,
                name: String::new(),
                length: 0,
                file_id: String::new(),
                message_id: 0,
            },
            action,
        )
    }

    /// Ends the work.
    fn close(&mut self, action: LinkAction) -> (r: LinkAction)
        ensures
            (final(self)@, r@) == link_close(old(self)@, action@),
    {
        self.stage = LinkStage::Finished;
        action
    }

    /// The file that the work brought.
    fn file(&self) -> (r: UploadedFile)
        ensures
            r@ == self@.file(),
    {
        UploadedFile {
            original_url: self.url.clone(),
            file_name: self.name.clone(),
            telegram_file_id: self.file_id.clone(),
            store_channel_msg_id: self.message_id,
        }
    }

    /// A change of the batch's record.
    fn update(&self, change: PostChange) -> (r: PostUpdate)
        ensures
            r@ == self@.update(change@),
    {
        PostUpdate { post_id: self.post_id, channel_id: self.channel_id, change }
    }

    /// The step after the link was looked up.
    pub fn looked_up(&mut self, found: Result<Option<String>, String>) -> (r: LinkAction)
        ensures
            (final(self)@, r@) == after_lookup(old(self)@, resolution_view(found)),
    {
        match found {
            Ok(Some(address)) => {
                self.stage = LinkStage::Download;
                LinkAction::Download(address)
            },
            Ok(None) => self.close(LinkAction::Fail(LinkError::NoDownloadLink)),
            Err(reason) => self.close(LinkAction::Fail(LinkError::BadReply(reason))),
        }
    }

    /// The step after the file's response has come.
    pub fn responded(&mut self, head: &ResponseHead) -> (r: LinkAction)
        ensures
            (final(self)@, r@) == after_head(old(self)@, head@),
    {
        let length: usize = body_length_of(head);
        let name: String = match extract_filename_from_response(head) {
            Some(name) => name,
            None => "unknown_file.bin".to_owned(),
        };
        match size_error_of(length) {
            Some(SizeError::Empty) => self.close(LinkAction::Fail(LinkError::FileEmpty)),
            Some(SizeError::TooLarge) => self.close(LinkAction::Fail(LinkError::FileTooLarge)),
            None => {
                self.stage = LinkStage::Transfer;
                self.name = name.clone();
                self.length = length;
                LinkAction::Transfer { name, length }
            },
        }
    }

    /// The step after the file was transferred; `is_video` says whether its name is
    /// that of a video.
    pub fn transferred(&mut self, is_video: bool) -> (r: LinkAction)
        ensures
            (final(self)@, r@) == after_transfer(old(self)@, is_video),
    {
        self.stage = LinkStage::Store;
        LinkAction::Store {
            channel_id: self.store_channel_id,
            text: caption(self.name.as_str()),
            is_video,
        }
    }

    /// The step after the message was sent to the store channel.
    pub fn stored(&mut self, message_id: i32, media: Option<Media>) -> (r: LinkAction)
        ensures
            (final(self)@, r@) == after_store(old(self)@, message_id, media),
    {
        match extract_file_id_from_message(media) {
            Ok(id) => {
                self.stage = LinkStage::Record;
                self.file_id = id;
                self.message_id = message_id;
                LinkAction::Update(self.update(PostChange::Push(self.file())))
            },
            Err(error) => self.close(LinkAction::Fail(error)),
        }
    }

    /// The step after the batch's record was fetched.
    pub fn reviewed(&mut self, post: Option<BatchPost>) -> (r: LinkAction)
        ensures
            (final(self)@, r@) == after_review(old(self)@, opt_post(post)),
    {
        if let Ok(post) = get_batch_post(post) {
            if post.uploaded.len() == post.detected_links.len() {
                self.stage = LinkStage::Mark;
                return LinkAction::Update(self.update(PostChange::SetStatus(PostStatus::Done)));
            }
        }
        let file: UploadedFile = self.file();
        self.close(LinkAction::Finish(file))
    }

    /// The step of the work on an event.
    pub fn advance(&mut self, event: LinkEvent) -> (r: LinkAction)
        ensures
            (final(self)@, r@) == link_step(old(self)@, event@),
    {
        match (self.stage, event) {
            (LinkStage::Finished, _) => LinkAction::Fail(LinkError::UnexpectedEvent),
            (LinkStage::Api, LinkEvent::ApiReply { status, body }) => self.looked_up(
                final_stream_link(status, body.as_slice()),
            ),
            (LinkStage::Download, LinkEvent::Response(head)) => self.responded(&head),
            (LinkStage::Transfer, LinkEvent::Done) => {
                let is_video: bool = is_video_file(self.name.as_str());
                self.transferred(is_video)
            },
            (LinkStage::Store, LinkEvent::Sent { message_id, media }) => self.stored(
                message_id,
                media,
            ),
            (LinkStage::Record, LinkEvent::Done) => {
                self.stage = LinkStage::Review;
                LinkAction::Fetch { post_id: self.post_id, channel_id: self.channel_id }
            },
            (LinkStage::Review, LinkEvent::Post(post)) => self.reviewed(post),
            (LinkStage::Review, LinkEvent::Failed) => self.reviewed(None),
            (LinkStage::Mark, LinkEvent::Done) => {
                let file: UploadedFile = self.file();
                self.close(LinkAction::Finish(file))
            },
            (_, LinkEvent::Failed) => self.close(LinkAction::Fail(LinkError::ActionFailed)),
            (_, _) => self.close(LinkAction::Fail(LinkError::UnexpectedEvent)),
        }
    }
}

} // verus!
