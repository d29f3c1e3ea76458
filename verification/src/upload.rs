//! One upload, from a link to the file in the chat.
//!
//! An upload alternates with the world outside: it names an action, the action's
//! outcome comes back as an event, and the next action follows. The first step takes
//! the chat, the last one gives it back, whatever happened in between.

use vstd::prelude::*;

use crate::bot::{Bot, BotView};
use crate::external::{lower, parse_url, url_parse};
use crate::filename::{
    body_length, body_length_of, is_video_file, is_video_type, size_error, size_error_of,
    upload_name, upload_name_of, video_name, video_type, ResponseHead, ResponseHeadView, SizeError,
};
use crate::links::{
    final_stream_link, is_terabox_url, reply_link, stream_link_request, stream_link_request_for,
    terabox_link, ApiRequest, ApiRequestView, Link, LinkView,
};
use crate::messages::{
    bad_proxy, bad_proxy_text, starting, starting_text, uploaded, uploaded_text, BUSY, CANCEL_DATA,
    CANCEL_LABEL, FILE_EMPTY, FILE_TOO_LARGE, NO_DOWNLOAD_LINK, PROCESSING, PROCESS_FAILED,
};
use crate::text::result_text;

verus! {

// ---------------------------------------------------------------------------
// Stages, events, actions

/// What an upload waits for.
#[derive(Clone, Copy, Debug, PartialEq, Eq, Structural)]
pub enum Stage {
    /// The notice that a Terabox link is looked up.
    Notice,
    /// The reply of the service that resolves Terabox links.
    Api,
    /// The response that brings the file.
    Download,
    /// The status message.
    Status,
    /// The transfer of the file.
    Transfer,
    /// The message with the file.
    Delivery,
    /// The deletion of the status message.
    Cleanup,
    /// The reply that ends the upload early.
    Closing,
    /// Nothing: it has ended.
    Finished,
}

/// An upload.
#[derive(Debug)]
pub struct Upload {
    chat_id: i64,
    message_id: i32,
    stage: Stage,
    url: String,
    name: String,
    length: usize,
    is_video: bool,
}

/// The value of an [`Upload`].
pub ghost struct UploadView {
    pub chat_id: i64,
    /// The message that asked for it.
    pub message_id: i32,
    pub stage: Stage,
    /// The link that was asked for.
    pub url: Seq<char>,
    /// The name of the file, once it is known.
    pub name: Seq<char>,
    /// The length of the file, once it is known.
    pub length: usize,
    /// The file is a video.
    pub is_video: bool,
}

impl View for Upload {
    type V = UploadView;

    closed spec fn view(&self) -> UploadView {
        UploadView {
            chat_id: self.chat_id,
            message_id: self.message_id,
            stage: self.stage,
            url: self.url@,
            name: self.name@,
            length: self.length,
            is_video: self.is_video,
        }
    }
}

impl UploadView {
    /// The upload at another stage.
    pub open spec fn at(self, stage: Stage) -> UploadView {
        UploadView { stage, ..self }
    }

    /// The file is being handed over; this can be cancelled.
    pub open spec fn transferring(self) -> bool {
        self.stage == Stage::Status || self.stage == Stage::Transfer || self.stage == Stage::Delivery
            || self.stage == Stage::Cleanup
    }
}

impl UploadView {
    /// The bot remembers what it should of an upload under way: that it holds its chat,
    /// who started it, and, from the moment the file is handed over until somebody
    /// cancels, how to cancel it. Only a file of a permitted size is handed over.
    pub open spec fn held_by(self, bot: BotView) -> bool {
        &&& bot.locks.contains(self.chat_id)
        &&& if self.transferring() {
            &&& bot.started_by.contains_key(self.chat_id) <==> bot.triggers.contains_key(self.chat_id)
            &&& size_error(self.length) is None
        } else {
            &&& bot.started_by.contains_key(self.chat_id)
            &&& !bot.triggers.contains_key(self.chat_id)
        }
    }

    /// How far the upload has come.
    pub open spec fn rank(self) -> int {
        match self.stage {
            Stage::Notice => 0,
            Stage::Api => 1,
            Stage::Download => 2,
            Stage::Status => 3,
            Stage::Transfer => 4,
            Stage::Delivery => 5,
            Stage::Cleanup => 6,
            Stage::Closing => 6,
            Stage::Finished => 7,
        }
    }
}

/// The outcome of an upload's last action.
#[derive(Debug)]
pub enum UploadEvent {
    /// The message was sent, or deleted.
    Done,
    /// The service replied with this status and, where that reports success, this body.
    ApiReply { status: u16, body: Vec<u8> },
    /// The file's response has come.
    Response(ResponseHead),
    /// The file was transferred in so many seconds.
    Uploaded { seconds: String },
    /// The action failed.
    Failed,
}

/// The value of an [`UploadEvent`].
pub ghost enum UploadEventView {
    Done,
    ApiReply { status: u16, body: Seq<u8> },
    Response(ResponseHeadView),
    Uploaded { seconds: Seq<char> },
    Failed,
}

impl View for UploadEvent {
    type V = UploadEventView;

    open spec fn view(&self) -> UploadEventView {
        match self {
            UploadEvent::Done => UploadEventView::Done,
            UploadEvent::ApiReply { status, body } => UploadEventView::ApiReply {
                status: *status,
                body: body@,
            },
            UploadEvent::Response(head) => UploadEventView::Response(head@),
            UploadEvent::Uploaded { seconds } => UploadEventView::Uploaded { seconds: seconds@ },
            UploadEvent::Failed => UploadEventView::Failed,
        }
    }
}

/// Why an upload failed.
#[derive(Debug, PartialEq, Eq)]
pub enum UploadError {
    /// The percent-encoding of the file's name is not that of a text, for this reason.
    NameNotText(String),
    /// An action failed.
    ActionFailed,
    /// The event was not one that the upload waited for.
    UnexpectedEvent,
}

/// The value of an [`UploadError`].
pub ghost enum UploadErrorView {
    NameNotText(Seq<char>),
    ActionFailed,
    UnexpectedEvent,
}

impl View for UploadError {
    type V = UploadErrorView;

    open spec fn view(&self) -> UploadErrorView {
        match self {
            UploadError::NameNotText(reason) => UploadErrorView::NameNotText(reason@),
            UploadError::ActionFailed => UploadErrorView::ActionFailed,
            UploadError::UnexpectedEvent => UploadErrorView::UnexpectedEvent,
        }
    }
}

impl UploadErrorView {
    /// The error in words.
    pub open spec fn text(self) -> Seq<char> {
        match self {
            UploadErrorView::NameNotText(reason) => reason,
            UploadErrorView::ActionFailed => "Action failed"@,
            UploadErrorView::UnexpectedEvent => "Unexpected event"@,
        }
    }
}

impl UploadError {
    /// The error in words.
    pub fn message(&self) -> (r: String)
        ensures
            r@ == self@.text(),
    {
        match self {
            UploadError::NameNotText(reason) => reason.clone(),
            UploadError::ActionFailed => "Action failed".to_owned(),
            UploadError::UnexpectedEvent => "Unexpected event".to_owned(),
        }
    }
}

/// What is to be done next.
#[derive(Debug)]
pub enum UploadAction {
    /// Reply with the text.
    Reply(String),
    /// Ask the service that resolves Terabox links.
    AskApi(ApiRequest),
    /// Start the download.
    Download(String),
    /// Reply with the status message, in HTML, under it a button.
    SendStatus { text: String, button: String, data: String },
    /// Transfer the file.
    Transfer { name: String, length: usize },
    /// Reply with the file and the text, in HTML.
    SendFile { text: String, is_video: bool },
    /// Delete the status message.
    DeleteStatus,
    /// Nothing: the upload has ended.
    Finish,
    /// Nothing: the upload has failed.
    Fail(UploadError),
}

/// The value of an [`UploadAction`].
pub ghost enum UploadActionView {
    Reply(Seq<char>),
    AskApi(ApiRequestView),
    Download(Seq<char>),
    SendStatus { text: Seq<char>, button: Seq<char>, data: Seq<char> },
    Transfer { name: Seq<char>, length: usize },
    SendFile { text: Seq<char>, is_video: bool },
    DeleteStatus,
    Finish,
    Fail(UploadErrorView),
}

impl View for UploadAction {
    type V = UploadActionView;

    open spec fn view(&self) -> UploadActionView {
        match self {
            UploadAction::Reply(text) => UploadActionView::Reply(text@),
            UploadAction::AskApi(request) => UploadActionView::AskApi(request@),
            UploadAction::Download(url) => UploadActionView::Download(url@),
            UploadAction::SendStatus { text, button, data } => UploadActionView::SendStatus {
                text: text@,
                button: button@,
                data: data@,
            },
            UploadAction::Transfer { name, length } => UploadActionView::Transfer {
                name: name@,
                length: *length,
            },
            UploadAction::SendFile { text, is_video } => UploadActionView::SendFile {
                text: text@,
                is_video: *is_video,
            },
            UploadAction::DeleteStatus => UploadActionView::DeleteStatus,
            UploadAction::Finish => UploadActionView::Finish,
            UploadAction::Fail(error) => UploadActionView::Fail(error@),
        }
    }
}

// ---------------------------------------------------------------------------
// The start

/// How the request for an upload is answered.
#[derive(Debug)]
pub enum UploadStart {
    /// Not at all: nobody sent it.
    NoSender,
    /// With the text: another upload holds the chat.
    Busy(String),
    /// The upload has begun, with this action.
    Begun(Upload, UploadAction),
}

/// The value of an [`UploadStart`].
pub ghost enum UploadStartView {
    NoSender,
    Busy(Seq<char>),
    Begun(UploadView, UploadActionView),
}

impl View for UploadStart {
    type V = UploadStartView;

    open spec fn view(&self) -> UploadStartView {
        match self {
            UploadStart::NoSender => UploadStartView::NoSender,
            UploadStart::Busy(text) => UploadStartView::Busy(text@),
            UploadStart::Begun(upload, action) => UploadStartView::Begun(upload@, action@),
        }
    }
}

/// A new upload at its first stage: a Terabox link is looked up before anything is
/// downloaded.
pub open spec fn first_step(chat: i64, message: i32, link: LinkView, terabox: bool) -> (
    UploadView,
    UploadActionView,
) {
    let upload = UploadView {
        chat_id: chat,
        message_id: message,
        stage: Stage::Download,
        url: link.text,
        name: Seq::empty(),
        length: 0,
        is_video: false,
    };
    if terabox {
        (upload.at(Stage::Notice), UploadActionView::Reply(PROCESSING@))
    } else {
        (upload, UploadActionView::Download(link.text))
    }
}

/// The request of `sender` in a chat to upload the file at `link`.
pub open spec fn start(
    bot: BotView,
    chat: i64,
    message: i32,
    sender: Option<i64>,
    link: LinkView,
) -> (BotView, UploadStartView) {
    match sender {
        None => (bot, UploadStartView::NoSender),
        Some(user) => if bot.locks.contains(chat) {
            (bot, UploadStartView::Busy(BUSY@))
        } else {
            let (upload, action) = first_step(chat, message, link, terabox_link(link));
            (bot.with_lock(chat, user), UploadStartView::Begun(upload, action))
        },
    }
}

impl Upload {
    /// A new upload at its first stage; `terabox` says whether the link is one of
    /// Terabox.
    pub fn begin(chat: i64, message: i32, link: Link, terabox: bool) -> (r: (Upload, UploadAction))
        ensures
            (r.0@, r.1@) == first_step(chat, message, link@, terabox),
    {
        let url: String = link.text.clone();
        let upload: Upload = Upload {
            chat_id: chat,
            message_id: message,
            stage: if terabox {
                Stage::Notice
            } else {
                Stage::Download
            },
            url: link.text,
            name: String::new(),
            length: 0,
            is_video: false,
        };
        if terabox {
            (upload, UploadAction::Reply(PROCESSING.to_owned()))
        } else {
            (upload, UploadAction::Download(url))
        }
    }
}

impl Bot {
    /// Begins the upload of the file at `link`, unless another upload holds the chat.
    pub fn handle_url(
        &mut self,
        chat: i64,
        message: i32,
        sender: Option<i64>,
        link: Link,
    ) -> (r: UploadStart)
        ensures
            (final(self)@, r@) == start(old(self)@, chat, message, sender, link@),
    {
        match sender {
            None => UploadStart::NoSender,
            Some(user) => {
                if !self.lock_chat(chat, user) {
                    return UploadStart::Busy(BUSY.to_owned());
                }
                let terabox: bool = is_terabox_url(&link);
                let (upload, action) = Upload::begin(chat, message, link, terabox);
                UploadStart::Begun(upload, action)
            },
        }
    }
}

// ---------------------------------------------------------------------------
// The steps

/// What became of looking a Terabox link up.
#[derive(Debug)]
pub enum Resolution {
    /// The file is at this link.
    Found(Link),
    /// The file's address is no URL, for this reason.
    BadUrl(String),
    /// There is no file.
    NotFound,
    /// The service could not be asked or understood.
    Failed,
}

/// The value of a [`Resolution`].
pub ghost enum ResolutionView {
    Found(LinkView),
    BadUrl(Seq<char>),
    NotFound,
    Failed,
}

impl View for Resolution {
    type V = ResolutionView;

    open spec fn view(&self) -> ResolutionView {
        match self {
            Resolution::Found(link) => ResolutionView::Found(link@),
            Resolution::BadUrl(reason) => ResolutionView::BadUrl(reason@),
            Resolution::NotFound => ResolutionView::NotFound,
            Resolution::Failed => ResolutionView::Failed,
        }
    }
}

/// What the service's reply makes of a Terabox link.
pub open spec fn resolution(status: u16, body: Seq<u8>) -> ResolutionView {
    match reply_link(status, body) {
        Ok(Some(address)) => match url_parse(address) {
            Ok(link) => ResolutionView::Found(link),
            Err(reason) => ResolutionView::BadUrl(reason),
        },
        Ok(None) => ResolutionView::NotFound,
        Err(_) => ResolutionView::Failed,
    }
}

/// What the service's reply makes of a Terabox link.
pub fn resolve(status: u16, body: &Vec<u8>) -> (r: Resolution)
    ensures
        r@ == resolution(status, body@),
{
    match final_stream_link(status, body.as_slice()) {
        Ok(Some(address)) => match parse_url(address.as_str()) {
            Ok(link) => Resolution::Found(link),
            Err(reason) => Resolution::BadUrl(reason),
        },
        Ok(None) => Resolution::NotFound,
        Err(_) => Resolution::Failed,
    }
}

/// The step after a Terabox link was looked up.
pub open spec fn after_resolution(upload: UploadView, resolution: ResolutionView) -> (
    UploadView,
    UploadActionView,
) {
    match resolution {
        ResolutionView::Found(link) => (
            upload.at(Stage::Download),
            UploadActionView::Download(link.text),
        ),
        ResolutionView::BadUrl(reason) => (
            upload.at(Stage::Closing),
            UploadActionView::Reply(bad_proxy_text(reason)),
        ),
        ResolutionView::NotFound => (
            upload.at(Stage::Closing),
            UploadActionView::Reply(NO_DOWNLOAD_LINK@),
        ),
        ResolutionView::Failed => (
            upload.at(Stage::Closing),
            UploadActionView::Reply(PROCESS_FAILED@),
        ),
    }
}

/// What is known of a file before it is transferred. In place of the name stands an
/// error where its percent-encoding is not that of a text.
#[derive(Debug)]
pub struct FilePlan {
    pub name: Result<String, String>,
    pub length: usize,
    pub is_video: bool,
}

/// The value of a [`FilePlan`].
pub ghost struct FilePlanView {
    pub name: Result<Seq<char>, Seq<char>>,
    pub length: usize,
    pub is_video: bool,
}

impl View for FilePlan {
    type V = FilePlanView;

    open spec fn view(&self) -> FilePlanView {
        FilePlanView { name: result_text(self.name), length: self.length, is_video: self.is_video }
    }
}

/// What the head of a response says of its file.
pub open spec fn file_plan(head: ResponseHeadView) -> FilePlanView {
    FilePlanView {
        name: upload_name(head),
        length: body_length(head),
        is_video: match upload_name(head) {
            Ok(name) => video_type(head) || video_name(lower(name)),
            Err(_) => false,
        },
    }
}

/// What the head of a response says of its file.
pub fn plan_file(head: &ResponseHead) -> (r: FilePlan)
    ensures
        r@ == file_plan(head@),
{
    let name: Result<String, String> = upload_name_of(head);
    let is_video: bool = match &name {
        Ok(name) => is_video_type(head) || is_video_file(name.as_str()),
        Err(_) => false,
    };
    FilePlan { name, length: body_length_of(head), is_video }
}

/// The end of an upload: the chat is free again, and what would cancel the upload is
/// forgotten.
pub open spec fn close(bot: BotView, upload: UploadView, action: UploadActionView) -> (
    BotView,
    UploadView,
    UploadActionView,
) {
    let bot = if upload.transferring() {
        bot.without_trigger(upload.chat_id)
    } else {
        bot
    };
    (bot.released(upload.chat_id), upload.at(Stage::Finished), action)
}

/// The step after the file's response has come. A file that is empty or too large is
/// refused; any other can be cancelled from now on.
pub open spec fn after_response(bot: BotView, upload: UploadView, plan: FilePlanView) -> (
    BotView,
    UploadView,
    UploadActionView,
) {
    match plan.name {
        Err(reason) => close(
            bot,
            upload,
            UploadActionView::Fail(UploadErrorView::NameNotText(reason)),
        ),
        Ok(name) => match size_error(plan.length) {
            Some(SizeError::Empty) => (
                bot,
                upload.at(Stage::Closing),
                UploadActionView::Reply(FILE_EMPTY@),
            ),
            Some(SizeError::TooLarge) => (
                bot,
                upload.at(Stage::Closing),
                UploadActionView::Reply(FILE_TOO_LARGE@),
            ),
            None => (
                bot.with_trigger(upload.chat_id, upload.message_id as i64),
                UploadView {
                    stage: Stage::Status,
                    name,
                    length: plan.length,
                    is_video: plan.is_video,
                    ..upload
                },
                UploadActionView::SendStatus {
                    text: starting_text(name),
                    button: CANCEL_LABEL@,
                    data: CANCEL_DATA@,
                },
            ),
        },
    }
}

/// The step of an upload on an event. Every event that the stage does not wait for
/// ends the upload, and so does a failure, unless the service could not be asked:
/// that is reported first.
pub open spec fn step(bot: BotView, upload: UploadView, event: UploadEventView) -> (
    BotView,
    UploadView,
    UploadActionView,
) {
    match (upload.stage, event) {
        (Stage::Finished, _) => (
            bot,
            upload,
            UploadActionView::Fail(UploadErrorView::UnexpectedEvent),
        ),
        (Stage::Notice, UploadEventView::Done) => (
            bot,
            upload.at(Stage::Api),
            UploadActionView::AskApi(stream_link_request_for(upload.url)),
        ),
        (Stage::Api, UploadEventView::ApiReply { status, body }) => {
            let (next, action) = after_resolution(upload, resolution(status, body));
            (bot, next, action)
        },
        (Stage::Api, UploadEventView::Failed) => {
            let (next, action) = after_resolution(upload, ResolutionView::Failed);
            (bot, next, action)
        },
        (Stage::Download, UploadEventView::Response(head)) => after_response(
            bot,
            upload,
            file_plan(head),
        ),
        (Stage::Status, UploadEventView::Done) => (
            bot,
            upload.at(Stage::Transfer),
            UploadActionView::Transfer { name: upload.name, length: upload.length },
        ),
        (Stage::Transfer, UploadEventView::Uploaded { seconds }) => (
            bot,
            upload.at(Stage::Delivery),
            UploadActionView::SendFile { text: uploaded_text(seconds), is_video: upload.is_video },
        ),
        (Stage::Delivery, UploadEventView::Done) => (
            bot,
            upload.at(Stage::Cleanup),
            UploadActionView::DeleteStatus,
        ),
        (Stage::Cleanup, UploadEventView::Done) => close(bot, upload, UploadActionView::Finish),
        (Stage::Closing, UploadEventView::Done) => close(bot, upload, UploadActionView::Finish),
        (_, UploadEventView::Failed) => close(
            bot,
            upload,
            UploadActionView::Fail(UploadErrorView::ActionFailed),
        ),
        (_, _) => close(bot, upload, UploadActionView::Fail(UploadErrorView::UnexpectedEvent)),
    }
}

impl Upload {
    /// Whether the upload has ended.
    pub fn is_finished(&self) -> (r: bool)
        ensures
            r == (self@.stage == Stage::Finished),
    {
        self.stage == Stage::Finished
    }

    /// The step after a Terabox link was looked up.
    pub fn resolved(&mut self, resolution: Resolution) -> (r: UploadAction)
        ensures
            (final(self)@, r@) == after_resolution(old(self)@, resolution@),
    {
        match resolution {
            Resolution::Found(link) => {
                self.stage = Stage::Download;
                UploadAction::Download(link.text)
            },
            Resolution::BadUrl(reason) => {
                self.stage = Stage::Closing;
                UploadAction::Reply(bad_proxy(reason.as_str()))
            },
            Resolution::NotFound => {
                self.stage = Stage::Closing;
                UploadAction::Reply(NO_DOWNLOAD_LINK.to_owned())
            },
            Resolution::Failed => {
                self.stage = Stage::Closing;
                UploadAction::Reply(PROCESS_FAILED.to_owned())
            },
        }
    }
}

impl Bot {
    /// Ends an upload: the chat is free again.
    fn close_upload(&mut self, upload: &mut Upload, action: UploadAction) -> (r: UploadAction)
        ensures
            (final(self)@, final(upload)@, r@) == close(old(self)@, old(upload)@, action@),
    {
        match upload.stage {
            Stage::Status | Stage::Transfer | Stage::Delivery | Stage::Cleanup => {
                self.drop_trigger(upload.chat_id);
            },
            _ => {},
        }
        self.release_chat(upload.chat_id);
        upload.stage = Stage::Finished;
        action
    }

    /// The step after the file's response has come.
    pub fn planned(&mut self, upload: &mut Upload, plan: FilePlan) -> (r: UploadAction)
        ensures
            (final(self)@, final(upload)@, r@) == after_response(old(self)@, old(upload)@, plan@),
    {
        match plan.name {
            Err(reason) => self.close_upload(
                upload,
                UploadAction::Fail(UploadError::NameNotText(reason)),
            ),
            Ok(name) => match size_error_of(plan.length) {
                Some(SizeError::Empty) => {
                    upload.stage = Stage::Closing;
                    UploadAction::Reply(FILE_EMPTY.to_owned())
                },
                Some(SizeError::TooLarge) => {
                    upload.stage = Stage::Closing;
                    UploadAction::Reply(FILE_TOO_LARGE.to_owned())
                },
                None => {
                    self.register_trigger(upload.chat_id, upload.message_id as i64);
                    let text: String = starting(name.as_str());
                    upload.stage = Stage::Status;
                    upload.name = name;
                    upload.length = plan.length;
                    upload.is_video = plan.is_video;
                    UploadAction::SendStatus {
                        text,
                        button: CANCEL_LABEL.to_owned(),
                        data: CANCEL_DATA.to_owned(),
                    }
                },
            },
        }
    }

    /// The step of an upload on an event.
    pub fn advance_upload(&mut self, upload: &mut Upload, event: UploadEvent) -> (r: UploadAction)
        ensures
            (final(self)@, final(upload)@, r@) == step(old(self)@, old(upload)@, event@),
    {
        match (upload.stage, event) {
            (Stage::Finished, _) => UploadAction::Fail(UploadError::UnexpectedEvent),
            (Stage::Notice, UploadEvent::Done) => {
                upload.stage = Stage::Api;
                UploadAction::AskApi(stream_link_request(upload.url.as_str()))
            },
            (Stage::Api, UploadEvent::ApiReply { status, body }) => upload.resolved(
                resolve(status, &body),
            ),
            (Stage::Api, UploadEvent::Failed) => upload.resolved(Resolution::Failed),
            (Stage::Download, UploadEvent::Response(head)) => self.planned(
                upload,
                plan_file(&head),
            ),
            (Stage::Status, UploadEvent::Done) => {
                upload.stage = Stage::Transfer;
                UploadAction::Transfer { name: upload.name.clone(), length: upload.length }
            },
            (Stage::Transfer, UploadEvent::Uploaded { seconds }) => {
                upload.stage = Stage::Delivery;
                UploadAction::SendFile {
                    text: uploaded(seconds.as_str()),
                    is_video: upload.is_video,
                }
            },
            (Stage::Delivery, UploadEvent::Done) => {
                upload.stage = Stage::Cleanup;
                UploadAction::DeleteStatus
            },
            (Stage::Cleanup, UploadEvent::Done) => self.close_upload(upload, UploadAction::Finish),
            (Stage::Closing, UploadEvent::Done) => self.close_upload(upload, UploadAction::Finish),
            (_, UploadEvent::Failed) => self.close_upload(
                upload,
                UploadAction::Fail(UploadError::ActionFailed),
            ),
            (_, _) => self.close_upload(upload, UploadAction::Fail(UploadError::UnexpectedEvent)),
        }
    }
}

} // verus!
