//! The record of a batch: a post of the input channel, the Terabox links in it and
//! the files that were uploaded for them.

use vstd::prelude::*;

use crate::external::{clock, hours_later};
use crate::text::{same_text, texts};

verus! {

/// How many hours a batch may take before it expires.
pub const BATCH_HOURS: i64 = 6;

// ---------------------------------------------------------------------------
// Time

/// An instant in UTC.
#[derive(Clone, Copy, Debug, PartialEq, Eq, Structural)]
pub struct Timestamp {
    /// Seconds since the start of 1970.
    pub secs: i64,
    /// Nanoseconds since the start of that second.
    pub nanos: u32,
}

impl Timestamp {
    /// The first second that a timestamp can name: the start of the year -262143.
    pub open spec fn first_second() -> int {
        -8_334_601_228_800
    }

    /// The last second that a timestamp can name: the end of the year 262142.
    pub open spec fn last_second() -> int {
        8_210_266_876_799
    }

    /// The timestamp names an instant in that range.
    pub open spec fn valid(self) -> bool {
        Timestamp::first_second() <= self.secs <= Timestamp::last_second() && self.nanos
            < 1_000_000_000
    }

    /// The instant comes after the other one.
    pub open spec fn after(self, other: Timestamp) -> bool {
        self.secs > other.secs || (self.secs == other.secs && self.nanos > other.nanos)
    }

    /// Whether the instant comes after the other one.
    pub fn is_after(&self, other: &Timestamp) -> (r: bool)
        ensures
            r == self.after(*other),
    {
        self.secs > other.secs || (self.secs == other.secs && self.nanos > other.nanos)
    }
}

// ---------------------------------------------------------------------------
// Uploaded files

/// A file that was uploaded for a link of a batch.
#[derive(Debug)]
pub struct UploadedFile {
    pub original_url: String,
    pub file_name: String,
    pub telegram_file_id: String,
    pub store_channel_msg_id: i32,
}

/// The value of an [`UploadedFile`].
pub ghost struct UploadedFileView {
    pub original_url: Seq<char>,
    pub file_name: Seq<char>,
    pub telegram_file_id: Seq<char>,
    pub store_channel_msg_id: i32,
}

impl View for UploadedFile {
    type V = UploadedFileView;

    open spec fn view(&self) -> UploadedFileView {
        UploadedFileView {
            original_url: self.original_url@,
            file_name: self.file_name@,
            telegram_file_id: self.telegram_file_id@,
            store_channel_msg_id: self.store_channel_msg_id,
        }
    }
}

impl Clone for UploadedFile {
    fn clone(&self) -> (r: Self)
        ensures
            r@ == self@,
    {
        UploadedFile {
            original_url: self.original_url.clone(),
            file_name: self.file_name.clone(),
            telegram_file_id: self.telegram_file_id.clone(),
            store_channel_msg_id: self.store_channel_msg_id,
        }
    }
}

/// The values of a list of files.
pub open spec fn files(list: Seq<UploadedFile>) -> Seq<UploadedFileView> {
    list.map_values(|f: UploadedFile| f@)
}

// ---------------------------------------------------------------------------
// Status

/// How far a batch has come.
#[derive(Clone, Copy, Debug, PartialEq, Eq, Structural)]
pub enum PostStatus {
    InProgress,
    Done,
    Timeout,
    Failed,
}

impl PostStatus {
    /// The name under which the status is stored.
    pub open spec fn name(self) -> Seq<char> {
        match self {
            PostStatus::InProgress => "in_progress"@,
            PostStatus::Done => "done"@,
            PostStatus::Timeout => "timeout"@,
            PostStatus::Failed => "failed"@,
        }
    }

    /// The name under which the status is stored.
    pub fn as_str(&self) -> (r: &'static str)
        ensures
            r@ == self.name(),
    {
        match self {
            PostStatus::InProgress => "in_progress",
            PostStatus::Done => "done",
            PostStatus::Timeout => "timeout",
            PostStatus::Failed => "failed",
        }
    }

    /// The status that is stored under a name, if there is one.
    pub fn from_name(name: &str) -> (r: Option<PostStatus>)
        ensures
            r matches Some(status) ==> status.name() == name@,
            r is None ==> forall|status: PostStatus| #[trigger] status.name() != name@,
    {
        if same_text(name, "in_progress") {
            Some(PostStatus::InProgress)
        } else if same_text(name, "done") {
            Some(PostStatus::Done)
        } else if same_text(name, "timeout") {
            Some(PostStatus::Timeout)
        } else if same_text(name, "failed") {
            Some(PostStatus::Failed)
        } else {
            None
        }
    }
}

// ---------------------------------------------------------------------------
// Batches

/// A post of the input channel that is worked through.
#[derive(Debug)]
pub struct BatchPost {
    /// The database's own key; none before the record is stored.
    pub id: Option<[u8; 12]>,
    pub post_id: i32,
    pub channel_id: i64,
    pub message_text: String,
    pub detected_links: Vec<String>,
    pub uploaded: Vec<UploadedFile>,
    pub status: PostStatus,
    pub created_at: Timestamp,
    pub expires_at: Timestamp,
}

/// The value of a [`BatchPost`].
pub ghost struct BatchPostView {
    pub id: Option<[u8; 12]>,
    pub post_id: i32,
    pub channel_id: i64,
    pub message_text: Seq<char>,
    pub detected_links: Seq<Seq<char>>,
    pub uploaded: Seq<UploadedFileView>,
    pub status: PostStatus,
    pub created_at: Timestamp,
    pub expires_at: Timestamp,
}

impl View for BatchPost {
    type V = BatchPostView;

    open spec fn view(&self) -> BatchPostView {
        BatchPostView {
            id: self.id,
            post_id: self.post_id,
            channel_id: self.channel_id,
            message_text: self.message_text@,
            detected_links: texts(self.detected_links@),
            uploaded: files(self.uploaded@),
            status: self.status,
            created_at: self.created_at,
            expires_at: self.expires_at,
        }
    }
}

impl Clone for BatchPost {
    fn clone(&self) -> (r: Self)
        ensures
            r@ == self@,
    {
        let detected_links: Vec<String> = self.detected_links.clone();
        let uploaded: Vec<UploadedFile> = self.uploaded.clone();
        proof {
            assert(texts(detected_links@) == texts(self.detected_links@));
            assert forall|i: int| 0 <= i < uploaded@.len() implies (#[trigger] uploaded@[i])@
                == self.uploaded@[i]@ by {
                assert(cloned(self.uploaded@[i], uploaded@[i]));
            }
            assert(files(uploaded@) == files(self.uploaded@));
        }
        BatchPost {
            id: self.id,
            post_id: self.post_id,
            channel_id: self.channel_id,
            message_text: self.message_text.clone(),
            detected_links,
            uploaded,
            status: self.status,
            created_at: self.created_at,
            expires_at: self.expires_at,
        }
    }
}

impl BatchPostView {
    /// Each link has its file.
    pub open spec fn complete(self) -> bool {
        self.uploaded.len() == self.detected_links.len()
    }

    /// The batch with one more file.
    pub open spec fn with_file(self, file: UploadedFileView) -> BatchPostView {
        BatchPostView { uploaded: self.uploaded.push(file), ..self }
    }

    /// The batch with another status.
    pub open spec fn with_status(self, status: PostStatus) -> BatchPostView {
        BatchPostView { status, ..self }
    }

    /// The batch with one more file, done if that was the last one.
    pub open spec fn after_upload(self, file: UploadedFileView) -> BatchPostView {
        if self.with_file(file).complete() {
            self.with_file(file).with_status(PostStatus::Done)
        } else {
            self.with_file(file)
        }
    }

    /// A batch that starts at `now`.
    pub open spec fn starting(
        post_id: i32,
        channel_id: i64,
        message_text: Seq<char>,
        detected_links: Seq<Seq<char>>,
        now: Timestamp,
    ) -> BatchPostView {
        BatchPostView {
            id: None,
            post_id,
            channel_id,
            message_text,
            detected_links,
            uploaded: Seq::empty(),
            status: PostStatus::InProgress,
            created_at: now,
            expires_at: Timestamp { secs: (now.secs + 3600 * BATCH_HOURS) as i64, nanos: now.nanos },
        }
    }
}

impl BatchPost {
    /// A batch that starts at `now` and expires six hours later; none where that
    /// instant cannot be named.
    pub fn new_at(
        post_id: i32,
        channel_id: i64,
        message_text: String,
        detected_links: Vec<String>,
        now: Timestamp,
    ) -> (r: Option<BatchPost>)
        requires
            now.valid(),
        ensures
            r is Some <==> now.secs + 3600 * BATCH_HOURS <= Timestamp::last_second(),
            r matches Some(post) ==> post@ == BatchPostView::starting(
                post_id,
                channel_id,
                message_text@,
                texts(detected_links@),
                now,
            ),
    {
        match hours_later(now, BATCH_HOURS) {
            Some(expires_at) => {
                let uploaded: Vec<UploadedFile> = Vec::new();
                assert(files(uploaded@) == Seq::<UploadedFileView>::empty());
                Some(
                    BatchPost {
                        id: None,
                        post_id,
                        channel_id,
                        message_text,
                        detected_links,
                        uploaded,
                        status: PostStatus::InProgress,
                        created_at: now,
                        expires_at,
                    },
                )
            },
            None => None,
        }
    }

    /// A batch that starts now. There is none in the last six hours that the clock
    /// can show.
    pub fn new(
        post_id: i32,
        channel_id: i64,
        message_text: String,
        detected_links: Vec<String>,
    ) -> (r: Option<BatchPost>)
        ensures
            exists|now: Timestamp|
                #![trigger now.valid()]
                now.valid() && now.secs >= 0 && (r is Some <==> now.secs + 3600 * BATCH_HOURS
                    <= Timestamp::last_second()) && (r matches Some(post) ==> post@
                    == BatchPostView::starting(
                    post_id,
                    channel_id,
                    message_text@,
                    texts(detected_links@),
                    now,
                )),
    {
        let now: Timestamp = clock();
        BatchPost::new_at(post_id, channel_id, message_text, detected_links, now)
    }

    /// Adds a file; the batch is done once each link has its file.
    pub fn add_uploaded_file(&mut self, uploaded_file: UploadedFile)
        ensures
            final(self)@ == old(self)@.after_upload(uploaded_file@),
    {
        let ghost before = self.uploaded@;
        self.uploaded.push(uploaded_file);
        proof {
            assert(files(self.uploaded@) == files(before).push(uploaded_file@));
        }
        if self.uploaded.len() == self.detected_links.len() {
            self.status = PostStatus::Done;
        }
    }

    /// Whether the batch has expired at `now`.
    pub fn is_expired_at(&self, now: Timestamp) -> (r: bool)
        ensures
            r == now.after(self.expires_at),
    {
        now.is_after(&self.expires_at)
    }

    /// Whether the batch has expired by now.
    pub fn is_expired(&self) -> (r: bool)
        ensures
            exists|now: Timestamp| #[trigger]
                now.valid() && now.secs >= 0 && r == now.after(self.expires_at),
    {
        let now: Timestamp = clock();
        self.is_expired_at(now)
    }

    /// Notes that the batch took too long.
    pub fn mark_timeout(&mut self)
        ensures
            final(self)@ == old(self)@.with_status(PostStatus::Timeout),
    {
        self.status = PostStatus::Timeout;
    }

    /// Notes that the batch failed.
    pub fn mark_failed(&mut self)
        ensures
            final(self)@ == old(self)@.with_status(PostStatus::Failed),
    {
        self.status = PostStatus::Failed;
    }
}

} // verus!
