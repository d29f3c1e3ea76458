//! Laws of batches: when they are done, when they expire, what their record holds
//! and what is reported of them.

use vstd::prelude::*;

use crate::batch::{
    batch_run_start, batch_start, batch_step, completion_text, file_id, link_start, link_step,
    next_turn, BatchActionView, BatchEventView, BatchRunView, BatchStage, BatchStartView,
    LinkActionView, LinkErrorView, LinkEventView, LinkRunView, LinkStage, Media, PostChangeView,
    PostUpdateView, BATCH_TIMEOUT_SECS,
};
use crate::bot::MessageView;
use crate::external::lower;
use crate::filename::{body_length, stored_name, video_name, ResponseHeadView};
use crate::laws::names::law_announced_length_decides;
use crate::links::reply_link;
use crate::messages::STORE_COMMAND;
use crate::models::{BatchPostView, PostStatus, Timestamp, UploadedFileView, BATCH_HOURS};
use crate::text::{decimal, digits, joined, lemma_pieces_of_joined, pieces};

verus! {

// ---------------------------------------------------------------------------
// Status

/// A post starts a batch exactly if it has links and the clock is not at its end. The
/// batch has all the links of the post, in their order, its id, its channel and its
/// text, no file yet, and starts at that instant.
pub proof fn law_batches_hold_every_link(msg: MessageView, links: Seq<Seq<char>>, now: Timestamp)
    ensures
        batch_start(msg, links, now) is NoLinks <==> links.len() == 0,
        batch_start(msg, links, now) is Begun <==> links.len() > 0 && now.secs + 21600
            <= Timestamp::last_second(),
        batch_start(msg, links, now) matches BatchStartView::Begun(post) ==> {
            &&& post.id is None
            &&& post.post_id == msg.id
            &&& post.channel_id == msg.chat_id
            &&& post.message_text == msg.text
            &&& post.detected_links == links
            &&& post.uploaded.len() == 0
            &&& post.status == PostStatus::InProgress
            &&& post.created_at == now
        },
{
}

/// Each change of a record does one thing: a file is added behind the others, or the
/// status is set, and all the rest is kept.
pub proof fn law_changes(post: BatchPostView, file: UploadedFileView, status: PostStatus)
    ensures
        PostChangeView::Push(file).applied_to(post) == (BatchPostView {
            uploaded: post.uploaded.push(file),
            ..post
        }),
        PostChangeView::SetStatus(status).applied_to(post) == (BatchPostView { status, ..post }),
        post.with_status(status) == (BatchPostView { status, ..post }),
        post.after_upload(file).uploaded == post.uploaded.push(file),
        post.after_upload(file).status == (if post.uploaded.len() + 1 == post.detected_links.len() {
            PostStatus::Done
        } else {
            post.status
        }),
        post.after_upload(file) == (BatchPostView {
            uploaded: post.uploaded.push(file),
            status: post.after_upload(file).status,
            ..post
        }),
{
}

/// No two statuses are stored under one name, so the stored name gives the status
/// back.
pub proof fn law_status_names_differ(a: PostStatus, b: PostStatus)
    ensures
        a.name() == b.name() ==> a == b,
{
    reveal_strlit("in_progress");
    reveal_strlit("done");
    reveal_strlit("timeout");
    reveal_strlit("failed");
    assert("in_progress"@.len() == 11 && "done"@.len() == 4);
    assert("timeout"@.len() == 7 && "failed"@.len() == 6);
}

/// The batch after a number of files.
pub open spec fn after_uploads(post: BatchPostView, files: Seq<UploadedFileView>) -> BatchPostView
    decreases files.len(),
{
    if files.len() == 0 {
        post
    } else {
        after_uploads(post, files.drop_last()).after_upload(files.last())
    }
}

/// A batch holds its files in the order in which they came, is in progress until there
/// is one for each link, and done from then on. A batch without links is in progress
/// for ever.
pub proof fn law_done_with_the_last_file(
    post_id: i32,
    channel_id: i64,
    message_text: Seq<char>,
    links: Seq<Seq<char>>,
    now: Timestamp,
    files: Seq<UploadedFileView>,
)
    ensures
        ({
            let first = BatchPostView::starting(post_id, channel_id, message_text, links, now);
            let post = after_uploads(first, files);
            &&& post.uploaded == files
            &&& post.status == (if files.len() < links.len() || links.len() == 0 {
                PostStatus::InProgress
            } else {
                PostStatus::Done
            })
            &&& post == (BatchPostView { uploaded: post.uploaded, status: post.status, ..first })
        }),
    decreases files.len(),
{
    let first = BatchPostView::starting(post_id, channel_id, message_text, links, now);
    if files.len() > 0 {
        law_done_with_the_last_file(
            post_id,
            channel_id,
            message_text,
            links,
            now,
            files.drop_last(),
        );
        assert(files.drop_last().push(files.last()) == files);
    } else {
        assert(first.uploaded == files);
    }
}

// ---------------------------------------------------------------------------
// Time

/// A batch expires six hours after its start: not at that instant nor before it, and
/// at every instant after it.
pub proof fn law_expiry(
    post_id: i32,
    channel_id: i64,
    message_text: Seq<char>,
    links: Seq<Seq<char>>,
    now: Timestamp,
    later: Timestamp,
)
    requires
        now.valid(),
        now.secs + 3600 * BATCH_HOURS <= Timestamp::last_second(),
        later.valid(),
    ensures
        ({
            let post = BatchPostView::starting(post_id, channel_id, message_text, links, now);
            &&& post.created_at == now
            &&& post.expires_at.valid()
            &&& later.after(post.expires_at) <==> (later.secs - now.secs) * 1_000_000_000 + (
            later.nanos - now.nanos) > 6 * 3600 * 1_000_000_000
        }),
{
}

/// Of two instants one comes after the other exactly if more nanoseconds have passed.
pub proof fn law_order_of_instants(a: Timestamp, b: Timestamp)
    requires
        a.valid(),
        b.valid(),
    ensures
        a.after(b) <==> a.secs * 1_000_000_000 + a.nanos > b.secs * 1_000_000_000 + b.nanos,
{
}

/// What has expired stays expired.
pub proof fn law_expired_for_good(expires_at: Timestamp, now: Timestamp, later: Timestamp)
    requires
        now.after(expires_at),
        later == now || later.after(now),
    ensures
        later.after(expires_at),
{
}

/// The links of a batch are given up at the instant at which it expires.
pub proof fn law_timeout_is_the_lifetime()
    ensures
        BATCH_TIMEOUT_SECS == 3600 * BATCH_HOURS,
{
}

// ---------------------------------------------------------------------------
// The links, one after the other

/// The work on a batch, and its last action, after a number of links that ended well
/// or badly.
pub open spec fn after_turns(
    post_id: i32,
    channel_id: i64,
    links: Seq<Seq<char>>,
    stored: Seq<bool>,
) -> (BatchRunView, BatchActionView)
    decreases stored.len(),
{
    if stored.len() == 0 {
        batch_run_start(post_id, channel_id, links)
    } else {
        batch_step(
            after_turns(post_id, channel_id, links, stored.drop_last()).0,
            BatchEventView::LinkEnded { stored: stored.last() },
        )
    }
}

/// Every link of a batch has its turn, once and in the order of the post, whatever
/// became of those before it; after the last one the record is fetched.
pub proof fn law_every_link_has_its_turn(
    post_id: i32,
    channel_id: i64,
    links: Seq<Seq<char>>,
    stored: Seq<bool>,
)
    requires
        stored.len() <= links.len(),
    ensures
        after_turns(post_id, channel_id, links, stored).1 == (if stored.len() < links.len() {
            BatchActionView::Process(links[stored.len() as int])
        } else {
            BatchActionView::Fetch { post_id, channel_id }
        }),
{
    lemma_turns(post_id, channel_id, links, stored);
}

proof fn lemma_turns(post_id: i32, channel_id: i64, links: Seq<Seq<char>>, stored: Seq<bool>)
    requires
        stored.len() <= links.len(),
    ensures
        after_turns(post_id, channel_id, links, stored) == next_turn(
            BatchRunView {
                post_id,
                channel_id,
                links,
                next: stored.len() as int,
                stage: BatchStage::Links,
            },
        ),
    decreases stored.len(),
{
    if stored.len() > 0 {
        lemma_turns(post_id, channel_id, links, stored.drop_last());
    }
}

/// The work on a batch after a number of events.
pub open spec fn after_batch_events(run: BatchRunView, events: Seq<BatchEventView>) -> BatchRunView
    decreases events.len(),
{
    if events.len() == 0 {
        run
    } else {
        batch_step(after_batch_events(run, events.drop_last()), events.last()).0
    }
}

/// Whatever the events, the work on a batch is over after one for each link and two
/// more.
pub proof fn law_batches_end(
    post_id: i32,
    channel_id: i64,
    links: Seq<Seq<char>>,
    events: Seq<BatchEventView>,
)
    requires
        events.len() >= links.len() + 2,
    ensures
        after_batch_events(batch_run_start(post_id, channel_id, links).0, events).stage
            == BatchStage::Finished,
{
    lemma_events_left(batch_run_start(post_id, channel_id, links).0, events);
}

proof fn lemma_events_left(run: BatchRunView, events: Seq<BatchEventView>)
    requires
        0 <= run.next <= run.links.len(),
    ensures
        ({
            let after = after_batch_events(run, events);
            &&& 0 <= after.next <= after.links.len()
            &&& after.events_left() <= run.events_left() - events.len() || after.stage
                == BatchStage::Finished
        }),
    decreases events.len(),
{
    if events.len() > 0 {
        lemma_events_left(run, events.drop_last());
    }
}

/// Only a batch whose record says that it is done is reported, with the files of that
/// record.
pub proof fn law_only_done_batches_are_reported(run: BatchRunView, event: BatchEventView)
    ensures
        batch_step(run, event).1 matches BatchActionView::Report(text) ==> {
            &&& run.stage == BatchStage::Review
            &&& event matches BatchEventView::Post(Some(post))
            &&& post.status == PostStatus::Done
            &&& text == completion_text(post.uploaded)
        },
{
}

/// Whenever the time of a batch is up, its work stops and its record says so; a batch
/// that had ended before is left alone.
pub proof fn law_timeouts_are_recorded(run: BatchRunView)
    ensures
        ({
            let (after, action) = batch_step(run, BatchEventView::TimedOut);
            &&& after.stage == BatchStage::Finished
            &&& action == (if run.stage == BatchStage::Finished {
                BatchActionView::Finish(None)
            } else {
                BatchActionView::Finish(
                    Some(
                        PostUpdateView {
                            post_id: run.post_id,
                            channel_id: run.channel_id,
                            change: PostChangeView::SetStatus(PostStatus::Timeout),
                        },
                    ),
                )
            })
        }),
{
}

/// The record is asked for once, under the post's own id, after the last link. A record
/// that is missing, that cannot be fetched or that is not done ends the work without a
/// report and without a change.
pub proof fn law_batches_without_a_report(run: BatchRunView, post: BatchPostView)
    requires
        run.stage == BatchStage::Review,
        post.status != PostStatus::Done,
    ensures
        batch_step(run, BatchEventView::Post(Some(post))).1 == BatchActionView::Finish(None),
        batch_step(run, BatchEventView::Post(None)).1 == BatchActionView::Finish(None),
        batch_step(run, BatchEventView::Failed).1 == BatchActionView::Finish(None),
{
}

/// A record that is done is reported; the work ends without a change when the report is
/// sent, and the record says that the batch failed where it cannot be.
pub proof fn law_batches_with_a_report(run: BatchRunView, post: BatchPostView)
    requires
        run.stage == BatchStage::Review,
        post.status == PostStatus::Done,
    ensures
        ({
            let (reporting, action) = batch_step(run, BatchEventView::Post(Some(post)));
            &&& action == BatchActionView::Report(completion_text(post.uploaded))
            &&& batch_step(reporting, BatchEventView::Done).1 == BatchActionView::Finish(None)
            &&& batch_step(reporting, BatchEventView::Failed).1 == BatchActionView::Finish(
                Some(
                    PostUpdateView {
                        post_id: run.post_id,
                        channel_id: run.channel_id,
                        change: PostChangeView::SetStatus(PostStatus::Failed),
                    },
                ),
            )
        }),
{
}

/// No step of the work on a batch changes whose batch it is, or its links.
pub proof fn law_batches_keep_their_links(run: BatchRunView, event: BatchEventView)
    ensures
        batch_step(run, event).0.post_id == run.post_id,
        batch_step(run, event).0.channel_id == run.channel_id,
        batch_step(run, event).0.links == run.links,
{
}

/// A link that failed does not make its batch fail.
pub proof fn law_failed_links_do_not_stop_a_batch(run: BatchRunView)
    requires
        run.stage == BatchStage::Links,
    ensures
        batch_step(run, BatchEventView::LinkEnded { stored: false }) == batch_step(
            run,
            BatchEventView::LinkEnded { stored: true },
        ),
        !(batch_step(run, BatchEventView::LinkEnded { stored: false }).1 is Finish),
{
}

// ---------------------------------------------------------------------------
// One link

/// Each step of the work on a link brings it nearer to its end, and it ends with a
/// file or a failure.
pub proof fn law_link_step(run: LinkRunView, event: LinkEventView)
    requires
        run.stage != LinkStage::Finished,
    ensures
        link_step(run, event).0.rank() > run.rank(),
        link_step(run, event).0.stage == LinkStage::Finished <==> (link_step(run, event).1 is Finish
            || link_step(run, event).1 is Fail),
{
}

/// The work on a link after a number of events.
pub open spec fn after_link_events(run: LinkRunView, events: Seq<LinkEventView>) -> LinkRunView
    decreases events.len(),
{
    if events.len() == 0 {
        run
    } else {
        link_step(after_link_events(run, events.drop_last()), events.last()).0
    }
}

/// Whatever the events, the work on a link is over after seven of them.
pub proof fn law_links_end(run: LinkRunView, events: Seq<LinkEventView>)
    requires
        events.len() >= 7,
    ensures
        after_link_events(run, events).stage == LinkStage::Finished,
{
    lemma_link_rank(run, events);
}

proof fn lemma_link_rank(run: LinkRunView, events: Seq<LinkEventView>)
    ensures
        after_link_events(run, events).rank() >= events.len() || after_link_events(run, events).stage
            == LinkStage::Finished,
    decreases events.len(),
{
    if events.len() > 0 {
        lemma_link_rank(run, events.drop_last());
    }
}

/// The work on a link of a batch after a number of events, and the last action.
pub open spec fn link_trace(
    post_id: i32,
    channel_id: i64,
    store_channel_id: i64,
    url: Seq<char>,
    events: Seq<LinkEventView>,
) -> (LinkRunView, LinkActionView)
    decreases events.len(),
{
    if events.len() == 0 {
        link_start(post_id, channel_id, store_channel_id, url)
    } else {
        link_step(
            link_trace(post_id, channel_id, store_channel_id, url, events.drop_last()).0,
            events.last(),
        )
    }
}

/// The name of the file of a response in the store channel.
spec fn name_in_store(head: ResponseHeadView) -> Seq<char> {
    match stored_name(head) {
        Some(name) => name,
        None => "unknown_file.bin"@,
    }
}

proof fn lemma_link_trace(
    post_id: i32,
    channel_id: i64,
    store_channel_id: i64,
    url: Seq<char>,
    events: Seq<LinkEventView>,
)
    ensures
        ({
            let (run, action) = link_trace(post_id, channel_id, store_channel_id, url, events);
            &&& run.post_id == post_id
            &&& run.channel_id == channel_id
            &&& run.store_channel_id == store_channel_id
            &&& run.url == url
            &&& run.stage != LinkStage::Finished ==> {
                &&& run.rank() == events.len()
                &&& run.stage == LinkStage::Transfer ==> action == (LinkActionView::Transfer {
                    name: run.name,
                    length: run.length,
                })
                &&& run.rank() >= 2 ==> {
                    &&& events[1] matches LinkEventView::Response(head)
                    &&& run.name == name_in_store(head)
                    &&& run.length == body_length(head)
                }
                &&& run.rank() >= 4 ==> {
                    &&& events[3] matches LinkEventView::Sent { message_id, media }
                    &&& run.message_id == message_id
                    &&& file_id(media) == Ok::<Seq<char>, LinkErrorView>(run.file_id)
                }
            }
        }),
    decreases events.len(),
{
    if events.len() > 0 {
        lemma_link_trace(post_id, channel_id, store_channel_id, url, events.drop_last());
        assert(events.last() == events[events.len() - 1]);
    }
}

/// Whatever the events, the file of a link goes to the store channel and to no other,
/// whatever its name or kind, with a text that is `File: ` and the name under which it
/// was transferred just before; it goes as a video exactly if that is a video's name.
pub proof fn law_files_go_to_the_store_channel(
    post_id: i32,
    channel_id: i64,
    store_channel_id: i64,
    url: Seq<char>,
    events: Seq<LinkEventView>,
)
    ensures
        link_trace(post_id, channel_id, store_channel_id, url, events).1 matches LinkActionView::Store {
            channel_id: target,
            text,
            is_video,
        } ==> {
            &&& target == store_channel_id
            &&& events.len() > 0
            &&& link_trace(
                post_id,
                channel_id,
                store_channel_id,
                url,
                events.drop_last(),
            ).1 matches LinkActionView::Transfer { name, .. }
            &&& text == "File: "@ + name
            &&& is_video == video_name(lower(name))
        },
{
    if events.len() > 0 {
        lemma_link_trace(post_id, channel_id, store_channel_id, url, events.drop_last());
    }
}

/// Whatever the events: the service is asked once, at the start, about the link itself;
/// what is downloaded is the address in its reply; what is transferred is the file of
/// the response, under the name and with the length that the response gives it.
pub proof fn law_links_are_resolved_and_transferred(
    post_id: i32,
    channel_id: i64,
    store_channel_id: i64,
    url: Seq<char>,
    events: Seq<LinkEventView>,
)
    ensures
        ({
            let action = link_trace(post_id, channel_id, store_channel_id, url, events).1;
            &&& events.len() == 0 <==> action is AskApi
            &&& action matches LinkActionView::AskApi(request) ==> request.query == seq![("url"@, url)]
            &&& action matches LinkActionView::Download(address) ==> {
                &&& events.len() == 1
                &&& events[0] matches LinkEventView::ApiReply { status, body }
                &&& reply_link(status, body) == Ok::<Option<Seq<char>>, Seq<char>>(Some(address))
            }
            &&& action matches LinkActionView::Transfer { name, length } ==> {
                &&& events.len() == 2
                &&& events[1] matches LinkEventView::Response(head)
                &&& head.content_length == Some(length as u64)
                &&& stored_name(head) matches Some(given) ==> name == given
                &&& stored_name(head) is None ==> name == "unknown_file.bin"@
            }
        }),
{
    lemma_link_trace(post_id, channel_id, store_channel_id, url, events);
    if events.len() > 0 {
        lemma_link_trace(post_id, channel_id, store_channel_id, url, events.drop_last());
        assert(events.last() == events[events.len() - 1]);
        if let LinkEventView::Response(head) = events.last() {
            law_announced_length_decides(head);
        }
    }
}

/// Whatever the events, the record that is changed or fetched is that of the post. What
/// is added to it, and what the work ends with, is the file of the link, under the name
/// that its response gave it and with the id and the number of the message in the store
/// channel. The only status that is set is that the batch is done, and only where the
/// record shows a file for each link.
pub proof fn law_what_is_recorded(
    post_id: i32,
    channel_id: i64,
    store_channel_id: i64,
    url: Seq<char>,
    events: Seq<LinkEventView>,
)
    ensures
        ({
            let action = link_trace(post_id, channel_id, store_channel_id, url, events).1;
            let is_the_file = |file: UploadedFileView|
                {
                    &&& events.len() >= 4
                    &&& file.original_url == url
                    &&& events[1] matches LinkEventView::Response(head)
                    &&& stored_name(head) matches Some(given) ==> file.file_name == given
                    &&& stored_name(head) is None ==> file.file_name == "unknown_file.bin"@
                    &&& events[3] matches LinkEventView::Sent { message_id, media }
                    &&& file.store_channel_msg_id == message_id
                    &&& file_id(media) == Ok::<Seq<char>, LinkErrorView>(file.telegram_file_id)
                };
            &&& action matches LinkActionView::Update(update) ==> {
                &&& update.post_id == post_id
                &&& update.channel_id == channel_id
                &&& match update.change {
                    PostChangeView::Push(file) => events.len() == 4 && is_the_file(file),
                    PostChangeView::SetStatus(status) => {
                        &&& status == PostStatus::Done
                        &&& events.last() matches LinkEventView::Post(Some(post))
                        &&& post.uploaded.len() == post.detected_links.len()
                    },
                }
            }
            &&& action matches LinkActionView::Fetch { post_id: p, channel_id: c } ==> p == post_id && c
                == channel_id
            &&& action matches LinkActionView::Finish(file) ==> is_the_file(file)
        }),
{
    lemma_link_trace(post_id, channel_id, store_channel_id, url, events);
    if events.len() > 0 {
        lemma_link_trace(post_id, channel_id, store_channel_id, url, events.drop_last());
        assert(events.last() == events[events.len() - 1]);
        if events.len() > 4 {
            assert(events.drop_last()[1] == events[1]);
            assert(events.drop_last()[3] == events[3]);
        }
    }
}

/// A link that goes well takes these steps, one after the other, and fails at none of
/// them: the service gives an address, the response announces a permitted length, the
/// message in the store channel holds a document or a video, and the record is kept.
pub proof fn law_links_that_go_well(
    run: LinkRunView,
    status: u16,
    body: Seq<u8>,
    head: ResponseHeadView,
    message_id: i32,
    media: Option<Media>,
)
    ensures
        run.stage == LinkStage::Api && (reply_link(status, body) matches Ok(Some(_))) ==> link_step(
            run,
            LinkEventView::ApiReply { status, body },
        ).1 is Download,
        run.stage == LinkStage::Download && (head.content_length matches Some(length) && 0 < length
            <= 2147483648) ==> link_step(run, LinkEventView::Response(head)).1 is Transfer,
        run.stage == LinkStage::Transfer ==> link_step(run, LinkEventView::Done).1 is Store,
        run.stage == LinkStage::Store && (media matches Some(m) && !(m is Other)) ==> link_step(
            run,
            LinkEventView::Sent { message_id, media },
        ).1 is Update,
        run.stage == LinkStage::Record ==> link_step(run, LinkEventView::Done).1 is Fetch,
        run.stage == LinkStage::Mark ==> link_step(run, LinkEventView::Done).1 is Finish,
{
    law_announced_length_decides(head);
}

/// How the work on a link fails: without an address, with a reply that is no JSON (and
/// the reason, word for word), with a file that is empty or too large, with a message
/// in the store channel that holds no file, or with an action that fails. Only where
/// the record cannot be fetched, or is missing, the file counts all the same.
pub proof fn law_links_that_fail(
    run: LinkRunView,
    status: u16,
    body: Seq<u8>,
    head: ResponseHeadView,
    message_id: i32,
)
    ensures
        run.stage == LinkStage::Api ==> {
            let action = link_step(run, LinkEventView::ApiReply { status, body }).1;
            &&& reply_link(status, body) matches Ok(None) ==> action == LinkActionView::Fail(
                LinkErrorView::NoDownloadLink,
            )
            &&& reply_link(status, body) matches Err(reason) ==> action == LinkActionView::Fail(
                LinkErrorView::BadReply(reason),
            )
        },
        run.stage == LinkStage::Download ==> {
            let action = link_step(run, LinkEventView::Response(head)).1;
            &&& head.content_length is None || head.content_length == Some(0u64) ==> action
                == LinkActionView::Fail(LinkErrorView::FileEmpty)
            &&& head.content_length matches Some(length) ==> length > 2147483648 ==> action
                == LinkActionView::Fail(LinkErrorView::FileTooLarge)
        },
        run.stage == LinkStage::Store ==> {
            &&& link_step(run, LinkEventView::Sent { message_id, media: None }).1
                == LinkActionView::Fail(LinkErrorView::NoMedia)
            &&& link_step(run, LinkEventView::Sent { message_id, media: Some(Media::Other) }).1
                == LinkActionView::Fail(LinkErrorView::UnsupportedMedia)
        },
        run.stage != LinkStage::Finished && run.stage != LinkStage::Review ==> link_step(
            run,
            LinkEventView::Failed,
        ).1 == LinkActionView::Fail(LinkErrorView::ActionFailed),
        run.stage == LinkStage::Review ==> {
            &&& link_step(run, LinkEventView::Failed).1 == LinkActionView::Finish(run.file())
            &&& link_step(run, LinkEventView::Post(None)).1 == LinkActionView::Finish(run.file())
        },
{
    law_announced_length_decides(head);
}

/// No file of a batch is transferred but one that is neither empty nor larger than
/// 2 GiB.
pub proof fn law_only_permitted_sizes_in_batches(run: LinkRunView, event: LinkEventView)
    ensures
        link_step(run, event).1 matches LinkActionView::Transfer { length, .. } ==> 0 < length
            <= 2147483648,
{
}

/// Once a file is in the store channel, the changes made to the batch's record add
/// exactly that file, and mark the batch done exactly if it was the last one: what
/// the record then holds is the batch with that file added. The work ends with the
/// same file.
pub proof fn law_record_follows_the_batch(
    run: LinkRunView,
    message_id: i32,
    media: Option<Media>,
    post: BatchPostView,
)
    requires
        run.stage == LinkStage::Store,
        file_id(media) is Ok,
        post.post_id == run.post_id,
        post.channel_id == run.channel_id,
    ensures
        ({
            let file = UploadedFileView {
                original_url: run.url,
                file_name: run.name,
                telegram_file_id: file_id(media)->Ok_0,
                store_channel_msg_id: message_id,
            };
            let (sent, pushing) = link_step(run, LinkEventView::Sent { message_id, media });
            let pushed = post.with_file(file);
            let (recorded, fetching) = link_step(sent, LinkEventView::Done);
            let (reviewed, last) = link_step(recorded, LinkEventView::Post(Some(pushed)));
            &&& pushing matches LinkActionView::Update(update)
            &&& update.post_id == post.post_id
            &&& update.channel_id == post.channel_id
            &&& update.change.applied_to(post) == pushed
            &&& fetching == LinkActionView::Fetch {
                post_id: post.post_id,
                channel_id: post.channel_id,
            }
            &&& if pushed.complete() {
                &&& last matches LinkActionView::Update(mark)
                &&& mark.post_id == post.post_id
                &&& mark.channel_id == post.channel_id
                &&& mark.change.applied_to(pushed) == post.after_upload(file)
                &&& link_step(reviewed, LinkEventView::Done).1 == LinkActionView::Finish(file)
            } else {
                &&& last == LinkActionView::Finish(file)
                &&& pushed == post.after_upload(file)
            }
        }),
{
}

/// A link that failed has changed nothing in the record, unless it failed after its
/// file was sent to the store channel.
pub proof fn law_failed_links_are_not_recorded(run: LinkRunView, event: LinkEventView)
    ensures
        link_step(run, event).1 is Update ==> run.stage == LinkStage::Store || run.stage
            == LinkStage::Review,
        link_step(run, event).1 matches LinkActionView::Update(update) ==> (update.change is Push <==>
            run.stage == LinkStage::Store),
{
}

// ---------------------------------------------------------------------------
// The report

/// The id of a document or of a video is its number in decimal. A message that holds
/// anything else, or nothing, has none.
pub proof fn law_file_ids(id: i64)
    ensures
        file_id(Some(Media::Document(id))) == Ok::<Seq<char>, LinkErrorView>(decimal(id as int)),
        file_id(Some(Media::Video(id))) == Ok::<Seq<char>, LinkErrorView>(decimal(id as int)),
        file_id(Some(Media::Other)) is Err,
        file_id(None) is Err,
{
}

/// The report is the command, and then for each file a line break and its id.
pub proof fn law_reports_grow(uploaded: Seq<UploadedFileView>, file: UploadedFileView)
    ensures
        completion_text(Seq::empty()) == "/store_file_id"@,
        completion_text(uploaded.push(file)) == completion_text(uploaded) + seq!['\n']
            + file.telegram_file_id,
{
    let ids = |files: Seq<UploadedFileView>| files.map_values(|f: UploadedFileView| f.telegram_file_id);
    let command = seq![STORE_COMMAND@];
    let none: Seq<UploadedFileView> = Seq::empty();
    assert(command + ids(none) =~= command);
    let before = command + ids(uploaded);
    let after = command + ids(uploaded.push(file));
    assert(after.drop_last() =~= before);
    assert(after.last() == file.telegram_file_id);
    assert(after.len() > 1);
    assert(joined(before, '\n').push('\n') + file.telegram_file_id =~= joined(before, '\n') + seq!['\n']
        + file.telegram_file_id);
}

/// The id of a file is not empty and has no line break.
pub proof fn law_file_ids_are_one_line(media: Option<Media>)
    ensures
        file_id(media) matches Ok(id) ==> id.len() > 0 && !id.contains('\n'),
{
    if let Some(Media::Document(id)) = media {
        lemma_decimal_chars(id as int);
    }
    if let Some(Media::Video(id)) = media {
        lemma_decimal_chars(id as int);
    }
}

proof fn lemma_digits_chars(n: nat)
    ensures
        digits(n).len() > 0,
        forall|i: int| 0 <= i < digits(n).len() ==> '0' <= #[trigger] digits(n)[i] <= '9',
    decreases n,
{
    if n >= 10 {
        lemma_digits_chars(n / 10);
    }
}

proof fn lemma_decimal_chars(n: int)
    ensures
        decimal(n).len() > 0,
        !decimal(n).contains('\n'),
{
    if n < 0 {
        lemma_digits_chars((-n) as nat);
        assert forall|i: int| 0 <= i < decimal(n).len() implies decimal(n)[i] != '\n' by {
            if i > 0 {
                assert(decimal(n)[i] == digits((-n) as nat)[i - 1]);
            }
        }
    } else {
        lemma_digits_chars(n as nat);
    }
}

proof fn lemma_digits_differ(a: nat, b: nat)
    requires
        digits(a) == digits(b),
    ensures
        a == b,
    decreases a,
{
    lemma_digits_chars(a / 10);
    lemma_digits_chars(b / 10);
    let all = seq!['0', '1', '2', '3', '4', '5', '6', '7', '8', '9'];
    assert forall|i: int, j: int| 0 <= i < 10 && 0 <= j < 10 && all[i] == all[j] implies i == j by {}
    if a < 10 {
        if b >= 10 {
            assert(digits(a).len() == 1);
            assert(digits(b).len() >= 2);
        } else {
            assert(digits(a)[0] == all[a as int]);
            assert(digits(b)[0] == all[b as int]);
        }
    } else {
        if b < 10 {
            assert(digits(b).len() == 1);
            assert(digits(a).len() >= 2);
        } else {
            assert(digits(a).drop_last() == digits(a / 10));
            assert(digits(b).drop_last() == digits(b / 10));
            lemma_digits_differ(a / 10, b / 10);
            assert(digits(a).last() == all[(a % 10) as int]);
            assert(digits(b).last() == all[(b % 10) as int]);
        }
    }
}

/// Two documents with different ids are reported with different texts.
pub proof fn law_file_ids_differ(a: i64, b: i64)
    requires
        file_id(Some(Media::Document(a))) == file_id(Some(Media::Document(b))),
    ensures
        a == b,
{
    if a < 0 {
        lemma_digits_chars((-a) as nat);
    } else {
        lemma_digits_chars(a as nat);
    }
    if b < 0 {
        lemma_digits_chars((-b) as nat);
    } else {
        lemma_digits_chars(b as nat);
    }
    let da = decimal(a as int);
    let db = decimal(b as int);
    assert(da == db);
    if a < 0 {
        assert(da[0] == '-');
        assert(b < 0) by {
            if b >= 0 {
                assert(db[0] == digits(b as nat)[0]);
            }
        }
        assert(da.skip(1) == digits((-a) as nat));
        assert(db.skip(1) == digits((-b) as nat));
        lemma_digits_differ((-a) as nat, (-b) as nat);
    } else {
        assert(da[0] == digits(a as nat)[0]);
        assert(b >= 0) by {
            if b < 0 {
                assert(db[0] == '-');
            }
        }
        lemma_digits_differ(a as nat, b as nat);
    }
}

/// The report of a batch, cut at its line breaks, is the command and then the id of
/// each file, in order.
pub proof fn law_report_lines(uploaded: Seq<UploadedFileView>)
    requires
        forall|i: int|
            0 <= i < uploaded.len() ==> !(#[trigger] uploaded[i]).telegram_file_id.contains('\n'),
    ensures
        pieces(completion_text(uploaded), '\n') == seq!["/store_file_id"@] + uploaded.map_values(
            |f: UploadedFileView| f.telegram_file_id,
        ),
{
    let lines = seq![STORE_COMMAND@] + uploaded.map_values(|f: UploadedFileView| f.telegram_file_id);
    reveal_strlit("/store_file_id");
    assert forall|i: int| 0 <= i < lines.len() implies !(#[trigger] lines[i]).contains('\n') by {
        if i > 0 {
            assert(lines[i] == uploaded[i - 1].telegram_file_id);
        }
    }
    lemma_pieces_of_joined(lines, '\n');
}

} // verus!
