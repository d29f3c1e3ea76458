//! Laws of a whole batch, from its start to its report, with a database that does what
//! it is told.

use vstd::prelude::*;

use crate::batch::{
    batch_run_start, batch_step, completion_text, link_start, link_step, next_turn, BatchActionView,
    BatchEventView, BatchRunView, BatchStage, LinkActionView, LinkEventView, LinkRunView, LinkStage,
    PostUpdateView,
};
use crate::models::{BatchPostView, PostStatus, Timestamp, UploadedFileView};

verus! {

/// The record after a change, if the change is for its post.
pub open spec fn changed(post: BatchPostView, update: PostUpdateView) -> BatchPostView {
    if update.post_id == post.post_id && update.channel_id == post.channel_id {
        update.change.applied_to(post)
    } else {
        post
    }
}

/// What is found of a post in a database that holds this one record.
pub open spec fn found(post: BatchPostView, post_id: i32, channel_id: i64) -> Option<BatchPostView> {
    if post_id == post.post_id && channel_id == post.channel_id {
        Some(post)
    } else {
        None
    }
}

/// The work on a link from this action on, to its end: what is in the record then, and
/// the file that the work brought. The database does what it is told; the outcomes of
/// all other actions are `events`, and failures once these are used up.
pub open spec fn link_course(
    run: LinkRunView,
    action: LinkActionView,
    post: BatchPostView,
    events: Seq<LinkEventView>,
) -> (BatchPostView, Option<UploadedFileView>)
    decreases 7 - run.rank(),
{
    if run.stage == LinkStage::Finished {
        match action {
            LinkActionView::Finish(file) => (post, Some(file)),
            _ => (post, None),
        }
    } else {
        match action {
            LinkActionView::Update(update) => {
                let (next, following) = link_step(run, LinkEventView::Done);
                link_course(next, following, changed(post, update), events)
            },
            LinkActionView::Fetch { post_id, channel_id } => {
                let record = found(post, post_id, channel_id);
                let (next, following) = link_step(run, LinkEventView::Post(record));
                link_course(next, following, post, events)
            },
            _ => if events.len() == 0 {
                let (next, following) = link_step(run, LinkEventView::Failed);
                link_course(next, following, post, events)
            } else {
                let (next, following) = link_step(run, events.first());
                link_course(next, following, post, events.drop_first())
            },
        }
    }
}

/// The file that the work on a link of a batch brings, where `events` are the outcomes
/// of its actions.
pub open spec fn link_result(
    post: BatchPostView,
    store_channel_id: i64,
    link: Seq<char>,
    events: Seq<LinkEventView>,
) -> Option<UploadedFileView> {
    let (run, action) = link_start(post.post_id, post.channel_id, store_channel_id, link);
    link_course(run, action, post, events).1
}

/// The work on a batch from this action on, to its end: what is in the record then, and
/// the report, where one goes out. `events[i]` are the outcomes of the actions for link
/// `i`, and `sent` says whether the report can be sent.
pub open spec fn batch_course(
    run: BatchRunView,
    action: BatchActionView,
    post: BatchPostView,
    store_channel_id: i64,
    events: Seq<Seq<LinkEventView>>,
    sent: bool,
) -> (BatchPostView, Option<Seq<char>>)
    decreases run.events_left(),
{
    if run.stage == BatchStage::Finished || run.next > run.links.len() {
        match action {
            BatchActionView::Finish(Some(update)) => (changed(post, update), None),
            _ => (post, None),
        }
    } else {
        match action {
            BatchActionView::Process(link) => {
                let (work, first) = link_start(run.post_id, run.channel_id, store_channel_id, link);
                let (after, file) = link_course(work, first, post, events[run.next - 1]);
                let (next, following) = batch_step(
                    run,
                    BatchEventView::LinkEnded { stored: file is Some },
                );
                batch_course(next, following, after, store_channel_id, events, sent)
            },
            BatchActionView::Fetch { post_id, channel_id } => {
                let record = found(post, post_id, channel_id);
                let (next, following) = batch_step(run, BatchEventView::Post(record));
                batch_course(next, following, post, store_channel_id, events, sent)
            },
            BatchActionView::Report(text) => {
                let (next, following) = batch_step(
                    run,
                    if sent {
                        BatchEventView::Done
                    } else {
                        BatchEventView::Failed
                    },
                );
                (
                    batch_course(next, following, post, store_channel_id, events, sent).0,
                    Some(text),
                )
            },
            BatchActionView::Finish(_) => (post, None),
        }
    }
}

/// The files of those links that brought one, in the order of the links.
pub open spec fn files_of(results: Seq<Option<UploadedFileView>>) -> Seq<UploadedFileView>
    decreases results.len(),
{
    if results.len() == 0 {
        Seq::empty()
    } else {
        match results.last() {
            Some(file) => files_of(results.drop_last()).push(file),
            None => files_of(results.drop_last()),
        }
    }
}

/// Each link brought a file.
pub open spec fn all_stored(results: Seq<Option<UploadedFileView>>) -> bool {
    forall|i: int| 0 <= i < results.len() ==> (#[trigger] results[i]) is Some
}

proof fn lemma_files(results: Seq<Option<UploadedFileView>>)
    ensures
        files_of(results).len() <= results.len(),
        files_of(results).len() == results.len() <==> all_stored(results),
        all_stored(results) ==> forall|i: int|
            0 <= i < results.len() ==> #[trigger] files_of(results)[i] == results[i]->0,
    decreases results.len(),
{
    if results.len() > 0 {
        let front = results.drop_last();
        lemma_files(front);
        assert(all_stored(results) <==> all_stored(front) && results.last() is Some) by {
            assert(forall|i: int| 0 <= i < front.len() ==> front[i] == results[i]);
            assert(results.last() == results[results.len() - 1]);
            if all_stored(front) && results.last() is Some {
                assert forall|i: int| 0 <= i < results.len() implies (#[trigger] results[i]) is Some by {
                    if i < front.len() {
                        assert(front[i] is Some);
                    }
                }
            }
        }
    }
}

/// The action is carried out outside the database.
spec fn outside(action: LinkActionView) -> bool {
    action is AskApi || action is Download || action is Transfer || action is Store
}

proof fn lemma_link_course(
    run: LinkRunView,
    action: LinkActionView,
    post: BatchPostView,
    other: BatchPostView,
    events: Seq<LinkEventView>,
)
    requires
        run.rank() <= 3,
        outside(action),
        post.post_id == run.post_id == other.post_id,
        post.channel_id == run.channel_id == other.channel_id,
    ensures
        ({
            let (after, file) = link_course(run, action, post, events);
            &&& file == link_course(run, action, other, events).1
            &&& after == (match file {
                Some(f) => post.after_upload(f),
                None => post,
            })
            &&& file matches Some(f) ==> f.original_url == run.url
        }),
    decreases 7 - run.rank(),
{
    reveal_with_fuel(link_course, 6);
    let (event, rest) = if events.len() == 0 {
        (LinkEventView::Failed, events)
    } else {
        (events.first(), events.drop_first())
    };
    let (next, following) = link_step(run, event);
    if next.stage != LinkStage::Finished && outside(following) {
        lemma_link_course(next, following, post, other, rest);
    }
}

/// The record of a batch with these files.
spec fn record_with(first: BatchPostView, files: Seq<UploadedFileView>) -> BatchPostView {
    BatchPostView {
        uploaded: files,
        status: if files.len() == first.detected_links.len() {
            PostStatus::Done
        } else {
            PostStatus::InProgress
        },
        ..first
    }
}

/// What each link of the batch brings.
pub open spec fn link_results(
    first: BatchPostView,
    store_channel_id: i64,
    events: Seq<Seq<LinkEventView>>,
) -> Seq<Option<UploadedFileView>> {
    Seq::new(
        first.detected_links.len(),
        |i: int| link_result(first, store_channel_id, first.detected_links[i], events[i]),
    )
}

proof fn lemma_batch_course(
    first: BatchPostView,
    store_channel_id: i64,
    events: Seq<Seq<LinkEventView>>,
    sent: bool,
    k: int,
)
    requires
        0 <= k <= first.detected_links.len(),
        first.detected_links.len() > 0,
    ensures
        ({
            let links = first.detected_links;
            let results = link_results(first, store_channel_id, events);
            let files = files_of(results);
            let (run, action) = next_turn(
                BatchRunView {
                    post_id: first.post_id,
                    channel_id: first.channel_id,
                    links,
                    next: k,
                    stage: BatchStage::Links,
                },
            );
            let start = record_with(first, files_of(results.take(k)));
            batch_course(run, action, start, store_channel_id, events, sent) == (
                if files.len() < links.len() {
                    (record_with(first, files), None)
                } else if sent {
                    (record_with(first, files), Some(completion_text(files)))
                } else {
                    (
                        record_with(first, files).with_status(PostStatus::Failed),
                        Some(completion_text(files)),
                    )
                }
            )
        }),
    decreases first.detected_links.len() - k,
{
    let links = first.detected_links;
    let results = link_results(first, store_channel_id, events);
    lemma_files(results);
    let begin = BatchRunView {
        post_id: first.post_id,
        channel_id: first.channel_id,
        links,
        next: k,
        stage: BatchStage::Links,
    };
    let start = record_with(first, files_of(results.take(k)));
    if k < links.len() {
        let (work, action) = link_start(first.post_id, first.channel_id, store_channel_id, links[k]);
        lemma_link_course(work, action, start, first, events[k]);
        lemma_files(results.take(k));
        assert(results.take(k + 1).drop_last() == results.take(k));
        assert(results.take(k + 1).last() == results[k]);
        lemma_files(results.take(k + 1));
        let after = link_course(work, action, start, events[k]).0;
        assert(after == record_with(first, files_of(results.take(k + 1))));
        lemma_batch_course(first, store_channel_id, events, sent, k + 1);
        let run = next_turn(begin).0;
        assert(run.next == k + 1);
    } else {
        assert(results.take(k) == results);
        reveal_with_fuel(batch_course, 4);
    }
}

/// A batch whose record is kept by a database that never fails, from its start to its
/// end, whatever happens to its links: the record holds the files of the links that
/// brought one, in the order of the links. Exactly if each link brought one the report
/// goes out, with their ids in that order; the batch is done then, or failed where the
/// report could not be sent. In every other case it stays in progress.
pub proof fn law_whole_batch(
    post_id: i32,
    channel_id: i64,
    message_text: Seq<char>,
    links: Seq<Seq<char>>,
    now: Timestamp,
    store_channel_id: i64,
    events: Seq<Seq<LinkEventView>>,
    sent: bool,
)
    requires
        links.len() > 0,
        events.len() == links.len(),
    ensures
        ({
            let first = BatchPostView::starting(post_id, channel_id, message_text, links, now);
            let results = link_results(first, store_channel_id, events);
            let (run, action) = batch_run_start(post_id, channel_id, links);
            let (record, report) = batch_course(run, action, first, store_channel_id, events, sent);
            &&& record == (BatchPostView {
                uploaded: files_of(results),
                status: record.status,
                ..first
            })
            &&& forall|i: int|
                0 <= i < links.len() && (#[trigger] results[i]) is Some ==> results[i]->0.original_url
                    == links[i]
            &&& if all_stored(results) {
                &&& files_of(results) == results.map_values(|r: Option<UploadedFileView>| r->0)
                &&& report == Some(completion_text(files_of(results)))
                &&& record.status == (if sent {
                    PostStatus::Done
                } else {
                    PostStatus::Failed
                })
            } else {
                &&& report is None
                &&& record.status == PostStatus::InProgress
            }
        }),
{
    let first = BatchPostView::starting(post_id, channel_id, message_text, links, now);
    let results = link_results(first, store_channel_id, events);
    lemma_files(results);
    assert(results.take(0) == Seq::<Option<UploadedFileView>>::empty());
    assert(record_with(first, files_of(results.take(0))) == first);
    lemma_batch_course(first, store_channel_id, events, sent, 0);
    assert forall|i: int|
        0 <= i < links.len() && (#[trigger] results[i]) is Some implies results[i]->0.original_url
        == links[i] by {
        let (work, action) = link_start(post_id, channel_id, store_channel_id, links[i]);
        lemma_link_course(work, action, first, first, events[i]);
    }
    if all_stored(results) {
        assert(files_of(results) =~= results.map_values(|r: Option<UploadedFileView>| r->0));
    }
}

} // verus!
