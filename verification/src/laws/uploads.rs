//! Laws of uploads: one at a time in a chat, cancelled by nobody but its starter,
//! and over sooner or later.

use vstd::prelude::*;

use crate::bot::{cancel, BotView, CallbackActionView};
use crate::external::{lower, url_parse};
use crate::filename::{body_length, upload_name, video_name, video_type, ResponseHeadView};
use crate::links::{reply_link, stream_link_request_for, terabox_link, LinkView};
use crate::upload::{
    start, step, Stage, UploadActionView, UploadErrorView, UploadEventView, UploadStartView, UploadView,
};

verus! {

/// A bot with no upload is consistent.
pub proof fn law_new_bot_is_consistent(bot: BotView)
    requires
        bot.locks == Set::<i64>::empty(),
        bot.started_by == Map::<i64, i64>::empty(),
        bot.triggers == Map::<i64, i64>::empty(),
    ensures
        bot.consistent(),
        forall|chat: i64| #[trigger] bot.idle(chat),
{
}

/// While an upload holds a chat, every other request there is turned away, and
/// changes nothing.
pub proof fn law_one_upload_per_chat(
    bot: BotView,
    chat: i64,
    message: i32,
    sender: i64,
    link: LinkView,
)
    requires
        bot.locks.contains(chat),
    ensures
        start(bot, chat, message, Some(sender), link) == (bot, UploadStartView::Busy("✋ Whoa, slow down! There's already an active upload in this chat."@)),
{
}

/// A request that nobody sent is not answered, and changes nothing.
pub proof fn law_nobody_sent_it(bot: BotView, chat: i64, message: i32, link: LinkView)
    ensures
        start(bot, chat, message, None, link) == (bot, UploadStartView::NoSender),
{
}

/// The request for an upload keeps the bot consistent and leaves all other chats
/// alone. In a chat that is free it always begins an upload, and the bot knows who
/// started it.
pub proof fn law_start(
    bot: BotView,
    chat: i64,
    message: i32,
    sender: i64,
    link: LinkView,
)
    requires
        bot.consistent(),
    ensures
        start(bot, chat, message, Some(sender), link).0.consistent(),
        start(bot, chat, message, Some(sender), link).0.same_elsewhere(bot, chat),
        !bot.locks.contains(chat) ==> {
            let (after, answer) = start(bot, chat, message, Some(sender), link);
            &&& answer matches UploadStartView::Begun(upload, _)
            &&& upload.chat_id == chat
            &&& upload.held_by(after)
            &&& after.started_by[chat] == sender
        },
{
    let after = start(bot, chat, message, Some(sender), link).0;
    assert(after.locks.remove(chat) == bot.locks.remove(chat));
    assert(after.started_by.remove(chat) == bot.started_by.remove(chat));
}

/// Each step of an upload keeps a consistent bot consistent, leaves all other chats
/// alone and brings the upload nearer to its end. As long as it is not over it holds
/// its chat; once it is, nothing is left of it.
pub proof fn law_step(bot: BotView, upload: UploadView, event: UploadEventView)
    requires
        upload.stage != Stage::Finished,
        upload.held_by(bot),
    ensures
        ({
            let (after, next, action) = step(bot, upload, event);
            &&& bot.consistent() ==> after.consistent()
            &&& after.same_elsewhere(bot, upload.chat_id)
            &&& next.chat_id == upload.chat_id
            &&& next.message_id == upload.message_id
            &&& next.url == upload.url
            &&& upload.stage != Stage::Download ==> next.name == upload.name && next.length
                == upload.length && next.is_video == upload.is_video
            &&& next.rank() > upload.rank()
            &&& next.stage != Stage::Finished ==> next.held_by(after)
            &&& next.stage == Stage::Finished ==> after.idle(upload.chat_id)
            &&& next.stage == Stage::Finished <==> (action is Finish || action is Fail)
        }),
{
    let chat = upload.chat_id;
    let after = step(bot, upload, event).0;
    assert(after.locks.remove(chat) == bot.locks.remove(chat));
    assert(after.started_by.remove(chat) == bot.started_by.remove(chat));
    assert(after.triggers.remove(chat) == bot.triggers.remove(chat));
    assert forall|c: i64|
        bot.consistent() && #[trigger] after.triggers.contains_key(
            c,
        ) implies after.started_by.contains_key(c) by {
        if c != chat {
            assert(after.triggers.remove(chat).contains_key(c));
            assert(bot.triggers.contains_key(c));
            assert(bot.started_by.remove(chat).contains_key(c));
        }
    }
    assert forall|c: i64|
        bot.consistent() && #[trigger] after.started_by.contains_key(c) implies after.locks.contains(
        c,
    ) by {
        if c != chat {
            assert(after.started_by.remove(chat).contains_key(c));
            assert(bot.started_by.contains_key(c));
            assert(bot.locks.remove(chat).contains(c));
        }
    }
}

/// What happens in one chat does not touch the upload of another.
pub proof fn law_chats_are_independent(bot: BotView, after: BotView, chat: i64, upload: UploadView)
    requires
        after.same_elsewhere(bot, chat),
        upload.chat_id != chat,
        upload.held_by(bot),
    ensures
        upload.held_by(after),
{
    let c = upload.chat_id;
    assert(bot.locks.remove(chat).contains(c));
    assert(after.locks.remove(chat).contains(c));
    assert(bot.started_by.remove(chat).contains_key(c) == bot.started_by.contains_key(c));
    assert(after.started_by.remove(chat).contains_key(c) == after.started_by.contains_key(c));
    assert(bot.triggers.remove(chat).contains_key(c) == bot.triggers.contains_key(c));
    assert(after.triggers.remove(chat).contains_key(c) == after.triggers.contains_key(c));
}

/// The upload and the bot after a number of events, with nothing else going on in the
/// chat.
pub open spec fn after_events(bot: BotView, upload: UploadView, events: Seq<UploadEventView>) -> (
    BotView,
    UploadView,
)
    decreases events.len(),
{
    if events.len() == 0 {
        (bot, upload)
    } else {
        let (before, current) = after_events(bot, upload, events.drop_last());
        let (after, next, _) = step(before, current, events.last());
        (after, next)
    }
}

/// Whatever the events, an upload is over after seven of them, and its chat is free
/// again.
pub proof fn law_uploads_end(bot: BotView, upload: UploadView, events: Seq<UploadEventView>)
    requires
        upload.stage != Stage::Finished,
        upload.held_by(bot),
    ensures
        ({
            let (after, last) = after_events(bot, upload, events);
            &&& bot.consistent() ==> after.consistent()
            &&& after.same_elsewhere(bot, upload.chat_id)
            &&& last.chat_id == upload.chat_id
            &&& last.stage != Stage::Finished ==> last.held_by(after)
            &&& last.stage == Stage::Finished ==> after.idle(upload.chat_id)
            &&& events.len() >= 7 ==> last.stage == Stage::Finished
        }),
    decreases events.len(),
{
    lemma_rank(bot, upload, events);
    if events.len() > 0 {
        law_uploads_end(bot, upload, events.drop_last());
        let (before, current) = after_events(bot, upload, events.drop_last());
        if current.stage != Stage::Finished {
            law_step(before, current, events.last());
        }
    }
}

proof fn lemma_rank(bot: BotView, upload: UploadView, events: Seq<UploadEventView>)
    ensures
        after_events(bot, upload, events).1.rank() >= events.len() || after_events(
            bot,
            upload,
            events,
        ).1.stage == Stage::Finished,
    decreases events.len(),
{
    if events.len() > 0 {
        lemma_rank(bot, upload, events.drop_last());
    }
}

/// Something that happens in the chat of an upload.
pub ghost enum Move {
    /// The outcome of the upload's last action.
    Event(UploadEventView),
    /// Somebody's request to cancel the upload.
    Cancel { sender: i64 },
}

/// The bot and the upload after a number of moves.
pub open spec fn after_moves(bot: BotView, upload: UploadView, moves: Seq<Move>) -> (
    BotView,
    UploadView,
)
    decreases moves.len(),
{
    if moves.len() == 0 {
        (bot, upload)
    } else {
        let (before, current) = after_moves(bot, upload, moves.drop_last());
        match moves.last() {
            Move::Event(event) => {
                let (after, next, _) = step(before, current, event);
                (after, next)
            },
            Move::Cancel { sender } => (cancel(before, current.chat_id, sender).0, current),
        }
    }
}

/// An upload leaves no trace: from its request in an idle chat to its end, whatever
/// the events and whoever asks to cancel it in between, the bot comes back to exactly
/// the state that it had before. Until then it differs only in that chat, which is
/// held all the time.
pub proof fn law_uploads_leave_no_trace(
    bot: BotView,
    chat: i64,
    message: i32,
    sender: i64,
    link: LinkView,
    moves: Seq<Move>,
)
    requires
        bot.idle(chat),
    ensures
        ({
            let (begun, answer) = start(bot, chat, message, Some(sender), link);
            &&& answer matches UploadStartView::Begun(upload, _)
            &&& {
                let (after, last) = after_moves(begun, upload, moves);
                if last.stage == Stage::Finished {
                    after == bot
                } else {
                    after.same_elsewhere(bot, chat) && after.locks.contains(chat)
                }
            }
        }),
{
    let (begun, answer) = start(bot, chat, message, Some(sender), link);
    let upload = answer->Begun_0;
    lemma_moves(bot, begun, upload, moves);
    let (after, last) = after_moves(begun, upload, moves);
    if last.stage != Stage::Finished {
        assert(after.locks.remove(chat) == bot.locks.remove(chat));
        assert(bot.started_by.remove(chat) == bot.started_by);
        assert(bot.triggers.remove(chat) == bot.triggers);
    }
}

/// The upload holds its chat in `bot`, which is otherwise the idle state `before`.
spec fn only_holds(before: BotView, bot: BotView, upload: UploadView) -> bool {
    let chat = upload.chat_id;
    &&& bot.username == before.username
    &&& bot.input_channel_id == before.input_channel_id
    &&& bot.store_channel_id == before.store_channel_id
    &&& bot.locks == before.locks.insert(chat)
    &&& bot.started_by.remove(chat) == before.started_by
    &&& bot.triggers.remove(chat) == before.triggers
    &&& !upload.transferring() ==> !bot.triggers.contains_key(chat)
}

proof fn lemma_moves(before: BotView, bot: BotView, upload: UploadView, moves: Seq<Move>)
    requires
        before.idle(upload.chat_id),
        bot == before.with_lock(upload.chat_id, bot.started_by[upload.chat_id]),
        upload.stage == Stage::Notice || upload.stage == Stage::Download,
    ensures
        ({
            let (after, last) = after_moves(bot, upload, moves);
            &&& last.chat_id == upload.chat_id
            &&& last.stage == Stage::Finished ==> after == before
            &&& last.stage != Stage::Finished ==> only_holds(before, after, last)
        }),
    decreases moves.len(),
{
    let chat = upload.chat_id;
    if moves.len() == 0 {
        assert(bot.started_by.remove(chat) == before.started_by);
        assert(bot.triggers.remove(chat) == before.triggers);
    } else {
        lemma_moves(before, bot, upload, moves.drop_last());
        let (earlier, current) = after_moves(bot, upload, moves.drop_last());
        let (after, last) = after_moves(bot, upload, moves);
        assert(before.locks.insert(chat).remove(chat) == before.locks);
        if current.stage == Stage::Finished {
            assert(after == before);
        } else {
            assert(after.started_by.remove(chat) == before.started_by);
            assert(after.triggers.remove(chat) == before.triggers);
            if last.stage == Stage::Finished {
                assert(after.triggers == after.triggers.remove(chat));
                assert(after == before);
            }
        }
    }
}

/// A failure ends an upload at once and frees the chat. The one exception is a
/// Terabox link that could not be looked up, which the user is told first.
pub proof fn law_failure_frees_the_chat(bot: BotView, upload: UploadView)
    requires
        upload.stage != Stage::Finished,
        upload.stage != Stage::Api,
        upload.held_by(bot),
    ensures
        ({
            let (after, next, action) = step(bot, upload, UploadEventView::Failed);
            &&& action == UploadActionView::Fail(UploadErrorView::ActionFailed)
            &&& next.stage == Stage::Finished
            &&& after.idle(upload.chat_id)
        }),
{
}

/// Once an upload has ended, the next one in its chat begins.
pub proof fn law_chat_is_usable_again(
    bot: BotView,
    upload: UploadView,
    event: UploadEventView,
    message: i32,
    sender: i64,
    link: LinkView,
)
    requires
        upload.stage != Stage::Finished,
        upload.held_by(bot),
        step(bot, upload, event).1.stage == Stage::Finished,
    ensures
        start(step(bot, upload, event).0, upload.chat_id, message, Some(sender), link).1 is Begun,
{
    law_step(bot, upload, event);
}

/// No file is transferred but one that is neither empty nor larger than 2 GiB.
pub proof fn law_only_permitted_sizes(bot: BotView, upload: UploadView, event: UploadEventView)
    requires
        upload.stage != Stage::Finished,
        upload.held_by(bot),
    ensures
        step(bot, upload, event).2 matches UploadActionView::Transfer { length, .. } ==> 0 < length
            <= 2147483648,
{
}

/// A file that is empty or too large is refused with a reply, and the upload ends when
/// that is sent.
pub proof fn law_other_sizes_are_refused(bot: BotView, upload: UploadView, head: ResponseHeadView)
    requires
        upload.stage == Stage::Download,
        upload_name(head) is Ok,
        body_length(head) == 0 || body_length(head) > 2147483648,
    ensures
        ({
            let (after, refused, reply) = step(bot, upload, UploadEventView::Response(head));
            &&& reply == UploadActionView::Reply(
                if body_length(head) == 0 {
                    "⚠️ File is empty"@
                } else {
                    "⚠️ File is too large"@
                },
            )
            &&& step(after, refused, UploadEventView::Done).2 == UploadActionView::Finish
        }),
{
}

/// Every file up to 2 GiB is uploaded, if nothing fails: the status message goes out,
/// the file is transferred under its name and with its length, it is delivered, the
/// status message goes, and the chat is free again.
pub proof fn law_permitted_files_are_uploaded(
    bot: BotView,
    upload: UploadView,
    head: ResponseHeadView,
    seconds: Seq<char>,
)
    requires
        upload.stage == Stage::Download,
        upload.held_by(bot),
        upload_name(head) is Ok,
        0 < body_length(head) <= 2147483648,
    ensures
        ({
            let name = upload_name(head)->Ok_0;
            let (bot1, upload1, action1) = step(bot, upload, UploadEventView::Response(head));
            let (bot2, upload2, action2) = step(bot1, upload1, UploadEventView::Done);
            let (bot3, upload3, action3) = step(bot2, upload2, UploadEventView::Uploaded { seconds });
            let (bot4, upload4, action4) = step(bot3, upload3, UploadEventView::Done);
            let (bot5, _, action5) = step(bot4, upload4, UploadEventView::Done);
            &&& action1 == UploadActionView::SendStatus {
                text: "🚀 Starting upload of <code>"@ + name + "</code>..."@,
                button: "⛔ Cancel"@,
                data: "cancel"@,
            }
            &&& action2 == UploadActionView::Transfer { name, length: body_length(head) }
            &&& action3 == UploadActionView::SendFile {
                text: "Uploaded in <b>"@ + seconds + " secs</b>"@,
                is_video: video_type(head) || video_name(lower(name)),
            }
            &&& action4 == UploadActionView::DeleteStatus
            &&& action5 == UploadActionView::Finish
            &&& bot5.idle(upload.chat_id)
        }),
{
}

/// A Terabox link is never downloaded itself: the user is told, then the service is
/// asked about exactly that link.
pub proof fn law_terabox_links_are_looked_up(
    bot: BotView,
    chat: i64,
    message: i32,
    sender: i64,
    link: LinkView,
)
    requires
        !bot.locks.contains(chat),
        terabox_link(link),
    ensures
        ({
            let (after, answer) = start(bot, chat, message, Some(sender), link);
            &&& answer matches UploadStartView::Begun(upload, action)
            &&& action == UploadActionView::Reply("🔄 Processing Terabox link..."@)
            &&& step(after, upload, UploadEventView::Done).2 == UploadActionView::AskApi(
                stream_link_request_for(link.text),
            )
        }),
{
}

/// Any other link is downloaded as it stands.
pub proof fn law_other_links_are_downloaded(
    bot: BotView,
    chat: i64,
    message: i32,
    sender: i64,
    link: LinkView,
)
    requires
        !bot.locks.contains(chat),
        !terabox_link(link),
    ensures
        start(bot, chat, message, Some(sender), link).1 matches UploadStartView::Begun(_, action)
            && action == UploadActionView::Download(link.text),
{
}

/// What is downloaded for a Terabox link is the address in the service's reply, and
/// only where that is a URL.
pub proof fn law_download_address(bot: BotView, upload: UploadView, status: u16, body: Seq<u8>)
    requires
        upload.stage == Stage::Api,
    ensures
        ({
            let action = step(bot, upload, UploadEventView::ApiReply { status, body }).2;
            &&& action matches UploadActionView::Download(address) ==> (reply_link(status, body) matches Ok(
                Some(found),
            ) && url_parse(found) matches Ok(link) && link.text == address)
            &&& (reply_link(status, body) matches Ok(Some(found)) && url_parse(found) is Ok)
                ==> action is Download
        }),
{
}

/// What the user is told where a Terabox link leads nowhere: that there is no file,
/// that its address is no URL and why, or that the link could not be looked up. The
/// upload ends when that is sent.
pub proof fn law_lookups_that_fail(bot: BotView, upload: UploadView, status: u16, body: Seq<u8>)
    requires
        upload.stage == Stage::Api,
    ensures
        ({
            let replied = step(bot, upload, UploadEventView::ApiReply { status, body });
            let failed = step(bot, upload, UploadEventView::Failed);
            let ends = |s: (BotView, UploadView, UploadActionView)|
                s.0 == bot && step(s.0, s.1, UploadEventView::Done).2 == UploadActionView::Finish;
            &&& reply_link(status, body) matches Ok(None) ==> ends(replied) && replied.2
                == UploadActionView::Reply(
                "❌ Failed to get download link from Terabox. The file might be private or the link is invalid."@,
            )
            &&& reply_link(status, body) is Err ==> ends(replied) && replied.2
                == UploadActionView::Reply("❌ Failed to process Terabox link. Please try again."@)
            &&& reply_link(status, body) matches Ok(Some(found)) ==> url_parse(found) matches Err(
                reason,
            ) ==> ends(replied) && replied.2 == UploadActionView::Reply(
                "❌ Failed to parse proxy URL: "@ + reason,
            )
            &&& ends(failed) && failed.2 == UploadActionView::Reply(
                "❌ Failed to process Terabox link. Please try again."@,
            )
        }),
{
}

/// A file whose name is no text fails the upload at once, with the reason that the
/// decoding gives, whatever its size.
pub proof fn law_names_that_are_no_text(bot: BotView, upload: UploadView, head: ResponseHeadView)
    requires
        upload.stage == Stage::Download,
        upload_name(head) is Err,
    ensures
        ({
            let (after, next, action) = step(bot, upload, UploadEventView::Response(head));
            &&& action == UploadActionView::Fail(
                UploadErrorView::NameNotText(upload_name(head)->Err_0),
            )
            &&& UploadErrorView::NameNotText(upload_name(head)->Err_0).text() == upload_name(
                head,
            )->Err_0
            &&& next.stage == Stage::Finished
            &&& !after.locks.contains(upload.chat_id)
        }),
{
}

/// An upload that is over stays so: no event does anything more.
pub proof fn law_finished_uploads(bot: BotView, upload: UploadView, event: UploadEventView)
    requires
        upload.stage == Stage::Finished,
    ensures
        step(bot, upload, event).0 == bot,
        step(bot, upload, event).1 == upload,
        step(bot, upload, event).2 is Fail,
{
}

/// The events that a stage waits for; every other one but a failure ends the upload as
/// unexpected.
pub proof fn law_unexpected_events(bot: BotView, upload: UploadView, event: UploadEventView)
    requires
        upload.stage != Stage::Finished,
        !(event is Failed),
        match upload.stage {
            Stage::Api => !(event is ApiReply),
            Stage::Download => !(event is Response),
            Stage::Transfer => !(event is Uploaded),
            _ => !(event is Done),
        },
    ensures
        step(bot, upload, event).1.stage == Stage::Finished,
        step(bot, upload, event).2 == UploadActionView::Fail(UploadErrorView::UnexpectedEvent),
        !step(bot, upload, event).0.locks.contains(upload.chat_id),
{
}

/// From the moment a file is accepted until somebody cancels, the chat's upload is
/// cancelled by its starter: what is stopped is the upload that the message asked for,
/// and who may stop it is who sent that message.
pub proof fn law_what_is_cancelled(
    bot: BotView,
    chat: i64,
    message: i32,
    sender: i64,
    link: LinkView,
    head: ResponseHeadView,
)
    requires
        bot.idle(chat),
        !terabox_link(link),
        upload_name(head) is Ok,
        0 < body_length(head) <= 2147483648,
    ensures
        ({
            let (begun, answer) = start(bot, chat, message, Some(sender), link);
            &&& answer matches UploadStartView::Begun(upload, _)
            &&& {
                let (accepted, _, _) = step(begun, upload, UploadEventView::Response(head));
                let (after, action) = cancel(accepted, chat, sender);
                &&& action == (CallbackActionView::Cancel {
                    message: message as i64,
                    text: "⛔ Upload cancelled"@,
                })
                &&& after.locks.contains(chat)
                &&& !after.started_by.contains_key(chat)
                &&& !after.triggers.contains_key(chat)
                &&& forall|other: i64|
                    other != sender ==> #[trigger] cancel(accepted, chat, other) == (
                        accepted,
                        CallbackActionView::Alert {
                            text: "⚠️ You can't cancel another user's upload"@,
                            cache_secs: 0,
                        },
                    )
                &&& forall|other: i64| #[trigger] cancel(bot, chat, other) == (
                    bot,
                    CallbackActionView::Nothing,
                )
                &&& cancel(begun, chat, sender) == (begun, CallbackActionView::Nothing)
            }
        }),
{
}

/// Whom the request to cancel the upload of a chat concerns, in any state: where nobody
/// started one nothing happens; where somebody else did, the sender is told so, and the
/// answer is not cached; the starter's request stops it once there is something to
/// stop, and does nothing before.
pub proof fn law_requests_to_cancel(bot: BotView, chat: i64, sender: i64)
    ensures
        ({
            let (after, action) = cancel(bot, chat, sender);
            let mine = bot.started_by.contains_key(chat) && bot.started_by[chat] == sender;
            &&& action is Alert <==> bot.started_by.contains_key(chat) && bot.started_by[chat] != sender
            &&& action is Cancel <==> mine && bot.triggers.contains_key(chat)
            &&& action matches CallbackActionView::Cancel { message, .. } ==> message
                == bot.triggers[chat]
            &&& action is Cancel <==> after != bot
            &&& after.locks == bot.locks
            &&& after.username == bot.username
        }),
{
    if cancel(bot, chat, sender).1 is Cancel {
        assert(!cancel(bot, chat, sender).0.triggers.contains_key(chat));
    }
}

/// Only who started an upload can cancel it; the attempt of anybody else changes
/// nothing.
pub proof fn law_only_the_starter_cancels(bot: BotView, chat: i64, sender: i64)
    requires
        !(bot.started_by.contains_key(chat) && bot.started_by[chat] == sender),
    ensures
        cancel(bot, chat, sender).0 == bot,
        !(cancel(bot, chat, sender).1 is Cancel),
{
}

/// The starter of an upload whose file is being handed over can cancel it.
pub proof fn law_the_starter_can_cancel(bot: BotView, upload: UploadView)
    requires
        upload.transferring(),
        upload.held_by(bot),
        bot.started_by.contains_key(upload.chat_id),
    ensures
        cancel(bot, upload.chat_id, bot.started_by[upload.chat_id]).1 is Cancel,
{
}

/// Cancelling keeps the bot consistent, leaves all other chats alone, and the upload
/// keeps its chat until it ends.
pub proof fn law_cancel(bot: BotView, chat: i64, sender: i64, upload: UploadView)
    requires
        bot.consistent(),
    ensures
        cancel(bot, chat, sender).0.consistent(),
        cancel(bot, chat, sender).0.same_elsewhere(bot, chat),
        cancel(bot, chat, sender).0.locks == bot.locks,
        upload.held_by(bot) ==> upload.held_by(cancel(bot, chat, sender).0),
{
    let after = cancel(bot, chat, sender).0;
    assert(after.started_by.remove(chat) == bot.started_by.remove(chat));
    assert(after.triggers.remove(chat) == bot.triggers.remove(chat));
    assert forall|c: i64| #[trigger] after.triggers.contains_key(c) implies after.started_by.contains_key(
        c,
    ) by {
        assert(bot.triggers.contains_key(c));
    }
    assert forall|c: i64| #[trigger] after.started_by.contains_key(c) implies after.locks.contains(c) by {
        assert(bot.started_by.contains_key(c));
    }
}

/// An upload is cancelled once: after that nobody's request does anything.
pub proof fn law_cancelled_once(bot: BotView, chat: i64, sender: i64, again: i64)
    requires
        cancel(bot, chat, sender).1 is Cancel,
    ensures
        ({
            let after = cancel(bot, chat, sender).0;
            cancel(after, chat, again) == (after, CallbackActionView::Nothing)
        }),
{
}

} // verus!
