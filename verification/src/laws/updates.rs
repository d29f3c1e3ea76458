//! Laws of messages and button presses: which of them the bot answers at all.

use vstd::prelude::*;
use vstd::utf8::{encode_utf8, is_ascii_chars, is_ascii_chars_encode_utf8};

use crate::bot::{
    callback, cancel, cancel_data, meant_for, message_action, route, BotView, CallbackActionView,
    CallbackQueryView, ChatKind, CommandView, MessageActionView, MessageView, RouteView,
};
use crate::external::{lower, url_parse};
use crate::laws::texts::{law_lower_case, same_but_case};
use crate::messages::{CANCEL_DATA, WELCOME};

verus! {

/// Whatever stands in a post of the input channel, it is worked through as a batch.
pub proof fn law_input_channel_posts_are_batches(
    bot: BotView,
    msg: MessageView,
    command: Option<CommandView>,
)
    requires
        msg.chat_id == bot.input_channel_id,
    ensures
        message_action(bot, msg, command) == MessageActionView::Batch,
{
}

/// Outside the input channel no message becomes a batch, and posts of channels are
/// ignored.
pub proof fn law_other_channels_are_ignored(
    bot: BotView,
    msg: MessageView,
    command: Option<CommandView>,
)
    requires
        msg.chat_id != bot.input_channel_id,
    ensures
        !(message_action(bot, msg, command) is Batch),
        msg.chat == ChatKind::Channel ==> message_action(bot, msg, command)
            == MessageActionView::Ignore,
{
}

/// A command that names another bot is ignored in every chat.
pub proof fn law_commands_for_other_bots_are_ignored(
    bot: BotView,
    msg: MessageView,
    command: CommandView,
)
    requires
        msg.chat_id != bot.input_channel_id,
        !meant_for(command, bot.username),
    ensures
        message_action(bot, msg, Some(command)) == MessageActionView::Ignore,
{
}

/// Whom a command is meant for. One that names no bot is meant for every bot. One that
/// names a bot is meant for the bot of that name, in whatever case: of ASCII names that
/// is the one with the same letters, and no other. A bot without a name is meant by no
/// name at all.
pub proof fn law_whom_a_command_is_meant_for(
    command: CommandView,
    username: Seq<char>,
)
    ensures
        command.via is None ==> meant_for(command, Some(username)) && meant_for(command, None),
        command.via matches Some(via) ==> {
            &&& via == username ==> meant_for(command, Some(username))
            &&& meant_for(command, Some(username)) <==> lower(via) == lower(username)
            &&& is_ascii_chars(via) && is_ascii_chars(username) ==> (meant_for(
                command,
                Some(username),
            ) <==> same_but_case(via, username))
            &&& is_ascii_chars(via) && via.len() > 0 ==> !meant_for(command, None)
        },
{
    if let Some(via) = command.via {
        let none: Seq<char> = Seq::empty();
        if is_ascii_chars(via) && is_ascii_chars(username) {
            law_lower_case(via, username);
        }
        if is_ascii_chars(via) {
            law_lower_case(via, none);
        }
    }
}

/// A command that names a bot of another ASCII name is ignored wherever it comes from,
/// whatever it asks for.
pub proof fn law_other_names_are_ignored(
    bot: BotView,
    msg: MessageView,
    command: CommandView,
    via: Seq<char>,
    username: Seq<char>,
)
    requires
        msg.chat_id != bot.input_channel_id,
        bot.username == Some(username),
        command.via == Some(via),
        is_ascii_chars(via),
        is_ascii_chars(username),
        !same_but_case(via, username),
    ensures
        message_action(bot, msg, Some(command)) == MessageActionView::Ignore,
{
    law_lower_case(via, username);
}

/// `/start` is answered with the welcome, in HTML: from users always, in a group where
/// the command names a bot. Who asks and what else the message says does not matter.
pub proof fn law_start_is_welcomed(bot: BotView, msg: MessageView, command: CommandView)
    requires
        msg.chat_id != bot.input_channel_id,
        msg.chat == ChatKind::User || msg.chat == ChatKind::Group && command.via is Some,
        meant_for(command, bot.username),
        command.name == "start"@,
    ensures
        message_action(bot, msg, Some(command)) == (MessageActionView::Reply {
            text: WELCOME@,
            html: true,
        }),
{
}

/// What `/upload` is answered with: where there is no argument, with the request for
/// one; where the argument is no URL, with the reason, word for word; else with the
/// upload of what the argument says. It does not matter what else the message says.
pub proof fn law_answers_to_upload(bot: BotView, msg: MessageView, command: CommandView)
    requires
        msg.chat_id != bot.input_channel_id,
        msg.chat != ChatKind::Channel,
        meant_for(command, bot.username),
        command.name == "upload"@,
    ensures
        ({
            let action = message_action(bot, msg, Some(command));
            &&& command.arg is None ==> action == (MessageActionView::Reply {
                text: "Please specify a URL"@,
                html: false,
            })
            &&& command.arg matches Some(arg) ==> {
                &&& url_parse(arg) matches Ok(link) ==> action == MessageActionView::Upload(link)
                &&& url_parse(arg) matches Err(reason) ==> action == (MessageActionView::Reply {
                    text: "Invalid URL: "@ + reason,
                    html: false,
                })
            }
        }),
{
    reveal_strlit("upload");
    reveal_strlit("start");
    assert("upload"@.len() == 6 && "start"@.len() == 5);
}

/// The answer to a message does not depend on who sent it, on its number, or on what
/// is going on in any chat.
pub proof fn law_answers_depend_on_the_text(
    bot: BotView,
    other: BotView,
    msg: MessageView,
    again: MessageView,
    command: Option<CommandView>,
)
    requires
        bot.username == other.username,
        bot.input_channel_id == other.input_channel_id,
        msg.chat_id == again.chat_id,
        msg.chat == again.chat,
        msg.text == again.text,
    ensures
        message_action(bot, msg, command) == message_action(other, again, command),
{
}

/// In a group `/start` is answered only where it names the bot.
pub proof fn law_start_in_a_group_names_the_bot(
    bot: BotView,
    msg: MessageView,
    command: CommandView,
)
    requires
        msg.chat_id != bot.input_channel_id,
        msg.chat == ChatKind::Group,
        command.name == "start"@,
    ensures
        route(bot, msg, Some(command)) == RouteView::Start <==> command.via is Some && meant_for(
            command,
            bot.username,
        ),
        !(route(bot, msg, Some(command)) is Start) ==> route(bot, msg, Some(command))
            == RouteView::Ignore,
{
}

/// In a group nothing is answered but the two commands that the bot knows.
pub proof fn law_groups_need_a_command(
    bot: BotView,
    msg: MessageView,
    command: Option<CommandView>,
)
    requires
        msg.chat_id != bot.input_channel_id,
        msg.chat == ChatKind::Group,
        command matches Some(c) ==> c.name != "start"@ && c.name != "upload"@,
    ensures
        message_action(bot, msg, command) == MessageActionView::Ignore,
{
}

/// A user can send an address without a command: it is uploaded where it is a URL, and
/// passed over in silence where it is not. A command that the bot does not know is
/// read as an address too.
pub proof fn law_users_can_send_an_address(
    bot: BotView,
    msg: MessageView,
    command: Option<CommandView>,
)
    requires
        msg.chat_id != bot.input_channel_id,
        msg.chat == ChatKind::User,
        command matches Some(c) ==> meant_for(c, bot.username) && c.name != "start"@ && c.name
            != "upload"@,
    ensures
        message_action(bot, msg, command) == (match url_parse(msg.text) {
            Ok(link) => MessageActionView::Upload(link),
            Err(_) => MessageActionView::Ignore,
        }),
{
}

/// `/upload` is answered in users' chats and in groups alike: with an upload where its
/// argument is a URL, with a reply in every other case.
pub proof fn law_upload_is_always_answered(
    bot: BotView,
    msg: MessageView,
    command: CommandView,
)
    requires
        msg.chat_id != bot.input_channel_id,
        msg.chat != ChatKind::Channel,
        meant_for(command, bot.username),
        command.name == "upload"@,
    ensures
        (command.arg matches Some(arg) && url_parse(arg) is Ok) ==> message_action(
            bot,
            msg,
            Some(command),
        ) == MessageActionView::Upload(url_parse(command.arg->0)->Ok_0),
        !(command.arg matches Some(arg) && url_parse(arg) is Ok) ==> message_action(
            bot,
            msg,
            Some(command),
        ) is Reply,
{
    reveal_strlit("upload");
    reveal_strlit("start");
    assert("upload"@.len() == 6 && "start"@.len() == 5);
}

/// The button under the status message of an upload is the one that cancels it.
pub proof fn law_status_button_cancels()
    ensures
        encode_utf8(CANCEL_DATA@) == cancel_data(),
{
    reveal_strlit("cancel");
    let chars = CANCEL_DATA@;
    assert(chars == seq!['c', 'a', 'n', 'c', 'e', 'l']);
    assert(is_ascii_chars(chars));
    is_ascii_chars_encode_utf8(chars);
    assert(encode_utf8(chars) == cancel_data());
}

/// A press of the button that cancels is the request of who pressed it to cancel the
/// upload of the chat in which it stands.
pub proof fn law_the_cancel_button(bot: BotView, chat: i64, sender: i64)
    ensures
        callback(
            bot,
            CallbackQueryView { chat_id: chat, sender_id: sender, data: encode_utf8("cancel"@) },
        ) == cancel(bot, chat, sender),
{
    law_status_button_cancels();
}

/// Only the button that cancels an upload does anything.
pub proof fn law_other_buttons_do_nothing(bot: BotView, query: CallbackQueryView)
    requires
        query.data != cancel_data(),
    ensures
        callback(bot, query) == (bot, CallbackActionView::Nothing),
{
}

} // verus!
