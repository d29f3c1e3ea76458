//! The bot's shared state and how it answers updates.
//!
//! For each chat the bot remembers whether an upload holds it, who started that
//! upload, and how to cancel it.

use dashmap::{DashMap, DashSet};
use vstd::prelude::*;

use crate::external::{
    lower, map_entries, map_get, map_insert, map_new, map_remove, parse_url, parse_view,
    set_insert, set_keys, set_new, set_remove, url_parse,
};
use crate::links::{Link, LinkView};
use crate::messages::{invalid_url, invalid_url_text, CANCELLED, NOT_YOURS, NO_URL, WELCOME};
use crate::text::{opt_text, same_text};

verus! {

// ---------------------------------------------------------------------------
// State

/// The bot's state.
pub struct Bot {
    username: Option<String>,
    input_channel_id: i64,
    store_channel_id: i64,
    locks: DashSet<i64>,
    started_by: DashMap<i64, i64>,
    triggers: DashMap<i64, i64>,
}

/// The value of a [`Bot`].
#[verifier::ext_equal]
pub ghost struct BotView {
    /// The bot's own user name.
    pub username: Option<Seq<char>>,
    /// The channel whose posts are worked through as batches.
    pub input_channel_id: i64,
    /// The channel that the files of batches go to.
    pub store_channel_id: i64,
    /// The chats in which an upload is active.
    pub locks: Set<i64>,
    /// Who started the upload of a chat.
    pub started_by: Map<i64, i64>,
    /// What cancels the upload of a chat: the message that asked for it.
    pub triggers: Map<i64, i64>,
}

impl View for Bot {
    type V = BotView;

    closed spec fn view(&self) -> BotView {
        BotView {
            username: opt_text(self.username),
            input_channel_id: self.input_channel_id,
            store_channel_id: self.store_channel_id,
            locks: set_keys(self.locks),
            started_by: map_entries(self.started_by),
            triggers: map_entries(self.triggers),
        }
    }
}

impl BotView {
    /// What can be cancelled was started by somebody, and what was started holds its
    /// chat.
    pub open spec fn consistent(self) -> bool {
        &&& forall|chat: i64| #[trigger]
            self.triggers.contains_key(chat) ==> self.started_by.contains_key(chat)
        &&& forall|chat: i64| #[trigger]
            self.started_by.contains_key(chat) ==> self.locks.contains(chat)
    }

    /// Nothing is remembered of the chat.
    pub open spec fn idle(self, chat: i64) -> bool {
        &&& !self.locks.contains(chat)
        &&& !self.started_by.contains_key(chat)
        &&& !self.triggers.contains_key(chat)
    }

    /// The two states are the same but for what they remember of `chat`.
    pub open spec fn same_elsewhere(self, other: BotView, chat: i64) -> bool {
        &&& self.username == other.username
        &&& self.input_channel_id == other.input_channel_id
        &&& self.store_channel_id == other.store_channel_id
        &&& self.locks.remove(chat) == other.locks.remove(chat)
        &&& self.started_by.remove(chat) == other.started_by.remove(chat)
        &&& self.triggers.remove(chat) == other.triggers.remove(chat)
    }

    /// An upload of `sender` holds the chat.
    pub open spec fn with_lock(self, chat: i64, sender: i64) -> BotView {
        BotView {
            locks: self.locks.insert(chat),
            started_by: self.started_by.insert(chat, sender),
            ..self
        }
    }

    /// The upload of the chat can be cancelled.
    pub open spec fn with_trigger(self, chat: i64, message: i64) -> BotView {
        BotView { triggers: self.triggers.insert(chat, message), ..self }
    }

    /// The upload of the chat was cancelled; it holds the chat until it ends.
    pub open spec fn cancelled(self, chat: i64) -> BotView {
        BotView {
            started_by: self.started_by.remove(chat),
            triggers: self.triggers.remove(chat),
            ..self
        }
    }

    /// The upload of the chat can no longer be cancelled.
    pub open spec fn without_trigger(self, chat: i64) -> BotView {
        BotView { triggers: self.triggers.remove(chat), ..self }
    }

    /// No upload holds the chat.
    pub open spec fn released(self, chat: i64) -> BotView {
        BotView {
            locks: self.locks.remove(chat),
            started_by: self.started_by.remove(chat),
            ..self
        }
    }
}

impl Bot {
    /// A bot with no upload.
    pub fn new(username: Option<String>, input_channel_id: i64, store_channel_id: i64) -> (r: Bot)
        ensures
            r@ == (BotView {
                username: opt_text(username),
                input_channel_id,
                store_channel_id,
                locks: Set::empty(),
                started_by: Map::empty(),
                triggers: Map::empty(),
            }),
    {
        Bot {
            username,
            input_channel_id,
            store_channel_id,
            locks: set_new(),
            started_by: map_new(),
            triggers: map_new(),
        }
    }

    /// The channel that the files of batches go to.
    pub fn store_channel_id(&self) -> (r: i64)
        ensures
            r == self@.store_channel_id,
    {
        self.store_channel_id
    }

    /// Takes the chat for an upload of `sender`, unless another upload holds it.
    pub(crate) fn lock_chat(&mut self, chat: i64, sender: i64) -> (r: bool)
        ensures
            r == !old(self)@.locks.contains(chat),
            final(self)@ == (if r {
                old(self)@.with_lock(chat, sender)
            } else {
                old(self)@
            }),
    {
        if !set_insert(&mut self.locks, chat) {
            assert(self@ == old(self)@);
            return false;
        }
        map_insert(&mut self.started_by, chat, sender);
        true
    }

    /// Makes the upload of the chat one that can be cancelled.
    pub(crate) fn register_trigger(&mut self, chat: i64, message: i64)
        ensures
            final(self)@ == old(self)@.with_trigger(chat, message),
    {
        map_insert(&mut self.triggers, chat, message);
    }

    /// Makes the upload of the chat one that cannot be cancelled.
    pub(crate) fn drop_trigger(&mut self, chat: i64)
        ensures
            final(self)@ == old(self)@.without_trigger(chat),
    {
        map_remove(&mut self.triggers, chat);
    }

    /// Gives the chat back.
    pub(crate) fn release_chat(&mut self, chat: i64)
        ensures
            final(self)@ == old(self)@.released(chat),
    {
        set_remove(&mut self.locks, chat);
        map_remove(&mut self.started_by, chat);
    }
}

// ---------------------------------------------------------------------------
// Messages

/// The kind of a chat.
#[derive(Clone, Copy, Debug, PartialEq, Eq, Structural)]
pub enum ChatKind {
    User,
    Group,
    Channel,
}

/// A message, as far as the bot reads it.
#[derive(Debug)]
pub struct Message {
    pub id: i32,
    pub chat_id: i64,
    pub chat: ChatKind,
    pub sender_id: Option<i64>,
    pub text: String,
}

/// The value of a [`Message`].
pub ghost struct MessageView {
    pub id: i32,
    pub chat_id: i64,
    pub chat: ChatKind,
    pub sender_id: Option<i64>,
    pub text: Seq<char>,
}

impl View for Message {
    type V = MessageView;

    open spec fn view(&self) -> MessageView {
        MessageView {
            id: self.id,
            chat_id: self.chat_id,
            chat: self.chat,
            sender_id: self.sender_id,
            text: self.text@,
        }
    }
}

/// A command in a message: `/name@via arg`.
#[derive(Debug)]
pub struct Command {
    pub name: String,
    /// The bot that the command is meant for.
    pub via: Option<String>,
    pub arg: Option<String>,
}

/// The value of a [`Command`].
pub ghost struct CommandView {
    pub name: Seq<char>,
    pub via: Option<Seq<char>>,
    pub arg: Option<Seq<char>>,
}

impl View for Command {
    type V = CommandView;

    open spec fn view(&self) -> CommandView {
        CommandView { name: self.name@, via: opt_text(self.via), arg: opt_text(self.arg) }
    }
}

/// The value of a command that may be absent.
pub open spec fn command_view(command: Option<Command>) -> Option<CommandView> {
    match command {
        Some(c) => Some(c@),
        None => None,
    }
}

/// What is to be done with a message.
#[derive(Debug)]
pub enum Route {
    /// Nothing.
    Ignore,
    /// Work it through as a batch.
    Batch,
    /// Welcome the user.
    Start,
    /// Upload the file at this address.
    Upload(Option<String>),
    /// Upload the file at the address that the text may be.
    Text,
}

/// The value of a [`Route`].
pub ghost enum RouteView {
    Ignore,
    Batch,
    Start,
    Upload(Option<Seq<char>>),
    Text,
}

impl View for Route {
    type V = RouteView;

    open spec fn view(&self) -> RouteView {
        match self {
            Route::Ignore => RouteView::Ignore,
            Route::Batch => RouteView::Batch,
            Route::Start => RouteView::Start,
            Route::Upload(arg) => RouteView::Upload(opt_text(*arg)),
            Route::Text => RouteView::Text,
        }
    }
}

/// The command is meant for a bot of this name, or for any bot.
pub open spec fn meant_for(command: CommandView, username: Option<Seq<char>>) -> bool {
    match command.via {
        Some(via) => lower(via) == lower(
            match username {
                Some(name) => name,
                None => Seq::empty(),
            },
        ),
        None => true,
    }
}

/// The route of a message that holds no command the bot knows: a user may have sent
/// an address.
pub open spec fn text_route(chat: ChatKind) -> RouteView {
    if chat == ChatKind::User {
        RouteView::Text
    } else {
        RouteView::Ignore
    }
}

/// The route of a message with a command; `mine` says whether the command is meant
/// for this bot. In a group `/start` must name the bot.
pub open spec fn command_route(chat: ChatKind, command: CommandView, mine: bool) -> RouteView {
    if !mine {
        RouteView::Ignore
    } else if command.name == "start"@ {
        if chat == ChatKind::Group && command.via is None {
            RouteView::Ignore
        } else {
            RouteView::Start
        }
    } else if command.name == "upload"@ {
        RouteView::Upload(command.arg)
    } else {
        text_route(chat)
    }
}

/// The route of a message.
pub open spec fn route(bot: BotView, msg: MessageView, command: Option<CommandView>) -> RouteView {
    if msg.chat_id == bot.input_channel_id {
        RouteView::Batch
    } else if msg.chat == ChatKind::Channel {
        RouteView::Ignore
    } else {
        match command {
            Some(c) => command_route(msg.chat, c, meant_for(c, bot.username)),
            None => text_route(msg.chat),
        }
    }
}

/// The route of a message that holds no command the bot knows.
fn route_text(chat: ChatKind) -> (r: Route)
    ensures
        r@ == text_route(chat),
{
    if chat == ChatKind::User {
        Route::Text
    } else {
        Route::Ignore
    }
}

/// The route of a message with a command; `mine` says whether the command is meant
/// for this bot.
pub fn route_command(chat: ChatKind, command: Command, mine: bool) -> (r: Route)
    ensures
        r@ == command_route(chat, command@, mine),
{
    if !mine {
        return Route::Ignore;
    }
    if chat == ChatKind::Group && same_text(command.name.as_str(), "start") && command.via.is_none() {
        return Route::Ignore;
    }
    if same_text(command.name.as_str(), "start") {
        Route::Start
    } else if same_text(command.name.as_str(), "upload") {
        Route::Upload(command.arg)
    } else {
        route_text(chat)
    }
}

/// What a message makes the bot do.
#[derive(Debug)]
pub enum MessageAction {
    Ignore,
    /// Work the message through as a batch.
    Batch,
    /// Reply with a text, in HTML or as it stands.
    Reply { text: String, html: bool },
    /// Upload the file at the link.
    Upload(Link),
}

/// The value of a [`MessageAction`].
pub ghost enum MessageActionView {
    Ignore,
    Batch,
    Reply { text: Seq<char>, html: bool },
    Upload(LinkView),
}

impl View for MessageAction {
    type V = MessageActionView;

    open spec fn view(&self) -> MessageActionView {
        match self {
            MessageAction::Ignore => MessageActionView::Ignore,
            MessageAction::Batch => MessageActionView::Batch,
            MessageAction::Reply { text, html } => MessageActionView::Reply {
                text: text@,
                html: *html,
            },
            MessageAction::Upload(link) => MessageActionView::Upload(link@),
        }
    }
}

/// What `/upload` does with an argument that parses so.
pub open spec fn upload_request(parsed: Result<LinkView, Seq<char>>) -> MessageActionView {
    match parsed {
        Ok(link) => MessageActionView::Upload(link),
        Err(reason) => MessageActionView::Reply { text: invalid_url_text(reason), html: false },
    }
}

/// What `/upload` does with this argument.
pub open spec fn upload_command(arg: Option<Seq<char>>) -> MessageActionView {
    match arg {
        Some(text) => upload_request(url_parse(text)),
        None => MessageActionView::Reply { text: NO_URL@, html: false },
    }
}

/// What a text does that parses so: a text that is no URL is passed over.
pub open spec fn text_request(parsed: Result<LinkView, Seq<char>>) -> MessageActionView {
    match parsed {
        Ok(link) => MessageActionView::Upload(link),
        Err(_) => MessageActionView::Ignore,
    }
}

/// What a message makes the bot do.
pub open spec fn message_action(
    bot: BotView,
    msg: MessageView,
    command: Option<CommandView>,
) -> MessageActionView {
    match route(bot, msg, command) {
        RouteView::Ignore => MessageActionView::Ignore,
        RouteView::Batch => MessageActionView::Batch,
        RouteView::Start => MessageActionView::Reply { text: WELCOME@, html: true },
        RouteView::Upload(arg) => upload_command(arg),
        RouteView::Text => text_request(url_parse(msg.text)),
    }
}

/// Welcomes the user.
pub fn handle_start() -> (r: MessageAction)
    ensures
        r@ == (MessageActionView::Reply { text: WELCOME@, html: true }),
{
    MessageAction::Reply { text: WELCOME.to_owned(), html: true }
}

/// What `/upload` does with an argument that parses so.
pub fn request_upload(parsed: Result<Link, String>) -> (r: MessageAction)
    ensures
        r@ == upload_request(parse_view(parsed)),
{
    match parsed {
        Ok(link) => MessageAction::Upload(link),
        Err(reason) => MessageAction::Reply { text: invalid_url(reason.as_str()), html: false },
    }
}

/// What `/upload` does with this argument.
pub fn handle_upload(arg: Option<String>) -> (r: MessageAction)
    ensures
        r@ == upload_command(opt_text(arg)),
{
    match arg {
        Some(text) => request_upload(parse_url(text.as_str())),
        None => MessageAction::Reply { text: NO_URL.to_owned(), html: false },
    }
}

/// What a text does that parses so.
pub fn request_text(parsed: Result<Link, String>) -> (r: MessageAction)
    ensures
        r@ == text_request(parse_view(parsed)),
{
    match parsed {
        Ok(link) => MessageAction::Upload(link),
        Err(_) => MessageAction::Ignore,
    }
}

impl Bot {
    /// Whether the command is meant for this bot.
    fn is_meant_for_me(&self, command: &Command) -> (r: bool)
        ensures
            r == meant_for(command@, self@.username),
    {
        match &command.via {
            Some(via) => {
                let via: String = via.to_lowercase();
                let name: String = match &self.username {
                    Some(name) => name.to_lowercase(),
                    None => {
                        let none: String = String::new();
                        none.to_lowercase()
                    },
                };
                via == name
            },
            None => true,
        }
    }

    /// The route of a message that holds this command, if it holds one.
    pub fn route_message(&self, msg: &Message, command: Option<Command>) -> (r: Route)
        ensures
            r@ == route(self@, msg@, command_view(command)),
    {
        if msg.chat_id == self.input_channel_id {
            return Route::Batch;
        }
        if msg.chat == ChatKind::Channel {
            return Route::Ignore;
        }
        match command {
            Some(command) => {
                let mine: bool = self.is_meant_for_me(&command);
                route_command(msg.chat, command, mine)
            },
            None => route_text(msg.chat),
        }
    }

    /// What a message makes the bot do that holds this command, if it holds one.
    pub fn handle_message(&self, msg: &Message, command: Option<Command>) -> (r: MessageAction)
        ensures
            r@ == message_action(self@, msg@, command_view(command)),
    {
        match self.route_message(msg, command) {
            Route::Ignore => MessageAction::Ignore,
            Route::Batch => MessageAction::Batch,
            Route::Start => handle_start(),
            Route::Upload(arg) => handle_upload(arg),
            Route::Text => request_text(parse_url(msg.text.as_str())),
        }
    }
}

// ---------------------------------------------------------------------------
// Callback queries

/// A press of a button.
#[derive(Debug)]
pub struct CallbackQuery {
    pub chat_id: i64,
    pub sender_id: i64,
    /// The data of the button.
    pub data: Vec<u8>,
}

/// The value of a [`CallbackQuery`].
pub ghost struct CallbackQueryView {
    pub chat_id: i64,
    pub sender_id: i64,
    pub data: Seq<u8>,
}

impl View for CallbackQuery {
    type V = CallbackQueryView;

    open spec fn view(&self) -> CallbackQueryView {
        CallbackQueryView { chat_id: self.chat_id, sender_id: self.sender_id, data: self.data@ }
    }
}

/// What a press of a button makes the bot do.
#[derive(Debug)]
pub enum CallbackAction {
    Nothing,
    /// Answer with an alert that may be cached for so many seconds.
    Alert { text: String, cache_secs: u64 },
    /// Stop the upload that the message asked for, put the text in place of its status
    /// message and answer the query.
    Cancel { message: i64, text: String },
}

/// The value of a [`CallbackAction`].
pub ghost enum CallbackActionView {
    Nothing,
    Alert { text: Seq<char>, cache_secs: u64 },
    Cancel { message: i64, text: Seq<char> },
}

impl View for CallbackAction {
    type V = CallbackActionView;

    open spec fn view(&self) -> CallbackActionView {
        match self {
            CallbackAction::Nothing => CallbackActionView::Nothing,
            CallbackAction::Alert { text, cache_secs } => CallbackActionView::Alert {
                text: text@,
                cache_secs: *cache_secs,
            },
            CallbackAction::Cancel { message, text } => CallbackActionView::Cancel {
                message: *message,
                text: text@,
            },
        }
    }
}

/// The request of `sender` to cancel the upload of a chat: only who started it can.
pub open spec fn cancel(bot: BotView, chat: i64, sender: i64) -> (BotView, CallbackActionView) {
    if !bot.started_by.contains_key(chat) {
        (bot, CallbackActionView::Nothing)
    } else if bot.started_by[chat] != sender {
        (bot, CallbackActionView::Alert { text: NOT_YOURS@, cache_secs: 0 })
    } else if bot.triggers.contains_key(chat) {
        (
            bot.cancelled(chat),
            CallbackActionView::Cancel { message: bot.triggers[chat], text: CANCELLED@ },
        )
    } else {
        (bot, CallbackActionView::Nothing)
    }
}

/// The data of the button that cancels an upload.
pub open spec fn cancel_data() -> Seq<u8> {
    seq![99u8, 97u8, 110u8, 99u8, 101u8, 108u8]
}

/// A press of a button.
pub open spec fn callback(bot: BotView, query: CallbackQueryView) -> (BotView, CallbackActionView) {
    if query.data == cancel_data() {
        cancel(bot, query.chat_id, query.sender_id)
    } else {
        (bot, CallbackActionView::Nothing)
    }
}

impl Bot {
    /// Cancels the upload of a chat if `sender` started it.
    pub fn handle_cancel(&mut self, chat: i64, sender: i64) -> (r: CallbackAction)
        ensures
            (final(self)@, r@) == cancel(old(self)@, chat, sender),
    {
        match map_get(&self.started_by, chat) {
            None => CallbackAction::Nothing,
            Some(starter) => {
                if starter != sender {
                    return CallbackAction::Alert { text: NOT_YOURS.to_owned(), cache_secs: 0 };
                }
                match map_remove(&mut self.triggers, chat) {
                    Some((chat, message)) => {
                        map_remove(&mut self.started_by, chat);
                        CallbackAction::Cancel { message, text: CANCELLED.to_owned() }
                    },
                    None => {
                        assert(self@.triggers == old(self)@.triggers);
                        CallbackAction::Nothing
                    },
                }
            },
        }
    }

    /// Answers a press of a button.
    pub fn handle_callback(&mut self, query: &CallbackQuery) -> (r: CallbackAction)
        ensures
            (final(self)@, r@) == callback(old(self)@, query@),
    {
        if is_cancel_data(&query.data) {
            self.handle_cancel(query.chat_id, query.sender_id)
        } else {
            CallbackAction::Nothing
        }
    }
}

/// Whether the data is that of the button that cancels an upload.
fn is_cancel_data(data: &Vec<u8>) -> (r: bool)
    ensures
        r == (data@ == cancel_data()),
{
    let r: bool = data.len() == 6 && data[0] == 99 && data[1] == 97 && data[2] == 110 && data[3] == 99
        && data[4] == 101 && data[5] == 108;
    assert(r ==> data@ == cancel_data());
    r
}

// ---------------------------------------------------------------------------
// Updates

/// Something that happened.
#[derive(Debug)]
pub enum Update {
    /// A message, with the command that it holds, if it holds one.
    NewMessage(Message, Option<Command>),
    CallbackQuery(CallbackQuery),
    Other,
}

/// What an update makes the bot do.
#[derive(Debug)]
pub enum UpdateAction {
    Message(MessageAction),
    Callback(CallbackAction),
    Nothing,
}

/// The value of an [`UpdateAction`].
pub ghost enum UpdateActionView {
    Message(MessageActionView),
    Callback(CallbackActionView),
    Nothing,
}

impl View for UpdateAction {
    type V = UpdateActionView;

    open spec fn view(&self) -> UpdateActionView {
        match self {
            UpdateAction::Message(action) => UpdateActionView::Message(action@),
            UpdateAction::Callback(action) => UpdateActionView::Callback(action@),
            UpdateAction::Nothing => UpdateActionView::Nothing,
        }
    }
}

impl Bot {
    /// Answers an update. A message changes no state by itself.
    pub fn handle_update(&mut self, update: Update) -> (r: UpdateAction)
        ensures
            (final(self)@, r@) == (match update {
                Update::NewMessage(msg, command) => (
                    old(self)@,
                    UpdateActionView::Message(message_action(old(self)@, msg@, command_view(command))),
                ),
                Update::CallbackQuery(query) => (
                    callback(old(self)@, query@).0,
                    UpdateActionView::Callback(callback(old(self)@, query@).1),
                ),
                Update::Other => (old(self)@, UpdateActionView::Nothing),
            }),
    {
        match update {
            Update::NewMessage(msg, command) => UpdateAction::Message(
                self.handle_message(&msg, command),
            ),
            Update::CallbackQuery(query) => UpdateAction::Callback(self.handle_callback(&query)),
            Update::Other => UpdateAction::Nothing,
        }
    }
}

} // verus!
