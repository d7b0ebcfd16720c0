//! Decisions of the reactor that answers chat updates: which updates count,
//! where the next poll starts, who may talk to the bot, and what it replies.
//! Polling, the store and the marketplaces are outside. A message is handled
//! in steps: `start` says what is asked of the outside first, and `advance`
//! takes what came back and says what is asked next, until nothing is.

use crate::db::{SearchQuery, SearchQueryView, Subscription};
use crate::marketplace::item::Item;
use crate::telegram::commands::{
    CommandBuilder, CommandPayload, PayloadError, SubscriptionAction, SubscriptionCommand,
};
use crate::telegram::methods::{
    SendMessage, SendMessageView, SendNotification, SendNotificationView, SetMyCommands,
    SetMyDescription,
};
use crate::telegram::objects::{
    BotCommand, ChatId, ChatIdView, LinkPreviewOptions, LinkPreviewOptionsView, ParseMode,
    ReplyParameters, Update, UpdatePayload,
};
use crate::telegram::render::{
    delimiter, escaped, item_description, item_map_url_of, item_markup, manage_markup,
    push_escaped, unauthorized, unauthorized_markup, ManageSearchQuery,
};
use crate::text::{has_prefix, same_text, strip_prefix, trim, trimmed};
use std::collections::HashSet;
use vstd::prelude::*;
use vstd::string::StringExecFns;

verus! {

broadcast use vstd::std_specs::hash::group_hash_axioms;

/// The request that sets the description of the bot at startup.
pub fn description() -> (r: SetMyDescription)
    ensures
        r.description matches Some(text) && text@
            == "👋 This is a private bot for Marktplaats\n\nFeel free to set up your own instance from https://github.com/eigenein/mrktpltsbot"@,
{
    SetMyDescription {
        description: Some(
            String::from_str(
                "👋 This is a private bot for Marktplaats\n\nFeel free to set up your own instance from https://github.com/eigenein/mrktpltsbot",
            ),
        ),
    }
}

/// The request that sets the commands of the bot at startup: the one that
/// lists the subscriptions.
pub fn commands() -> (r: SetMyCommands)
    ensures
        r.commands@.len() == 1,
        r.commands@[0].command@ == "manage"@,
        r.commands@[0].description@ == "List and manage your subscriptions"@,
{
    let mut commands: Vec<BotCommand> = Vec::new();
    commands.push(
        BotCommand {
            command: String::from_str("manage"),
            description: String::from_str("List and manage your subscriptions"),
        },
    );
    SetMyCommands { commands }
}

/// Greatest identifier among updates, or 0 where there is none.
pub open spec fn max_update_id(updates: Seq<Update>) -> u64
    decreases updates.len(),
{
    if updates.len() == 0 {
        0
    } else {
        let rest = max_update_id(updates.drop_last());
        if updates.last().id > rest {
            updates.last().id
        } else {
            rest
        }
    }
}

/// Where the next poll starts after a batch: behind the greatest identifier
/// received, as far as the number type reaches, or at the old offset where
/// nothing was received.
pub open spec fn spec_next_offset(offset: u64, updates: Seq<Update>) -> u64 {
    if updates.len() == 0 {
        offset
    } else if max_update_id(updates) == u64::MAX {
        u64::MAX
    } else {
        (max_update_id(updates) + 1) as u64
    }
}

/// Where the next poll starts after a batch. It does not depend on how the
/// updates of the batch fare, so that no update is fetched twice.
pub fn next_offset(offset: u64, updates: &Vec<Update>) -> (r: u64)
    ensures
        r == spec_next_offset(offset, updates@),
{
    if updates.len() == 0 {
        return offset;
    }
    let mut max: u64 = 0;
    let mut i: usize = 0;
    while i < updates.len()
        invariant
            i <= updates.len(),
            max == max_update_id(updates@.take(i as int)),
        decreases updates.len() - i,
    {
        proof {
            let next = updates@.take(i + 1);
            assert(next.drop_last() == updates@.take(i as int));
            assert(next.last() == updates@[i as int]);
        }
        if updates[i].id > max {
            max = updates[i].id;
        }
        i += 1;
    }
    assert(updates@.take(i as int) == updates@);
    if max == u64::MAX {
        u64::MAX
    } else {
        max + 1
    }
}

/// A message that the bot can answer.
#[derive(Debug, Clone, PartialEq, Eq)]
pub struct Incoming {
    pub chat_id: i64,
    pub message_id: u64,
    /// Text of the message, without leading and trailing whitespace.
    pub text: String,
}

/// Mathematical model of a message that the bot can answer.
pub struct IncomingView {
    pub chat_id: i64,
    pub message_id: u64,
    pub text: Seq<char>,
}

impl DeepView for Incoming {
    type V = IncomingView;

    open spec fn deep_view(&self) -> IncomingView {
        IncomingView { chat_id: self.chat_id, message_id: self.message_id, text: self.text@ }
    }
}

/// The message of an update, where the update is a message with a text that
/// is not empty, from a chat with a number.
pub open spec fn spec_incoming(update: &Update) -> Option<IncomingView> {
    match update.payload {
        UpdatePayload::Message(message) => match (message.chat, message.text) {
            (Some(chat), Some(text)) => match chat.id {
                ChatId::Integer(chat_id) => if text@.len() > 0 {
                    Some(
                        IncomingView { chat_id, message_id: message.id, text: trimmed(text@) },
                    )
                } else {
                    None
                },
                ChatId::Username(_) => None,
            },
            _ => None,
        },
        UpdatePayload::Other => None,
    }
}

/// Picks the message out of an update, or nothing where the update is to be
/// passed over.
pub fn incoming(update: &Update) -> (r: Option<Incoming>)
    ensures
        r.deep_view() == spec_incoming(update),
{
    match &update.payload {
        UpdatePayload::Message(message) => match (&message.chat, &message.text) {
            (Some(chat), Some(text)) => match &chat.id {
                ChatId::Integer(chat_id) => {
                    if text.as_str().unicode_len() > 0 {
                        Some(
                            Incoming {
                                chat_id: *chat_id,
                                message_id: message.id,
                                text: trim(text.as_str()),
                            },
                        )
                    } else {
                        None
                    }
                },
                ChatId::Username(_) => None,
            },
            _ => None,
        },
        UpdatePayload::Other => None,
    }
}

/// What kind of message came in.
#[derive(Debug, Clone, Copy, PartialEq, Eq, Structural)]
pub enum Route {
    /// The chat is not among the authorized ones.
    Unauthorized,
    /// The text begins with `/`.
    Command,
    /// Any other text is a search query.
    Search,
}

/// The kind of a message from a chat.
pub open spec fn spec_route(authorized: Set<i64>, chat_id: i64, text: Seq<char>) -> Route {
    if !authorized.contains(chat_id) {
        Route::Unauthorized
    } else if text.len() > 0 && text[0] == '/' {
        Route::Command
    } else {
        Route::Search
    }
}

/// Tells what kind of message came in.
pub fn route(authorized: &HashSet<i64>, message: &Incoming) -> (r: Route)
    ensures
        r == spec_route(authorized@, message.chat_id, message.text@),
{
    if !authorized.contains(&message.chat_id) {
        Route::Unauthorized
    } else if message.text.as_str().unicode_len() > 0 && message.text.as_str().get_char(0) == '/' {
        Route::Command
    } else {
        Route::Search
    }
}

/// A command as the user wrote it.
#[derive(Debug, Clone, PartialEq, Eq)]
pub enum Command {
    /// `/start` alone.
    Start,
    /// `/manage`.
    Manage,
    /// `/start` with the payload of a deep link.
    Payload(String),
    /// Anything else.
    Unknown,
}

/// Mathematical model of a command.
pub enum CommandView {
    Start,
    Manage,
    Payload(Seq<char>),
    Unknown,
}

impl DeepView for Command {
    type V = CommandView;

    open spec fn deep_view(&self) -> CommandView {
        match self {
            Command::Start => CommandView::Start,
            Command::Manage => CommandView::Manage,
            Command::Payload(payload) => CommandView::Payload(payload@),
            Command::Unknown => CommandView::Unknown,
        }
    }
}

/// The command that a text stands for.
pub open spec fn command_of(text: Seq<char>) -> CommandView {
    if text == "/start"@ {
        CommandView::Start
    } else if text == "/manage"@ {
        CommandView::Manage
    } else if has_prefix(text, "/start "@) {
        CommandView::Payload(text.skip("/start "@.len() as int))
    } else {
        CommandView::Unknown
    }
}

impl Command {
    /// Reads a command from the text of a message.
    pub fn parse(text: &str) -> (r: Command)
        ensures
            r.deep_view() == command_of(text@),
    {
        if same_text(text, "/start") {
            Command::Start
        } else if same_text(text, "/manage") {
            Command::Manage
        } else {
            match strip_prefix(text, "/start ") {
                Some(payload) => Command::Payload(payload),
                None => Command::Unknown,
            }
        }
    }
}

/// The reply to a chat that is not authorized.
pub open spec fn unauthorized_view(chat_id: i64) -> SendMessageView {
    SendMessageView::quick_html(
        ChatIdView::Integer(chat_id),
        unauthorized_markup(&ChatId::Integer(chat_id)),
    )
}

/// The two messages that greet a chat.
pub open spec fn greeting_views(chat_id: i64) -> Seq<SendMessageView> {
    seq![
        SendMessageView::plain(ChatIdView::Integer(chat_id), "👋"@),
        SendMessageView::plain(
            ChatIdView::Integer(chat_id),
            "Just send me a search query to start"@,
        ),
    ]
}

/// The reply to a command that the bot does not know.
pub open spec fn unknown_command_view(chat_id: i64, message_id: u64) -> SendMessageView {
    SendMessageView {
        reply_parameters: Some(
            ReplyParameters { message_id, allow_sending_without_reply: Some(true) },
        ),
        ..SendMessageView::plain(
            ChatIdView::Integer(chat_id),
            "I am sorry, but I do not know this command"@,
        )
    }
}

/// The message that tells a chat of an error inside the bot, with the
/// identifier under which the error was logged.
pub open spec fn internal_error_view(chat_id: i64, error_id: Seq<char>) -> SendMessageView {
    SendMessageView {
        parse_mode: Some(ParseMode::Html),
        ..SendMessageView::plain(
            ChatIdView::Integer(chat_id),
            "💥 An internal error occurred and has been logged <code>"@ + escaped(error_id)
                + "</code>"@,
        )
    }
}

/// Builds the reply to a chat that is not authorized.
pub fn unauthorized_reply(chat_id: i64) -> (r: SendMessage)
    ensures
        r.deep_view() == unauthorized_view(chat_id),
{
    let chat = ChatId::Integer(chat_id);
    let text = unauthorized(&chat);
    SendMessage::quick_html(&chat, text)
}

/// Builds the two messages that greet a chat.
pub fn greeting(chat_id: i64) -> (r: Vec<SendMessage>)
    ensures
        r.deep_view() == greeting_views(chat_id),
{
    let chat = ChatId::Integer(chat_id);
    let mut out: Vec<SendMessage> = Vec::new();
    out.push(SendMessage::plain(&chat, "👋"));
    out.push(SendMessage::plain(&chat, "Just send me a search query to start"));
    assert(out.deep_view() =~= greeting_views(chat_id));
    out
}

/// Builds the reply to a command that the bot does not know.
pub fn unknown_command(chat_id: i64, message_id: u64) -> (r: SendMessage)
    ensures
        r.deep_view() == unknown_command_view(chat_id, message_id),
{
    let mut message = SendMessage::plain(
        &ChatId::Integer(chat_id),
        "I am sorry, but I do not know this command",
    );
    message.reply_parameters = Some(ReplyParameters::to_message(message_id));
    message
}

/// Builds the message that tells a chat of an error inside the bot.
pub fn internal_error(chat_id: i64, error_id: &str) -> (r: SendMessage)
    ensures
        r.deep_view() == internal_error_view(chat_id, error_id@),
{
    let mut text = String::from_str("💥 An internal error occurred and has been logged <code>");
    push_escaped(&mut text, error_id);
    text.append("</code>");
    SendMessage {
        chat_id: ChatId::Integer(chat_id),
        text,
        parse_mode: Some(ParseMode::Html),
        link_preview_options: None,
        reply_parameters: None,
    }
}

/// A change of the subscriptions.
#[derive(Debug, Clone, Copy, PartialEq, Eq, Structural)]
pub enum StoreAction {
    Upsert(Subscription),
    Delete(Subscription),
}

/// What a subscription command leads to: the change of the subscriptions
/// and the confirmation, with the links to undo the change and to list the
/// subscriptions. A command with an action that is not known leads to
/// nothing.
pub open spec fn subscription_outcome(
    builder: &CommandBuilder,
    chat_id: i64,
    command: SubscriptionCommand,
    query_text: Seq<char>,
) -> Option<(StoreAction, SendMessageView)> {
    let subscription = Subscription { query_hash: command.query_hash, chat_id };
    match command.spec_action() {
        Some(SubscriptionAction::Subscribe) => Some(
            (
                StoreAction::Upsert(subscription),
                SendMessageView::quick_html(
                    ChatIdView::Integer(chat_id),
                    "You are now subscribed"@ + delimiter() + manage_markup(
                        query_text,
                        seq![
                            builder.unsubscribe_link_view(command.query_hash),
                            builder.manage_link_view(),
                        ],
                    ),
                ),
            ),
        ),
        Some(SubscriptionAction::Unsubscribe) => Some(
            (
                StoreAction::Delete(subscription),
                SendMessageView::quick_html(
                    ChatIdView::Integer(chat_id),
                    "You are now unsubscribed"@ + delimiter() + manage_markup(
                        query_text,
                        seq![
                            builder.resubscribe_link_view(command.query_hash),
                            builder.manage_link_view(),
                        ],
                    ),
                ),
            ),
        ),
        None => None,
    }
}

/// Decides what a subscription command leads to, given the text of its
/// query.
pub fn on_subscription(
    builder: &CommandBuilder,
    chat_id: i64,
    command: SubscriptionCommand,
    query_text: &str,
) -> (r: Option<(StoreAction, SendMessage)>)
    ensures
        match r {
            Some((action, message)) => subscription_outcome(builder, chat_id, command, query_text@)
                == Some((action, message.deep_view())),
            None => subscription_outcome(builder, chat_id, command, query_text@) is None,
        },
{
    let subscription = Subscription { query_hash: command.query_hash, chat_id };
    let chat = ChatId::Integer(chat_id);
    match command.action() {
        Some(SubscriptionAction::Subscribe) => {
            let mut links: Vec<crate::telegram::render::Link> = Vec::new();
            links.push(builder.unsubscribe_link(command.query_hash));
            links.push(builder.manage_link());
            assert(links.deep_view() =~= seq![
                builder.unsubscribe_link_view(command.query_hash),
                builder.manage_link_view(),
            ]);
            let manage = ManageSearchQuery::new(String::from_str(query_text), links);
            let mut text = String::from_str("You are now subscribed");
            text.append("<strong> • </strong>");
            manage.push_to(&mut text);
            Some((StoreAction::Upsert(subscription), SendMessage::quick_html(&chat, text)))
        },
        Some(SubscriptionAction::Unsubscribe) => {
            let mut links: Vec<crate::telegram::render::Link> = Vec::new();
            links.push(builder.resubscribe_link(command.query_hash));
            links.push(builder.manage_link());
            assert(links.deep_view() =~= seq![
                builder.resubscribe_link_view(command.query_hash),
                builder.manage_link_view(),
            ]);
            let manage = ManageSearchQuery::new(String::from_str(query_text), links);
            let mut text = String::from_str("You are now unsubscribed");
            text.append("<strong> • </strong>");
            manage.push_to(&mut text);
            Some((StoreAction::Delete(subscription), SendMessage::quick_html(&chat, text)))
        },
        None => None,
    }
}

/// Markup of subscriptions, each on a line of its own with the link that
/// ends it.
pub open spec fn subscriptions_markup(
    builder: &CommandBuilder,
    entries: Seq<(Subscription, SearchQuery)>,
) -> Seq<char>
    decreases entries.len(),
{
    if entries.len() == 0 {
        Seq::empty()
    } else {
        subscriptions_markup(builder, entries.drop_last()) + "\n"@ + manage_markup(
            entries.last().1.text@,
            seq![builder.unsubscribe_link_view(entries.last().0.query_hash)],
        )
    }
}

/// The message that lists the subscriptions of a chat.
pub open spec fn manage_view(
    builder: &CommandBuilder,
    chat_id: i64,
    entries: Seq<(Subscription, SearchQuery)>,
) -> SendMessageView {
    SendMessageView::quick_html(
        ChatIdView::Integer(chat_id),
        if entries.len() == 0 {
            "You do not have any subscriptions at the moment"@
        } else {
            "Here are your subscriptions:\n"@ + subscriptions_markup(builder, entries)
        },
    )
}

/// Builds the message that lists the subscriptions of a chat.
pub fn manage_reply(
    builder: &CommandBuilder,
    chat_id: i64,
    entries: &Vec<(Subscription, SearchQuery)>,
) -> (r: SendMessage)
    ensures
        r.deep_view() == manage_view(builder, chat_id, entries@),
{
    let chat = ChatId::Integer(chat_id);
    if entries.len() == 0 {
        return SendMessage::quick_html(
            &chat,
            String::from_str("You do not have any subscriptions at the moment"),
        );
    }
    let mut text = String::from_str("Here are your subscriptions:\n");
    let ghost start = text@;
    let mut i: usize = 0;
    while i < entries.len()
        invariant
            i <= entries.len(),
            text@ == start + subscriptions_markup(builder, entries@.take(i as int)),
        decreases entries.len() - i,
    {
        proof {
            let next = entries@.take(i + 1);
            assert(next.drop_last() == entries@.take(i as int));
            assert(next.last() == entries@[i as int]);
        }
        let mut links: Vec<crate::telegram::render::Link> = Vec::new();
        links.push(builder.unsubscribe_link(entries[i].0.query_hash));
        assert(links.deep_view() =~= seq![
            builder.unsubscribe_link_view(entries@[i as int].0.query_hash),
        ]);
        let manage = ManageSearchQuery::new(entries[i].1.text.clone(), links);
        text.append("\n");
        manage.push_to(&mut text);
        i += 1;
    }
    assert(entries@.take(i as int) == entries@);
    SendMessage::quick_html(&chat, text)
}

/// Markup of a search query with the link that subscribes to it.
pub open spec fn subscribe_markup(builder: &CommandBuilder, query: SearchQueryView) -> Seq<char> {
    manage_markup(query.text, seq![builder.subscribe_link_view(query.hash)])
}

/// The message that tells a chat that nothing was found, with the link to
/// subscribe all the same.
pub open spec fn nothing_found_view(
    builder: &CommandBuilder,
    chat_id: i64,
    message_id: u64,
    query: SearchQueryView,
) -> SendMessageView {
    SendMessageView {
        chat_id: ChatIdView::Integer(chat_id),
        text: "There are no items matching the search query. Try a different query or subscribe anyway to wait for them to appear"@
            + delimiter() + subscribe_markup(builder, query),
        parse_mode: Some(ParseMode::Html),
        link_preview_options: Some(LinkPreviewOptionsView::disabled()),
        reply_parameters: Some(
            ReplyParameters { message_id, allow_sending_without_reply: Some(true) },
        ),
    }
}

/// The notification of an item that was found for a search.
pub open spec fn found_view(
    builder: &CommandBuilder,
    chat_id: i64,
    message_id: u64,
    query: SearchQueryView,
    item: &Item,
) -> SendNotificationView {
    SendNotificationView::new(
        ChatIdView::Integer(chat_id),
        item_markup(item, subscribe_markup(builder, query), item_map_url_of(item)),
        ParseMode::Html,
        item.pictures.deep_view(),
        Some(ReplyParameters { message_id, allow_sending_without_reply: Some(true) }),
    )
}

/// What a search is answered with: where nothing was found, one message
/// that says so, else one notification for each item, in their order. Each
/// carries the link that subscribes to the query.
pub open spec fn search_views(
    builder: &CommandBuilder,
    chat_id: i64,
    message_id: u64,
    query: SearchQueryView,
    items: Seq<Item>,
) -> Seq<SendNotificationView> {
    if items.len() == 0 {
        seq![
            SendNotificationView::Message(nothing_found_view(builder, chat_id, message_id, query)),
        ]
    } else {
        Seq::new(
            items.len(),
            |i: int| found_view(builder, chat_id, message_id, query, &items[i]),
        )
    }
}

/// Builds the answer to a search from the items that were found.
pub fn search_replies(
    builder: &CommandBuilder,
    chat_id: i64,
    message_id: u64,
    query: &SearchQuery,
    items: &Vec<Item>,
) -> (r: Vec<SendNotification>)
    ensures
        r.deep_view() == search_views(builder, chat_id, message_id, query.deep_view(), items@),
{
    let chat = ChatId::Integer(chat_id);
    let reply = ReplyParameters::to_message(message_id);
    let mut out: Vec<SendNotification> = Vec::new();
    if items.len() == 0 {
        let mut links: Vec<crate::telegram::render::Link> = Vec::new();
        links.push(builder.subscribe_link(query.hash));
        assert(links.deep_view() =~= seq![builder.subscribe_link_view(query.hash)]);
        let manage = ManageSearchQuery::new(query.text.clone(), links);
        let mut text = String::from_str(
            "There are no items matching the search query. Try a different query or subscribe anyway to wait for them to appear",
        );
        text.append("<strong> • </strong>");
        manage.push_to(&mut text);
        out.push(
            SendNotification::Message(
                SendMessage {
                    chat_id: chat,
                    text,
                    parse_mode: Some(ParseMode::Html),
                    link_preview_options: Some(LinkPreviewOptions::disabled()),
                    reply_parameters: Some(reply),
                },
            ),
        );
        assert(out.deep_view() =~= search_views(
            builder,
            chat_id,
            message_id,
            query.deep_view(),
            items@,
        ));
        return out;
    }
    let mut i: usize = 0;
    while i < items.len()
        invariant
            i <= items.len(),
            chat.deep_view() == ChatIdView::Integer(chat_id),
            reply == (ReplyParameters { message_id, allow_sending_without_reply: Some(true) }),
            out.deep_view().len() == i,
            forall|k: int|
                0 <= k < i ==> #[trigger] out.deep_view()[k] == found_view(
                    builder,
                    chat_id,
                    message_id,
                    query.deep_view(),
                    &items@[k],
                ),
        decreases items.len() - i,
    {
        let mut links: Vec<crate::telegram::render::Link> = Vec::new();
        links.push(builder.subscribe_link(query.hash));
        assert(links.deep_view() =~= seq![builder.subscribe_link_view(query.hash)]);
        let manage = ManageSearchQuery::new(query.text.clone(), links);
        let description = item_description(&items[i], &manage);
        let notification = SendNotification::new(
            &chat,
            description.as_str(),
            ParseMode::Html,
            &items[i].pictures,
            Some(reply),
        );
        let ghost before = out.deep_view();
        out.push(notification);
        assert forall|k: int| 0 <= k < i + 1 implies #[trigger] out.deep_view()[k] == found_view(
            builder,
            chat_id,
            message_id,
            query.deep_view(),
            &items@[k],
        ) by {
            if k < i {
                assert(out.deep_view()[k] == before[k]);
            }
        }
        i += 1;
    }
    assert(out.deep_view() =~= search_views(
        builder,
        chat_id,
        message_id,
        query.deep_view(),
        items@,
    ));
    out
}

/// What the reactor asks of the outside while it handles a message.
#[derive(Debug, Clone, PartialEq, Eq)]
pub enum Request {
    /// Send the message to its chat.
    Send(SendNotification),
    /// Fetch the subscriptions of the chat, with their queries.
    FetchSubscriptions(i64),
    /// Fetch the text of the query with the fingerprint.
    FetchSearchText(i64),
    /// Change the subscriptions.
    Apply(StoreAction),
    /// Remember the query.
    UpsertSearchQuery(SearchQuery),
    /// Search all marketplaces, with a limit for each.
    Search(SearchQuery, usize),
}

/// Mathematical model of a request.
pub enum RequestView {
    Send(SendNotificationView),
    FetchSubscriptions(i64),
    FetchSearchText(i64),
    Apply(StoreAction),
    UpsertSearchQuery(SearchQueryView),
    Search(SearchQueryView, usize),
}

impl DeepView for Request {
    type V = RequestView;

    open spec fn deep_view(&self) -> RequestView {
        match self {
            Request::Send(request) => RequestView::Send(request.deep_view()),
            Request::FetchSubscriptions(chat_id) => RequestView::FetchSubscriptions(*chat_id),
            Request::FetchSearchText(hash) => RequestView::FetchSearchText(*hash),
            Request::Apply(action) => RequestView::Apply(*action),
            Request::UpsertSearchQuery(query) => RequestView::UpsertSearchQuery(
                query.deep_view(),
            ),
            Request::Search(query, limit) => RequestView::Search(query.deep_view(), *limit),
        }
    }
}

/// What came back from a request that was carried out. A request that
/// failed ends the handling of the message: nothing comes back from it.
#[derive(Debug, Clone, PartialEq, Eq)]
pub enum Response {
    /// The message was sent, or the store was changed.
    Done,
    /// The subscriptions of the chat, in their order.
    Subscriptions(Vec<(Subscription, SearchQuery)>),
    /// The text of the query.
    SearchText(String),
    /// The items that were found.
    Items(Vec<Item>),
}

/// Where the handling of a message stands.
#[derive(Debug, Clone, PartialEq, Eq)]
pub enum Handling {
    /// A message is being sent. `queue` holds those that follow, and `after`
    /// the subscription command that is carried out after them, with its
    /// chat.
    Sending { queue: Vec<SendNotification>, after: Option<(i64, SubscriptionCommand)> },
    /// The subscriptions of the chat are being fetched. `then` holds the
    /// subscription command that is carried out after the list was sent.
    Listing { chat_id: i64, then: Option<SubscriptionCommand> },
    /// The text of the query of a subscription command is being fetched.
    LookingUp { chat_id: i64, command: SubscriptionCommand },
    /// The subscriptions are being changed; the reply confirms it.
    Applying { reply: SendMessage },
    /// The query is being remembered.
    Saving { chat_id: i64, message_id: u64, query: SearchQuery },
    /// The marketplaces are being searched.
    Searching { chat_id: i64, message_id: u64, query: SearchQuery },
    /// Nothing is left to do.
    Finished,
}

/// Mathematical model of the handling of a message.
pub enum HandlingView {
    Sending { queue: Seq<SendNotificationView>, after: Option<(i64, SubscriptionCommand)> },
    Listing { chat_id: i64, then: Option<SubscriptionCommand> },
    LookingUp { chat_id: i64, command: SubscriptionCommand },
    Applying { reply: SendMessageView },
    Saving { chat_id: i64, message_id: u64, query: SearchQueryView },
    Searching { chat_id: i64, message_id: u64, query: SearchQueryView },
    Finished,
}

impl DeepView for Handling {
    type V = HandlingView;

    open spec fn deep_view(&self) -> HandlingView {
        match self {
            Handling::Sending { queue, after } => HandlingView::Sending {
                queue: queue.deep_view(),
                after: *after,
            },
            Handling::Listing { chat_id, then } => HandlingView::Listing {
                chat_id: *chat_id,
                then: *then,
            },
            Handling::LookingUp { chat_id, command } => HandlingView::LookingUp {
                chat_id: *chat_id,
                command: *command,
            },
            Handling::Applying { reply } => HandlingView::Applying { reply: reply.deep_view() },
            Handling::Saving { chat_id, message_id, query } => HandlingView::Saving {
                chat_id: *chat_id,
                message_id: *message_id,
                query: query.deep_view(),
            },
            Handling::Searching { chat_id, message_id, query } => HandlingView::Searching {
                chat_id: *chat_id,
                message_id: *message_id,
                query: query.deep_view(),
            },
            Handling::Finished => HandlingView::Finished,
        }
    }
}

/// A step of the handling of a message: where it stands then, and what it
/// asks for. Without a request the handling is over.
pub type StepView = (HandlingView, Option<RequestView>);

/// Marketplace limit of the search that answers a message.
pub const SEARCH_LIMIT: usize = 1;

/// The messages as notifications, in their order.
pub open spec fn as_notifications(messages: Seq<SendMessageView>) -> Seq<SendNotificationView> {
    Seq::new(messages.len(), |i: int| SendNotificationView::Message(messages[i]))
}

/// The step that carries out a subscription command: it fetches the text of
/// the query.
pub open spec fn looking_up(chat_id: i64, command: SubscriptionCommand) -> StepView {
    (
        HandlingView::LookingUp { chat_id, command },
        Some(RequestView::FetchSearchText(command.query_hash)),
    )
}

/// The step that sends the first message of a queue, or goes on to what
/// comes after the queue where it is empty.
pub open spec fn sending(
    queue: Seq<SendNotificationView>,
    after: Option<(i64, SubscriptionCommand)>,
) -> StepView {
    if queue.len() > 0 {
        (
            HandlingView::Sending { queue: queue.drop_first(), after },
            Some(RequestView::Send(queue[0])),
        )
    } else {
        match after {
            Some((chat_id, command)) => looking_up(chat_id, command),
            None => (HandlingView::Finished, None),
        }
    }
}

/// The step that carries out the command of a deep link: the list of the
/// subscriptions where the command asks for it, then the subscription
/// command where it holds one.
pub open spec fn running(chat_id: i64, command: CommandPayload) -> StepView {
    if command.manage {
        (
            HandlingView::Listing { chat_id, then: command.subscription },
            Some(RequestView::FetchSubscriptions(chat_id)),
        )
    } else {
        match command.subscription {
            Some(subscription) => looking_up(chat_id, subscription),
            None => (HandlingView::Finished, None),
        }
    }
}

/// The first step of the handling of a message. A chat that is not
/// authorized gets the introduction of the bot and nothing else happens; a
/// text that begins with `/` is a command; any other text is a query, which
/// is remembered before it is searched for. A deep link whose payload
/// cannot be read fails the message.
pub open spec fn spec_start(authorized: Set<i64>, message: IncomingView) -> Result<
    StepView,
    PayloadError,
> {
    match spec_route(authorized, message.chat_id, message.text) {
        Route::Unauthorized => Ok(
            sending(as_notifications(seq![unauthorized_view(message.chat_id)]), None),
        ),
        Route::Command => match command_of(message.text) {
            CommandView::Start => Ok(
                sending(as_notifications(greeting_views(message.chat_id)), None),
            ),
            CommandView::Manage => Ok(
                running(message.chat_id, CommandPayload { manage: true, subscription: None }),
            ),
            CommandView::Payload(payload) => match CommandPayload::of_base64(payload) {
                Ok(command) => Ok(running(message.chat_id, command)),
                Err(error) => Err(error),
            },
            CommandView::Unknown => Ok(
                sending(
                    as_notifications(
                        seq![unknown_command_view(message.chat_id, message.message_id)],
                    ),
                    None,
                ),
            ),
        },
        Route::Search => Ok(
            (
                HandlingView::Saving {
                    chat_id: message.chat_id,
                    message_id: message.message_id,
                    query: SearchQueryView::of_text(message.text),
                },
                Some(RequestView::UpsertSearchQuery(SearchQueryView::of_text(message.text))),
            ),
        ),
    }
}

/// The step after a response. A response that does not answer what was
/// asked ends the handling.
pub open spec fn spec_advance(
    builder: &CommandBuilder,
    state: HandlingView,
    response: Response,
) -> StepView {
    match (state, response) {
        (HandlingView::Sending { queue, after }, Response::Done) => sending(queue, after),
        (HandlingView::Listing { chat_id, then }, Response::Subscriptions(entries)) => sending(
            as_notifications(seq![manage_view(builder, chat_id, entries@)]),
            match then {
                Some(command) => Some((chat_id, command)),
                None => None,
            },
        ),
        (
            HandlingView::LookingUp { chat_id, command },
            Response::SearchText(text),
        ) => match subscription_outcome(builder, chat_id, command, text@) {
            Some((action, reply)) => (
                HandlingView::Applying { reply },
                Some(RequestView::Apply(action)),
            ),
            None => (HandlingView::Finished, None),
        },
        (HandlingView::Applying { reply }, Response::Done) => sending(
            as_notifications(seq![reply]),
            None,
        ),
        (HandlingView::Saving { chat_id, message_id, query }, Response::Done) => (
            HandlingView::Searching { chat_id, message_id, query },
            Some(RequestView::Search(query, SEARCH_LIMIT)),
        ),
        (HandlingView::Searching { chat_id, message_id, query }, Response::Items(items)) => sending(
            search_views(builder, chat_id, message_id, query, items@),
            None,
        ),
        _ => (HandlingView::Finished, None),
    }
}

/// Takes the step that carries out a subscription command.
fn look_up(chat_id: i64, command: SubscriptionCommand) -> (r: (Handling, Option<Request>))
    ensures
        r.deep_view() == looking_up(chat_id, command),
{
    (Handling::LookingUp { chat_id, command }, Some(Request::FetchSearchText(command.query_hash)))
}

/// Takes the step that sends the first message of a queue.
fn send_next(queue: Vec<SendNotification>, after: Option<(i64, SubscriptionCommand)>) -> (r: (
    Handling,
    Option<Request>,
))
    ensures
        r.deep_view() == sending(queue.deep_view(), after),
{
    let mut queue = queue;
    if queue.len() > 0 {
        let ghost all = queue.deep_view();
        let first = queue.remove(0);
        assert(queue.deep_view() =~= all.drop_first());
        (Handling::Sending { queue, after }, Some(Request::Send(first)))
    } else {
        match after {
            Some((chat_id, command)) => look_up(chat_id, command),
            None => (Handling::Finished, None),
        }
    }
}

/// Takes the step that sends messages, one after the other.
fn send_all(messages: Vec<SendMessage>) -> (r: (Handling, Option<Request>))
    ensures
        r.deep_view() == sending(as_notifications(messages.deep_view()), None),
{
    let mut queue: Vec<SendNotification> = Vec::new();
    let ghost raw = messages@;
    let ghost all = messages.deep_view();
    for message in it: messages
        invariant
            it.seq() == raw,
            all.len() == raw.len(),
            forall|k: int| 0 <= k < raw.len() ==> #[trigger] all[k] == raw[k].deep_view(),
            queue.deep_view() == as_notifications(all.take(it.index() as int)),
    {
        let ghost before = queue.deep_view();
        let ghost sent = queue@;
        assert(message.deep_view() == all[it.index() as int]);
        queue.push(SendNotification::Message(message));
        assert(queue.deep_view() =~= as_notifications(all.take(it.index() + 1))) by {
            let target = as_notifications(all.take(it.index() + 1));
            assert(before.len() == it.index());
            assert(queue.deep_view().len() == target.len());
            assert forall|k: int| 0 <= k < target.len() implies queue.deep_view()[k]
                == target[k] by {
                if k < it.index() {
                    assert(queue@[k] == sent[k]);
                    assert(before[k] == sent[k].deep_view());
                    assert(before[k] == as_notifications(all.take(it.index() as int))[k]);
                } else {
                    assert(queue@[k].deep_view() == SendNotificationView::Message(
                        message.deep_view(),
                    ));
                }
            }
        }
    }
    assert(all.take(all.len() as int) == all);
    send_next(queue, None)
}

/// Takes the step that carries out the command of a deep link.
fn run(chat_id: i64, command: CommandPayload) -> (r: (Handling, Option<Request>))
    ensures
        r.deep_view() == running(chat_id, command),
{
    if command.manage {
        (
            Handling::Listing { chat_id, then: command.subscription },
            Some(Request::FetchSubscriptions(chat_id)),
        )
    } else {
        match command.subscription {
            Some(subscription) => look_up(chat_id, subscription),
            None => (Handling::Finished, None),
        }
    }
}

/// Begins to handle a message: decides what is asked for first.
pub fn start(authorized: &HashSet<i64>, message: &Incoming) -> (r: Result<
    (Handling, Option<Request>),
    PayloadError,
>)
    ensures
        match r {
            Ok(step) => spec_start(authorized@, message.deep_view()) == Ok::<
                StepView,
                PayloadError,
            >(step.deep_view()),
            Err(error) => spec_start(authorized@, message.deep_view()) == Err::<
                StepView,
                PayloadError,
            >(error),
        },
{
    match route(authorized, message) {
        Route::Unauthorized => {
            let mut messages: Vec<SendMessage> = Vec::new();
            messages.push(unauthorized_reply(message.chat_id));
            assert(messages.deep_view() =~= seq![unauthorized_view(message.chat_id)]);
            Ok(send_all(messages))
        },
        Route::Command => match Command::parse(message.text.as_str()) {
            Command::Start => Ok(send_all(greeting(message.chat_id))),
            Command::Manage => Ok(run(message.chat_id, CommandPayload::manage())),
            Command::Payload(payload) => match CommandPayload::from_base64(payload.as_str()) {
                Ok(command) => Ok(run(message.chat_id, command)),
                Err(error) => Err(error),
            },
            Command::Unknown => {
                let mut messages: Vec<SendMessage> = Vec::new();
                messages.push(unknown_command(message.chat_id, message.message_id));
                assert(messages.deep_view() =~= seq![
                    unknown_command_view(message.chat_id, message.message_id),
                ]);
                Ok(send_all(messages))
            },
        },
        Route::Search => {
            let query = SearchQuery::from_text(message.text.as_str());
            let copy = query.clone();
            Ok(
                (
                    Handling::Saving {
                        chat_id: message.chat_id,
                        message_id: message.message_id,
                        query,
                    },
                    Some(Request::UpsertSearchQuery(copy)),
                ),
            )
        },
    }
}

/// Goes on with the handling of a message after a response: decides what is
/// asked for next.
pub fn advance(builder: &CommandBuilder, state: Handling, response: Response) -> (r: (
    Handling,
    Option<Request>,
))
    ensures
        r.deep_view() == spec_advance(builder, state.deep_view(), response),
{
    match state {
        Handling::Sending { queue, after } => match response {
            Response::Done => send_next(queue, after),
            _ => (Handling::Finished, None),
        },
        Handling::Listing { chat_id, then } => match response {
            Response::Subscriptions(entries) => {
                let mut queue: Vec<SendNotification> = Vec::new();
                queue.push(SendNotification::Message(manage_reply(builder, chat_id, &entries)));
                assert(queue.deep_view() =~= as_notifications(
                    seq![manage_view(builder, chat_id, entries@)],
                ));
                let after = match then {
                    Some(command) => Some((chat_id, command)),
                    None => None,
                };
                send_next(queue, after)
            },
            _ => (Handling::Finished, None),
        },
        Handling::LookingUp { chat_id, command } => match response {
            Response::SearchText(text) => match on_subscription(
                builder,
                chat_id,
                command,
                text.as_str(),
            ) {
                Some((action, reply)) => (
                    Handling::Applying { reply },
                    Some(Request::Apply(action)),
                ),
                None => (Handling::Finished, None),
            },
            _ => (Handling::Finished, None),
        },
        Handling::Applying { reply } => match response {
            Response::Done => {
                let ghost view = reply.deep_view();
                let mut queue: Vec<SendNotification> = Vec::new();
                queue.push(SendNotification::Message(reply));
                assert(queue.deep_view() =~= as_notifications(seq![view]));
                send_next(queue, None)
            },
            _ => (Handling::Finished, None),
        },
        Handling::Saving { chat_id, message_id, query } => match response {
            Response::Done => {
                let copy = query.clone();
                (
                    Handling::Searching { chat_id, message_id, query },
                    Some(Request::Search(copy, SEARCH_LIMIT)),
                )
            },
            _ => (Handling::Finished, None),
        },
        Handling::Searching { chat_id, message_id, query } => match response {
            Response::Items(items) => send_next(
                search_replies(builder, chat_id, message_id, &query, &items),
                None,
            ),
            _ => (Handling::Finished, None),
        },
        Handling::Finished => (Handling::Finished, None),
    }
}

/// A chat that is not authorized is sent the introduction of the bot, and
/// that is all: nothing is asked of the store or of the marketplaces.
pub proof fn law_unauthorized_is_answered_only(
    builder: &CommandBuilder,
    authorized: Set<i64>,
    message: IncomingView,
)
    requires
        !authorized.contains(message.chat_id),
    ensures
        spec_start(authorized, message) == Ok::<StepView, PayloadError>(
            (
                HandlingView::Sending { queue: Seq::empty(), after: None },
                Some(
                    RequestView::Send(
                        SendNotificationView::Message(unauthorized_view(message.chat_id)),
                    ),
                ),
            ),
        ),
        spec_advance(
            builder,
            HandlingView::Sending { queue: Seq::empty(), after: None },
            Response::Done,
        ) == (HandlingView::Finished, None::<RequestView>),
{
    let queue = as_notifications(seq![unauthorized_view(message.chat_id)]);
    assert(queue.drop_first() =~= Seq::empty());
}

/// A query is remembered before it is searched for, whatever the search
/// will find, and each marketplace is asked for one item.
pub proof fn law_search_saves_first(
    builder: &CommandBuilder,
    authorized: Set<i64>,
    message: IncomingView,
)
    requires
        spec_route(authorized, message.chat_id, message.text) == Route::Search,
    ensures
        ({
            let query = SearchQueryView::of_text(message.text);
            let saving = HandlingView::Saving {
                chat_id: message.chat_id,
                message_id: message.message_id,
                query,
            };
            &&& spec_start(authorized, message) == Ok::<StepView, PayloadError>(
                (saving, Some(RequestView::UpsertSearchQuery(query))),
            )
            &&& spec_advance(builder, saving, Response::Done) == (
                HandlingView::Searching {
                    chat_id: message.chat_id,
                    message_id: message.message_id,
                    query,
                },
                Some(RequestView::Search(query, SEARCH_LIMIT)),
            )
        }),
{
}

} // verus!
