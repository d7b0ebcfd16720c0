//! Decisions of the reactor that crawls the subscriptions: one subscription
//! for each tick, each of its items in turn, and for each item at most one
//! successful notification of the chat. Sleeping, the store, the
//! marketplaces and the chat platform are outside. A tick goes in steps:
//! `start` says what is asked of the outside first, and `advance` takes what
//! came back and says what is asked next, until nothing is.

use crate::db::{
    advanced, answer, first_query, resolve, spec_first_query, spec_resolve,
    CursorQuery, CursorStep, Notification, SearchQuery, Subscription,
};
use crate::marketplace::item::Item;
use crate::telegram::commands::CommandBuilder;
use crate::telegram::methods::{SendNotification, SendNotificationView};
use crate::telegram::objects::{ChatId, ChatIdView, ParseMode};
use crate::telegram::render::{
    item_description, item_map_url_of, item_markup, manage_markup, Link, ManageSearchQuery,
};
use vstd::prelude::*;

verus! {

/// Where the cursor stands after a tick: at the subscription that was
/// handled, or where it stood before if the tick failed.
pub fn after_tick(
    previous: Option<Subscription>,
    reached: Option<Subscription>,
    succeeded: bool,
) -> (r: Option<Subscription>)
    ensures
        r == if succeeded {
            reached
        } else {
            previous
        },
{
    if succeeded {
        reached
    } else {
        previous
    }
}

/// The notification of a chat about an item of its subscription.
pub open spec fn notification_view(
    builder: &CommandBuilder,
    subscription: Subscription,
    query: &SearchQuery,
    item: &Item,
) -> SendNotificationView {
    SendNotificationView::new(
        ChatIdView::Integer(subscription.chat_id),
        item_markup(
            item,
            manage_markup(query.text@, seq![builder.unsubscribe_link_view(query.hash)]),
            item_map_url_of(item),
        ),
        ParseMode::Html,
        item.pictures.deep_view(),
        None,
    )
}

/// Builds the notification of a chat about an item of its subscription: the
/// description of the item with the query and the link that unsubscribes.
pub fn notification(
    builder: &CommandBuilder,
    subscription: Subscription,
    query: &SearchQuery,
    item: &Item,
) -> (r: SendNotification)
    ensures
        r.deep_view() == notification_view(builder, subscription, query, item),
{
    let mut links: Vec<Link> = Vec::new();
    links.push(builder.unsubscribe_link(query.hash));
    assert(links.deep_view() =~= seq![builder.unsubscribe_link_view(query.hash)]);
    let manage = ManageSearchQuery::new(query.text.clone(), links);
    let description = item_description(item, &manage);
    SendNotification::new(
        &ChatId::Integer(subscription.chat_id),
        description.as_str(),
        ParseMode::Html,
        &item.pictures,
        None,
    )
}

/// A chat and an item: the key of a notification.
pub type Key = (i64, Seq<char>);

/// The key of a notification.
pub open spec fn key_of(notification: &Notification) -> Key {
    (notification.chat_id, notification.item_id@)
}

/// What the crawl asks of the outside about one item.
#[derive(Debug, Clone, PartialEq, Eq)]
pub enum ItemRequest {
    /// Remember the item with the identifier in the store.
    UpsertItem(String),
    /// Ask the store whether the chat was notified of the item.
    CheckNotification(Notification),
    /// Send the notification of the chat about the item.
    Send(Notification, SendNotification),
    /// Remember in the store that the chat was notified of the item.
    UpsertNotification(Notification),
}

/// Mathematical model of a request about one item.
pub enum ItemRequestView {
    UpsertItem(Seq<char>),
    CheckNotification(Key),
    Send(Key, SendNotificationView),
    UpsertNotification(Key),
}

impl DeepView for ItemRequest {
    type V = ItemRequestView;

    open spec fn deep_view(&self) -> ItemRequestView {
        match self {
            ItemRequest::UpsertItem(id) => ItemRequestView::UpsertItem(id@),
            ItemRequest::CheckNotification(key) => ItemRequestView::CheckNotification(
                key_of(key),
            ),
            ItemRequest::Send(key, request) => ItemRequestView::Send(
                key_of(key),
                request.deep_view(),
            ),
            ItemRequest::UpsertNotification(key) => ItemRequestView::UpsertNotification(
                key_of(key),
            ),
        }
    }
}

/// What came back from a request about one item. A request to the store
/// that failed ends the tick: nothing comes back from it.
#[derive(Debug, Clone, Copy, PartialEq, Eq, Structural)]
pub enum ItemEvent {
    /// The item is remembered.
    Stored,
    /// Whether the chat was notified of the item before.
    Known(bool),
    /// Whether the notification was sent.
    Sent(bool),
    /// The notification is remembered.
    Recorded,
}

/// Where the crawl stands with one item.
#[derive(Debug, Clone, PartialEq, Eq)]
pub enum ItemState {
    /// The item is being remembered.
    Storing { chat_id: i64, item: Item },
    /// The store is being asked whether the chat was notified.
    Checking { chat_id: i64, item: Item },
    /// The notification is being sent.
    Sending { key: Notification },
    /// The notification is being remembered.
    Recording { key: Notification },
    /// Nothing more: the next item is due.
    Finished,
}

/// Mathematical model of the state of the crawl with one item.
pub enum ItemStateView {
    Storing { chat_id: i64, item: Item },
    Checking { chat_id: i64, item: Item },
    Sending { key: Key },
    Recording { key: Key },
    Finished,
}

impl DeepView for ItemState {
    type V = ItemStateView;

    open spec fn deep_view(&self) -> ItemStateView {
        match self {
            ItemState::Storing { chat_id, item } => ItemStateView::Storing {
                chat_id: *chat_id,
                item: *item,
            },
            ItemState::Checking { chat_id, item } => ItemStateView::Checking {
                chat_id: *chat_id,
                item: *item,
            },
            ItemState::Sending { key } => ItemStateView::Sending { key: key_of(key) },
            ItemState::Recording { key } => ItemStateView::Recording { key: key_of(key) },
            ItemState::Finished => ItemStateView::Finished,
        }
    }
}

/// A step of the crawl with one item: where it stands then, and what it asks
/// for. Without a request the item is done with.
pub type ItemStepView = (ItemStateView, Option<ItemRequestView>);

/// The first step with an item: the item is remembered.
pub open spec fn spec_begin(chat_id: i64, item: Item) -> ItemStepView {
    (ItemStateView::Storing { chat_id, item }, Some(ItemRequestView::UpsertItem(item.id@)))
}

/// The step after what came back: once the item is remembered the store is
/// asked about the notification; a chat that was notified is not notified
/// again; a notification is remembered only if it was sent.
pub open spec fn spec_step(
    builder: &CommandBuilder,
    query: &SearchQuery,
    state: ItemStateView,
    event: ItemEvent,
) -> ItemStepView {
    match (state, event) {
        (ItemStateView::Storing { chat_id, item }, ItemEvent::Stored) => (
            ItemStateView::Checking { chat_id, item },
            Some(ItemRequestView::CheckNotification((chat_id, item.id@))),
        ),
        (ItemStateView::Checking { chat_id, item }, ItemEvent::Known(false)) => (
            ItemStateView::Sending { key: (chat_id, item.id@) },
            Some(
                ItemRequestView::Send(
                    (chat_id, item.id@),
                    notification_view(
                        builder,
                        Subscription { chat_id, query_hash: query.hash },
                        query,
                        &item,
                    ),
                ),
            ),
        ),
        (ItemStateView::Sending { key }, ItemEvent::Sent(true)) => (
            ItemStateView::Recording { key },
            Some(ItemRequestView::UpsertNotification(key)),
        ),
        _ => (ItemStateView::Finished, None),
    }
}

/// Begins with an item of a subscription.
pub fn begin(chat_id: i64, item: Item) -> (r: (ItemState, Option<ItemRequest>))
    ensures
        r.deep_view() == spec_begin(chat_id, item),
{
    let id = item.id.clone();
    (ItemState::Storing { chat_id, item }, Some(ItemRequest::UpsertItem(id)))
}

/// A copy of the key of a notification.
fn copy_key(key: &Notification) -> (r: Notification)
    ensures
        key_of(&r) == key_of(key),
{
    Notification { item_id: key.item_id.clone(), chat_id: key.chat_id }
}

/// Goes on with an item after what came back: decides what is asked for
/// next.
pub fn step(builder: &CommandBuilder, query: &SearchQuery, state: ItemState, event: ItemEvent) -> (r:
    (ItemState, Option<ItemRequest>))
    ensures
        r.deep_view() == spec_step(builder, query, state.deep_view(), event),
{
    match state {
        ItemState::Storing { chat_id, item } => match event {
            ItemEvent::Stored => {
                let key = Notification { item_id: item.id.clone(), chat_id };
                (
                    ItemState::Checking { chat_id, item },
                    Some(ItemRequest::CheckNotification(key)),
                )
            },
            _ => (ItemState::Finished, None),
        },
        ItemState::Checking { chat_id, item } => match event {
            ItemEvent::Known(false) => {
                let request = notification(
                    builder,
                    Subscription { chat_id, query_hash: query.hash },
                    query,
                    &item,
                );
                let key = Notification { item_id: item.id.clone(), chat_id };
                let copy = copy_key(&key);
                (ItemState::Sending { key }, Some(ItemRequest::Send(copy, request)))
            },
            _ => (ItemState::Finished, None),
        },
        ItemState::Sending { key } => match event {
            ItemEvent::Sent(true) => {
                let copy = copy_key(&key);
                (ItemState::Recording { key }, Some(ItemRequest::UpsertNotification(copy)))
            },
            _ => (ItemState::Finished, None),
        },
        _ => (ItemState::Finished, None),
    }
}

/// What a tick asks of the outside.
#[derive(Debug, Clone, PartialEq, Eq)]
pub enum Request {
    /// Ask the store about the subscriptions.
    Ask(CursorQuery),
    /// Check in with all marketplaces.
    CheckIn,
    /// Search all marketplaces for the query, without a limit.
    Search(SearchQuery),
    /// What the tick asks about one item.
    Item(ItemRequest),
}

/// Mathematical model of a request of a tick.
pub enum RequestView {
    Ask(CursorQuery),
    CheckIn,
    Search(SearchQuery),
    Item(ItemRequestView),
}

impl DeepView for Request {
    type V = RequestView;

    open spec fn deep_view(&self) -> RequestView {
        match self {
            Request::Ask(query) => RequestView::Ask(*query),
            Request::CheckIn => RequestView::CheckIn,
            Request::Search(query) => RequestView::Search(*query),
            Request::Item(request) => RequestView::Item(request.deep_view()),
        }
    }
}

/// What came back from a request of a tick. A request to the store that
/// failed ends the tick: nothing comes back from it.
#[derive(Debug, Clone, PartialEq, Eq)]
pub enum Response {
    /// The subscription that the store found, with its query.
    Row(Option<(Subscription, SearchQuery)>),
    /// The marketplaces were checked in with.
    CheckedIn,
    /// The items that were found, in the order of the marketplaces.
    Items(Vec<Item>),
    /// What came back from a request about one item.
    Item(ItemEvent),
}

/// Where a tick stands.
#[derive(Debug, Clone, PartialEq, Eq)]
pub enum Crawl {
    /// The store is being asked about the subscriptions.
    Advancing { question: CursorQuery },
    /// There is no subscription: the marketplaces are being checked in with.
    CheckingIn,
    /// The marketplaces are being searched.
    Searching { subscription: Subscription, query: SearchQuery },
    /// An item is being handled. `rest` holds the items that follow.
    Handling { subscription: Subscription, query: SearchQuery, state: ItemState, rest: Vec<Item> },
    /// The tick is over. `reached` is the subscription that was handled.
    Finished { reached: Option<Subscription> },
}

/// Mathematical model of the state of a tick.
pub enum CrawlView {
    Advancing { question: CursorQuery },
    CheckingIn,
    Searching { subscription: Subscription, query: SearchQuery },
    Handling {
        subscription: Subscription,
        query: SearchQuery,
        state: ItemStateView,
        rest: Seq<Item>,
    },
    Finished { reached: Option<Subscription> },
}

impl DeepView for Crawl {
    type V = CrawlView;

    open spec fn deep_view(&self) -> CrawlView {
        match self {
            Crawl::Advancing { question } => CrawlView::Advancing { question: *question },
            Crawl::CheckingIn => CrawlView::CheckingIn,
            Crawl::Searching { subscription, query } => CrawlView::Searching {
                subscription: *subscription,
                query: *query,
            },
            Crawl::Handling { subscription, query, state, rest } => CrawlView::Handling {
                subscription: *subscription,
                query: *query,
                state: state.deep_view(),
                rest: rest@,
            },
            Crawl::Finished { reached } => CrawlView::Finished { reached: *reached },
        }
    }
}

/// A step of a tick: where it stands then, and what it asks for. Without a
/// request the tick is over.
pub type TickStepView = (CrawlView, Option<RequestView>);

/// The first step of a tick: the cursor moves on from the subscription that
/// was handled before.
pub open spec fn spec_start(previous: Option<Subscription>) -> TickStepView {
    (
        CrawlView::Advancing { question: spec_first_query(previous) },
        Some(RequestView::Ask(spec_first_query(previous))),
    )
}

/// The step that goes on to the first of the items that remain, or ends the
/// tick where none remains.
pub open spec fn turning_to(
    subscription: Subscription,
    query: SearchQuery,
    items: Seq<Item>,
) -> TickStepView {
    if items.len() == 0 {
        (CrawlView::Finished { reached: Some(subscription) }, None)
    } else {
        let (state, request) = spec_begin(subscription.chat_id, items[0]);
        (
            CrawlView::Handling { subscription, query, state, rest: items.drop_first() },
            match request {
                Some(request) => Some(RequestView::Item(request)),
                None => None,
            },
        )
    }
}

/// The step of a tick after a response: the cursor starts over after the
/// last subscription; without any subscription the marketplaces are checked
/// in with; else the query of the subscription is searched for and the
/// items are handled in their order. A response that does not answer what
/// was asked ends the tick without a subscription that was handled; a tick
/// that is over stays as it is.
pub open spec fn spec_advance(
    builder: &CommandBuilder,
    state: CrawlView,
    response: Response,
) -> TickStepView {
    match (state, response) {
        (CrawlView::Advancing { question }, Response::Row(row)) => match spec_resolve(
            question,
            row,
        ) {
            CursorStep::Ask(again) => (
                CrawlView::Advancing { question: again },
                Some(RequestView::Ask(again)),
            ),
            CursorStep::Yield(None) => (CrawlView::CheckingIn, Some(RequestView::CheckIn)),
            CursorStep::Yield(Some((subscription, query))) => (
                CrawlView::Searching { subscription, query },
                Some(RequestView::Search(query)),
            ),
        },
        (CrawlView::CheckingIn, Response::CheckedIn) => (
            CrawlView::Finished { reached: None },
            None,
        ),
        (CrawlView::Searching { subscription, query }, Response::Items(items)) => turning_to(
            subscription,
            query,
            items@,
        ),
        (
            CrawlView::Handling { subscription, query, state, rest },
            Response::Item(event),
        ) => {
            let (next, request) = spec_step(builder, &query, state, event);
            match request {
                Some(request) => (
                    CrawlView::Handling { subscription, query, state: next, rest },
                    Some(RequestView::Item(request)),
                ),
                None => turning_to(subscription, query, rest),
            }
        },
        (CrawlView::Finished { reached }, _) => (CrawlView::Finished { reached }, None),
        _ => (CrawlView::Finished { reached: None }, None),
    }
}

/// Begins a tick.
pub fn start(previous: Option<Subscription>) -> (r: (Crawl, Option<Request>))
    ensures
        r.deep_view() == spec_start(previous),
{
    let question = first_query(previous);
    (Crawl::Advancing { question }, Some(Request::Ask(question)))
}

/// Takes the step that goes on to the first of the items that remain.
fn turn_to(subscription: Subscription, query: SearchQuery, items: Vec<Item>) -> (r: (
    Crawl,
    Option<Request>,
))
    ensures
        r.deep_view() == turning_to(subscription, query, items@),
{
    let mut rest = items;
    if rest.len() == 0 {
        (Crawl::Finished { reached: Some(subscription) }, None)
    } else {
        let first = rest.remove(0);
        let (state, request) = begin(subscription.chat_id, first);
        let request = match request {
            Some(request) => Some(Request::Item(request)),
            None => None,
        };
        (Crawl::Handling { subscription, query, state, rest }, request)
    }
}

/// Goes on with a tick after a response: decides what is asked for next.
pub fn advance(builder: &CommandBuilder, state: Crawl, response: Response) -> (r: (
    Crawl,
    Option<Request>,
))
    ensures
        r.deep_view() == spec_advance(builder, state.deep_view(), response),
{
    match state {
        Crawl::Advancing { question } => match response {
            Response::Row(row) => match resolve(question, row) {
                CursorStep::Ask(again) => (
                    Crawl::Advancing { question: again },
                    Some(Request::Ask(again)),
                ),
                CursorStep::Yield(None) => (Crawl::CheckingIn, Some(Request::CheckIn)),
                CursorStep::Yield(Some((subscription, query))) => {
                    let copy = query.clone();
                    (Crawl::Searching { subscription, query }, Some(Request::Search(copy)))
                },
            },
            _ => (Crawl::Finished { reached: None }, None),
        },
        Crawl::CheckingIn => match response {
            Response::CheckedIn => (Crawl::Finished { reached: None }, None),
            _ => (Crawl::Finished { reached: None }, None),
        },
        Crawl::Searching { subscription, query } => match response {
            Response::Items(items) => turn_to(subscription, query, items),
            _ => (Crawl::Finished { reached: None }, None),
        },
        Crawl::Handling { subscription, query, state, rest } => match response {
            Response::Item(event) => {
                let (next, request) = step(builder, &query, state, event);
                match request {
                    Some(request) => (
                        Crawl::Handling { subscription, query, state: next, rest },
                        Some(Request::Item(request)),
                    ),
                    None => turn_to(subscription, query, rest),
                }
            },
            _ => (Crawl::Finished { reached: None }, None),
        },
        Crawl::Finished { reached } => (Crawl::Finished { reached }, None),
    }
}

/// What a store that holds `rows` answers to a question of the cursor, with
/// the query of the subscription.
pub open spec fn row_of(
    rows: Seq<Subscription>,
    query_of: spec_fn(Subscription) -> SearchQuery,
    question: CursorQuery,
) -> Response {
    Response::Row(
        match answer(rows, question) {
            Some(subscription) => Some((subscription, query_of(subscription))),
            None => None,
        },
    )
}

/// The step of a tick once the store has answered the cursor, which takes
/// one question or two.
pub open spec fn after_cursor(
    builder: &CommandBuilder,
    rows: Seq<Subscription>,
    query_of: spec_fn(Subscription) -> SearchQuery,
    previous: Option<Subscription>,
) -> TickStepView {
    let first = spec_first_query(previous);
    let step = spec_advance(builder, spec_start(previous).0, row_of(rows, query_of, first));
    match step.1 {
        Some(RequestView::Ask(again)) => spec_advance(
            builder,
            step.0,
            row_of(rows, query_of, again),
        ),
        _ => step,
    }
}

/// A tick follows the cursor: against a store that holds `rows`, it searches
/// for the query of the subscription that the cursor reaches from the
/// previous one, and checks in where the cursor reaches none.
pub proof fn law_tick_follows_the_cursor(
    builder: &CommandBuilder,
    rows: Seq<Subscription>,
    query_of: spec_fn(Subscription) -> SearchQuery,
    previous: Option<Subscription>,
)
    ensures
        after_cursor(builder, rows, query_of, previous) == (match advanced(rows, previous) {
            Some(subscription) => (
                CrawlView::Searching { subscription, query: query_of(subscription) },
                Some(RequestView::Search(query_of(subscription))),
            ),
            None => (CrawlView::CheckingIn, Some(RequestView::CheckIn)),
        }),
{
}

/// What the bot acts on, as far as notifications go.
pub struct World {
    /// The notifications that the store remembers.
    pub notified: Set<Key>,
    /// The notifications that were sent, in the order of sending.
    pub delivered: Seq<Key>,
}

/// How often a notification was sent.
pub open spec fn times(delivered: Seq<Key>, key: Key) -> nat
    decreases delivered.len(),
{
    if delivered.len() == 0 {
        0
    } else {
        times(delivered.drop_last(), key) + if delivered.last() == key {
            1nat
        } else {
            0nat
        }
    }
}

/// How a store that does not fail and a chat platform answer a request
/// about an item, and what becomes of the world. `sends` tells whether a
/// notification that is sent now arrives.
pub open spec fn react(world: World, request: ItemRequestView, sends: bool) -> (World, ItemEvent) {
    match request {
        ItemRequestView::UpsertItem(_) => (world, ItemEvent::Stored),
        ItemRequestView::CheckNotification(key) => (
            world,
            ItemEvent::Known(world.notified.contains(key)),
        ),
        ItemRequestView::Send(key, _) => (
            if sends {
                World { delivered: world.delivered.push(key), ..world }
            } else {
                world
            },
            ItemEvent::Sent(sends),
        ),
        ItemRequestView::UpsertNotification(key) => (
            World { notified: world.notified.insert(key), ..world },
            ItemEvent::Recorded,
        ),
    }
}

/// The world after the bot went on from a step with an item until nothing
/// more was asked for, in at most `fuel` requests.
pub open spec fn carried_on(
    builder: &CommandBuilder,
    query: &SearchQuery,
    world: World,
    step: ItemStepView,
    sends: bool,
    fuel: nat,
) -> World
    decreases fuel,
{
    match step.1 {
        Some(request) => if fuel == 0 {
            world
        } else {
            let (next, event) = react(world, request, sends);
            carried_on(
                builder,
                query,
                next,
                spec_step(builder, query, step.0, event),
                sends,
                (fuel - 1) as nat,
            )
        },
        None => world,
    }
}

/// An item that was found for a chat, and what happens to it.
pub struct Found {
    /// The chat of the subscription.
    pub chat_id: i64,
    /// The query of the subscription.
    pub query: SearchQuery,
    pub item: Item,
    /// Whether a notification about the item arrives if one is sent.
    pub sends: bool,
}

/// The world after the bot handled one item for a chat.
pub open spec fn handled(builder: &CommandBuilder, world: World, found: Found) -> World {
    carried_on(
        builder,
        &found.query,
        world,
        spec_begin(found.chat_id, found.item),
        found.sends,
        4,
    )
}

/// The world after the bot handled items one after the other, tick after
/// tick.
pub open spec fn crawled(builder: &CommandBuilder, world: World, items: Seq<Found>) -> World
    decreases items.len(),
{
    if items.len() == 0 {
        world
    } else {
        handled(builder, crawled(builder, world, items.drop_last()), items.last())
    }
}

/// No notification was sent twice, and each that was sent is remembered.
pub open spec fn consistent(world: World) -> bool {
    forall|key: Key|
        #![trigger times(world.delivered, key)]
        times(world.delivered, key) <= 1 && (times(world.delivered, key) == 1
            ==> world.notified.contains(key))
}

/// Handling an item sends its notification only where the store does not
/// remember it, and then remembers it.
pub proof fn lemma_handled(builder: &CommandBuilder, world: World, found: Found)
    ensures
        handled(builder, world, found) == ({
            let key = (found.chat_id, found.item.id@);
            if !world.notified.contains(key) && found.sends {
                World { notified: world.notified.insert(key), delivered: world.delivered.push(key) }
            } else {
                world
            }
        }),
{
    reveal_with_fuel(carried_on, 5);
}

/// Handling an item keeps the world consistent.
pub proof fn lemma_handled_consistent(builder: &CommandBuilder, world: World, found: Found)
    requires
        consistent(world),
    ensures
        consistent(handled(builder, world, found)),
{
    lemma_handled(builder, world, found);
    let key = (found.chat_id, found.item.id@);
    let after = handled(builder, world, found);
    if !world.notified.contains(key) && found.sends {
        assert forall|other: Key|
            #![trigger times(after.delivered, other)]
            times(after.delivered, other) <= 1 && (times(after.delivered, other) == 1
                ==> after.notified.contains(other)) by {
            assert(after.delivered.drop_last() == world.delivered);
            assert(times(world.delivered, other) <= 1);
            assert(times(world.delivered, key) <= 1);
        }
    }
}

/// Dedup: whatever items the marketplaces return, tick after tick, and
/// whichever notifications arrive, no chat is notified twice of an item, as
/// long as the store does not fail and remembers what was sent before.
pub proof fn law_notified_once(
    builder: &CommandBuilder,
    world: World,
    items: Seq<Found>,
    key: Key,
)
    requires
        consistent(world),
    ensures
        consistent(crawled(builder, world, items)),
        times(crawled(builder, world, items).delivered, key) <= 1,
    decreases items.len(),
{
    if items.len() == 0 {
    } else {
        law_notified_once(builder, world, items.drop_last(), key);
        lemma_handled_consistent(
            builder,
            crawled(builder, world, items.drop_last()),
            items.last(),
        );
    }
}

} // verus!
