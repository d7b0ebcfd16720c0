use std::collections::BTreeSet;

use mrktpltsbot::db::{
    first_query, resolve, CursorQuery, CursorStep, Notification, SearchQuery, Subscription,
};
use mrktpltsbot::marketplace::item::{Item, Price};
use mrktpltsbot::marketplace::marktplaats::{matching_items, Listing, PriceInfo, PriceType};
use mrktpltsbot::marketplace::search::NormalisedQuery;
use mrktpltsbot::marketplace::search_bot::{
    advance, after_tick, begin, notification, start, step, Crawl, ItemEvent, ItemRequest,
    ItemState,
};
use mrktpltsbot::marketplace::search_bot;
use mrktpltsbot::marketplace::{merge, retain_matching, search_infallible};
use mrktpltsbot::telegram::bot;
use mrktpltsbot::telegram::bot::{Incoming, StoreAction};
use mrktpltsbot::telegram::commands::CommandBuilder;
use mrktpltsbot::telegram::methods::SendNotification;
use mrktpltsbot::telegram::objects::ChatId;
use mrktpltsbot::telegram::retry::{
    backoff_millis, classify, decide, Decision, Outcome, RetryPolicy, RetryState,
};

/// A store of subscriptions that answers as the database does.
struct Rows(BTreeSet<(i64, i64)>);

impl Rows {
    fn answer(&self, query: CursorQuery) -> Option<Subscription> {
        let row = match query {
            CursorQuery::First => self.0.iter().next(),
            CursorQuery::After(key) => {
                self.0.iter().find(|row| **row > (key.chat_id, key.query_hash))
            }
        };
        row.map(|(chat_id, query_hash)| Subscription { chat_id: *chat_id, query_hash: *query_hash })
    }

    fn advance(&self, previous: Option<Subscription>) -> Option<Subscription> {
        let mut query = first_query(previous);
        loop {
            match resolve(query, self.answer(query)) {
                CursorStep::Ask(again) => query = again,
                CursorStep::Yield(entry) => return entry,
            }
        }
    }
}

fn subscription(chat_id: i64, query_hash: i64) -> Subscription {
    Subscription { chat_id, query_hash }
}

#[test]
fn cursor_asks_for_the_successor_and_starts_over() {
    let p = subscription(1, 2);
    assert_eq!(first_query(None), CursorQuery::First);
    assert_eq!(first_query(Some(p)), CursorQuery::After(p));
    assert_eq!(resolve(CursorQuery::After(p), None::<u8>), CursorStep::Ask(CursorQuery::First));
    assert_eq!(resolve(CursorQuery::After(p), Some(7u8)), CursorStep::Yield(Some(7)));
    assert_eq!(resolve(CursorQuery::First, Some(7u8)), CursorStep::Yield(Some(7)));
    assert_eq!(resolve(CursorQuery::First, None::<u8>), CursorStep::Yield(None));
}

#[test]
fn cursor_visits_every_row_and_cycles() {
    let rows = Rows(BTreeSet::from([(42, 7), (-5, 9), (42, -3), (7, 0), (-5, -9)]));
    let sorted: Vec<Subscription> =
        rows.0.iter().map(|(chat_id, query_hash)| subscription(*chat_id, *query_hash)).collect();
    let n = sorted.len();
    let mut previous = None;
    for k in 1..=3 * n {
        previous = rows.advance(previous);
        assert_eq!(previous, Some(sorted[(k - 1) % n]));
    }
}

#[test]
fn cursor_over_two_subscriptions_of_one_chat() {
    let first = SearchQuery::from_text("tado");
    let last = SearchQuery::from_text("unifi");
    let (low, high) = if first.hash < last.hash { (first.hash, last.hash) } else { (last.hash, first.hash) };
    let rows = Rows(BTreeSet::from([(42, first.hash), (42, last.hash)]));
    assert_eq!(rows.answer(CursorQuery::First), Some(subscription(42, low)));
    assert_eq!(rows.answer(CursorQuery::After(subscription(42, high))), None);
    let mut previous = None;
    let mut seen = Vec::new();
    for _ in 0..4 {
        previous = rows.advance(previous);
        seen.push(previous.unwrap().query_hash);
    }
    assert_eq!(seen, vec![low, high, low, high]);
}

#[test]
fn cursor_over_no_subscription_yields_none() {
    let rows = Rows(BTreeSet::new());
    assert_eq!(rows.advance(None), None);
    assert_eq!(rows.advance(None), None);
    assert_eq!(rows.advance(Some(subscription(1, 1))), None);
}

#[test]
fn cursor_goes_on_after_a_row_that_is_gone() {
    let rows = Rows(BTreeSet::from([(1, 1), (3, 3)]));
    assert_eq!(rows.advance(Some(subscription(2, 2))), Some(subscription(3, 3)));
    assert_eq!(rows.advance(Some(subscription(9, 9))), Some(subscription(1, 1)));
}

#[test]
fn cursor_stays_where_a_tick_failed() {
    let a = subscription(1, 1);
    let b = subscription(2, 2);
    assert_eq!(after_tick(Some(a), Some(b), true), Some(b));
    assert_eq!(after_tick(Some(a), Some(b), false), Some(a));
    assert_eq!(after_tick(None, Some(b), false), None);
    assert_eq!(after_tick(Some(a), None, true), None);
}

fn builder() -> CommandBuilder {
    CommandBuilder::new("mrktpltsbot").unwrap()
}

fn key(chat_id: i64, item_id: &str) -> Notification {
    Notification { item_id: item_id.to_string(), chat_id }
}

#[test]
fn item_is_stored_checked_sent_and_recorded() {
    let query = SearchQuery::from_text("item");
    let x = item("X");
    let (state, request) = begin(42, x.clone());
    assert_eq!(state, ItemState::Storing { chat_id: 42, item: x.clone() });
    assert_eq!(request, Some(ItemRequest::UpsertItem("X".to_string())));

    let (state, request) = step(&builder(), &query, state, ItemEvent::Stored);
    assert_eq!(state, ItemState::Checking { chat_id: 42, item: x.clone() });
    assert_eq!(request, Some(ItemRequest::CheckNotification(key(42, "X"))));

    let known = step(&builder(), &query, state.clone(), ItemEvent::Known(true));
    assert_eq!(known, (ItemState::Finished, None));

    let (state, request) = step(&builder(), &query, state, ItemEvent::Known(false));
    assert_eq!(state, ItemState::Sending { key: key(42, "X") });
    let expected = notification(
        &builder(),
        Subscription { chat_id: 42, query_hash: query.hash },
        &query,
        &x,
    );
    assert_eq!(request, Some(ItemRequest::Send(key(42, "X"), expected)));

    let failed = step(&builder(), &query, state.clone(), ItemEvent::Sent(false));
    assert_eq!(failed, (ItemState::Finished, None));

    let (state, request) = step(&builder(), &query, state, ItemEvent::Sent(true));
    assert_eq!(state, ItemState::Recording { key: key(42, "X") });
    assert_eq!(request, Some(ItemRequest::UpsertNotification(key(42, "X"))));

    assert_eq!(
        step(&builder(), &query, state, ItemEvent::Recorded),
        (ItemState::Finished, None)
    );
}

#[test]
fn event_that_does_not_answer_ends_the_item() {
    let query = SearchQuery::from_text("item");
    let (storing, _) = begin(42, item("X"));
    for event in [ItemEvent::Known(false), ItemEvent::Sent(true), ItemEvent::Recorded] {
        assert_eq!(
            step(&builder(), &query, storing.clone(), event),
            (ItemState::Finished, None)
        );
    }
    let sending = ItemState::Sending { key: key(42, "X") };
    assert_eq!(
        step(&builder(), &query, sending, ItemEvent::Known(false)),
        (ItemState::Finished, None)
    );
    assert_eq!(
        step(&builder(), &query, ItemState::Finished, ItemEvent::Stored),
        (ItemState::Finished, None)
    );
}

/// The store and the chat platform, as far as notifications go.
#[derive(Default)]
struct World {
    items: BTreeSet<String>,
    notified: BTreeSet<(i64, String)>,
    delivered: Vec<(i64, String)>,
}

impl World {
    /// Handles one item as the crawl does. `sends` tells whether a
    /// notification that is sent arrives.
    fn handle(&mut self, chat_id: i64, item_id: &str, sends: bool) {
        let query = SearchQuery::from_text("item");
        let (mut state, mut request) = begin(chat_id, item(item_id));
        while let Some(asked) = request {
            let event = match asked {
                ItemRequest::UpsertItem(id) => {
                    self.items.insert(id);
                    ItemEvent::Stored
                }
                ItemRequest::CheckNotification(key) => {
                    ItemEvent::Known(self.notified.contains(&(key.chat_id, key.item_id)))
                }
                ItemRequest::Send(key, request) => {
                    let SendNotification::Photo(photo) = request else { panic!() };
                    assert_eq!(photo.chat_id, ChatId::Integer(key.chat_id));
                    assert!(photo.caption.unwrap().contains(&format!("Item {}", key.item_id)));
                    if sends {
                        self.delivered.push((key.chat_id, key.item_id));
                    }
                    ItemEvent::Sent(sends)
                }
                ItemRequest::UpsertNotification(key) => {
                    self.notified.insert((key.chat_id, key.item_id));
                    ItemEvent::Recorded
                }
            };
            (state, request) = step(&builder(), &query, state, event);
        }
        assert_eq!(state, ItemState::Finished);
    }
}

/// Runs one tick against a store of subscriptions, marketplaces that find
/// the given items, and the world. Returns the requests in their order and
/// the subscription that was reached.
fn run_tick(
    rows: &Rows,
    queries: &[SearchQuery],
    found: &[Item],
    world: &mut World,
    sends: bool,
    previous: Option<Subscription>,
) -> (Vec<search_bot::Request>, Option<Subscription>) {
    let mut requests = Vec::new();
    let (mut state, mut request) = start(previous);
    while let Some(asked) = request {
        requests.push(asked.clone());
        let response = match asked {
            search_bot::Request::Ask(question) => search_bot::Response::Row(
                rows.answer(question).map(|row| {
                    let query = queries.iter().find(|query| query.hash == row.query_hash).unwrap();
                    (row, query.clone())
                }),
            ),
            search_bot::Request::CheckIn => search_bot::Response::CheckedIn,
            search_bot::Request::Search(_) => search_bot::Response::Items(found.to_vec()),
            search_bot::Request::Item(asked) => search_bot::Response::Item(match asked {
                ItemRequest::UpsertItem(id) => {
                    world.items.insert(id);
                    ItemEvent::Stored
                }
                ItemRequest::CheckNotification(key) => {
                    ItemEvent::Known(world.notified.contains(&(key.chat_id, key.item_id)))
                }
                ItemRequest::Send(key, _) => {
                    if sends {
                        world.delivered.push((key.chat_id, key.item_id));
                    }
                    ItemEvent::Sent(sends)
                }
                ItemRequest::UpsertNotification(key) => {
                    world.notified.insert((key.chat_id, key.item_id));
                    ItemEvent::Recorded
                }
            }),
        };
        (state, request) = advance(&builder(), state, response);
    }
    let Crawl::Finished { reached } = state else { panic!("{state:?}") };
    (requests, reached)
}

#[test]
fn tick_without_subscriptions_checks_in() {
    let mut world = World::default();
    let (requests, reached) =
        run_tick(&Rows(BTreeSet::new()), &[], &[item("X")], &mut world, true, None);
    assert_eq!(
        requests,
        vec![search_bot::Request::Ask(CursorQuery::First), search_bot::Request::CheckIn]
    );
    assert_eq!(reached, None);
    let gone = subscription(1, 1);
    let (requests, reached) =
        run_tick(&Rows(BTreeSet::new()), &[], &[], &mut world, true, Some(gone));
    assert_eq!(
        requests,
        vec![
            search_bot::Request::Ask(CursorQuery::After(gone)),
            search_bot::Request::Ask(CursorQuery::First),
            search_bot::Request::CheckIn,
        ]
    );
    assert_eq!(reached, None);
    assert!(world.items.is_empty() && world.delivered.is_empty());
}

#[test]
fn tick_handles_the_items_in_their_order() {
    let query = SearchQuery::from_text("item");
    let row = subscription(42, query.hash);
    let rows = Rows(BTreeSet::from([(42, query.hash)]));
    let mut world = World::default();
    world.notified.insert((42, "B".to_string()));
    let found = [item("A"), item("B"), item("C")];
    let (requests, reached) =
        run_tick(&rows, &[query.clone()], &found, &mut world, true, None);
    assert_eq!(reached, Some(row));
    let key = |id: &str| Notification { item_id: id.to_string(), chat_id: 42 };
    let send = |id: &str| {
        search_bot::Request::Item(ItemRequest::Send(
            key(id),
            notification(&builder(), row, &query, &item(id)),
        ))
    };
    let ask = |request: ItemRequest| search_bot::Request::Item(request);
    assert_eq!(
        requests,
        vec![
            search_bot::Request::Ask(CursorQuery::First),
            search_bot::Request::Search(query.clone()),
            ask(ItemRequest::UpsertItem("A".to_string())),
            ask(ItemRequest::CheckNotification(key("A"))),
            send("A"),
            ask(ItemRequest::UpsertNotification(key("A"))),
            ask(ItemRequest::UpsertItem("B".to_string())),
            ask(ItemRequest::CheckNotification(key("B"))),
            ask(ItemRequest::UpsertItem("C".to_string())),
            ask(ItemRequest::CheckNotification(key("C"))),
            send("C"),
            ask(ItemRequest::UpsertNotification(key("C"))),
        ]
    );
    assert_eq!(world.delivered, vec![(42, "A".to_string()), (42, "C".to_string())]);

    // A search that finds nothing ends the tick at once.
    let (requests, reached) = run_tick(&rows, &[query.clone()], &[], &mut world, true, Some(row));
    assert_eq!(
        requests,
        vec![
            search_bot::Request::Ask(CursorQuery::After(row)),
            search_bot::Request::Ask(CursorQuery::First),
            search_bot::Request::Search(query.clone()),
        ]
    );
    assert_eq!(reached, Some(row));
}

#[test]
fn response_that_does_not_answer_ends_the_tick() {
    let (state, _) = start(None);
    assert_eq!(
        advance(&builder(), state, search_bot::Response::CheckedIn),
        (Crawl::Finished { reached: None }, None)
    );
    assert_eq!(
        advance(&builder(), Crawl::CheckingIn, search_bot::Response::Items(vec![])),
        (Crawl::Finished { reached: None }, None)
    );
    assert_eq!(
        advance(
            &builder(),
            Crawl::Finished { reached: Some(subscription(1, 1)) },
            search_bot::Response::CheckedIn
        ),
        (Crawl::Finished { reached: Some(subscription(1, 1)) }, None)
    );
}

#[test]
fn item_that_keeps_coming_is_notified_once() {
    let mut world = World::default();
    let outcomes = [false, false, true, true, false, true];
    for (tick, sends) in outcomes.into_iter().enumerate() {
        world.handle(42, "X", sends);
        world.handle(42, "Y", tick % 2 == 0);
        world.handle(43, "X", true);
    }
    let times = |chat_id: i64, item: &str| {
        world.delivered.iter().filter(|key| **key == (chat_id, item.to_string())).count()
    };
    assert_eq!(times(42, "X"), 1);
    assert_eq!(times(42, "Y"), 1);
    assert_eq!(times(43, "X"), 1);
    assert_eq!(world.delivered.len(), 3);
    assert!(world.items.contains("X") && world.items.contains("Y"));
}

#[test]
fn failed_notification_is_not_recorded() {
    let mut world = World::default();
    world.handle(42, "X", false);
    assert!(world.delivered.is_empty());
    assert!(world.notified.is_empty());
    assert!(world.items.contains("X"));
    world.handle(42, "X", true);
    assert_eq!(world.delivered, vec![(42, "X".to_string())]);
    assert!(world.notified.contains(&(42, "X".to_string())));
}

fn item(id: &str) -> Item {
    Item {
        id: id.to_string(),
        url: format!("https://example.com/{id}"),
        title: format!("Item {id}"),
        description: "Nice".to_string(),
        price: Price::Exchange,
        condition: None,
        delivery: None,
        seller: None,
        location: None,
        pictures: vec![format!("https://img.example/{id}.jpg")],
    }
}

#[test]
fn subscribe_by_deep_link_then_deliver_once() {
    let builder = builder();
    let authorized = std::collections::HashSet::from([111i64]);
    let query = SearchQuery::from_text("Tado");

    // The chat follows the link that subscribes.
    let link = builder.subscribe_link(query.hash);
    let payload = link.url.strip_prefix("https://t.me/mrktpltsbot?start=").unwrap();
    let message =
        Incoming { chat_id: 111, message_id: 1, text: format!("/start {payload}") };
    let mut rows = Rows(BTreeSet::new());
    let mut sent = Vec::new();
    let (mut state, mut request) = bot::start(&authorized, &message).unwrap();
    while let Some(asked) = request {
        let response = match asked {
            bot::Request::FetchSearchText(hash) => {
                assert_eq!(hash, query.hash);
                bot::Response::SearchText(query.text.clone())
            }
            bot::Request::Apply(StoreAction::Upsert(row)) => {
                rows.0.insert((row.chat_id, row.query_hash));
                bot::Response::Done
            }
            bot::Request::Send(SendNotification::Message(reply)) => {
                sent.push(reply.text);
                bot::Response::Done
            }
            other => panic!("{other:?}"),
        };
        (state, request) = bot::advance(&builder, state, response);
    }
    assert_eq!(sent.len(), 1);
    assert!(sent[0].starts_with("You are now subscribed"));
    assert_eq!(rows.0, BTreeSet::from([(111, query.hash)]));

    // Two ticks find the same item.
    let mut world = World::default();
    let mut previous = None;
    for _ in 0..2 {
        let (requests, reached) =
            run_tick(&rows, &[query.clone()], &[item("X")], &mut world, true, previous);
        assert_eq!(reached, Some(subscription(111, query.hash)));
        assert!(requests.contains(&search_bot::Request::Search(query.clone())));
        previous = after_tick(previous, reached, true);
    }
    assert_eq!(world.delivered, vec![(111, "X".to_string())]);
    assert_eq!(world.notified, BTreeSet::from([(111, "X".to_string())]));
}

#[test]
fn notification_of_a_subscription() {
    let builder = CommandBuilder::new("mrktpltsbot").unwrap();
    let query = SearchQuery::from_text("item");
    let mut plain = item("a");
    plain.pictures.clear();
    let request = notification(&builder, subscription(-7, query.hash), &query, &plain);
    let SendNotification::Message(message) = request else { panic!() };
    assert_eq!(message.chat_id, ChatId::Integer(-7));
    assert_eq!(message.reply_parameters, None);
    assert_eq!(
        message.text,
        format!(
            "<strong><a href=\"https://example.com/a\">Item a</a></strong>\n<em>item</em><strong> • </strong><a href=\"{}\">Unsubscribe</a>\n\n💱 exchange\n\n<blockquote>Nice</blockquote>",
            builder.unsubscribe_link(query.hash).url
        )
    );
}

#[test]
fn failed_search_finds_nothing() {
    let items = vec![item("a"), item("b"), item("c")];
    let ok = |items: Vec<Item>| -> Result<Vec<Item>, String> { Ok(items) };
    assert_eq!(search_infallible(ok(items.clone()), None), items);
    assert_eq!(search_infallible(ok(items.clone()), Some(5)), items);
    assert_eq!(search_infallible(ok(items.clone()), Some(3)), items);
    assert_eq!(search_infallible(ok(items.clone()), Some(1)), vec![item("a")]);
    assert_eq!(search_infallible(ok(items.clone()), Some(0)), vec![]);
    assert_eq!(search_infallible(Err::<Vec<Item>, _>("HTTP 500"), Some(1)), vec![]);
    assert_eq!(search_infallible(Err::<Vec<Item>, _>("HTTP 500"), None), vec![]);
}

#[test]
fn marketplaces_are_merged_in_order() {
    assert_eq!(
        merge(vec![vec![item("a"), item("b")], vec![], vec![item("c")]]),
        vec![item("a"), item("b"), item("c")]
    );
    assert_eq!(merge(vec![]), vec![]);
}

fn listing(id: &str, title: &str, brand: Option<&str>) -> Listing {
    Listing {
        item_id: id.to_string(),
        url: format!("https://example.com/{id}"),
        title: title.to_string(),
        description: "…".to_string(),
        price: PriceInfo { cents: 100, type_: PriceType::Fixed },
        brand: brand.map(String::from),
        condition: None,
        delivery: None,
        seller: None,
        location: None,
        pictures: vec!["https://img.example/1.jpg".to_string()],
    }
}

#[test]
fn listings_are_matched_once_more() {
    let query = NormalisedQuery::parse("foldable smartphone -samsung");
    let listings = vec![
        listing("1", "Xiaomi Foldable Smartphone", None),
        listing("2", "Foldable Smartphone", Some("Samsung")),
        listing("3", "Samsung Foldable Smartphone", None),
        listing("4", "smartphone", Some("Foldable")),
        listing("5", "Foldable phone", None),
        listing("6", "SMARTPHONE   FÖLDABLE", Some("Huawei")),
    ];
    assert!(listings[0].matches(&query));
    assert!(!listings[1].matches(&query));
    let items = matching_items(&query, &listings);
    let ids: Vec<&str> = items.iter().map(|item| item.id.as_str()).collect();
    assert_eq!(ids, vec!["1", "4", "6"]);
    assert_eq!(items[0], listings[0].to_item());
    assert_eq!(items[0].title, "Xiaomi Foldable Smartphone");
    assert_eq!(items[0].url, "https://example.com/1");
    assert_eq!(items[0].pictures, vec!["https://img.example/1.jpg"]);
    assert!(matching_items(&query, &vec![]).is_empty());
}

const POLICY: RetryPolicy =
    RetryPolicy { max_retries: 3, base_delay_millis: 500, max_delay_millis: 3000 };

#[test]
fn outcome_of_a_status() {
    assert_eq!(classify(200, None, true), Outcome::Success);
    assert_eq!(classify(200, None, false), Outcome::Transient);
    assert_eq!(classify(429, Some(2), true), Outcome::Throttled { retry_after_secs: 2 });
    assert_eq!(classify(429, None, true), Outcome::Transient);
    assert_eq!(classify(400, None, true), Outcome::Rejected);
    assert_eq!(classify(403, Some(5), true), Outcome::Rejected);
    assert_eq!(classify(499, None, false), Outcome::Rejected);
    assert_eq!(classify(500, None, true), Outcome::Transient);
    assert_eq!(classify(502, None, false), Outcome::Transient);
    assert_eq!(classify(302, None, true), Outcome::Transient);
}

#[test]
fn throttled_call_waits_and_keeps_its_retries() {
    let fresh = RetryState::new();
    let (state, decision) = decide(POLICY, fresh, Outcome::Throttled { retry_after_secs: 2 }, 123);
    assert_eq!(decision, Decision::Wait { millis: 2000 });
    assert_eq!(state, fresh);
    assert_eq!(decide(POLICY, state, Outcome::Success, 0), (fresh, Decision::Return));

    let used_up = RetryState { retries: 3 };
    assert_eq!(
        decide(POLICY, used_up, Outcome::Throttled { retry_after_secs: 1 }, 0),
        (used_up, Decision::Wait { millis: 1000 })
    );
    assert_eq!(
        decide(POLICY, fresh, Outcome::Throttled { retry_after_secs: u64::MAX }, 0).1,
        Decision::Wait { millis: u64::MAX }
    );
}

#[test]
fn transient_failure_backs_off_and_gives_up() {
    assert_eq!(backoff_millis(POLICY, 0), 500);
    assert_eq!(backoff_millis(POLICY, 1), 1000);
    assert_eq!(backoff_millis(POLICY, 2), 2000);
    assert_eq!(backoff_millis(POLICY, 3), 3000);
    assert_eq!(backoff_millis(POLICY, 40), 3000);

    let mut state = RetryState::new();
    let mut waits = Vec::new();
    loop {
        let (next, decision) = decide(POLICY, state, Outcome::Transient, 250);
        match decision {
            Decision::Wait { millis } => waits.push(millis),
            Decision::Surface => break,
            Decision::Return => panic!(),
        }
        state = next;
    }
    assert_eq!(waits, vec![750, 1250, 2250]);
    assert_eq!(state.retries, 3);

    // The jitter adds at most the delay itself.
    let (_, decision) = decide(POLICY, RetryState::new(), Outcome::Transient, 10_000);
    assert_eq!(decision, Decision::Wait { millis: 500 + 10_000 % 501 });
    let tight = RetryPolicy { max_retries: 1, base_delay_millis: 9, max_delay_millis: 4 };
    assert_eq!(backoff_millis(tight, 0), 4);
    let huge = RetryPolicy { max_retries: 1, base_delay_millis: u64::MAX, max_delay_millis: u64::MAX };
    assert_eq!(decide(huge, RetryState::new(), Outcome::Transient, 7).1, Decision::Wait { millis: u64::MAX });
}

#[test]
fn rejected_call_is_not_made_again() {
    let fresh = RetryState::new();
    assert_eq!(decide(POLICY, fresh, Outcome::Rejected, 5), (fresh, Decision::Surface));
}

#[test]
fn items_are_matched_by_their_titles() {
    let query = NormalisedQuery::parse("item -b");
    let mut wordy = item("d");
    wordy.title = "An  ITEM, really".to_string();
    let kept = retain_matching(&query, vec![item("a"), item("b"), item("c"), wordy]);
    let ids: Vec<&str> = kept.iter().map(|item| item.id.as_str()).collect();
    assert_eq!(ids, vec!["a", "c"]);
    assert_eq!(kept[0], item("a"));
    assert!(retain_matching(&query, vec![]).is_empty());
    let everything = NormalisedQuery::parse("");
    assert_eq!(retain_matching(&everything, vec![item("b")]), vec![item("b")]);
}
