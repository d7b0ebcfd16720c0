use mrktpltsbot::db::SearchQuery;
use mrktpltsbot::telegram::commands::{
    CommandBuilder, CommandPayload, PayloadError, SubscriptionAction, SubscriptionCommand,
    ACTION_SUBSCRIBE, ACTION_UNSUBSCRIBE, START_LIMIT,
};
use mrktpltsbot::telegram::start::{StartCommand, StartPayload};

fn payloads() -> Vec<CommandPayload> {
    let mut all = Vec::new();
    for manage in [false, true] {
        all.push(CommandPayload { manage, subscription: None });
        for query_hash in [0i64, 1, -1, 42, i64::MIN, i64::MAX, 0x0102030405060708] {
            for action in [ACTION_SUBSCRIBE, ACTION_UNSUBSCRIBE, 0, 3, -7, i32::MIN, i32::MAX] {
                all.push(CommandPayload {
                    manage,
                    subscription: Some(SubscriptionCommand { query_hash, action }),
                });
            }
        }
    }
    all
}

#[test]
fn encode_writes_tagged_fields() {
    assert_eq!(CommandPayload { manage: false, subscription: None }.encode(), Vec::<u8>::new());
    assert_eq!(CommandPayload::manage().encode(), vec![1, 0]);
    assert_eq!(
        CommandPayload::with_subscription(SubscriptionCommand::subscribe(0x0102030405060708))
            .encode(),
        vec![2, 12, 8, 7, 6, 5, 4, 3, 2, 1, 1, 0, 0, 0]
    );
    assert_eq!(
        CommandPayload {
            manage: true,
            subscription: Some(SubscriptionCommand::unsubscribe(-2)),
        }
        .encode(),
        vec![1, 0, 2, 12, 0xFE, 0xFF, 0xFF, 0xFF, 0xFF, 0xFF, 0xFF, 0xFF, 2, 0, 0, 0]
    );
}

#[test]
fn payload_round_trips_through_bytes() {
    for payload in payloads() {
        assert_eq!(CommandPayload::decode(&payload.encode()), Ok(payload));
    }
}

#[test]
fn payload_round_trips_through_base64() {
    for payload in payloads() {
        let text = payload.to_base64();
        assert!(text.len() <= START_LIMIT);
        assert!(text
            .chars()
            .all(|c| c.is_ascii_alphanumeric() || c == '-' || c == '_'));
        assert_eq!(CommandPayload::from_base64(&text), Ok(payload));
    }
}

#[test]
fn base64_is_url_safe_without_padding() {
    assert_eq!(CommandPayload::manage().to_base64(), "AQA");
    assert_eq!(CommandPayload { manage: false, subscription: None }.to_base64(), "");
    assert_eq!(
        CommandPayload::with_subscription(SubscriptionCommand::subscribe(-1)).to_base64(),
        "Agz__________wEAAAA"
    );
    assert_eq!(CommandPayload::from_base64("AQA"), Ok(CommandPayload::manage()));
}

#[test]
fn decode_rejects_what_is_no_payload() {
    assert_eq!(CommandPayload::from_base64("AQA="), Err(PayloadError::Base64));
    assert_eq!(CommandPayload::from_base64("not base64!"), Err(PayloadError::Base64));
    assert_eq!(CommandPayload::from_base64("A"), Err(PayloadError::Base64));
    assert_eq!(CommandPayload::decode(&vec![1]), Err(PayloadError::Truncated));
    assert_eq!(CommandPayload::decode(&vec![2, 12, 0, 0]), Err(PayloadError::Truncated));
    assert_eq!(CommandPayload::decode(&vec![9, 3, 0, 0]), Err(PayloadError::Truncated));
    assert_eq!(CommandPayload::decode(&vec![2, 1, 0]), Err(PayloadError::Subscription));
    assert_eq!(
        CommandPayload::decode(&vec![2, 13, 0, 0, 0, 0, 0, 0, 0, 0, 0, 0, 0, 0, 0]),
        Err(PayloadError::Subscription)
    );
}

#[test]
fn decode_passes_over_unknown_fields() {
    let bytes = vec![7, 2, 0xAA, 0xBB, 1, 0, 200, 0, 2, 12, 5, 0, 0, 0, 0, 0, 0, 0, 2, 0, 0, 0];
    assert_eq!(
        CommandPayload::decode(&bytes),
        Ok(CommandPayload {
            manage: true,
            subscription: Some(SubscriptionCommand::unsubscribe(5)),
        })
    );
    // Of a field that occurs twice the last one counts.
    let twice = [
        CommandPayload::with_subscription(SubscriptionCommand::subscribe(1)).encode(),
        CommandPayload::with_subscription(SubscriptionCommand::unsubscribe(2)).encode(),
    ]
    .concat();
    assert_eq!(
        CommandPayload::decode(&twice),
        Ok(CommandPayload::with_subscription(SubscriptionCommand::unsubscribe(2)))
    );
}

#[test]
fn unknown_action_is_kept_and_stands_for_nothing() {
    let command = SubscriptionCommand { query_hash: 9, action: 77 };
    let payload = CommandPayload::with_subscription(command);
    let decoded = CommandPayload::from_base64(&payload.to_base64()).unwrap();
    assert_eq!(decoded.subscription, Some(command));
    assert_eq!(command.action(), None);
    assert_eq!(StartPayload::from_command(&decoded), None);
    assert_eq!(SubscriptionCommand::subscribe(9).action(), Some(SubscriptionAction::Subscribe));
    assert_eq!(
        SubscriptionCommand::unsubscribe(9).action(),
        Some(SubscriptionAction::Unsubscribe)
    );
}

#[test]
fn builder_takes_user_names_only() {
    assert!(CommandBuilder::new("mrktpltsbot").is_some());
    assert!(CommandBuilder::new("My_Bot_2").is_some());
    assert!(CommandBuilder::new("").is_none());
    assert!(CommandBuilder::new("my bot").is_none());
    assert!(CommandBuilder::new("bot?start=x").is_none());
    assert!(CommandBuilder::new("bøt").is_none());
    assert_eq!(CommandBuilder::new("mrktpltsbot").unwrap().url(), "https://t.me/mrktpltsbot");
}

#[test]
fn links_carry_the_payload() {
    let builder = CommandBuilder::new("mrktpltsbot").unwrap();
    let link = builder.subscribe_link(-1);
    assert_eq!(link.content, "Subscribe");
    assert_eq!(link.url, "https://t.me/mrktpltsbot?start=Agz__________wEAAAA");

    let cases = [
        (builder.subscribe_link(42), "Subscribe", StartPayload::Subscribe { query_hash: 42 }),
        (builder.unsubscribe_link(42), "Unsubscribe", StartPayload::Unsubscribe { query_hash: 42 }),
        (builder.resubscribe_link(42), "Re-subscribe", StartPayload::Subscribe { query_hash: 42 }),
    ];
    for (link, content, expected) in cases {
        assert_eq!(link.content, content);
        let payload = link.url.strip_prefix("https://t.me/mrktpltsbot?start=").unwrap();
        let decoded = CommandPayload::from_base64(payload).unwrap();
        assert!(!decoded.manage);
        assert_eq!(StartPayload::from_command(&decoded), Some(expected));
    }

    let manage = builder.manage_link();
    assert_eq!(manage.content, "Manage");
    assert_eq!(manage.url, "https://t.me/mrktpltsbot?start=AQA");
}

#[test]
fn start_payload_of_a_search_query() {
    let query = SearchQuery::from_text("unifi");
    assert_eq!(query.subscribe(), StartPayload::Subscribe { query_hash: query.hash });
    assert_eq!(query.unsubscribe(), StartPayload::Unsubscribe { query_hash: query.hash });
    let command = query.subscribe().to_command();
    assert_eq!(command, CommandPayload::with_subscription(SubscriptionCommand::subscribe(query.hash)));
    assert_eq!(StartPayload::from_command(&command), Some(query.subscribe()));
    assert_eq!(
        StartPayload::from_command(&query.unsubscribe().to_command()),
        Some(query.unsubscribe())
    );
    assert_eq!(StartPayload::from_command(&CommandPayload::manage()), None);
}

#[test]
fn start_command_links_to_the_bot() {
    let command = StartCommand {
        me: "mrktpltsbot".to_string(),
        text: "Subscribe".to_string(),
        payload: StartPayload::Subscribe { query_hash: -1 },
    };
    let link = command.link();
    assert_eq!(link.content, "Subscribe");
    assert_eq!(link.url, "https://t.me/mrktpltsbot?start=Agz__________wEAAAA");
}
