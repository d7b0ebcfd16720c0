use mrktpltsbot::marketplace::item::{Amount, Price};
use mrktpltsbot::marketplace::marktplaats::{Listing, PriceInfo, PriceType};
use mrktpltsbot::telegram::listing::{render_listing, SendListingRequest};
use mrktpltsbot::telegram::methods::{
    AllowedUpdate, GetMe, GetUpdates, Method, SendMessage, SendNotification, SetMyCommands,
    SetMyDescription, DEFAULT_TIMEOUT_SECS,
};
use mrktpltsbot::telegram::objects::{
    ChatId, InlineKeyboardButton, InlineKeyboardButtonAction, InlineKeyboardMarkup,
    LinkPreviewOptions, Media, Message, Messages, ParseMode, ReplyParameters,
};
use mrktpltsbot::telegram::response::{ApiError, Response};

fn pictures(n: usize) -> Vec<String> {
    (0..n).map(|i| format!("https://img.example/{i}.jpg")).collect()
}

#[test]
fn notification_without_pictures_is_a_message() {
    let reply = ReplyParameters::to_message(7);
    let request = SendNotification::new(
        &ChatId::Integer(42),
        "<b>caption</b>",
        ParseMode::Html,
        &pictures(0),
        Some(reply),
    );
    assert_eq!(
        request,
        SendNotification::Message(SendMessage {
            chat_id: ChatId::Integer(42),
            text: "<b>caption</b>".to_string(),
            parse_mode: Some(ParseMode::Html),
            link_preview_options: Some(LinkPreviewOptions {
                is_disabled: Some(true),
                url: None,
                show_above_text: None,
            }),
            reply_parameters: Some(ReplyParameters {
                message_id: 7,
                allow_sending_without_reply: Some(true),
            }),
        })
    );
    assert_eq!(request.name(), "sendMessage");
}

#[test]
fn notification_with_one_picture_is_a_photo() {
    let request =
        SendNotification::new(&ChatId::Integer(42), "caption", ParseMode::Html, &pictures(1), None);
    match &request {
        SendNotification::Photo(photo) => {
            assert_eq!(photo.chat_id, ChatId::Integer(42));
            assert_eq!(photo.photo, "https://img.example/0.jpg");
            assert_eq!(photo.caption.as_deref(), Some("caption"));
            assert_eq!(photo.parse_mode, Some(ParseMode::Html));
            assert_eq!(photo.show_caption_above_media, None);
            assert_eq!(photo.reply_parameters, None);
        }
        other => panic!("{other:?}"),
    }
    assert_eq!(request.name(), "sendPhoto");
}

#[test]
fn notification_with_three_pictures_is_an_album() {
    let request =
        SendNotification::new(&ChatId::Integer(42), "caption", ParseMode::Html, &pictures(3), None);
    match &request {
        SendNotification::MediaGroup(group) => {
            assert_eq!(group.chat_id, ChatId::Integer(42));
            assert_eq!(group.reply_parameters, None);
            assert_eq!(group.media.len(), 3);
            for (i, media) in group.media.iter().enumerate() {
                let Media::InputMediaPhoto(photo) = media;
                assert_eq!(photo.media, format!("https://img.example/{i}.jpg"));
                assert_eq!(photo.show_caption_above_media, None);
                if i == 0 {
                    assert_eq!(photo.caption.as_deref(), Some("caption"));
                    assert_eq!(photo.parse_mode, Some(ParseMode::Html));
                } else {
                    assert_eq!(photo.caption, None);
                    assert_eq!(photo.parse_mode, None);
                }
            }
        }
        other => panic!("{other:?}"),
    }
    assert_eq!(request.name(), "sendMediaGroup");
    assert_eq!(request.timeout_secs(), DEFAULT_TIMEOUT_SECS);
}

#[test]
fn notification_with_two_pictures_is_an_album_too() {
    let request =
        SendNotification::new(&ChatId::Integer(1), "c", ParseMode::Html, &pictures(2), None);
    assert!(matches!(request, SendNotification::MediaGroup(ref group) if group.media.len() == 2));
}

#[test]
fn quick_html_switches_the_preview_off() {
    let message = SendMessage::quick_html(&ChatId::Integer(5), "<b>hi</b>".to_string());
    assert_eq!(message.chat_id, ChatId::Integer(5));
    assert_eq!(message.text, "<b>hi</b>");
    assert_eq!(message.parse_mode, Some(ParseMode::Html));
    assert_eq!(message.link_preview_options, Some(LinkPreviewOptions::disabled()));
    assert_eq!(message.reply_parameters, None);
    let plain = SendMessage::plain(&ChatId::Username("@c".to_string()), "hi");
    assert_eq!(plain.chat_id, ChatId::Username("@c".to_string()));
    assert_eq!(plain.text, "hi");
    assert_eq!(plain.parse_mode, None);
    assert_eq!(plain.link_preview_options, None);
}

#[test]
fn methods_have_their_names_and_timeouts() {
    assert_eq!(GetMe.name(), "getMe");
    assert_eq!(GetMe.timeout_secs(), 10);
    assert_eq!(SetMyDescription { description: None }.name(), "setMyDescription");
    assert_eq!(SetMyCommands { commands: vec![] }.name(), "setMyCommands");
    assert_eq!(SendMessage::plain(&ChatId::Integer(1), "x").name(), "sendMessage");
    let poll = GetUpdates::messages_from(17, 60);
    assert_eq!(poll.name(), "getUpdates");
    assert_eq!(poll.offset, Some(17));
    assert_eq!(poll.limit, None);
    assert_eq!(poll.timeout_secs, Some(60));
    assert_eq!(poll.allowed_updates, Some(vec![AllowedUpdate::Message]));
    assert_eq!(Method::timeout_secs(&poll), 65);
    let short = GetUpdates { offset: None, limit: None, timeout_secs: None, allowed_updates: None };
    assert_eq!(Method::timeout_secs(&short), 5);
    let endless =
        GetUpdates { offset: None, limit: None, timeout_secs: Some(u64::MAX - 2), allowed_updates: None };
    assert_eq!(Method::timeout_secs(&endless), u64::MAX);
}

#[test]
fn first_of_messages() {
    let message = |id| Message { id, text: None, chat: None };
    assert_eq!(Messages::Single(message(3)).first(), Some(&message(3)));
    assert_eq!(Messages::Multiple(vec![message(4), message(5)]).first(), Some(&message(4)));
    assert_eq!(Messages::Multiple(vec![]).first(), None);
}

#[test]
fn chat_id_from_a_number() {
    assert_eq!(ChatId::from(-5), ChatId::Integer(-5));
    assert_eq!(ChatId::Username("x".to_string()).duplicate(), ChatId::Username("x".to_string()));
    assert_eq!(ChatId::Integer(-1001234).to_text(), "-1001234");
    assert_eq!(ChatId::Integer(0).to_text(), "0");
    assert_eq!(ChatId::Username("@channel".to_string()).to_text(), "@channel");
}

#[test]
fn keyboard_of_one_button() {
    let button = InlineKeyboardButton {
        text: "Go".to_string(),
        action: InlineKeyboardButtonAction::Url("https://e.com".to_string()),
    };
    let markup = InlineKeyboardMarkup::single(button.clone());
    assert_eq!(markup.inline_keyboard, vec![vec![button]]);
}

#[test]
fn response_becomes_a_result() {
    let ok: Response<u32> = Response::Success { result: 42 };
    assert_eq!(ok.into_result(), Ok(42));
    let failed: Response<u32> = Response::Failure {
        description: "Too Many Requests: retry after 2".to_string(),
        error_code: 429,
        retry_after_secs: Some(2),
    };
    let error = failed.into_result().unwrap_err();
    assert_eq!(
        error,
        ApiError {
            error_code: 429,
            description: "Too Many Requests: retry after 2".to_string(),
            retry_after_secs: Some(2),
        }
    );
    assert_eq!(error.to_text(), "API error 429: Too Many Requests: retry after 2");
    let negative = ApiError { error_code: -1, description: "x".to_string(), retry_after_secs: None };
    assert_eq!(negative.to_text(), "API error -1: x");
}

fn listing(n_pictures: usize) -> Listing {
    Listing {
        item_id: "m1".to_string(),
        url: "https://example.com/m1".to_string(),
        title: "Hue <GU10>".to_string(),
        description: "As new & boxed".to_string(),
        price: PriceInfo { cents: 1550, type_: PriceType::Fixed },
        brand: Some("Philips".to_string()),
        condition: None,
        delivery: None,
        seller: None,
        location: None,
        pictures: pictures(n_pictures),
    }
}

#[test]
fn listing_request_fits_the_pictures() {
    let html = [
        "<strong><a href=\"https://example.com/m1\">Hue &lt;GU10&gt;</a></strong>\n\n",
        "<strong>€15.50</strong>\n\n<blockquote>As new &amp; boxed</blockquote>"
    ].concat();
    assert_eq!(render_listing(&listing(2)), html);
    match SendListingRequest::with(ChatId::Integer(9), &listing(0)) {
        SendListingRequest::Message(message) => {
            assert_eq!(message.chat_id, ChatId::Integer(9));
            assert_eq!(message.text, html);
            assert_eq!(message.parse_mode, Some(ParseMode::Html));
            assert_eq!(message.link_preview_options, Some(LinkPreviewOptions::disabled()));
        }
        other => panic!("{other:?}"),
    }
    match SendListingRequest::with(ChatId::Integer(9), &listing(1)) {
        SendListingRequest::Photo(photo) => {
            assert_eq!(photo.photo, "https://img.example/0.jpg");
            assert_eq!(photo.caption.as_deref(), Some(html.as_str()));
            assert_eq!(photo.parse_mode, Some(ParseMode::Html));
        }
        other => panic!("{other:?}"),
    }
    match SendListingRequest::with(ChatId::Integer(9), &listing(4)) {
        SendListingRequest::MediaGroup(group) => {
            assert_eq!(group.media.len(), 4);
            let Media::InputMediaPhoto(first) = &group.media[0];
            assert_eq!(first.caption.as_deref(), Some(html.as_str()));
            let Media::InputMediaPhoto(last) = &group.media[3];
            assert_eq!(last.caption, None);
            assert_eq!(last.media, "https://img.example/3.jpg");
        }
        other => panic!("{other:?}"),
    }
    assert_eq!(
        SendListingRequest::from(SendMessage::plain(&ChatId::Integer(1), "x")),
        SendListingRequest::Message(SendMessage::plain(&ChatId::Integer(1), "x"))
    );
}

#[test]
fn price_of_a_listing_in_the_shared_form() {
    let price = |cents, type_| PriceInfo { cents, type_ }.price();
    assert_eq!(price(100, PriceType::Fixed), Price::Fixed(Amount { cents: 100 }));
    assert_eq!(price(100, PriceType::Free), Price::Fixed(Amount { cents: 0 }));
    assert_eq!(price(100, PriceType::MinBid), Price::MinimalBid(Amount { cents: 100 }));
    assert_eq!(price(100, PriceType::FastBid), Price::FastBid);
    assert_eq!(price(100, PriceType::Exchange), Price::Exchange);
    assert_eq!(price(100, PriceType::OnRequest), Price::OnRequest);
    assert_eq!(price(100, PriceType::Reserved), Price::Reserved);
    assert_eq!(price(100, PriceType::SeeDescription), Price::SeeDescription);
    assert_eq!(price(100, PriceType::ToBeAgreed), Price::ToBeAgreed);
}
