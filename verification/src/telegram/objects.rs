//! Objects of the chat platform's bot API.

use crate::text::{push_signed_decimal, signed_decimal};
use vstd::prelude::*;

verus! {

/// A user or bot of the chat platform.
#[derive(Debug, Clone, PartialEq, Eq)]
pub struct User {
    pub id: i64,
    pub username: Option<String>,
}

/// An incoming update.
#[derive(Debug, Clone, PartialEq, Eq)]
pub struct Update {
    /// The update's unique identifier. Identifiers increase with time.
    pub id: u64,
    pub payload: UpdatePayload,
}

/// What an update carries.
#[derive(Debug, Clone, PartialEq, Eq)]
pub enum UpdatePayload {
    Message(Message),
    Other,
}

/// Identifier of a chat: a number, or the user name of a channel.
#[derive(Debug, Clone, PartialEq, Eq, Hash)]
pub enum ChatId {
    Integer(i64),
    Username(String),
}

/// Mathematical model of a chat identifier.
pub enum ChatIdView {
    Integer(i64),
    Username(Seq<char>),
}

impl DeepView for ChatId {
    type V = ChatIdView;

    open spec fn deep_view(&self) -> ChatIdView {
        match self {
            ChatId::Integer(id) => ChatIdView::Integer(*id),
            ChatId::Username(name) => ChatIdView::Username(name@),
        }
    }
}

impl From<i64> for ChatId {
    fn from(chat_id: i64) -> (r: ChatId) {
        ChatId::Integer(chat_id)
    }
}

impl vstd::std_specs::convert::FromSpecImpl<i64> for ChatId {
    open spec fn obeys_from_spec() -> bool {
        true
    }

    open spec fn from_spec(chat_id: i64) -> ChatId {
        ChatId::Integer(chat_id)
    }
}

impl ChatId {
    /// The identifier as text: the number in decimal notation, or the user
    /// name.
    pub open spec fn text(&self) -> Seq<char> {
        match self {
            ChatId::Integer(id) => signed_decimal(*id as int),
            ChatId::Username(name) => name@,
        }
    }

    /// Writes the identifier as text.
    pub fn to_text(&self) -> (r: String)
        ensures
            r@ == self.text(),
    {
        match self {
            ChatId::Integer(id) => {
                let mut out = String::new();
                push_signed_decimal(&mut out, *id);
                assert(out@ =~= signed_decimal(*id as int));
                out
            },
            ChatId::Username(name) => name.clone(),
        }
    }

    /// A copy of the identifier.
    pub fn duplicate(&self) -> (r: ChatId)
        ensures
            r.deep_view() == self.deep_view(),
    {
        match self {
            ChatId::Integer(id) => ChatId::Integer(*id),
            ChatId::Username(name) => ChatId::Username(name.clone()),
        }
    }
}

/// A message.
#[derive(Debug, Clone, PartialEq, Eq)]
pub struct Message {
    pub id: u64,
    pub text: Option<String>,
    pub chat: Option<Chat>,
}

/// What a method returns that sends one message or several.
#[derive(Debug, Clone, PartialEq, Eq)]
pub enum Messages {
    Single(Message),
    Multiple(Vec<Message>),
}

impl Messages {
    /// The first of the messages, if there is any.
    pub fn first(&self) -> (r: Option<&Message>)
        ensures
            r == match *self {
                Messages::Single(message) => Some(&message),
                Messages::Multiple(messages) => if messages@.len() > 0 {
                    Some(&messages@[0])
                } else {
                    None
                },
            },
    {
        match self {
            Messages::Single(message) => Some(message),
            Messages::Multiple(messages) => {
                if messages.len() > 0 {
                    Some(&messages[0])
                } else {
                    None
                }
            },
        }
    }
}

/// A chat.
#[derive(Debug, Clone, PartialEq, Eq)]
pub struct Chat {
    pub id: ChatId,
}

/// How the text of a message is to be read.
#[derive(Debug, Clone, Copy, PartialEq, Eq, Structural)]
pub enum ParseMode {
    /// HTML style.
    Html,
}

/// Options for the preview of a link.
#[derive(Debug, Clone, PartialEq, Eq)]
pub struct LinkPreviewOptions {
    /// `true`, if the link preview is disabled.
    pub is_disabled: Option<bool>,
    /// URL to use for the link preview.
    pub url: Option<String>,
    /// `true`, if the preview must be shown above the text.
    pub show_above_text: Option<bool>,
}

/// Mathematical model of link preview options.
pub struct LinkPreviewOptionsView {
    pub is_disabled: Option<bool>,
    pub url: Option<Seq<char>>,
    pub show_above_text: Option<bool>,
}

impl DeepView for LinkPreviewOptions {
    type V = LinkPreviewOptionsView;

    open spec fn deep_view(&self) -> LinkPreviewOptionsView {
        LinkPreviewOptionsView {
            is_disabled: self.is_disabled,
            url: self.url.deep_view(),
            show_above_text: self.show_above_text,
        }
    }
}

impl LinkPreviewOptionsView {
    /// The options that switch the preview off.
    pub open spec fn disabled() -> LinkPreviewOptionsView {
        LinkPreviewOptionsView { is_disabled: Some(true), url: None, show_above_text: None }
    }
}

impl LinkPreviewOptions {
    /// The options that switch the preview off.
    pub fn disabled() -> (r: LinkPreviewOptions)
        ensures
            r.deep_view() == LinkPreviewOptionsView::disabled(),
    {
        LinkPreviewOptions { is_disabled: Some(true), url: None, show_above_text: None }
    }
}

/// The message that a new message replies to.
#[derive(Debug, Clone, Copy, PartialEq, Eq, Structural)]
pub struct ReplyParameters {
    /// Identifier of the message that is replied to.
    pub message_id: u64,
    /// `true` if the message should be sent even if that message is not found.
    pub allow_sending_without_reply: Option<bool>,
}

impl ReplyParameters {
    /// A reply to the given message that is sent even if the message is gone.
    pub fn to_message(message_id: u64) -> (r: ReplyParameters)
        ensures
            r == (ReplyParameters { message_id, allow_sending_without_reply: Some(true) }),
    {
        ReplyParameters { message_id, allow_sending_without_reply: Some(true) }
    }
}

/// What is shown below a message.
#[derive(Debug, Clone, PartialEq, Eq)]
pub enum ReplyMarkup {
    InlineKeyboardMarkup(InlineKeyboardMarkup),
}

/// An inline keyboard that appears right next to the message it belongs to.
#[derive(Debug, Clone, PartialEq, Eq)]
pub struct InlineKeyboardMarkup {
    pub inline_keyboard: Vec<Vec<InlineKeyboardButton>>,
}

impl InlineKeyboardMarkup {
    /// The keyboard of one row with one button.
    pub fn single(button: InlineKeyboardButton) -> (r: InlineKeyboardMarkup)
        ensures
            r.inline_keyboard@.len() == 1,
            r.inline_keyboard@[0]@ == seq![button],
    {
        let mut row: Vec<InlineKeyboardButton> = Vec::new();
        row.push(button);
        let mut rows: Vec<Vec<InlineKeyboardButton>> = Vec::new();
        rows.push(row);
        InlineKeyboardMarkup { inline_keyboard: rows }
    }
}

/// One button of an inline keyboard.
#[derive(Debug, Clone, PartialEq, Eq)]
pub struct InlineKeyboardButton {
    pub text: String,
    pub action: InlineKeyboardButtonAction,
}

/// What a button of an inline keyboard does.
#[derive(Debug, Clone, PartialEq, Eq)]
pub enum InlineKeyboardButtonAction {
    /// Opens the URL.
    Url(String),
    /// Sends the data, 1 to 64 bytes, back to the bot in a callback query.
    CallbackData(String),
}

/// A command of the bot, as the chat platform lists it.
#[derive(Debug, Clone, PartialEq, Eq)]
pub struct BotCommand {
    /// Text of the command: 1 to 32 lowercase letters, digits and underscores.
    pub command: String,
    /// Description of the command: 1 to 256 characters.
    pub description: String,
}

/// One item of a media group.
#[derive(Debug, Clone, PartialEq, Eq)]
pub enum Media {
    InputMediaPhoto(InputMediaPhoto),
}

/// A photo to be sent.
#[derive(Debug, Clone, PartialEq, Eq)]
pub struct InputMediaPhoto {
    /// URL of the photo.
    pub media: String,
    pub caption: Option<String>,
    pub parse_mode: Option<ParseMode>,
    pub show_caption_above_media: Option<bool>,
}

/// Mathematical model of a photo to be sent.
pub struct InputMediaPhotoView {
    pub media: Seq<char>,
    pub caption: Option<Seq<char>>,
    pub parse_mode: Option<ParseMode>,
    pub show_caption_above_media: Option<bool>,
}

impl DeepView for InputMediaPhoto {
    type V = InputMediaPhotoView;

    open spec fn deep_view(&self) -> InputMediaPhotoView {
        InputMediaPhotoView {
            media: self.media@,
            caption: self.caption.deep_view(),
            parse_mode: self.parse_mode,
            show_caption_above_media: self.show_caption_above_media,
        }
    }
}

/// Mathematical model of an item of a media group.
pub enum MediaView {
    InputMediaPhoto(InputMediaPhotoView),
}

impl DeepView for Media {
    type V = MediaView;

    open spec fn deep_view(&self) -> MediaView {
        match self {
            Media::InputMediaPhoto(photo) => MediaView::InputMediaPhoto(photo.deep_view()),
        }
    }
}

} // verus!
