//! Methods of the chat platform's bot API, and the choice among those that
//! send a notification.

use crate::telegram::objects::{
    BotCommand, ChatId, ChatIdView, InputMediaPhoto, LinkPreviewOptions, LinkPreviewOptionsView,
    Media, MediaView, ParseMode, ReplyParameters,
};
use vstd::prelude::*;
use vstd::string::StringExecFns;

verus! {

/// Seconds that a request may take, unless its method says otherwise.
pub const DEFAULT_TIMEOUT_SECS: u64 = 10;

/// Seconds that a long poll may take beyond the time the server holds it.
pub const LONG_POLL_SLACK_SECS: u64 = 5;

/// A method of the bot API.
pub trait Method {
    /// Name of the method, as the API spells it.
    fn name(&self) -> &'static str;

    /// Seconds after which a call of the method is given up.
    fn timeout_secs(&self) -> u64;
}

/// Asks who the bot is.
#[derive(Debug, Clone, Copy, PartialEq, Eq, Structural)]
pub struct GetMe;

impl Method for GetMe {
    fn name(&self) -> (r: &'static str)
        ensures
            r@ == "getMe"@,
    {
        "getMe"
    }

    fn timeout_secs(&self) -> (r: u64)
        ensures
            r == DEFAULT_TIMEOUT_SECS,
    {
        DEFAULT_TIMEOUT_SECS
    }
}

/// Changes the bot's description, which is shown in an empty chat with it.
#[derive(Debug, Clone, PartialEq, Eq)]
pub struct SetMyDescription {
    /// New description, 0 to 512 characters.
    pub description: Option<String>,
}

impl Method for SetMyDescription {
    fn name(&self) -> (r: &'static str)
        ensures
            r@ == "setMyDescription"@,
    {
        "setMyDescription"
    }

    fn timeout_secs(&self) -> (r: u64)
        ensures
            r == DEFAULT_TIMEOUT_SECS,
    {
        DEFAULT_TIMEOUT_SECS
    }
}

/// Changes the list of the bot's commands.
#[derive(Debug, Clone, PartialEq, Eq)]
pub struct SetMyCommands {
    pub commands: Vec<BotCommand>,
}

impl Method for SetMyCommands {
    fn name(&self) -> (r: &'static str)
        ensures
            r@ == "setMyCommands"@,
    {
        "setMyCommands"
    }

    fn timeout_secs(&self) -> (r: u64)
        ensures
            r == DEFAULT_TIMEOUT_SECS,
    {
        DEFAULT_TIMEOUT_SECS
    }
}

/// Kinds of update that the bot listens to.
#[derive(Debug, Clone, Copy, PartialEq, Eq, Structural)]
pub enum AllowedUpdate {
    Message,
}

/// Receives incoming updates by long polling.
#[derive(Debug, Clone, PartialEq, Eq)]
pub struct GetUpdates {
    /// Identifier of the first update to be returned.
    pub offset: Option<u64>,
    /// Limit on the number of updates, 1 to 100.
    pub limit: Option<u32>,
    /// Seconds that the server holds the request while there is no update.
    pub timeout_secs: Option<u64>,
    pub allowed_updates: Option<Vec<AllowedUpdate>>,
}

impl GetUpdates {
    /// The long poll of the update reactor: message updates from `offset` on.
    pub fn messages_from(offset: u64, timeout_secs: u64) -> (r: GetUpdates)
        ensures
            r.offset == Some(offset),
            r.limit.is_none(),
            r.timeout_secs == Some(timeout_secs),
            r.allowed_updates matches Some(allowed) && allowed@ == seq![AllowedUpdate::Message],
    {
        let mut allowed: Vec<AllowedUpdate> = Vec::new();
        allowed.push(AllowedUpdate::Message);
        GetUpdates {
            offset: Some(offset),
            limit: None,
            timeout_secs: Some(timeout_secs),
            allowed_updates: Some(allowed),
        }
    }

    /// Seconds after which a long poll is given up: the time the server
    /// holds it and a slack on top, as far as the number type reaches.
    pub open spec fn spec_timeout_secs(&self) -> u64 {
        let held: int = match self.timeout_secs {
            Some(secs) => secs as int,
            None => 0,
        };
        if held + LONG_POLL_SLACK_SECS > u64::MAX {
            u64::MAX
        } else {
            (held + LONG_POLL_SLACK_SECS) as u64
        }
    }
}

impl Method for GetUpdates {
    fn name(&self) -> (r: &'static str)
        ensures
            r@ == "getUpdates"@,
    {
        "getUpdates"
    }

    fn timeout_secs(&self) -> (r: u64)
        ensures
            r == self.spec_timeout_secs(),
    {
        let held: u64 = match self.timeout_secs {
            Some(secs) => secs,
            None => 0,
        };
        if held > u64::MAX - LONG_POLL_SLACK_SECS {
            u64::MAX
        } else {
            held + LONG_POLL_SLACK_SECS
        }
    }
}

/// Sends a text message.
#[derive(Debug, Clone, PartialEq, Eq)]
pub struct SendMessage {
    pub chat_id: ChatId,
    pub text: String,
    pub parse_mode: Option<ParseMode>,
    pub link_preview_options: Option<LinkPreviewOptions>,
    pub reply_parameters: Option<ReplyParameters>,
}

/// Mathematical model of a request to send a text message.
pub struct SendMessageView {
    pub chat_id: ChatIdView,
    pub text: Seq<char>,
    pub parse_mode: Option<ParseMode>,
    pub link_preview_options: Option<LinkPreviewOptionsView>,
    pub reply_parameters: Option<ReplyParameters>,
}

impl DeepView for SendMessage {
    type V = SendMessageView;

    open spec fn deep_view(&self) -> SendMessageView {
        SendMessageView {
            chat_id: self.chat_id.deep_view(),
            text: self.text@,
            parse_mode: self.parse_mode,
            link_preview_options: self.link_preview_options.deep_view(),
            reply_parameters: self.reply_parameters,
        }
    }
}

impl SendMessageView {
    /// A plain text, with nothing else set.
    pub open spec fn plain(chat_id: ChatIdView, text: Seq<char>) -> SendMessageView {
        SendMessageView {
            chat_id,
            text,
            parse_mode: None,
            link_preview_options: None,
            reply_parameters: None,
        }
    }

    /// An HTML text without a link preview.
    pub open spec fn quick_html(chat_id: ChatIdView, text: Seq<char>) -> SendMessageView {
        SendMessageView {
            chat_id,
            text,
            parse_mode: Some(ParseMode::Html),
            link_preview_options: Some(LinkPreviewOptionsView::disabled()),
            reply_parameters: None,
        }
    }
}

impl SendMessage {
    /// A plain text message, with nothing else set.
    pub fn plain(chat_id: &ChatId, text: &str) -> (r: SendMessage)
        ensures
            r.deep_view() == SendMessageView::plain(chat_id.deep_view(), text@),
    {
        SendMessage {
            chat_id: chat_id.duplicate(),
            text: String::from_str(text),
            parse_mode: None,
            link_preview_options: None,
            reply_parameters: None,
        }
    }

    /// Quick HTML-formatted message without a link preview.
    pub fn quick_html(chat_id: &ChatId, text: String) -> (r: SendMessage)
        ensures
            r.deep_view() == SendMessageView::quick_html(chat_id.deep_view(), text@),
    {
        SendMessage {
            chat_id: chat_id.duplicate(),
            text,
            parse_mode: Some(ParseMode::Html),
            link_preview_options: Some(LinkPreviewOptions::disabled()),
            reply_parameters: None,
        }
    }
}

impl Method for SendMessage {
    fn name(&self) -> (r: &'static str)
        ensures
            r@ == "sendMessage"@,
    {
        "sendMessage"
    }

    fn timeout_secs(&self) -> (r: u64)
        ensures
            r == DEFAULT_TIMEOUT_SECS,
    {
        DEFAULT_TIMEOUT_SECS
    }
}

/// Sends a photo.
#[derive(Debug, Clone, PartialEq, Eq)]
pub struct SendPhoto {
    pub chat_id: ChatId,
    /// URL of the photo.
    pub photo: String,
    pub caption: Option<String>,
    pub parse_mode: Option<ParseMode>,
    pub show_caption_above_media: Option<bool>,
    pub reply_parameters: Option<ReplyParameters>,
}

/// Mathematical model of a request to send a photo.
pub struct SendPhotoView {
    pub chat_id: ChatIdView,
    pub photo: Seq<char>,
    pub caption: Option<Seq<char>>,
    pub parse_mode: Option<ParseMode>,
    pub show_caption_above_media: Option<bool>,
    pub reply_parameters: Option<ReplyParameters>,
}

impl DeepView for SendPhoto {
    type V = SendPhotoView;

    open spec fn deep_view(&self) -> SendPhotoView {
        SendPhotoView {
            chat_id: self.chat_id.deep_view(),
            photo: self.photo@,
            caption: self.caption.deep_view(),
            parse_mode: self.parse_mode,
            show_caption_above_media: self.show_caption_above_media,
            reply_parameters: self.reply_parameters,
        }
    }
}

impl Method for SendPhoto {
    fn name(&self) -> (r: &'static str)
        ensures
            r@ == "sendPhoto"@,
    {
        "sendPhoto"
    }

    fn timeout_secs(&self) -> (r: u64)
        ensures
            r == DEFAULT_TIMEOUT_SECS,
    {
        DEFAULT_TIMEOUT_SECS
    }
}

/// Sends a group of photos as an album.
#[derive(Debug, Clone, PartialEq, Eq)]
pub struct SendMediaGroup {
    pub chat_id: ChatId,
    /// The photos to be sent, 2 to 10 of them.
    pub media: Vec<Media>,
    pub reply_parameters: Option<ReplyParameters>,
}

/// Mathematical model of a request to send an album.
pub struct SendMediaGroupView {
    pub chat_id: ChatIdView,
    pub media: Seq<MediaView>,
    pub reply_parameters: Option<ReplyParameters>,
}

impl DeepView for SendMediaGroup {
    type V = SendMediaGroupView;

    open spec fn deep_view(&self) -> SendMediaGroupView {
        SendMediaGroupView {
            chat_id: self.chat_id.deep_view(),
            media: self.media.deep_view(),
            reply_parameters: self.reply_parameters,
        }
    }
}

impl Method for SendMediaGroup {
    fn name(&self) -> (r: &'static str)
        ensures
            r@ == "sendMediaGroup"@,
    {
        "sendMediaGroup"
    }

    fn timeout_secs(&self) -> (r: u64)
        ensures
            r == DEFAULT_TIMEOUT_SECS,
    {
        DEFAULT_TIMEOUT_SECS
    }
}

/// The request that notifies a chat: a text, one photo or an album.
#[derive(Debug, Clone, PartialEq, Eq)]
pub enum SendNotification {
    /// Plain-text notification.
    Message(SendMessage),
    /// Single-photo notification.
    Photo(SendPhoto),
    /// Multiple-photo notification.
    MediaGroup(SendMediaGroup),
}

/// Mathematical model of a notification request.
pub enum SendNotificationView {
    Message(SendMessageView),
    Photo(SendPhotoView),
    MediaGroup(SendMediaGroupView),
}

impl DeepView for SendNotification {
    type V = SendNotificationView;

    open spec fn deep_view(&self) -> SendNotificationView {
        match self {
            SendNotification::Message(m) => SendNotificationView::Message(m.deep_view()),
            SendNotification::Photo(p) => SendNotificationView::Photo(p.deep_view()),
            SendNotification::MediaGroup(g) => SendNotificationView::MediaGroup(g.deep_view()),
        }
    }
}

/// The photo at place `i` of an album: the first one carries the caption.
pub open spec fn album_photo(
    pictures: Seq<Seq<char>>,
    caption: Seq<char>,
    parse_mode: ParseMode,
    i: int,
) -> MediaView {
    MediaView::InputMediaPhoto(
        if i == 0 {
            crate::telegram::objects::InputMediaPhotoView {
                media: pictures[i],
                caption: Some(caption),
                parse_mode: Some(parse_mode),
                show_caption_above_media: None,
            }
        } else {
            crate::telegram::objects::InputMediaPhotoView {
                media: pictures[i],
                caption: None,
                parse_mode: None,
                show_caption_above_media: None,
            }
        },
    )
}

impl SendNotificationView {
    /// The request that fits the number of pictures: a text with the link
    /// preview off for none, a photo with the caption for one, and for more
    /// an album whose first photo carries the caption.
    pub open spec fn new(
        chat_id: ChatIdView,
        caption: Seq<char>,
        parse_mode: ParseMode,
        pictures: Seq<Seq<char>>,
        reply_parameters: Option<ReplyParameters>,
    ) -> SendNotificationView {
        if pictures.len() == 0 {
            SendNotificationView::Message(
                SendMessageView {
                    chat_id,
                    text: caption,
                    parse_mode: Some(parse_mode),
                    link_preview_options: Some(LinkPreviewOptionsView::disabled()),
                    reply_parameters,
                },
            )
        } else if pictures.len() == 1 {
            SendNotificationView::Photo(
                SendPhotoView {
                    chat_id,
                    photo: pictures[0],
                    caption: Some(caption),
                    parse_mode: Some(parse_mode),
                    show_caption_above_media: None,
                    reply_parameters,
                },
            )
        } else {
            SendNotificationView::MediaGroup(
                SendMediaGroupView {
                    chat_id,
                    media: Seq::new(
                        pictures.len(),
                        |i: int| album_photo(pictures, caption, parse_mode, i),
                    ),
                    reply_parameters,
                },
            )
        }
    }
}

impl SendNotification {
    /// Builds the request that fits the number of pictures.
    pub fn new(
        chat_id: &ChatId,
        caption: &str,
        parse_mode: ParseMode,
        pictures: &Vec<String>,
        reply_parameters: Option<ReplyParameters>,
    ) -> (r: SendNotification)
        ensures
            r.deep_view() == SendNotificationView::new(
                chat_id.deep_view(),
                caption@,
                parse_mode,
                pictures.deep_view(),
                reply_parameters,
            ),
    {
        if pictures.len() == 0 {
            SendNotification::Message(
                SendMessage {
                    chat_id: chat_id.duplicate(),
                    text: String::from_str(caption),
                    parse_mode: Some(parse_mode),
                    link_preview_options: Some(LinkPreviewOptions::disabled()),
                    reply_parameters,
                },
            )
        } else if pictures.len() == 1 {
            SendNotification::Photo(
                SendPhoto {
                    chat_id: chat_id.duplicate(),
                    photo: pictures[0].clone(),
                    caption: Some(String::from_str(caption)),
                    parse_mode: Some(parse_mode),
                    show_caption_above_media: None,
                    reply_parameters,
                },
            )
        } else {
            let mut media: Vec<Media> = Vec::new();
            let mut i: usize = 0;
            while i < pictures.len()
                invariant
                    i <= pictures.len(),
                    media.deep_view().len() == i,
                    forall|k: int|
                        0 <= k < i ==> #[trigger] media.deep_view()[k] == album_photo(
                            pictures.deep_view(),
                            caption@,
                            parse_mode,
                            k,
                        ),
                decreases pictures.len() - i,
            {
                let photo = if i == 0 {
                    InputMediaPhoto {
                        media: pictures[i].clone(),
                        caption: Some(String::from_str(caption)),
                        parse_mode: Some(parse_mode),
                        show_caption_above_media: None,
                    }
                } else {
                    InputMediaPhoto {
                        media: pictures[i].clone(),
                        caption: None,
                        parse_mode: None,
                        show_caption_above_media: None,
                    }
                };
                let ghost before = media.deep_view();
                media.push(Media::InputMediaPhoto(photo));
                assert forall|k: int| 0 <= k < i + 1 implies #[trigger] media.deep_view()[k]
                    == album_photo(pictures.deep_view(), caption@, parse_mode, k) by {
                    if k < i {
                        assert(media.deep_view()[k] == before[k]);
                    }
                }
                i += 1;
            }
            assert(media.deep_view() =~= Seq::new(
                pictures.deep_view().len(),
                |i: int| album_photo(pictures.deep_view(), caption@, parse_mode, i),
            ));
            SendNotification::MediaGroup(
                SendMediaGroup { chat_id: chat_id.duplicate(), media, reply_parameters },
            )
        }
    }
}

impl Method for SendNotification {
    fn name(&self) -> (r: &'static str)
        ensures
            r@ == match self {
                SendNotification::Message(_) => "sendMessage"@,
                SendNotification::Photo(_) => "sendPhoto"@,
                SendNotification::MediaGroup(_) => "sendMediaGroup"@,
            },
    {
        match self {
            SendNotification::Message(send_message) => send_message.name(),
            SendNotification::Photo(send_photo) => send_photo.name(),
            SendNotification::MediaGroup(send_media_group) => send_media_group.name(),
        }
    }

    fn timeout_secs(&self) -> (r: u64)
        ensures
            r == DEFAULT_TIMEOUT_SECS,
    {
        DEFAULT_TIMEOUT_SECS
    }
}

} // verus!
