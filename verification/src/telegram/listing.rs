//! The request that sends a listing to a chat.

use crate::marketplace::marktplaats::Listing;
use crate::telegram::methods::{
    SendMediaGroup, SendMessage, SendNotification, SendNotificationView, SendPhoto,
};
use crate::telegram::objects::{ChatId, ParseMode};
use crate::telegram::render::{escaped, link_markup, price_markup, push_escaped, push_link, push_price};
use vstd::prelude::*;
use vstd::string::StringExecFns;

verus! {

/// Request of the chat platform that sends a listing.
#[derive(Debug, Clone, PartialEq, Eq)]
pub enum SendListingRequest {
    Message(SendMessage),
    Photo(SendPhoto),
    MediaGroup(SendMediaGroup),
}

impl DeepView for SendListingRequest {
    type V = SendNotificationView;

    open spec fn deep_view(&self) -> SendNotificationView {
        match self {
            SendListingRequest::Message(m) => SendNotificationView::Message(m.deep_view()),
            SendListingRequest::Photo(p) => SendNotificationView::Photo(p.deep_view()),
            SendListingRequest::MediaGroup(g) => SendNotificationView::MediaGroup(g.deep_view()),
        }
    }
}

impl From<SendMessage> for SendListingRequest {
    fn from(send_message: SendMessage) -> (r: SendListingRequest) {
        SendListingRequest::Message(send_message)
    }
}

impl vstd::std_specs::convert::FromSpecImpl<SendMessage> for SendListingRequest {
    open spec fn obeys_from_spec() -> bool {
        true
    }

    open spec fn from_spec(send_message: SendMessage) -> SendListingRequest {
        SendListingRequest::Message(send_message)
    }
}

impl From<SendPhoto> for SendListingRequest {
    fn from(send_photo: SendPhoto) -> (r: SendListingRequest) {
        SendListingRequest::Photo(send_photo)
    }
}

impl vstd::std_specs::convert::FromSpecImpl<SendPhoto> for SendListingRequest {
    open spec fn obeys_from_spec() -> bool {
        true
    }

    open spec fn from_spec(send_photo: SendPhoto) -> SendListingRequest {
        SendListingRequest::Photo(send_photo)
    }
}

impl From<SendMediaGroup> for SendListingRequest {
    fn from(send_media_group: SendMediaGroup) -> (r: SendListingRequest) {
        SendListingRequest::MediaGroup(send_media_group)
    }
}

impl vstd::std_specs::convert::FromSpecImpl<SendMediaGroup> for SendListingRequest {
    open spec fn obeys_from_spec() -> bool {
        true
    }

    open spec fn from_spec(send_media_group: SendMediaGroup) -> SendListingRequest {
        SendListingRequest::MediaGroup(send_media_group)
    }
}

/// Markup of a listing: the linked title, the price and the quoted
/// description.
pub open spec fn listing_markup(listing: &Listing) -> Seq<char> {
    "<strong>"@ + link_markup(listing.url@, listing.title@) + "</strong>\n\n"@ + price_markup(
        listing.price.spec_price(),
    ) + "\n\n<blockquote>"@ + escaped(listing.description@) + "</blockquote>"@
}

/// Renders a listing.
pub fn render_listing(listing: &Listing) -> (r: String)
    ensures
        r@ == listing_markup(listing),
{
    let mut out = String::from_str("<strong>");
    push_link(&mut out, listing.url.as_str(), listing.title.as_str());
    out.append("</strong>\n\n");
    push_price(&mut out, listing.price.price());
    out.append("\n\n<blockquote>");
    push_escaped(&mut out, listing.description.as_str());
    out.append("</blockquote>");
    out
}

impl SendListingRequest {
    /// The request that sends a listing to a chat: a text for a listing
    /// without pictures, a photo for one picture, an album for more.
    pub fn with(chat_id: ChatId, listing: &Listing) -> (r: SendListingRequest)
        ensures
            r.deep_view() == SendNotificationView::new(
                chat_id.deep_view(),
                listing_markup(listing),
                ParseMode::Html,
                listing.pictures.deep_view(),
                None,
            ),
    {
        let html = render_listing(listing);
        match SendNotification::new(
            &chat_id,
            html.as_str(),
            ParseMode::Html,
            &listing.pictures,
            None,
        ) {
            SendNotification::Message(m) => SendListingRequest::Message(m),
            SendNotification::Photo(p) => SendListingRequest::Photo(p),
            SendNotification::MediaGroup(g) => SendListingRequest::MediaGroup(g),
        }
    }
}

} // verus!
