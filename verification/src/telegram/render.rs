//! Rendering in the HTML subset of the chat platform. Every text that comes
//! from a user or a marketplace is escaped.

use crate::marketplace::item::{
    Amount, Condition, Delivery, Item, Location, New, Price, Seller, Used,
};
use crate::telegram::objects::ChatId;
use crate::text::{chars_of, decimal, digit, digit_char, push_decimal, push_signed_decimal, signed_decimal};
use vstd::prelude::*;
use vstd::string::StringExecFns;

verus! {

/// What stands for a character in HTML text and attribute values.
pub open spec fn escaped_char(c: char) -> Seq<char> {
    if c == '&' {
        "&amp;"@
    } else if c == '<' {
        "&lt;"@
    } else if c == '>' {
        "&gt;"@
    } else if c == '"' {
        "&quot;"@
    } else {
        seq![c]
    }
}

/// A text with `&`, `<`, `>` and `"` replaced by their entities.
pub open spec fn escaped(text: Seq<char>) -> Seq<char>
    decreases text.len(),
{
    if text.len() == 0 {
        Seq::empty()
    } else {
        escaped(text.drop_last()) + escaped_char(text.last())
    }
}

/// An escaped text cannot open or close a tag or end an attribute value: it
/// holds none of `<`, `>` and `"`.
pub proof fn law_escaped_is_safe(text: Seq<char>)
    ensures
        forall|i: int|
            0 <= i < escaped(text).len() ==> {
                let c = #[trigger] escaped(text)[i];
                c != '<' && c != '>' && c != '"'
            },
    decreases text.len(),
{
    if text.len() > 0 {
        let head = escaped(text.drop_last());
        let tail = escaped_char(text.last());
        law_escaped_is_safe(text.drop_last());
        lemma_escaped_char_is_safe(text.last());
        assert forall|i: int| 0 <= i < escaped(text).len() implies {
            let c = #[trigger] escaped(text)[i];
            c != '<' && c != '>' && c != '"'
        } by {
            if i < head.len() {
                assert(escaped(text)[i] == head[i]);
            } else {
                assert(escaped(text)[i] == tail[i - head.len()]);
            }
        }
    }
}

/// What stands for a character holds none of `<`, `>` and `"`.
pub proof fn lemma_escaped_char_is_safe(c: char)
    ensures
        forall|i: int|
            0 <= i < escaped_char(c).len() ==> {
                let e = #[trigger] escaped_char(c)[i];
                e != '<' && e != '>' && e != '"'
            },
{
    reveal_strlit("&amp;");
    reveal_strlit("&lt;");
    reveal_strlit("&gt;");
    reveal_strlit("&quot;");
}

/// Appends a text, escaped.
pub fn push_escaped(out: &mut String, text: &str)
    ensures
        final(out)@ == old(out)@ + escaped(text@),
{
    let chars = chars_of(text);
    let mut i: usize = 0;
    while i < chars.len()
        invariant
            i <= chars.len(),
            chars@ == text@,
            out@ == old(out)@ + escaped(chars@.take(i as int)),
        decreases chars.len() - i,
    {
        let c = chars[i];
        proof {
            let next = chars@.take(i + 1);
            assert(next.drop_last() == chars@.take(i as int));
            assert(next.last() == c);
        }
        if c == '&' {
            out.append("&amp;");
        } else if c == '<' {
            out.append("&lt;");
        } else if c == '>' {
            out.append("&gt;");
        } else if c == '"' {
            out.append("&quot;");
        } else {
            out.push(c);
        }
        i += 1;
    }
    assert(chars@.take(i as int) == chars@);
}

/// The delimiter between facts on one line.
pub open spec fn delimiter() -> Seq<char> {
    "<strong> • </strong>"@
}

/// A link with its text.
#[derive(Debug, Clone, PartialEq, Eq)]
pub struct Link {
    pub content: String,
    pub url: String,
}

/// Mathematical model of a link.
pub struct LinkView {
    pub content: Seq<char>,
    pub url: Seq<char>,
}

impl DeepView for Link {
    type V = LinkView;

    open spec fn deep_view(&self) -> LinkView {
        LinkView { content: self.content@, url: self.url@ }
    }
}

/// Markup of a link.
pub open spec fn link_markup(url: Seq<char>, content: Seq<char>) -> Seq<char> {
    "<a href=\""@ + escaped(url) + "\">"@ + escaped(content) + "</a>"@
}

/// Appends the markup of a link.
pub fn push_link(out: &mut String, url: &str, content: &str)
    ensures
        final(out)@ == old(out)@ + link_markup(url@, content@),
{
    out.append("<a href=\"");
    push_escaped(out, url);
    out.append("\">");
    push_escaped(out, content);
    out.append("</a>");
}

/// Text of a chat identifier.
pub open spec fn chat_id_text(chat_id: &ChatId) -> Seq<char> {
    match chat_id {
        ChatId::Integer(id) => signed_decimal(*id as int),
        ChatId::Username(name) => escaped(name@),
    }
}

/// Markup of a chat identifier: the identifier as code.
pub open spec fn chat_id_markup(chat_id: &ChatId) -> Seq<char> {
    "<code>"@ + chat_id_text(chat_id) + "</code>"@
}

/// Appends the markup of a chat identifier.
pub fn push_chat_id(out: &mut String, chat_id: &ChatId)
    ensures
        final(out)@ == old(out)@ + chat_id_markup(chat_id),
{
    out.append("<code>");
    match chat_id {
        ChatId::Integer(id) => {
            push_signed_decimal(out, *id);
        },
        ChatId::Username(name) => {
            push_escaped(out, name.as_str());
        },
    }
    out.append("</code>");
}

/// Text of the reply to a chat that is not authorized.
pub open spec fn unauthorized_markup(chat_id: &ChatId) -> Seq<char> {
    "👋 Thank you for your interest\n\nThis bot cannot handle many users, so it is private and only intended for authorized users.\n\nHowever, <strong>its <a href=\"https://github.com/eigenein/mrktpltsbot\">source code</a> is open</strong>, and you are free to deploy your own instance.\n\nIf you are already setting it up for yourself, or someone is setting it up for you, <strong>the following ID should be added to the list of authorized chat IDs:</strong>\n\n<pre>"@
        + chat_id_markup(chat_id) + "</pre>"@
}

/// The reply to a chat that is not authorized: it introduces the bot and
/// prints the chat's identifier as code, for the operator to add it.
pub fn unauthorized(chat_id: &ChatId) -> (r: String)
    ensures
        r@ == unauthorized_markup(chat_id),
{
    let mut out = String::from_str(
        "👋 Thank you for your interest\n\nThis bot cannot handle many users, so it is private and only intended for authorized users.\n\nHowever, <strong>its <a href=\"https://github.com/eigenein/mrktpltsbot\">source code</a> is open</strong>, and you are free to deploy your own instance.\n\nIf you are already setting it up for yourself, or someone is setting it up for you, <strong>the following ID should be added to the list of authorized chat IDs:</strong>\n\n<pre>",
    );
    push_chat_id(&mut out, chat_id);
    out.append("</pre>");
    out
}

/// Text of an amount: euros and two digits of cents.
pub open spec fn amount_text(amount: Amount) -> Seq<char> {
    "€"@ + decimal((amount.cents / 100) as nat) + "."@ + seq![
        digit((amount.cents % 100 / 10) as int),
        digit((amount.cents % 10) as int),
    ]
}

/// Appends the text of an amount.
pub fn push_amount(out: &mut String, amount: Amount)
    ensures
        final(out)@ == old(out)@ + amount_text(amount),
{
    out.append("€");
    push_decimal(out, amount.cents / 100);
    out.append(".");
    out.push(digit_char(amount.cents % 100 / 10));
    out.push(digit_char(amount.cents % 10));
}

/// Markup of a price.
pub open spec fn price_markup(price: Price) -> Seq<char> {
    match price {
        Price::Fixed(asking) => if asking.cents == 0 {
            "<em>🆓 free</em>"@
        } else {
            "<strong>"@ + amount_text(asking) + "</strong>"@
        },
        Price::OnRequest => "🙋price on request"@,
        Price::MinimalBid(asking) => "<strong>"@ + amount_text(asking) + "</strong>"@
            + delimiter() + "⬆️ bidding"@,
        Price::MaximalBid(asking) => "<strong>"@ + amount_text(asking) + "</strong>"@
            + delimiter() + "⬇️ bidding"@,
        Price::SeeDescription => "📝 price in description"@,
        Price::ToBeAgreed => "🤝 price to be agreed"@,
        Price::Reserved => "⚠️ reserved"@,
        Price::FastBid => "⬆️ auction"@,
        Price::Exchange => "💱 exchange"@,
    }
}

/// Appends the markup of a price.
pub fn push_price(out: &mut String, price: Price)
    ensures
        final(out)@ == old(out)@ + price_markup(price),
{
    match price {
        Price::Fixed(asking) => {
            if asking.cents == 0 {
                out.append("<em>🆓 free</em>");
            } else {
                out.append("<strong>");
                push_amount(out, asking);
                out.append("</strong>");
            }
        },
        Price::OnRequest => {
            out.append("🙋price on request");
        },
        Price::MinimalBid(asking) => {
            out.append("<strong>");
            push_amount(out, asking);
            out.append("</strong>");
            out.append("<strong> • </strong>");
            out.append("⬆️ bidding");
        },
        Price::MaximalBid(asking) => {
            out.append("<strong>");
            push_amount(out, asking);
            out.append("</strong>");
            out.append("<strong> • </strong>");
            out.append("⬇️ bidding");
        },
        Price::SeeDescription => {
            out.append("📝 price in description");
        },
        Price::ToBeAgreed => {
            out.append("🤝 price to be agreed");
        },
        Price::Reserved => {
            out.append("⚠️ reserved");
        },
        Price::FastBid => {
            out.append("⬆️ auction");
        },
        Price::Exchange => {
            out.append("💱 exchange");
        },
    }
}

/// Markup of a condition.
pub open spec fn condition_markup(condition: Condition) -> Seq<char> {
    match condition {
        Condition::New(New::WithTags) => "🟢 new with tags"@,
        Condition::New(New::WithoutTags) => "🟢 new without tags"@,
        Condition::New(New::AsGood) => "🟡 as good as new"@,
        Condition::New(New::Unspecified) => "🟢 new"@,
        Condition::Used(Used::VeryGood) => "🟠 very good"@,
        Condition::Used(Used::Good) => "🟠 good"@,
        Condition::Used(Used::Satisfactory) => "🟠 satisfactory"@,
        Condition::Used(Used::Unspecified) => "🟠 used"@,
        Condition::Used(Used::NotFullyFunctional) => "⛔️ not fully functional"@,
        Condition::Refurbished => "🟡 refurbished"@,
    }
}

/// The markup of a condition.
pub fn condition_text(condition: Condition) -> (r: &'static str)
    ensures
        r@ == condition_markup(condition),
{
    match condition {
        Condition::New(New::WithTags) => "🟢 new with tags",
        Condition::New(New::WithoutTags) => "🟢 new without tags",
        Condition::New(New::AsGood) => "🟡 as good as new",
        Condition::New(New::Unspecified) => "🟢 new",
        Condition::Used(Used::VeryGood) => "🟠 very good",
        Condition::Used(Used::Good) => "🟠 good",
        Condition::Used(Used::Satisfactory) => "🟠 satisfactory",
        Condition::Used(Used::Unspecified) => "🟠 used",
        Condition::Used(Used::NotFullyFunctional) => "⛔️ not fully functional",
        Condition::Refurbished => "🟡 refurbished",
    }
}

/// Markup of a way of delivery.
pub open spec fn delivery_markup(delivery: Delivery) -> Seq<char> {
    match delivery {
        Delivery::CollectionOnly => "🚶 collection"@,
        Delivery::ShippingOnly => "📦 shipping"@,
        Delivery::Both => "📦 shipping"@ + delimiter() + "🚶 collection"@,
    }
}

/// Appends the markup of a way of delivery.
pub fn push_delivery(out: &mut String, delivery: Delivery)
    ensures
        final(out)@ == old(out)@ + delivery_markup(delivery),
{
    match delivery {
        Delivery::CollectionOnly => {
            out.append("🚶 collection");
        },
        Delivery::ShippingOnly => {
            out.append("📦 shipping");
        },
        Delivery::Both => {
            out.append("📦 shipping");
            out.append("<strong> • </strong>");
            out.append("🚶 collection");
        },
    }
}

/// Markup of a seller: a link to the profile.
pub open spec fn seller_markup(seller: &Seller) -> Seq<char> {
    "<a href=\""@ + escaped(seller.profile_url@) + "\">@"@ + escaped(seller.username@) + "</a>"@
}

/// Appends the markup of a seller.
pub fn push_seller(out: &mut String, seller: &Seller)
    ensures
        final(out)@ == old(out)@ + seller_markup(seller),
{
    out.append("<a href=\"");
    push_escaped(out, seller.profile_url.as_str());
    out.append("\">@");
    push_escaped(out, seller.username.as_str());
    out.append("</a>");
}

/// What `url::Url::parse_with_params` returns as text for a base URL and
/// query parameters, or `None` where it fails.
pub uninterp spec fn url_with_params_of(
    base: Seq<char>,
    params: Seq<(Seq<char>, Seq<char>)>,
) -> Option<Seq<char>>;

/// The error of the `url` crate for a text that is no URL. Nothing is read
/// from it.
#[verifier::external_type_specification]
#[verifier::external_body]
pub struct ExUrlParseError(url::ParseError);

/// The names and values of query parameters as character sequences.
pub open spec fn pairs_of(params: Seq<(String, String)>) -> Seq<(Seq<char>, Seq<char>)> {
    Seq::new(params.len(), |i: int| (params[i].0@, params[i].1@))
}

/// Most characters of a text that goes into a URL. A URL of the `url` crate
/// holds less than 4 GiB.
pub const URL_TEXT_LIMIT: usize = 0x10_0000;

/// Most parameters of a URL that is built here.
pub const URL_PARAMS_LIMIT: usize = 16;

/// Whether texts are short enough to be put into a URL.
pub open spec fn fits_url(base: Seq<char>, params: Seq<(Seq<char>, Seq<char>)>) -> bool {
    &&& base.len() <= URL_TEXT_LIMIT
    &&& params.len() <= URL_PARAMS_LIMIT
    &&& forall|i: int|
        0 <= i < params.len() ==> (#[trigger] params[i]).0.len() <= URL_TEXT_LIMIT
            && params[i].1.len() <= URL_TEXT_LIMIT
}

/// Calls `url::Url::parse_with_params`: the base URL with the parameters
/// added to its query string, as text, or the error of parsing the base.
/// The result depends on the arguments alone. The texts are to be short
/// enough for the URL to stay under the size that the crate can hold.
#[verifier::external_body]
fn url_with_params(base: &str, params: &Vec<(String, String)>) -> (r: Result<
    String,
    url::ParseError,
>)
    requires
        fits_url(base@, pairs_of(params@)),
    ensures
        r is Ok <==> url_with_params_of(base@, pairs_of(params@)) is Some,
        r matches Ok(url) ==> url_with_params_of(base@, pairs_of(params@)) == Some(url@),
{
    url::Url::parse_with_params(base, params.iter()).map(String::from)
}

/// Query parameters of the map link of a location.
pub open spec fn map_params(location: &Location) -> Seq<(Seq<char>, Seq<char>)> {
    match location.coordinates {
        Some(coordinates) => seq![("q"@, location.toponym@), ("ll"@, coordinates@)],
        None => seq![("q"@, location.toponym@)],
    }
}

/// Whether the name and the coordinates of a location are short enough for
/// a link.
pub open spec fn fits_link(location: &Location) -> bool {
    &&& location.toponym@.len() <= URL_TEXT_LIMIT
    &&& location.coordinates matches Some(coordinates) ==> coordinates@.len() <= URL_TEXT_LIMIT
}

/// The map link of a location, if one can be made. None is made of texts
/// that are too long.
pub open spec fn map_url_of(location: &Location) -> Option<Seq<char>> {
    if fits_link(location) {
        url_with_params_of("https://maps.apple.com/maps"@, map_params(location))
    } else {
        None
    }
}

/// Builds the map link of a location from its name and, where they are
/// known, its coordinates.
pub fn map_url(location: &Location) -> (r: Option<String>)
    ensures
        r.deep_view() == map_url_of(location),
{
    if location.toponym.as_str().unicode_len() > URL_TEXT_LIMIT {
        return None;
    }
    match &location.coordinates {
        Some(coordinates) => {
            if coordinates.as_str().unicode_len() > URL_TEXT_LIMIT {
                return None;
            }
        },
        None => {},
    }
    proof {
        reveal_strlit("https://maps.apple.com/maps");
        reveal_strlit("q");
        reveal_strlit("ll");
    }
    let mut params: Vec<(String, String)> = Vec::new();
    params.push((String::from_str("q"), location.toponym.clone()));
    match &location.coordinates {
        Some(coordinates) => {
            params.push((String::from_str("ll"), coordinates.clone()));
        },
        None => {},
    }
    assert(pairs_of(params@) == map_params(location));
    match url_with_params("https://maps.apple.com/maps", &params) {
        Ok(url) => Some(url),
        Err(_) => None,
    }
}

/// Markup of a location: its name, linked to the map where there is a link.
pub open spec fn location_markup(location: &Location, map_url: Option<Seq<char>>) -> Seq<char> {
    match map_url {
        Some(url) => link_markup(url, location.toponym@),
        None => escaped(location.toponym@),
    }
}

/// Appends the markup of a location.
pub fn push_location(out: &mut String, location: &Location, map_url: &Option<String>)
    ensures
        final(out)@ == old(out)@ + location_markup(location, map_url.deep_view()),
{
    match map_url {
        Some(url) => {
            push_link(out, url.as_str(), location.toponym.as_str());
        },
        None => {
            push_escaped(out, location.toponym.as_str());
        },
    }
}

/// Markup of links, each after a delimiter.
pub open spec fn links_markup(links: Seq<LinkView>) -> Seq<char>
    decreases links.len(),
{
    if links.len() == 0 {
        Seq::empty()
    } else {
        links_markup(links.drop_last()) + delimiter() + link_markup(
            links.last().url,
            links.last().content,
        )
    }
}

/// Markup of a search query with the links that manage it.
pub open spec fn manage_markup(search_query: Seq<char>, links: Seq<LinkView>) -> Seq<char> {
    "<em>"@ + escaped(search_query) + "</em>"@ + links_markup(links)
}

/// A search query as text, together with the links that manage it.
#[derive(Debug, Clone, PartialEq, Eq)]
pub struct ManageSearchQuery {
    pub search_query: String,
    pub links: Vec<Link>,
}

impl ManageSearchQuery {
    /// The query with its links.
    pub fn new(search_query: String, links: Vec<Link>) -> (r: ManageSearchQuery)
        ensures
            r.search_query == search_query,
            r.links == links,
    {
        ManageSearchQuery { search_query, links }
    }

    /// Markup of the query and its links.
    pub open spec fn markup(&self) -> Seq<char> {
        manage_markup(self.search_query@, self.links.deep_view())
    }

    /// Appends the markup of the query and its links.
    pub fn push_to(&self, out: &mut String)
        ensures
            final(out)@ == old(out)@ + self.markup(),
    {
        out.append("<em>");
        push_escaped(out, self.search_query.as_str());
        out.append("</em>");
        let ghost start = out@;
        let mut i: usize = 0;
        while i < self.links.len()
            invariant
                i <= self.links.len(),
                out@ == start + links_markup(self.links.deep_view().take(i as int)),
            decreases self.links.len() - i,
        {
            proof {
                let next = self.links.deep_view().take(i + 1);
                assert(next.drop_last() == self.links.deep_view().take(i as int));
                assert(next.last() == self.links@[i as int].deep_view());
            }
            out.append("<strong> • </strong>");
            push_link(out, self.links[i].url.as_str(), self.links[i].content.as_str());
            i += 1;
        }
        assert(self.links.deep_view().take(i as int) == self.links.deep_view());
    }
}

/// Markup of the seller and the place of an item.
pub open spec fn origin_markup(item: &Item, map_url: Option<Seq<char>>) -> Seq<char> {
    match (item.seller, item.location) {
        (Some(seller), Some(location)) => "\n\n"@ + seller_markup(&seller) + delimiter()
            + location_markup(&location, map_url),
        (Some(seller), None) => "\n\n"@ + seller_markup(&seller),
        (None, Some(location)) => "\n\n"@ + location_markup(&location, map_url),
        (None, None) => Seq::empty(),
    }
}

/// Markup of the price of an item with its condition and delivery.
pub open spec fn facts_markup(item: &Item) -> Seq<char> {
    price_markup(item.price) + (match item.condition {
        Some(condition) => delimiter() + condition_markup(condition),
        None => Seq::empty(),
    }) + (match item.delivery {
        Some(delivery) => delimiter() + delivery_markup(delivery),
        None => Seq::empty(),
    })
}

/// Appends the price of an item with its condition and delivery.
pub fn push_facts(out: &mut String, item: &Item)
    ensures
        final(out)@ == old(out)@ + facts_markup(item),
{
    push_price(out, item.price);
    let ghost priced = out@;
    match item.condition {
        Some(condition) => {
            out.append("<strong> • </strong>");
            out.append(condition_text(condition));
            assert(out@ == priced + (delimiter() + condition_markup(condition)));
        },
        None => {
            assert(out@ == priced + Seq::<char>::empty());
        },
    }
    let ghost conditioned = out@;
    match item.delivery {
        Some(delivery) => {
            out.append("<strong> • </strong>");
            push_delivery(out, delivery);
            assert(out@ == conditioned + (delimiter() + delivery_markup(delivery)));
        },
        None => {
            assert(out@ == conditioned + Seq::<char>::empty());
        },
    }
}

/// Appends the seller and the place of an item.
pub fn push_origin(out: &mut String, item: &Item, map_url: &Option<String>)
    ensures
        final(out)@ == old(out)@ + origin_markup(item, map_url.deep_view()),
{
    match (&item.seller, &item.location) {
        (Some(seller), Some(location)) => {
            out.append("\n\n");
            push_seller(out, seller);
            out.append("<strong> • </strong>");
            push_location(out, location, map_url);
            assert(out@ == old(out)@ + ("\n\n"@ + seller_markup(seller) + delimiter()
                + location_markup(location, map_url.deep_view())));
        },
        (Some(seller), None) => {
            out.append("\n\n");
            push_seller(out, seller);
            assert(out@ == old(out)@ + ("\n\n"@ + seller_markup(seller)));
        },
        (None, Some(location)) => {
            out.append("\n\n");
            push_location(out, location, map_url);
            assert(out@ == old(out)@ + ("\n\n"@ + location_markup(
                location,
                map_url.deep_view(),
            )));
        },
        (None, None) => {
            assert(out@ == old(out)@ + Seq::<char>::empty());
        },
    }
}

/// Markup of the description of an item: the linked title, the search query
/// with its links, the price with condition and delivery, the quoted
/// description, and the seller with the place.
pub open spec fn item_markup(item: &Item, manage: Seq<char>, map_url: Option<Seq<char>>) -> Seq<
    char,
> {
    "<strong>"@ + link_markup(item.url@, item.title@) + "</strong>\n"@ + manage + "\n\n"@
        + facts_markup(item) + "\n\n<blockquote>"@ + escaped(item.description@)
        + "</blockquote>"@ + origin_markup(item, map_url)
}

/// Renders the description of an item, given the map link of its place.
pub fn item_description_with(
    item: &Item,
    manage: &ManageSearchQuery,
    map_url: &Option<String>,
) -> (r: String)
    ensures
        r@ == item_markup(item, manage.markup(), map_url.deep_view()),
{
    let mut out = String::from_str("<strong>");
    push_link(&mut out, item.url.as_str(), item.title.as_str());
    out.append("</strong>\n");
    manage.push_to(&mut out);
    out.append("\n\n");
    push_facts(&mut out, item);
    out.append("\n\n<blockquote>");
    push_escaped(&mut out, item.description.as_str());
    out.append("</blockquote>");
    push_origin(&mut out, item, map_url);
    out
}

/// The map link of the place of an item, if it has a place and a link can be
/// made.
pub open spec fn item_map_url_of(item: &Item) -> Option<Seq<char>> {
    match item.location {
        Some(location) => map_url_of(&location),
        None => None,
    }
}

/// Renders the description of an item.
pub fn item_description(item: &Item, manage: &ManageSearchQuery) -> (r: String)
    ensures
        r@ == item_markup(item, manage.markup(), item_map_url_of(item)),
{
    let url = match &item.location {
        Some(location) => map_url(location),
        None => None,
    };
    item_description_with(item, manage, &url)
}

} // verus!
