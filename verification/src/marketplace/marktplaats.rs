//! Listings of the Marktplaats marketplace, and what becomes of them after a
//! search: the marketplace cannot leave terms out, so what it returns is
//! matched against the query once more.

use crate::marketplace::item::{Amount, Condition, Delivery, Item, Location, Price, Seller};
use crate::marketplace::search::{normalised_all, NormalisedQuery, QueryView};
use crate::text::{lemma_views_deep, lemma_views_push, split_whitespace, tokens, views};
use vstd::prelude::*;

verus! {

/// How the price of a listing is to be read.
#[derive(Debug, Clone, Copy, PartialEq, Eq, Structural)]
pub enum PriceType {
    Exchange,
    FastBid,
    Fixed,
    Free,
    MinBid,
    OnRequest,
    Reserved,
    SeeDescription,
    ToBeAgreed,
}

/// Price of a listing.
#[derive(Debug, Clone, Copy, PartialEq, Eq, Structural)]
pub struct PriceInfo {
    pub cents: u64,
    pub type_: PriceType,
}

impl PriceInfo {
    /// The price in the form that all marketplaces share.
    pub open spec fn spec_price(self) -> Price {
        match self.type_ {
            PriceType::Exchange => Price::Exchange,
            PriceType::FastBid => Price::FastBid,
            PriceType::Fixed => Price::Fixed(Amount { cents: self.cents }),
            PriceType::Free => Price::Fixed(Amount { cents: 0 }),
            PriceType::MinBid => Price::MinimalBid(Amount { cents: self.cents }),
            PriceType::OnRequest => Price::OnRequest,
            PriceType::Reserved => Price::Reserved,
            PriceType::SeeDescription => Price::SeeDescription,
            PriceType::ToBeAgreed => Price::ToBeAgreed,
        }
    }

    /// The price in the form that all marketplaces share.
    pub fn price(&self) -> (r: Price)
        ensures
            r == self.spec_price(),
    {
        match self.type_ {
            PriceType::Exchange => Price::Exchange,
            PriceType::FastBid => Price::FastBid,
            PriceType::Fixed => Price::Fixed(Amount { cents: self.cents }),
            PriceType::Free => Price::Fixed(Amount { cents: 0 }),
            PriceType::MinBid => Price::MinimalBid(Amount { cents: self.cents }),
            PriceType::OnRequest => Price::OnRequest,
            PriceType::Reserved => Price::Reserved,
            PriceType::SeeDescription => Price::SeeDescription,
            PriceType::ToBeAgreed => Price::ToBeAgreed,
        }
    }
}

/// A listing as the marketplace returns it.
#[derive(Debug, Clone, PartialEq, Eq)]
pub struct Listing {
    pub item_id: String,
    /// Public page of the listing.
    pub url: String,
    pub title: String,
    pub description: String,
    pub price: PriceInfo,
    /// Brand of the article, where the listing names one.
    pub brand: Option<String>,
    pub condition: Option<Condition>,
    pub delivery: Option<Delivery>,
    pub seller: Option<Seller>,
    pub location: Option<Location>,
    /// URLs of the pictures.
    pub pictures: Vec<String>,
}

/// The terms of a listing that a query is matched against: the words of the
/// title, then the brand.
pub open spec fn listing_terms(listing: &Listing) -> Seq<Seq<char>> {
    split_whitespace(listing.title@) + (match listing.brand {
        Some(brand) => seq![brand@],
        None => Seq::empty(),
    })
}

/// Whether a listing matches a query.
pub open spec fn listing_matches(query: QueryView, listing: &Listing) -> bool {
    query.matches(normalised_all(listing_terms(listing)))
}

/// Whether an item is a listing in the form that all marketplaces share.
pub open spec fn is_item_of(item: &Item, listing: &Listing) -> bool {
    &&& item.id@ == listing.item_id@
    &&& item.url@ == listing.url@
    &&& item.title@ == listing.title@
    &&& item.description@ == listing.description@
    &&& item.price == listing.price.spec_price()
    &&& item.condition == listing.condition
    &&& item.delivery == listing.delivery
    &&& item.seller.is_some() == listing.seller.is_some()
    &&& item.seller matches Some(seller) ==> {
        &&& seller.username@ == listing.seller.unwrap().username@
        &&& seller.profile_url@ == listing.seller.unwrap().profile_url@
    }
    &&& item.location.is_some() == listing.location.is_some()
    &&& item.location matches Some(location) ==> {
        &&& location.toponym@ == listing.location.unwrap().toponym@
        &&& location.coordinates.deep_view() == listing.location.unwrap().coordinates.deep_view()
    }
    &&& item.pictures.deep_view() == listing.pictures.deep_view()
}

/// The listings that match a query, in their order.
pub open spec fn matching(query: QueryView, listings: Seq<Listing>) -> Seq<Listing>
    decreases listings.len(),
{
    if listings.len() == 0 {
        Seq::empty()
    } else {
        let rest = matching(query, listings.drop_last());
        if listing_matches(query, &listings.last()) {
            rest.push(listings.last())
        } else {
            rest
        }
    }
}

/// A copy of an optional string.
fn copy_optional(text: &Option<String>) -> (r: Option<String>)
    ensures
        r.deep_view() == text.deep_view(),
{
    match text {
        Some(text) => Some(text.clone()),
        None => None,
    }
}

impl Listing {
    /// Tells whether the listing matches a query: every included token of
    /// the query must be among the words of the title and the brand, and no
    /// excluded one.
    pub fn matches(&self, query: &NormalisedQuery) -> (r: bool)
        ensures
            r == listing_matches(query@, self),
    {
        let mut terms = tokens(self.title.as_str());
        match &self.brand {
            Some(brand) => {
                let term = brand.clone();
                proof {
                    lemma_views_push(terms@, term);
                }
                terms.push(term);
                assert(views(terms@) == listing_terms(self));
            },
            None => {
                assert(views(terms@) == listing_terms(self));
            },
        }
        query.matches(&terms)
    }

    /// The listing in the form that all marketplaces share.
    pub fn to_item(&self) -> (r: Item)
        ensures
            is_item_of(&r, self),
    {
        let seller = match &self.seller {
            Some(seller) => Some(
                Seller {
                    username: seller.username.clone(),
                    profile_url: seller.profile_url.clone(),
                },
            ),
            None => None,
        };
        let location = match &self.location {
            Some(location) => Some(
                Location {
                    toponym: location.toponym.clone(),
                    coordinates: copy_optional(&location.coordinates),
                },
            ),
            None => None,
        };
        let pictures = crate::marketplace::search::copy_strings(&self.pictures);
        proof {
            lemma_views_deep(&pictures);
            lemma_views_deep(&self.pictures);
        }
        Item {
            id: self.item_id.clone(),
            url: self.url.clone(),
            title: self.title.clone(),
            description: self.description.clone(),
            price: self.price.price(),
            condition: self.condition,
            delivery: self.delivery,
            seller,
            location,
            pictures,
        }
    }
}

/// What a search is left with: the listings that match the query, in their
/// order, each as an item.
pub fn matching_items(query: &NormalisedQuery, listings: &Vec<Listing>) -> (r: Vec<Item>)
    ensures
        r@.len() == matching(query@, listings@).len(),
        forall|i: int|
            0 <= i < r@.len() ==> is_item_of(&#[trigger] r@[i], &matching(query@, listings@)[i]),
{
    let mut out: Vec<Item> = Vec::new();
    let mut i: usize = 0;
    while i < listings.len()
        invariant
            i <= listings.len(),
            out@.len() == matching(query@, listings@.take(i as int)).len(),
            forall|k: int|
                0 <= k < out@.len() ==> is_item_of(
                    &#[trigger] out@[k],
                    &matching(query@, listings@.take(i as int))[k],
                ),
        decreases listings.len() - i,
    {
        proof {
            let next = listings@.take(i + 1);
            assert(next.drop_last() == listings@.take(i as int));
            assert(next.last() == listings@[i as int]);
        }
        if listings[i].matches(query) {
            out.push(listings[i].to_item());
        }
        i += 1;
    }
    assert(listings@.take(i as int) == listings@);
    out
}

} // verus!
