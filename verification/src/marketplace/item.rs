//! An item on sale, in the form that all marketplaces share.

use vstd::prelude::*;

verus! {

/// An amount of money, in cents.
#[derive(Debug, Clone, Copy, PartialEq, Eq, Structural)]
pub struct Amount {
    pub cents: u64,
}

/// What the seller asks for an item.
#[derive(Debug, Clone, Copy, PartialEq, Eq, Structural)]
pub enum Price {
    /// A fixed price; zero means the item is free.
    Fixed(Amount),
    OnRequest,
    /// Bids start at the amount.
    MinimalBid(Amount),
    /// Bids end at the amount.
    MaximalBid(Amount),
    SeeDescription,
    ToBeAgreed,
    Reserved,
    FastBid,
    Exchange,
}

/// How new a new item is.
#[derive(Debug, Clone, Copy, PartialEq, Eq, Structural)]
pub enum New {
    WithTags,
    WithoutTags,
    AsGood,
    Unspecified,
}

/// How good a used item is.
#[derive(Debug, Clone, Copy, PartialEq, Eq, Structural)]
pub enum Used {
    VeryGood,
    Good,
    Satisfactory,
    Unspecified,
    NotFullyFunctional,
}

/// Condition of an item.
#[derive(Debug, Clone, Copy, PartialEq, Eq, Structural)]
pub enum Condition {
    New(New),
    Used(Used),
    Refurbished,
}

/// How an item gets to its buyer.
#[derive(Debug, Clone, Copy, PartialEq, Eq, Structural)]
pub enum Delivery {
    CollectionOnly,
    ShippingOnly,
    Both,
}

/// Who sells an item.
#[derive(Debug, Clone, PartialEq, Eq)]
pub struct Seller {
    pub username: String,
    pub profile_url: String,
}

/// Where an item is.
#[derive(Debug, Clone, PartialEq, Eq)]
pub struct Location {
    /// Name of the place.
    pub toponym: String,
    /// Latitude and longitude in decimal degrees, written as `lat,long`.
    pub coordinates: Option<String>,
}

/// An item on sale.
#[derive(Debug, Clone, PartialEq, Eq)]
pub struct Item {
    /// Identifier of the item, unique over all marketplaces.
    pub id: String,
    /// Public page of the item.
    pub url: String,
    pub title: String,
    pub description: String,
    pub price: Price,
    pub condition: Option<Condition>,
    pub delivery: Option<Delivery>,
    pub seller: Option<Seller>,
    pub location: Option<Location>,
    /// URLs of the item's pictures.
    pub pictures: Vec<String>,
}

} // verus!
