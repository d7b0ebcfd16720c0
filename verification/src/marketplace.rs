//! What the marketplaces share: queries, items, the search that never fails
//! and the search bot.

pub mod item;
pub mod marktplaats;
pub mod search;
pub mod search_bot;
pub mod vinted;

use crate::marketplace::item::Item;
use crate::marketplace::search::{normalised_all, NormalisedQuery, QueryView};
use crate::text::{split_whitespace, tokens};
use vstd::prelude::*;

verus! {

/// The first `limit` items, or all of them where there are fewer or there
/// is no limit.
pub open spec fn limited(items: Seq<Item>, limit: Option<usize>) -> Seq<Item> {
    match limit {
        Some(limit) => if limit < items.len() {
            items.take(limit as int)
        } else {
            items
        },
        None => items,
    }
}

/// What a search that may fail counts as: its items up to the limit, or
/// nothing where it failed.
pub open spec fn spec_search_infallible<E>(
    outcome: Result<Vec<Item>, E>,
    limit: Option<usize>,
) -> Seq<Item> {
    match outcome {
        Ok(items) => limited(items@, limit),
        Err(_) => Seq::empty(),
    }
}

/// Turns the outcome of a search into items: a failed search found nothing,
/// and of the items of a good one the first `limit` are kept.
pub fn search_infallible<E>(outcome: Result<Vec<Item>, E>, limit: Option<usize>) -> (r: Vec<Item>)
    ensures
        r@ == spec_search_infallible(outcome, limit),
{
    match outcome {
        Ok(items) => {
            let mut items = items;
            match limit {
                Some(limit) => {
                    if limit < items.len() {
                        items.truncate(limit);
                    }
                },
                None => {},
            }
            items
        },
        Err(_) => Vec::new(),
    }
}

/// The items of several marketplaces, one marketplace after the other.
pub open spec fn merged(found: Seq<Vec<Item>>) -> Seq<Item>
    decreases found.len(),
{
    if found.len() == 0 {
        Seq::empty()
    } else {
        merged(found.drop_last()) + found.last()@
    }
}

/// Puts together what the marketplaces found, keeping the order of the
/// marketplaces and of the items of each.
pub fn merge(found: Vec<Vec<Item>>) -> (r: Vec<Item>)
    ensures
        r@ == merged(found@),
{
    let mut found = found;
    let ghost all = found@;
    let mut out: Vec<Item> = Vec::new();
    let mut i: usize = 0;
    while i < found.len()
        invariant
            i <= found.len(),
            found@.len() == all.len(),
            forall|k: int| i <= k < all.len() ==> found@[k]@ == all[k]@,
            out@ == merged(all.take(i as int)),
        decreases found.len() - i,
    {
        proof {
            let next = all.take(i + 1);
            assert(next.drop_last() == all.take(i as int));
            assert(next.last() == all[i as int]);
        }
        let mut part: Vec<Item> = Vec::new();
        std::mem::swap(&mut part, &mut found[i]);
        out.append(&mut part);
        i += 1;
    }
    assert(all.take(i as int) == all);
    out
}

/// Whether the words of the title of an item match a query.
pub open spec fn item_matches(query: QueryView, item: &Item) -> bool {
    query.matches(normalised_all(split_whitespace(item.title@)))
}

/// The items whose titles match a query, in their order.
pub open spec fn retained(query: QueryView, items: Seq<Item>) -> Seq<Item>
    decreases items.len(),
{
    if items.len() == 0 {
        Seq::empty()
    } else {
        let rest = retained(query, items.drop_last());
        if item_matches(query, &items.last()) {
            rest.push(items.last())
        } else {
            rest
        }
    }
}

/// Keeps the items whose titles match a query: a marketplace cannot leave
/// terms out, so what it found is matched once more.
pub fn retain_matching(query: &NormalisedQuery, items: Vec<Item>) -> (r: Vec<Item>)
    ensures
        r@ == retained(query@, items@),
{
    let mut out: Vec<Item> = Vec::new();
    let ghost all = items@;
    for item in it: items
        invariant
            it.seq() == all,
            out@ == retained(query@, all.take(it.index() as int)),
    {
        proof {
            let next = all.take(it.index() + 1);
            assert(next.drop_last() == all.take(it.index() as int));
            assert(next.last() == item);
        }
        let terms = tokens(item.title.as_str());
        if query.matches(&terms) {
            out.push(item);
        }
    }
    assert(all.take(all.len() as int) == all);
    out
}

} // verus!
