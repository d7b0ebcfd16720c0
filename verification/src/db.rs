//! Rows of the store, and the cursor that walks the subscriptions in turn.
//! The store itself lives outside: the cursor says what to ask it and what
//! its answers mean.

pub mod key_values;

use crate::marketplace::search::{fingerprint_of, fingerprint_text, NormalisedQuery, QueryView};
use vstd::prelude::*;

verus! {

/// A search query in canonical form, with its fingerprint.
#[derive(Debug, PartialEq, Eq)]
pub struct SearchQuery {
    /// Fingerprint of the text.
    pub hash: i64,
    /// Canonical text of the query.
    pub text: String,
}

/// Mathematical model of a search query.
pub struct SearchQueryView {
    pub hash: i64,
    pub text: Seq<char>,
}

impl SearchQueryView {
    /// The query of a text as a user wrote it.
    pub open spec fn of_text(text: Seq<char>) -> SearchQueryView {
        SearchQueryView {
            hash: QueryView::parsed(text).fingerprint(),
            text: QueryView::parsed(text).unparsed(),
        }
    }
}

impl DeepView for SearchQuery {
    type V = SearchQueryView;

    open spec fn deep_view(&self) -> SearchQueryView {
        SearchQueryView { hash: self.hash, text: self.text@ }
    }
}

impl Clone for SearchQuery {
    fn clone(&self) -> (r: SearchQuery)
        ensures
            r == *self,
    {
        SearchQuery { hash: self.hash, text: self.text.clone() }
    }
}

impl SearchQuery {
    /// The fingerprint is that of the text.
    pub open spec fn wf(&self) -> bool {
        self.hash == fingerprint_of(self.text@)
    }

    /// The query of a text as a user wrote it: its canonical text and the
    /// fingerprint of that.
    pub fn from_text(text: &str) -> (r: SearchQuery)
        ensures
            r.deep_view() == SearchQueryView::of_text(text@),
            r.wf(),
    {
        let text = NormalisedQuery::parse(text).unparse();
        let hash = fingerprint_text(text.as_str());
        SearchQuery { hash, text }
    }

    /// The token sets of the query.
    pub fn to_normalised_query(&self) -> (r: NormalisedQuery)
        ensures
            r@ == QueryView::parsed(self.text@),
    {
        NormalisedQuery::parse(self.text.as_str())
    }
}

/// A chat that wants to hear of new items for a query.
#[derive(Debug, Clone, Copy, PartialEq, Eq, Structural)]
pub struct Subscription {
    pub query_hash: i64,
    pub chat_id: i64,
}

/// The fact that a chat has been told about an item.
#[derive(Debug, Clone, PartialEq, Eq)]
pub struct Notification {
    pub item_id: String,
    pub chat_id: i64,
}

/// An item as the store remembers it.
#[derive(Debug, Clone, PartialEq, Eq)]
pub struct Item {
    pub id: String,
    /// When the item was last fetched, in seconds since the Unix epoch.
    pub updated_at: i64,
}

/// Order of the subscriptions: by chat, then by query.
pub open spec fn precedes(a: Subscription, b: Subscription) -> bool {
    a.chat_id < b.chat_id || (a.chat_id == b.chat_id && a.query_hash < b.query_hash)
}

/// A question to the store about the subscriptions.
#[derive(Debug, Clone, Copy, PartialEq, Eq, Structural)]
pub enum CursorQuery {
    /// The first subscription in the order.
    First,
    /// The first subscription after the given one.
    After(Subscription),
}

/// How a step of the cursor goes on after an answer of the store.
#[derive(Debug, Clone, PartialEq, Eq)]
pub enum CursorStep<T> {
    /// The store is to be asked once more.
    Ask(CursorQuery),
    /// The step ends with the entry, or with none where there is no
    /// subscription at all.
    Yield(Option<T>),
}

/// What a step of the cursor asks first: the successor of the previous
/// subscription, or the first one on a fresh start.
pub open spec fn spec_first_query(previous: Option<Subscription>) -> CursorQuery {
    match previous {
        Some(previous) => CursorQuery::After(previous),
        None => CursorQuery::First,
    }
}

/// What an answer of the store means: where nothing comes after the
/// previous subscription the walk starts over, any other answer ends the
/// step.
pub open spec fn spec_resolve<T>(query: CursorQuery, row: Option<T>) -> CursorStep<T> {
    match (query, row) {
        (CursorQuery::After(_), None) => CursorStep::Ask(CursorQuery::First),
        (_, row) => CursorStep::Yield(row),
    }
}

/// What a step of the cursor asks first.
pub fn first_query(previous: Option<Subscription>) -> (r: CursorQuery)
    ensures
        r == spec_first_query(previous),
{
    match previous {
        Some(previous) => CursorQuery::After(previous),
        None => CursorQuery::First,
    }
}

/// What an answer of the store means for the step.
pub fn resolve<T>(query: CursorQuery, row: Option<T>) -> (r: CursorStep<T>)
    ensures
        r == spec_resolve(query, row),
{
    match query {
        CursorQuery::After(_) => match row {
            None => CursorStep::Ask(CursorQuery::First),
            Some(row) => CursorStep::Yield(Some(row)),
        },
        CursorQuery::First => CursorStep::Yield(row),
    }
}

/// Whether the rows are listed in their order, each once.
pub open spec fn in_order(rows: Seq<Subscription>) -> bool {
    forall|i: int, j: int| 0 <= i < j < rows.len() ==> precedes(#[trigger] rows[i], #[trigger] rows[j])
}

/// Place of the first row after `key`, or the number of rows if none is.
pub open spec fn successor_index(rows: Seq<Subscription>, key: Subscription) -> int
    decreases rows.len(),
{
    if rows.len() == 0 {
        0
    } else if precedes(key, rows[0]) {
        0
    } else {
        1 + successor_index(rows.drop_first(), key)
    }
}

/// What a store that holds `rows` answers to a question.
pub open spec fn answer(rows: Seq<Subscription>, query: CursorQuery) -> Option<Subscription> {
    match query {
        CursorQuery::First => if rows.len() > 0 {
            Some(rows[0])
        } else {
            None
        },
        CursorQuery::After(key) => {
            let i = successor_index(rows, key);
            if 0 <= i < rows.len() {
                Some(rows[i])
            } else {
                None
            }
        },
    }
}

/// The subscription that one step of the cursor reaches against a store that
/// holds `rows`.
pub open spec fn advanced(rows: Seq<Subscription>, previous: Option<Subscription>) -> Option<
    Subscription,
> {
    let query = spec_first_query(previous);
    match spec_resolve(query, answer(rows, query)) {
        CursorStep::Yield(entry) => entry,
        CursorStep::Ask(again) => match spec_resolve(again, answer(rows, again)) {
            CursorStep::Yield(entry) => entry,
            CursorStep::Ask(_) => None,
        },
    }
}

/// Where the cursor stands after a number of steps from a fresh start.
pub open spec fn cursor_after(rows: Seq<Subscription>, steps: nat) -> Option<Subscription>
    decreases steps,
{
    if steps == 0 {
        None
    } else {
        advanced(rows, cursor_after(rows, (steps - 1) as nat))
    }
}

/// The first row after `rows[i]` is the next one.
pub proof fn lemma_successor_of_row(rows: Seq<Subscription>, i: int)
    requires
        in_order(rows),
        0 <= i < rows.len(),
    ensures
        successor_index(rows, rows[i]) == i + 1,
    decreases rows.len(),
{
    let tail = rows.drop_first();
    assert(in_order(tail)) by {
        assert forall|a: int, b: int| 0 <= a < b < tail.len() implies precedes(
            #[trigger] tail[a],
            #[trigger] tail[b],
        ) by {
            assert(tail[a] == rows[a + 1] && tail[b] == rows[b + 1]);
        }
    }
    if i == 0 {
        if tail.len() > 0 {
            assert(precedes(rows[0], rows[1]));
            assert(tail[0] == rows[1]);
        }
        assert(successor_index(tail, rows[0]) == 0);
    } else {
        assert(precedes(rows[0], rows[i]));
        assert(tail[i - 1] == rows[i]);
        lemma_successor_of_row(tail, i - 1);
    }
}

/// The cursor walks the subscriptions in their order and starts over after
/// the last: from a fresh start, step `k` reaches row `(k - 1) mod n` of `n`
/// rows, so each row is reached within `n` steps, and the walk then cycles.
/// Where there is no row, every step ends with none.
pub proof fn law_cursor_cycles(rows: Seq<Subscription>, k: nat)
    requires
        in_order(rows),
        k >= 1,
    ensures
        rows.len() == 0 ==> cursor_after(rows, k) is None,
        rows.len() > 0 ==> cursor_after(rows, k) == Some(rows[(k - 1) % (rows.len() as int)]),
    decreases k,
{
    let n = rows.len() as int;
    if k == 1 {
        assert(cursor_after(rows, 0) is None);
    } else {
        law_cursor_cycles(rows, (k - 1) as nat);
        if n > 0 {
            let i = (k - 2) % n;
            let q = (k - 2) / n;
            vstd::arithmetic::div_mod::lemma_mod_bound(k - 2, n);
            vstd::arithmetic::div_mod::lemma_fundamental_div_mod(k - 2, n);
            lemma_successor_of_row(rows, i);
            if i + 1 < n {
                assert(k - 1 == q * n + (i + 1)) by (nonlinear_arith)
                    requires
                        k - 2 == n * q + i,
                ;
                vstd::arithmetic::div_mod::lemma_fundamental_div_mod_converse(
                    k - 1,
                    n,
                    q,
                    i + 1,
                );
            } else {
                assert(k - 1 == (q + 1) * n + 0) by (nonlinear_arith)
                    requires
                        k - 2 == n * q + i,
                        i + 1 == n,
                ;
                vstd::arithmetic::div_mod::lemma_fundamental_div_mod_converse(
                    k - 1,
                    n,
                    q + 1,
                    0,
                );
            }
        }
    }
}

} // verus!
