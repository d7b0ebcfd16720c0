//! Search queries in canonical form: a set of tokens to look for and a set of
//! tokens to leave out, both lowercased, folded to ASCII and kept in
//! lexicographic order.

use crate::text::{
    chars_of, compare, insert_sorted, is_whitespace, lemma_sorted_insert,
    lemma_sorted_insert_last, lemma_split_around_space, lemma_split_single, lemma_views_push,
    no_whitespace, sorted_insert, split_whitespace, strictly_sorted, string_of, tokens, views,
    whitespace, Order,
};
use vstd::prelude::*;
use vstd::string::{StrSliceExecFns, StringExecFns};

verus! {

/// What `str::to_lowercase` returns for a text.
pub uninterp spec fn lowercase_of(text: Seq<char>) -> Seq<char>;

/// What `deunicode::deunicode` returns for a text.
pub uninterp spec fn deunicode_of(text: Seq<char>) -> Seq<char>;

/// Calls `str::to_lowercase`: the lowercase form of the text, which depends
/// on the text alone.
#[verifier::external_body]
fn to_lowercase(text: &str) -> (r: String)
    ensures
        r@ == lowercase_of(text@),
{
    text.to_lowercase()
}

/// Calls `deunicode::deunicode`: the ASCII transliteration of the text, which
/// depends on the text alone.
#[verifier::external_body]
fn deunicode(text: &str) -> (r: String)
    ensures
        r@ == deunicode_of(text@),
{
    deunicode::deunicode(text)
}

/// The canonical form of a token: lowercased, then folded to ASCII.
pub open spec fn normalised(token: Seq<char>) -> Seq<char> {
    deunicode_of(lowercase_of(token))
}

/// The canonical forms of the tokens of `s`, in order.
pub open spec fn normalised_all(s: Seq<Seq<char>>) -> Seq<Seq<char>> {
    Seq::new(s.len(), |i: int| normalised(s[i]))
}

/// Whether a token asks to leave a term out.
pub open spec fn is_negative(token: Seq<char>) -> bool {
    token.len() > 0 && token[0] == '-'
}

/// The parts of `parts`, with `sep` between each two.
pub open spec fn joined(parts: Seq<Seq<char>>, sep: Seq<char>) -> Seq<char>
    decreases parts.len(),
{
    if parts.len() == 0 {
        Seq::empty()
    } else if parts.len() == 1 {
        parts[0]
    } else {
        joined(parts.drop_last(), sep) + sep + parts.last()
    }
}

/// Each token of `s` with a `-` before it.
pub open spec fn negated(s: Seq<Seq<char>>) -> Seq<Seq<char>> {
    Seq::new(s.len(), |i: int| seq!['-'] + s[i])
}

/// Mathematical model of a normalised query.
pub struct QueryView {
    /// Tokens that a match must contain, in increasing order.
    pub included: Seq<Seq<char>>,
    /// Tokens that a match must not contain, in increasing order.
    pub excluded: Seq<Seq<char>>,
}

impl QueryView {
    /// The query without any token.
    pub open spec fn empty() -> QueryView {
        QueryView { included: Seq::empty(), excluded: Seq::empty() }
    }

    /// Both token sets are strictly increasing, so nothing occurs twice.
    pub open spec fn sorted(self) -> bool {
        strictly_sorted(self.included) && strictly_sorted(self.excluded)
    }

    /// The query after one more canonical token was read.
    pub open spec fn with_token(self, token: Seq<char>) -> QueryView {
        if is_negative(token) {
            QueryView { excluded: sorted_insert(self.excluded, token.drop_first()), ..self }
        } else {
            QueryView { included: sorted_insert(self.included, token), ..self }
        }
    }

    /// The query that a sequence of canonical tokens stands for.
    pub open spec fn of_tokens(tokens: Seq<Seq<char>>) -> QueryView
        decreases tokens.len(),
    {
        if tokens.len() == 0 {
            QueryView::empty()
        } else {
            QueryView::of_tokens(tokens.drop_last()).with_token(tokens.last())
        }
    }

    /// The query that a text stands for.
    pub open spec fn parsed(text: Seq<char>) -> QueryView {
        QueryView::of_tokens(normalised_all(split_whitespace(text)))
    }

    /// The text handed to a marketplace: the included tokens.
    pub open spec fn search_text(self) -> Seq<char> {
        joined(self.included, seq![' '])
    }

    /// The canonical text: included tokens, then excluded ones with a `-`.
    pub open spec fn unparsed(self) -> Seq<char> {
        joined(self.included + negated(self.excluded), seq![' '])
    }

    /// Whether a set of canonical terms has every included token and none of
    /// the excluded ones.
    pub open spec fn matches(self, terms: Seq<Seq<char>>) -> bool {
        &&& forall|i: int| 0 <= i < self.included.len() ==> terms.contains(#[trigger] self.included[i])
        &&& forall|i: int|
            0 <= i < self.excluded.len() ==> !terms.contains(#[trigger] self.excluded[i])
    }
}

/// What a sequence of canonical tokens stands for is sorted, and holds
/// exactly the tokens read.
pub proof fn lemma_of_tokens(tokens: Seq<Seq<char>>)
    ensures
        QueryView::of_tokens(tokens).sorted(),
        forall|x: Seq<char>| #[trigger]
            QueryView::of_tokens(tokens).included.contains(x) <==> (tokens.contains(x)
                && !is_negative(x)),
        forall|x: Seq<char>| #[trigger]
            QueryView::of_tokens(tokens).excluded.contains(x) <==> tokens.contains(seq!['-'] + x),
    decreases tokens.len(),
{
    let q = QueryView::of_tokens(tokens);
    if tokens.len() == 0 {
    } else {
        let init = tokens.drop_last();
        let t = tokens.last();
        let p = QueryView::of_tokens(init);
        lemma_of_tokens(init);
        lemma_sorted_insert(p.included, t);
        lemma_sorted_insert(p.excluded, t.drop_first());
        assert forall|x: Seq<char>| tokens.contains(x) <==> (init.contains(x) || x == t) by {
            if tokens.contains(x) {
                let k = choose|k: int| 0 <= k < tokens.len() && tokens[k] == x;
                if k < init.len() {
                    assert(init[k] == x);
                }
            }
            if init.contains(x) {
                let k = choose|k: int| 0 <= k < init.len() && init[k] == x;
                assert(tokens[k] == x);
            }
            if x == t {
                assert(tokens[tokens.len() - 1] == x);
            }
        }
        assert forall|x: Seq<char>| #[trigger]
            q.excluded.contains(x) <==> tokens.contains(seq!['-'] + x) by {
            let d = seq!['-'] + x;
            assert(d.drop_first() =~= x);
            assert(is_negative(d));
            if is_negative(t) {
                assert(seq!['-'] + t.drop_first() =~= t);
            }
        }
    }
}

/// A search query in canonical form.
#[derive(Debug)]
pub struct NormalisedQuery {
    included: Vec<String>,
    excluded: Vec<String>,
}

impl View for NormalisedQuery {
    type V = QueryView;

    closed spec fn view(&self) -> QueryView {
        QueryView { included: views(self.included@), excluded: views(self.excluded@) }
    }
}

/// Joins strings with a separator between each two.
pub fn join(parts: &Vec<String>, sep: &str) -> (r: String)
    ensures
        r@ == joined(views(parts@), sep@),
{
    let mut out = String::new();
    let mut i: usize = 0;
    let ghost p = views(parts@);
    while i < parts.len()
        invariant
            i <= parts.len(),
            p == views(parts@),
            out@ == joined(p.take(i as int), sep@),
        decreases parts.len() - i,
    {
        if i > 0 {
            out.append(sep);
        }
        out.append(parts[i].as_str());
        proof {
            let next = p.take(i + 1);
            assert(next.drop_last() == p.take(i as int));
            assert(next.last() == parts[i as int]@);
            if i == 0 {
                assert(out@ =~= next[0]);
            }
        }
        i += 1;
    }
    assert(p.take(i as int) == p);
    out
}

/// A copy of a vector of strings.
pub fn copy_strings(v: &Vec<String>) -> (r: Vec<String>)
    ensures
        views(r@) == views(v@),
{
    let mut out: Vec<String> = Vec::new();
    let mut i: usize = 0;
    while i < v.len()
        invariant
            i <= v.len(),
            views(out@) == views(v@).take(i as int),
        decreases v.len() - i,
    {
        let s = v[i].clone();
        proof {
            lemma_views_push(out@, s);
            assert(views(v@).take(i + 1) == views(v@).take(i as int).push(s@));
        }
        out.push(s);
        i += 1;
    }
    assert(views(v@).take(i as int) == views(v@));
    out
}

impl Clone for NormalisedQuery {
    fn clone(&self) -> (r: Self)
        ensures
            r@ == self@,
    {
        proof {
            use_type_invariant(self);
        }
        NormalisedQuery {
            included: copy_strings(&self.included),
            excluded: copy_strings(&self.excluded),
        }
    }
}

impl NormalisedQuery {
    #[verifier::type_invariant]
    spec fn inv(self) -> bool {
        self@.sorted()
    }

    /// Brings a token to its canonical form: lowercase, then ASCII.
    pub fn normalise_token(token: &str) -> (r: String)
        ensures
            r@ == normalised(token@),
    {
        let lower = to_lowercase(token);
        deunicode(lower.as_str())
    }

    /// The query that a sequence of canonical tokens stands for: a token that
    /// begins with `-` excludes the rest of it, any other token is included.
    pub fn from_tokens(tokens: &Vec<String>) -> (r: NormalisedQuery)
        ensures
            r@ == QueryView::of_tokens(views(tokens@)),
            r@.sorted(),
    {
        let mut included: Vec<String> = Vec::new();
        let mut excluded: Vec<String> = Vec::new();
        let ghost all = views(tokens@);
        let mut i: usize = 0;
        while i < tokens.len()
            invariant
                i <= tokens.len(),
                all == views(tokens@),
                views(included@) == QueryView::of_tokens(all.take(i as int)).included,
                views(excluded@) == QueryView::of_tokens(all.take(i as int)).excluded,
            decreases tokens.len() - i,
        {
            let chars = chars_of(tokens[i].as_str());
            proof {
                let next = all.take(i + 1);
                assert(next.drop_last() == all.take(i as int));
                assert(next.last() == tokens[i as int]@);
            }
            if chars.len() > 0 && chars[0] == '-' {
                let rest = string_of(&chars, 1, chars.len());
                assert(rest@ == chars@.drop_first());
                insert_sorted(&mut excluded, rest);
            } else {
                insert_sorted(&mut included, string_of(&chars, 0, chars.len()));
                assert(chars@.subrange(0, chars.len() as int) == chars@);
            }
            i += 1;
        }
        proof {
            assert(all.take(i as int) == all);
            lemma_of_tokens(all);
        }
        NormalisedQuery { included, excluded }
    }

    /// Reads a query from a text: splits it on whitespace, brings each token
    /// to its canonical form and sorts the tokens into the two sets.
    pub fn parse(text: &str) -> (r: NormalisedQuery)
        ensures
            r@ == QueryView::parsed(text@),
            r@.sorted(),
    {
        let raw = tokens(text);
        let mut canonical: Vec<String> = Vec::new();
        let mut i: usize = 0;
        while i < raw.len()
            invariant
                i <= raw.len(),
                views(canonical@) == normalised_all(views(raw@).take(i as int)),
            decreases raw.len() - i,
        {
            let token = Self::normalise_token(raw[i].as_str());
            proof {
                let seen = views(raw@).take(i as int);
                lemma_views_push(canonical@, token);
                assert(views(raw@).take(i + 1) == seen.push(raw[i as int]@));
                assert(normalised_all(seen.push(raw[i as int]@)) == normalised_all(seen).push(
                    token@,
                ));
            }
            canonical.push(token);
            i += 1;
        }
        assert(views(raw@).take(i as int) == views(raw@));
        Self::from_tokens(&canonical)
    }

    /// The included tokens, in increasing order.
    pub fn included(&self) -> (r: &Vec<String>)
        ensures
            views(r@) == self@.included,
            strictly_sorted(self@.included),
    {
        proof {
            use_type_invariant(self);
        }
        &self.included
    }

    /// The excluded tokens, in increasing order.
    pub fn excluded(&self) -> (r: &Vec<String>)
        ensures
            views(r@) == self@.excluded,
            strictly_sorted(self@.excluded),
    {
        proof {
            use_type_invariant(self);
        }
        &self.excluded
    }

    /// The text to hand to a marketplace: the included tokens, separated by
    /// single spaces.
    pub fn to_search_text(&self) -> (r: String)
        ensures
            r@ == self@.search_text(),
    {
        proof {
            reveal_strlit(" ");
            assert(" "@ =~= seq![' ']);
        }
        join(&self.included, " ")
    }

    /// The canonical text of the query: the included tokens, then the
    /// excluded ones with a `-` before each, separated by single spaces.
    pub fn unparse(&self) -> (r: String)
        ensures
            r@ == self@.unparsed(),
    {
        let mut parts: Vec<String> = Vec::new();
        let mut i: usize = 0;
        while i < self.included.len()
            invariant
                i <= self.included.len(),
                views(parts@) == views(self.included@).take(i as int),
            decreases self.included.len() - i,
        {
            let token = self.included[i].clone();
            proof {
                lemma_views_push(parts@, token);
                assert(views(self.included@).take(i + 1) == views(self.included@).take(
                    i as int,
                ).push(token@));
            }
            parts.push(token);
            i += 1;
        }
        assert(views(self.included@).take(i as int) == views(self.included@));
        let mut j: usize = 0;
        while j < self.excluded.len()
            invariant
                j <= self.excluded.len(),
                views(parts@) == views(self.included@) + negated(views(self.excluded@).take(j as int)),
            decreases self.excluded.len() - j,
        {
            let mut token = String::new();
            token.push('-');
            token.append(self.excluded[j].as_str());
            proof {
                let seen = views(self.excluded@).take(j as int);
                lemma_views_push(parts@, token);
                assert(views(self.excluded@).take(j + 1) == seen.push(self.excluded[j as int]@));
                assert(negated(seen.push(self.excluded[j as int]@)) == negated(seen).push(token@));
                assert((views(self.included@) + negated(seen)).push(token@) == views(
                    self.included@,
                ) + negated(seen).push(token@));
            }
            parts.push(token);
            j += 1;
        }
        assert(views(self.excluded@).take(j as int) == views(self.excluded@));
        proof {
            reveal_strlit(" ");
            assert(" "@ =~= seq![' ']);
        }
        join(&parts, " ")
    }
}

/// First value of the 64-bit FNV-1a hash.
pub const FNV_OFFSET_BASIS: u64 = 0xcbf29ce484222325;

/// Multiplier of the 64-bit FNV-1a hash.
pub const FNV_PRIME: u64 = 0x100000001b3;

/// The 64-bit FNV-1a hash of a byte sequence.
pub open spec fn fnv1a(bytes: Seq<u8>) -> u64
    decreases bytes.len(),
{
    if bytes.len() == 0 {
        FNV_OFFSET_BASIS
    } else {
        (((fnv1a(bytes.drop_last()) ^ (bytes.last() as u64)) * FNV_PRIME)
            % 0x1_0000_0000_0000_0000) as u64
    }
}

/// The fingerprint of a canonical text: the FNV-1a hash of its UTF-8 bytes,
/// read as a signed number.
pub open spec fn fingerprint_of(text: Seq<char>) -> i64 {
    fnv1a(vstd::utf8::encode_utf8(text)) as i64
}

/// Computes the fingerprint of a text.
pub fn fingerprint_text(text: &str) -> (r: i64)
    ensures
        r == fingerprint_of(text@),
{
    let bytes = text.as_bytes();
    let mut hash: u64 = FNV_OFFSET_BASIS;
    let mut i: usize = 0;
    while i < bytes.len()
        invariant
            i <= bytes.len(),
            bytes@ == vstd::utf8::encode_utf8(text@),
            hash == fnv1a(bytes@.take(i as int)),
        decreases bytes.len() - i,
    {
        let byte = bytes[i];
        proof {
            let next = bytes@.take(i + 1);
            assert(next.drop_last() == bytes@.take(i as int));
            assert(next.last() == byte);
        }
        hash = (hash ^ (byte as u64)).wrapping_mul(FNV_PRIME);
        i += 1;
    }
    assert(bytes@.take(i as int) == bytes@);
    hash as i64
}

/// A token that reads back as itself: not empty, free of whitespace and in
/// canonical form already.
pub open spec fn stable(token: Seq<char>) -> bool {
    token.len() > 0 && no_whitespace(token) && normalised(token) == token
}

impl QueryView {
    /// Whether every token of the query reads back as itself from the
    /// canonical text.
    pub open spec fn canonical(self) -> bool {
        &&& self.sorted()
        &&& forall|i: int|
            0 <= i < self.included.len() ==> stable(#[trigger] self.included[i]) && !is_negative(
                self.included[i],
            )
        &&& forall|i: int|
            0 <= i < self.excluded.len() ==> stable(seq!['-'] + #[trigger] self.excluded[i])
    }

    /// The fingerprint of the query.
    pub open spec fn fingerprint(self) -> i64 {
        fingerprint_of(self.unparsed())
    }
}

/// Whether `terms` holds a string equal to `token`.
pub fn contains(terms: &Vec<String>, token: &String) -> (r: bool)
    ensures
        r == views(terms@).contains(token@),
{
    let mut i: usize = 0;
    while i < terms.len()
        invariant
            i <= terms.len(),
            forall|k: int| 0 <= k < i ==> views(terms@)[k] != token@,
        decreases terms.len() - i,
    {
        if terms[i] == *token {
            assert(views(terms@)[i as int] == token@);
            return true;
        }
        i += 1;
    }
    false
}

/// Whether a string is free of whitespace.
pub fn free_of_whitespace(text: &str) -> (r: bool)
    ensures
        r == no_whitespace(text@),
{
    let chars = chars_of(text);
    let mut i: usize = 0;
    while i < chars.len()
        invariant
            i <= chars.len(),
            chars@ == text@,
            forall|k: int| 0 <= k < i ==> !is_whitespace(#[trigger] chars@[k]),
        decreases chars.len() - i,
    {
        if whitespace(chars[i]) {
            return false;
        }
        i += 1;
    }
    true
}

/// Whether a token is not empty, free of whitespace and in canonical form.
pub fn is_stable(token: &str) -> (r: bool)
    ensures
        r == stable(token@),
{
    if token.unicode_len() == 0 || !free_of_whitespace(token) {
        return false;
    }
    let again = NormalisedQuery::normalise_token(token);
    compare(again.as_str(), token) == Order::Equal
}

impl NormalisedQuery {
    /// Whether canonical terms hold every included token and none of the
    /// excluded ones.
    pub fn matches_normalised(&self, terms: &Vec<String>) -> (r: bool)
        ensures
            r == self@.matches(views(terms@)),
    {
        let mut i: usize = 0;
        while i < self.included.len()
            invariant
                i <= self.included.len(),
                forall|k: int| 0 <= k < i ==> views(terms@).contains(#[trigger] self@.included[k]),
            decreases self.included.len() - i,
        {
            if !contains(terms, &self.included[i]) {
                assert(!views(terms@).contains(self@.included[i as int]));
                return false;
            }
            i += 1;
        }
        let mut j: usize = 0;
        while j < self.excluded.len()
            invariant
                j <= self.excluded.len(),
                forall|k: int|
                    0 <= k < self@.included.len() ==> views(terms@).contains(
                        #[trigger] self@.included[k],
                    ),
                forall|k: int| 0 <= k < j ==> !views(terms@).contains(#[trigger] self@.excluded[k]),
            decreases self.excluded.len() - j,
        {
            if contains(terms, &self.excluded[j]) {
                assert(views(terms@).contains(self@.excluded[j as int]));
                return false;
            }
            j += 1;
        }
        true
    }

    /// Whether the terms of a listing match the query: each term is brought
    /// to its canonical form, then every included token must be among them
    /// and no excluded one.
    pub fn matches(&self, terms: &Vec<String>) -> (r: bool)
        ensures
            r == self@.matches(normalised_all(views(terms@))),
    {
        let mut canonical: Vec<String> = Vec::new();
        let mut i: usize = 0;
        while i < terms.len()
            invariant
                i <= terms.len(),
                views(canonical@) == normalised_all(views(terms@).take(i as int)),
            decreases terms.len() - i,
        {
            let term = Self::normalise_token(terms[i].as_str());
            proof {
                let seen = views(terms@).take(i as int);
                lemma_views_push(canonical@, term);
                assert(views(terms@).take(i + 1) == seen.push(terms[i as int]@));
                assert(normalised_all(seen.push(terms[i as int]@)) == normalised_all(seen).push(
                    term@,
                ));
            }
            canonical.push(term);
            i += 1;
        }
        assert(views(terms@).take(i as int) == views(terms@));
        self.matches_normalised(&canonical)
    }

    /// The fingerprint of the query: a hash of its canonical text.
    pub fn fingerprint(&self) -> (r: i64)
        ensures
            r == self@.fingerprint(),
    {
        let text = self.unparse();
        fingerprint_text(text.as_str())
    }

    /// Whether the query reads back as itself from its canonical text.
    pub fn is_canonical(&self) -> (r: bool)
        ensures
            r == self@.canonical(),
    {
        proof {
            use_type_invariant(self);
        }
        let mut i: usize = 0;
        while i < self.included.len()
            invariant
                i <= self.included.len(),
                forall|k: int|
                    0 <= k < i ==> stable(#[trigger] self@.included[k]) && !is_negative(
                        self@.included[k],
                    ),
            decreases self.included.len() - i,
        {
            let token = self.included[i].as_str();
            if !is_stable(token) || token.get_char(0) == '-' {
                assert(!(stable(self@.included[i as int]) && !is_negative(
                    self@.included[i as int],
                )));
                return false;
            }
            i += 1;
        }
        let mut j: usize = 0;
        while j < self.excluded.len()
            invariant
                j <= self.excluded.len(),
                forall|k: int| 0 <= k < j ==> stable(seq!['-'] + #[trigger] self@.excluded[k]),
            decreases self.excluded.len() - j,
        {
            let mut token = String::new();
            token.push('-');
            token.append(self.excluded[j].as_str());
            if !is_stable(token.as_str()) {
                assert(!stable(seq!['-'] + self@.excluded[j as int]));
                return false;
            }
            j += 1;
        }
        true
    }
}

/// The tokens of parts joined by single spaces are the parts, where each
/// part is not empty and free of whitespace.
pub proof fn lemma_split_joined(parts: Seq<Seq<char>>)
    requires
        forall|i: int| 0 <= i < parts.len() ==> (#[trigger] parts[i]).len() > 0 && no_whitespace(
            parts[i],
        ),
    ensures
        split_whitespace(joined(parts, seq![' '])) == parts,
    decreases parts.len(),
{
    if parts.len() == 0 {
        assert(split_whitespace(joined(parts, seq![' '])) =~= parts);
    } else if parts.len() == 1 {
        lemma_split_single(parts[0]);
        assert(seq![parts[0]] =~= parts);
    } else {
        let init = parts.drop_last();
        lemma_split_joined(init);
        lemma_split_around_space(joined(init, seq![' ']), parts.last());
        lemma_split_single(parts.last());
        assert(init + seq![parts.last()] =~= parts);
    }
}

/// Reading increasing tokens, none of which begins with `-`, includes them
/// in their order.
pub proof fn lemma_of_tokens_included(tokens: Seq<Seq<char>>)
    requires
        strictly_sorted(tokens),
        forall|i: int| 0 <= i < tokens.len() ==> !is_negative(#[trigger] tokens[i]),
    ensures
        QueryView::of_tokens(tokens) == (QueryView { included: tokens, excluded: Seq::empty() }),
    decreases tokens.len(),
{
    if tokens.len() > 0 {
        let init = tokens.drop_last();
        lemma_of_tokens_included(init);
        lemma_sorted_insert_last(init, tokens.last());
        assert(init.push(tokens.last()) =~= tokens);
    } else {
        assert(QueryView::of_tokens(tokens).included =~= tokens);
    }
}

/// Reading the tokens of a canonical text gives back the two token sets.
pub proof fn lemma_of_tokens_unparsed(positive: Seq<Seq<char>>, negative: Seq<Seq<char>>)
    requires
        strictly_sorted(positive),
        strictly_sorted(negative),
        forall|i: int| 0 <= i < positive.len() ==> !is_negative(#[trigger] positive[i]),
    ensures
        QueryView::of_tokens(positive + negated(negative)) == (QueryView {
            included: positive,
            excluded: negative,
        }),
    decreases negative.len(),
{
    if negative.len() == 0 {
        assert(positive + negated(negative) =~= positive);
        lemma_of_tokens_included(positive);
        assert(negative =~= Seq::empty());
    } else {
        let init = negative.drop_last();
        let all = positive + negated(negative);
        lemma_of_tokens_unparsed(positive, init);
        assert(all.drop_last() =~= positive + negated(init));
        assert(all.last() == seq!['-'] + negative.last());
        assert(all.last().drop_first() =~= negative.last());
        lemma_sorted_insert_last(init, negative.last());
        assert(init.push(negative.last()) =~= negative);
    }
}

/// Parsing the canonical text of a canonical query gives the query back.
pub proof fn law_parse_unparse(q: QueryView)
    requires
        q.canonical(),
    ensures
        QueryView::parsed(q.unparsed()) == q,
{
    let parts = q.included + negated(q.excluded);
    assert forall|i: int| 0 <= i < parts.len() implies stable(#[trigger] parts[i]) by {
        if i < q.included.len() {
            assert(parts[i] == q.included[i]);
        } else {
            assert(parts[i] == seq!['-'] + q.excluded[i - q.included.len()]);
        }
    }
    lemma_split_joined(parts);
    assert(normalised_all(parts) =~= parts);
    lemma_of_tokens_unparsed(q.included, q.excluded);
}

/// Normalisation is idempotent: the canonical text of a parsed query parses
/// to the same query, where the tokens of the query read back as themselves.
pub proof fn law_normalisation_idempotent(text: Seq<char>)
    requires
        QueryView::parsed(text).canonical(),
    ensures
        QueryView::parsed(QueryView::parsed(text).unparsed()) == QueryView::parsed(text),
{
    law_parse_unparse(QueryView::parsed(text));
}

/// The fingerprint depends on the canonical text alone.
pub proof fn law_fingerprint_of_text(p: QueryView, q: QueryView)
    requires
        p.unparsed() == q.unparsed(),
    ensures
        p.fingerprint() == q.fingerprint(),
{
}

/// A parsed query matches exactly the term sets that hold the canonical form
/// of each of its positive tokens and of none of its negative ones.
pub proof fn law_matches(text: Seq<char>, terms: Seq<Seq<char>>)
    ensures
        QueryView::parsed(text).matches(terms) <==> {
            let tokens = normalised_all(split_whitespace(text));
            &&& forall|x: Seq<char>|
                tokens.contains(x) && !is_negative(x) ==> #[trigger] terms.contains(x)
            &&& forall|x: Seq<char>| #[trigger]
                tokens.contains(seq!['-'] + x) ==> !terms.contains(x)
        },
{
    let tokens = normalised_all(split_whitespace(text));
    let q = QueryView::parsed(text);
    lemma_of_tokens(tokens);
    if q.matches(terms) {
        assert forall|x: Seq<char>| tokens.contains(x) && !is_negative(x) implies #[trigger]
            terms.contains(x) by {
            assert(q.included.contains(x));
        }
        assert forall|x: Seq<char>| #[trigger]
            tokens.contains(seq!['-'] + x) implies !terms.contains(x) by {
            assert(q.excluded.contains(x));
        }
    }
    if (forall|x: Seq<char>| tokens.contains(x) && !is_negative(x) ==> #[trigger] terms.contains(x))
        && (forall|x: Seq<char>| #[trigger] tokens.contains(seq!['-'] + x) ==> !terms.contains(x)) {
        assert forall|i: int| 0 <= i < q.included.len() implies terms.contains(
            #[trigger] q.included[i],
        ) by {
            assert(q.included.contains(q.included[i]));
        }
        assert forall|i: int| 0 <= i < q.excluded.len() implies !terms.contains(
            #[trigger] q.excluded[i],
        ) by {
            assert(q.excluded.contains(q.excluded[i]));
        }
    }
}

} // verus!
