//! What the client of the Vinted marketplace decides: which cookies are its
//! tokens, what the status of a search means, and how the tokens are kept.

use crate::db::key_values::{
    field, first_field, lemma_first_field, lemma_text_round_trip, push_field, read_field,
    read_text, text_of, KeyedMessage,
};
use crate::marketplace::item::Amount;
use crate::text::chars_of;
use vstd::prelude::*;
use vstd::string::StringExecFns;
use vstd::utf8::encode_utf8;

verus! {

/// Tag of the access token.
pub const TAG_ACCESS: u8 = 1;

/// Tag of the refresh token.
pub const TAG_REFRESH: u8 = 2;

/// The tokens that authenticate the client.
#[derive(Debug, Clone, PartialEq, Eq)]
pub struct AuthenticationTokens {
    pub access: String,
    pub refresh: String,
}

/// Mathematical model of the tokens.
pub struct TokensView {
    pub access: Seq<char>,
    pub refresh: Seq<char>,
}

impl DeepView for AuthenticationTokens {
    type V = TokensView;

    open spec fn deep_view(&self) -> TokensView {
        TokensView { access: self.access@, refresh: self.refresh@ }
    }
}

impl TokensView {
    /// The bytes of the tokens: the access token, then the refresh token.
    pub open spec fn encoded(self) -> Seq<u8> {
        field(TAG_ACCESS, encode_utf8(self.access)) + field(TAG_REFRESH, encode_utf8(self.refresh))
    }

    /// The tokens read so far, after the fields in `bytes` were read too.
    /// Fields with other tags are passed over; of a field that occurs twice
    /// the last one counts.
    pub open spec fn decoded_onto(self, bytes: Seq<u8>) -> Option<TokensView>
        decreases bytes.len(),
    {
        if bytes.len() == 0 {
            Some(self)
        } else {
            match first_field(bytes) {
                None => None,
                Some(found) => if found.tag == TAG_ACCESS {
                    match text_of(found.value) {
                        Some(access) => (TokensView { access, ..self }).decoded_onto(found.rest),
                        None => None,
                    }
                } else if found.tag == TAG_REFRESH {
                    match text_of(found.value) {
                        Some(refresh) => (TokensView { refresh, ..self }).decoded_onto(
                            found.rest,
                        ),
                        None => None,
                    }
                } else {
                    self.decoded_onto(found.rest)
                },
            }
        }
    }

    /// The tokens that bytes stand for. A token that the bytes do not hold
    /// is empty.
    pub open spec fn decoded(bytes: Seq<u8>) -> Option<TokensView> {
        (TokensView { access: Seq::empty(), refresh: Seq::empty() }).decoded_onto(bytes)
    }
}

/// Round trip: reading the bytes of tokens gives the tokens back.
pub proof fn law_tokens_round_trip(tokens: TokensView)
    requires
        encode_utf8(tokens.access).len() <= u64::MAX,
        encode_utf8(tokens.refresh).len() <= u64::MAX,
    ensures
        TokensView::decoded(tokens.encoded()) == Some(tokens),
{
    let access = encode_utf8(tokens.access);
    let refresh = encode_utf8(tokens.refresh);
    let tail = field(TAG_REFRESH, refresh);
    let half = TokensView { access: tokens.access, refresh: Seq::empty() };
    lemma_text_round_trip(tokens.access);
    lemma_text_round_trip(tokens.refresh);
    lemma_first_field(TAG_ACCESS, access, tail);
    lemma_first_field(TAG_REFRESH, refresh, Seq::empty());
    assert(tail + Seq::<u8>::empty() == tail);
    assert(tail.len() > 0);
    assert(half.decoded_onto(tail) == Some(tokens)) by {
        assert(tokens.decoded_onto(Seq::<u8>::empty()) == Some(tokens));
    }
    assert(tokens.encoded().len() > 0);
}

impl KeyedMessage for AuthenticationTokens {
    fn key() -> (r: &'static str)
        ensures
            r@ == "mrktpltsbot::marketplace::vinted::client::AuthenticationTokens"@,
    {
        "mrktpltsbot::marketplace::vinted::client::AuthenticationTokens"
    }

    fn encode_to_vec(&self) -> (r: Vec<u8>)
        ensures
            r@ == self.deep_view().encoded(),
    {
        let mut out: Vec<u8> = Vec::new();
        push_field(&mut out, TAG_ACCESS, self.access.as_str().as_bytes());
        push_field(&mut out, TAG_REFRESH, self.refresh.as_str().as_bytes());
        out
    }

    fn decode(bytes: &Vec<u8>) -> (r: Option<AuthenticationTokens>)
        ensures
            r.deep_view() == TokensView::decoded(bytes@),
    {
        let mut tokens = AuthenticationTokens { access: String::new(), refresh: String::new() };
        let mut at: usize = 0;
        assert(bytes@.skip(0) == bytes@);
        while at < bytes.len()
            invariant
                at <= bytes.len(),
                TokensView::decoded(bytes@) == tokens.deep_view().decoded_onto(
                    bytes@.skip(at as int),
                ),
            decreases bytes.len() - at,
        {
            match read_field(bytes, at) {
                None => {
                    return None;
                },
                Some((tag, from, to)) => {
                    if tag == TAG_ACCESS {
                        match read_text(bytes, from, to) {
                            Some(access) => {
                                tokens.access = access;
                            },
                            None => {
                                return None;
                            },
                        }
                    } else if tag == TAG_REFRESH {
                        match read_text(bytes, from, to) {
                            Some(refresh) => {
                                tokens.refresh = refresh;
                            },
                            None => {
                                return None;
                            },
                        }
                    }
                    at = to;
                },
            }
        }
        Some(tokens)
    }
}

/// Whether two characters are the same but for the case of ASCII letters.
pub open spec fn same_ignoring_case(a: char, b: char) -> bool {
    ||| a == b
    ||| ('A' <= a <= 'Z' && b as u32 == a as u32 + 32)
    ||| ('A' <= b <= 'Z' && a as u32 == b as u32 + 32)
}

/// Whether two texts are the same but for the case of ASCII letters.
pub open spec fn matches_ignoring_case(a: Seq<char>, b: Seq<char>) -> bool {
    a.len() == b.len() && forall|i: int|
        0 <= i < a.len() ==> same_ignoring_case(#[trigger] a[i], b[i])
}

/// Compares two texts without regard to the case of ASCII letters.
pub fn eq_ignore_ascii_case(a: &str, b: &str) -> (r: bool)
    ensures
        r == matches_ignoring_case(a@, b@),
{
    let x = chars_of(a);
    let y = chars_of(b);
    if x.len() != y.len() {
        return false;
    }
    let mut i: usize = 0;
    while i < x.len()
        invariant
            i <= x.len(),
            x.len() == y.len(),
            x@ == a@,
            y@ == b@,
            forall|k: int| 0 <= k < i ==> same_ignoring_case(#[trigger] x@[k], y@[k]),
        decreases x.len() - i,
    {
        let c = x[i];
        let d = y[i];
        let same = c == d || ('A' <= c && c <= 'Z' && d as u32 == c as u32 + 32) || ('A' <= d && d
            <= 'Z' && c as u32 == d as u32 + 32);
        if !same {
            assert(!same_ignoring_case(x@[i as int], y@[i as int]));
            return false;
        }
        i += 1;
    }
    true
}

/// The value of the last cookie whose name is `name` but for the case of
/// letters.
pub open spec fn cookie_named(cookies: Seq<(String, String)>, name: Seq<char>) -> Option<
    Seq<char>,
>
    decreases cookies.len(),
{
    if cookies.len() == 0 {
        None
    } else if matches_ignoring_case(cookies.last().0@, name) {
        Some(cookies.last().1@)
    } else {
        cookie_named(cookies.drop_last(), name)
    }
}

/// Why cookies hold no tokens.
#[derive(Debug, Clone, Copy, PartialEq, Eq, Structural)]
pub enum MissingCookie {
    Access,
    Refresh,
}

/// The tokens among cookies: the access token first, so that a missing
/// access token is reported before a missing refresh token.
pub open spec fn tokens_of(cookies: Seq<(String, String)>) -> Result<TokensView, MissingCookie> {
    match cookie_named(cookies, "access_token_web"@) {
        None => Err(MissingCookie::Access),
        Some(access) => match cookie_named(cookies, "refresh_token_web"@) {
            None => Err(MissingCookie::Refresh),
            Some(refresh) => Ok(TokensView { access, refresh }),
        },
    }
}

/// Looks a cookie up by its name.
pub fn find_cookie(cookies: &Vec<(String, String)>, name: &str) -> (r: Option<String>)
    ensures
        r.deep_view() == cookie_named(cookies@, name@),
{
    let mut i: usize = cookies.len();
    assert(cookies@.take(cookies.len() as int) == cookies@);
    while i > 0
        invariant
            i <= cookies.len(),
            cookie_named(cookies@, name@) == cookie_named(cookies@.take(i as int), name@),
        decreases i,
    {
        let ghost seen = cookies@.take(i as int);
        assert(seen.last() == cookies@[i - 1]);
        assert(seen.drop_last() == cookies@.take(i - 1));
        if eq_ignore_ascii_case(cookies[i - 1].0.as_str(), name) {
            return Some(cookies[i - 1].1.clone());
        }
        i -= 1;
    }
    None
}

/// Picks the tokens out of the cookies of a response that refreshed them.
pub fn tokens_from_cookies(cookies: &Vec<(String, String)>) -> (r: Result<
    AuthenticationTokens,
    MissingCookie,
>)
    ensures
        match r {
            Ok(tokens) => tokens_of(cookies@) == Ok::<TokensView, MissingCookie>(
                tokens.deep_view(),
            ),
            Err(missing) => tokens_of(cookies@) == Err::<TokensView, MissingCookie>(missing),
        },
{
    match find_cookie(cookies, "access_token_web") {
        None => Err(MissingCookie::Access),
        Some(access) => match find_cookie(cookies, "refresh_token_web") {
            None => Err(MissingCookie::Refresh),
            Some(refresh) => Ok(AuthenticationTokens { access, refresh }),
        },
    }
}

/// The cookie that carries a token in a request.
pub fn cookie(name: &str, token: &str) -> (r: String)
    ensures
        r@ == name@ + "="@ + token@,
{
    let mut out = String::from_str(name);
    out.append("=");
    out.append(token);
    out
}

/// What the status of a search means.
#[derive(Debug, Clone, Copy, PartialEq, Eq, Structural)]
pub enum SearchStatus {
    /// The access token is no longer taken: the tokens are to be refreshed.
    Reauthenticate,
    /// The search failed.
    Failed,
    /// The body holds the results.
    Results,
}

/// What an HTTP status of a search means: 401 and 403 ask for new tokens,
/// any other status of a client or server error is a failure.
pub open spec fn spec_search_status(status: u16) -> SearchStatus {
    if status == 401 || status == 403 {
        SearchStatus::Reauthenticate
    } else if 400 <= status < 600 {
        SearchStatus::Failed
    } else {
        SearchStatus::Results
    }
}

/// Tells what the HTTP status of a search means.
pub fn search_status(status: u16) -> (r: SearchStatus)
    ensures
        r == spec_search_status(status),
{
    if status == 401 || status == 403 {
        SearchStatus::Reauthenticate
    } else if 400 <= status && status < 600 {
        SearchStatus::Failed
    } else {
        SearchStatus::Results
    }
}

/// Whether a character is a decimal digit.
pub open spec fn is_digit(c: char) -> bool {
    '0' <= c <= '9'
}

/// The number that a decimal digit stands for.
pub open spec fn digit_of(c: char) -> nat {
    if is_digit(c) {
        (c as u32 - 48) as nat
    } else {
        0
    }
}

/// Whether a text holds decimal digits only.
pub open spec fn all_digits(s: Seq<char>) -> bool {
    forall|i: int| 0 <= i < s.len() ==> is_digit(#[trigger] s[i])
}

/// The number that decimal digits stand for.
pub open spec fn number_of(s: Seq<char>) -> nat
    decreases s.len(),
{
    if s.len() == 0 {
        0
    } else {
        number_of(s.drop_last()) * 10 + digit_of(s.last())
    }
}

/// Place of the first point in a text, or the length of the text where it
/// has none.
pub open spec fn point_index(s: Seq<char>) -> int
    decreases s.len(),
{
    if s.len() == 0 || s[0] == '.' {
        0
    } else {
        1 + point_index(s.drop_first())
    }
}

/// The cents of an amount in euros: digits, and after a point one or two
/// digits more. Any other text is no amount.
pub open spec fn cents_of(text: Seq<char>) -> Option<nat> {
    let point = point_index(text);
    let euros = text.take(point);
    if euros.len() == 0 || !all_digits(euros) {
        None
    } else if point >= text.len() {
        Some(number_of(euros) * 100)
    } else {
        let rest = text.skip(point + 1);
        if !all_digits(rest) {
            None
        } else if rest.len() == 1 {
            Some(number_of(euros) * 100 + number_of(rest) * 10)
        } else if rest.len() == 2 {
            Some(number_of(euros) * 100 + number_of(rest))
        } else {
            None
        }
    }
}

/// The amount that a text stands for, if it is one that the number type
/// holds.
pub open spec fn spec_amount_of(text: Seq<char>) -> Option<Amount> {
    match cents_of(text) {
        Some(cents) => if cents <= u64::MAX {
            Some(Amount { cents: cents as u64 })
        } else {
            None
        },
        None => None,
    }
}

/// A text without a point before `i`, which ends there or has a point
/// there, has its first point at `i`.
pub proof fn lemma_point_index(s: Seq<char>, i: int)
    requires
        0 <= i <= s.len(),
        forall|k: int| 0 <= k < i ==> s[k] != '.',
        i < s.len() ==> s[i] == '.',
    ensures
        point_index(s) == i,
    decreases s.len(),
{
    if i > 0 {
        lemma_point_index(s.drop_first(), i - 1);
    }
}

/// Reads decimal digits as a number, or nothing where the text holds
/// anything else or the number type does not hold the number.
pub fn read_number(chars: &Vec<char>, from: usize, to: usize) -> (r: Option<u64>)
    requires
        from <= to <= chars.len(),
    ensures
        match r {
            Some(n) => all_digits(chars@.subrange(from as int, to as int)) && n == number_of(
                chars@.subrange(from as int, to as int),
            ),
            None => !all_digits(chars@.subrange(from as int, to as int)) || number_of(
                chars@.subrange(from as int, to as int),
            ) > u64::MAX,
        },
{
    let ghost s = chars@.subrange(from as int, to as int);
    let mut n: u64 = 0;
    let mut i: usize = from;
    while i < to
        invariant
            from <= i <= to <= chars.len(),
            s == chars@.subrange(from as int, to as int),
            all_digits(s.take(i - from)),
            n == number_of(s.take(i - from)),
        decreases to - i,
    {
        let c = chars[i];
        if !('0' <= c && c <= '9') {
            assert(!is_digit(s[i - from]));
            return None;
        }
        let d: u64 = (c as u32 - 48) as u64;
        proof {
            let next = s.take(i - from + 1);
            assert(next.drop_last() == s.take(i - from));
            assert(next.last() == c);
            assert forall|k: int| 0 <= k < next.len() implies is_digit(#[trigger] next[k]) by {
                if k < i - from {
                    assert(s.take(i - from)[k] == next[k]);
                }
            }
        }
        if n > (u64::MAX - d) / 10 {
            proof {
                lemma_number_grows(s, i - from + 1);
            }
            return None;
        }
        n = n * 10 + d;
        i += 1;
    }
    assert(s.take(to - from) == s);
    Some(n)
}

/// The number of a text is at least the number of each of its beginnings.
pub proof fn lemma_number_grows(s: Seq<char>, i: int)
    requires
        0 <= i <= s.len(),
    ensures
        number_of(s.take(i)) <= number_of(s),
    decreases s.len() - i,
{
    if i < s.len() {
        lemma_number_grows(s, i + 1);
        let next = s.take(i + 1);
        assert(next.drop_last() == s.take(i));
    } else {
        assert(s.take(i) == s);
    }
}

/// Reads an amount in euros, as the marketplace writes it.
pub fn amount_of(text: &str) -> (r: Option<Amount>)
    ensures
        r == spec_amount_of(text@),
{
    let chars = chars_of(text);
    let n = chars.len();
    let mut point: usize = 0;
    while point < n && chars[point] != '.'
        invariant
            point <= n,
            n == chars.len(),
            forall|k: int| 0 <= k < point ==> chars@[k] != '.',
        decreases n - point,
    {
        point += 1;
    }
    proof {
        lemma_point_index(chars@, point as int);
        assert(chars@.take(point as int) == chars@.subrange(0, point as int));
    }
    if point == 0 {
        return None;
    }
    let euros = match read_number(&chars, 0, point) {
        Some(euros) => euros,
        None => {
            return None;
        },
    };
    let cents: u64 = if point == n {
        0
    } else {
        assert(chars@.skip(point + 1) == chars@.subrange(point + 1, n as int));
        let digits = n - point - 1;
        if digits != 1 && digits != 2 {
            return None;
        }
        let ghost rest = chars@.subrange(point + 1, n as int);
        match read_number(&chars, point + 1, n) {
            Some(rest_number) => {
                proof {
                    if rest.len() == 1 {
                        assert(number_of(rest.drop_last()) == 0);
                    } else {
                        assert(number_of(rest.drop_last().drop_last()) == 0);
                        assert(number_of(rest.drop_last()) < 10);
                    }
                }
                if digits == 1 {
                    rest_number * 10
                } else {
                    rest_number
                }
            },
            None => {
                proof {
                    if all_digits(rest) {
                        if rest.len() == 1 {
                            assert(number_of(rest.drop_last()) == 0);
                        } else {
                            assert(number_of(rest.drop_last().drop_last()) == 0);
                            assert(number_of(rest.drop_last()) < 10);
                        }
                    }
                }
                return None;
            },
        }
    };
    if euros > (u64::MAX - cents) / 100 {
        return None;
    }
    Some(Amount { cents: euros * 100 + cents })
}

} // verus!
