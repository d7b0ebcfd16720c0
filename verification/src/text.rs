//! Character-level helpers on strings: whitespace, tokens, ordering.

use vstd::prelude::*;

verus! {

/// `String::push` of std appends the character to the string.
pub assume_specification[ String::push ](s: &mut String, c: char)
    ensures
        final(s)@ == old(s)@.push(c),
;

/// Whether `c` has the Unicode `White_Space` property.
pub open spec fn is_whitespace(c: char) -> bool {
    let u = c as u32;
    ||| 0x09 <= u <= 0x0D
    ||| u == 0x20
    ||| u == 0x85
    ||| u == 0xA0
    ||| u == 0x1680
    ||| 0x2000 <= u <= 0x200A
    ||| u == 0x2028
    ||| u == 0x2029
    ||| u == 0x202F
    ||| u == 0x205F
    ||| u == 0x3000
}

/// Tests the `White_Space` property of a character.
pub fn whitespace(c: char) -> (r: bool)
    ensures
        r == is_whitespace(c),
{
    let u: u32 = c as u32;
    (0x09 <= u && u <= 0x0D) || u == 0x20 || u == 0x85 || u == 0xA0 || u == 0x1680 || (0x2000 <= u
        && u <= 0x200A) || u == 0x2028 || u == 0x2029 || u == 0x202F || u == 0x205F || u == 0x3000
}

/// The characters of a string slice, in order.
pub fn chars_of(s: &str) -> (r: Vec<char>)
    ensures
        r@ == s@,
{
    let mut out: Vec<char> = Vec::new();
    for c in it: s.chars()
        invariant
            out@ == s@.take(it.index() as int),
            it.seq() == s@,
    {
        out.push(c);
    }
    out
}

/// The string made of `v[from..to]`.
pub fn string_of(v: &Vec<char>, from: usize, to: usize) -> (r: String)
    requires
        from <= to <= v.len(),
    ensures
        r@ == v@.subrange(from as int, to as int),
{
    let mut out = String::new();
    let mut i: usize = from;
    while i < to
        invariant
            from <= i <= to <= v.len(),
            out@ == v@.subrange(from as int, i as int),
        decreases to - i,
    {
        out.push(v[i]);
        i += 1;
    }
    out
}

/// Length of the longest prefix of `s` without whitespace.
pub open spec fn token_len(s: Seq<char>) -> nat
    decreases s.len(),
{
    if s.len() == 0 || is_whitespace(s[0]) {
        0
    } else {
        1 + token_len(s.drop_first())
    }
}

/// The maximal runs of non-whitespace characters of `s`, in order. The
/// leading token of a text that begins without whitespace is never empty:
/// the test of its length only shows that the rest of the text is shorter.
pub open spec fn split_whitespace(s: Seq<char>) -> Seq<Seq<char>>
    decreases s.len(),
{
    if s.len() == 0 {
        Seq::empty()
    } else if is_whitespace(s[0]) {
        split_whitespace(s.drop_first())
    } else {
        let n = token_len(s) as int;
        if 0 < n <= s.len() {
            seq![s.take(n)] + split_whitespace(s.skip(n))
        } else {
            Seq::empty()
        }
    }
}

/// Whether `s` contains no whitespace.
pub open spec fn no_whitespace(s: Seq<char>) -> bool {
    forall|i: int| 0 <= i < s.len() ==> !is_whitespace(#[trigger] s[i])
}

/// The leading token lies within the text, holds no whitespace, ends the
/// text or is followed by whitespace, and is not empty where the text
/// begins without whitespace.
pub proof fn lemma_token_len_bound(s: Seq<char>)
    ensures
        token_len(s) <= s.len(),
        no_whitespace(s.take(token_len(s) as int)),
        token_len(s) < s.len() ==> is_whitespace(s[token_len(s) as int]),
        s.len() > 0 && !is_whitespace(s[0]) ==> token_len(s) > 0,
    decreases s.len(),
{
    if s.len() == 0 || is_whitespace(s[0]) {
    } else {
        let t = s.drop_first();
        lemma_token_len_bound(t);
        let n = token_len(s) as int;
        assert forall|i: int| 0 <= i < n implies !is_whitespace(#[trigger] s.take(n)[i]) by {
            if i > 0 {
                assert(s.take(n)[i] == t.take(n - 1)[i - 1]);
            }
        }
    }
}

/// A run of `n` non-whitespace characters that ends the text or is followed
/// by whitespace is the leading token.
pub proof fn lemma_token_len_is(s: Seq<char>, n: int)
    requires
        0 <= n <= s.len(),
        no_whitespace(s.take(n)),
        n < s.len() ==> is_whitespace(s[n]),
    ensures
        token_len(s) == n,
    decreases s.len(),
{
    if n == 0 {
    } else {
        assert(s.take(n)[0] == s[0]);
        let t = s.drop_first();
        assert forall|i: int| 0 <= i < n - 1 implies !is_whitespace(#[trigger] t.take(n - 1)[i]) by {
            assert(t.take(n - 1)[i] == s.take(n)[i + 1]);
        }
        lemma_token_len_is(t, n - 1);
    }
}

/// Splits a text on whitespace into its tokens.
pub fn tokens(text: &str) -> (r: Vec<String>)
    ensures
        views(r@) == split_whitespace(text@),
{
    let chars = chars_of(text);
    let n = chars.len();
    let mut out: Vec<String> = Vec::new();
    let ghost mut done: Seq<Seq<char>> = Seq::empty();
    let mut i: usize = 0;
    assert(chars@.skip(0) == chars@);
    while i < n
        invariant
            n == chars.len(),
            chars@ == text@,
            i <= n,
            out@.len() == done.len(),
            forall|k: int| 0 <= k < out@.len() ==> (#[trigger] out@[k])@ == done[k],
            split_whitespace(text@) == done + split_whitespace(chars@.skip(i as int)),
        decreases n - i,
    {
        let ghost rest = chars@.skip(i as int);
        if whitespace(chars[i]) {
            assert(rest.drop_first() == chars@.skip(i + 1));
            i += 1;
        } else {
            let start = i;
            while i < n && !whitespace(chars[i])
                invariant
                    n == chars.len(),
                    start <= i <= n,
                    forall|k: int| start <= k < i ==> !is_whitespace(#[trigger] chars@[k]),
                decreases n - i,
            {
                i += 1;
            }
            let token = string_of(&chars, start, i);
            proof {
                let m = i - start;
                assert(rest.take(m) == chars@.subrange(start as int, i as int));
                lemma_token_len_is(rest, m);
                assert(rest.skip(m) == chars@.skip(i as int));
                done = done.push(token@);
                assert(seq![rest.take(m)] + split_whitespace(rest.skip(m)) == split_whitespace(
                    rest,
                ));
            }
            out.push(token);
        }
    }
    assert(chars@.skip(n as int).len() == 0);
    assert(views(out@) =~= done);
    out
}

/// Result of comparing two strings.
#[derive(Clone, Copy, Debug, PartialEq, Eq, Structural)]
pub enum Order {
    Less,
    Equal,
    Greater,
}

/// Lexicographic order on character sequences, by code point.
pub open spec fn lex_lt(a: Seq<char>, b: Seq<char>) -> bool
    decreases a.len(),
{
    if b.len() == 0 {
        false
    } else if a.len() == 0 {
        true
    } else if a[0] != b[0] {
        (a[0] as u32) < (b[0] as u32)
    } else {
        lex_lt(a.drop_first(), b.drop_first())
    }
}

/// How `a` stands to `b` in lexicographic order.
pub open spec fn order_of(a: Seq<char>, b: Seq<char>) -> Order {
    if a == b {
        Order::Equal
    } else if lex_lt(a, b) {
        Order::Less
    } else {
        Order::Greater
    }
}

/// Dropping a common first character does not change the order.
pub proof fn lemma_order_step(a: Seq<char>, b: Seq<char>)
    requires
        a.len() > 0,
        b.len() > 0,
        a[0] == b[0],
    ensures
        order_of(a, b) == order_of(a.drop_first(), b.drop_first()),
{
    if a.drop_first() == b.drop_first() {
        assert(a =~= seq![a[0]] + a.drop_first());
        assert(b =~= seq![b[0]] + b.drop_first());
    }
}

/// Compares two character vectors lexicographically by code point.
pub fn compare_chars(a: &Vec<char>, b: &Vec<char>) -> (r: Order)
    ensures
        r == order_of(a@, b@),
{
    let mut i: usize = 0;
    assert(a@.skip(0) == a@ && b@.skip(0) == b@);
    while i < a.len() && i < b.len()
        invariant
            i <= a.len(),
            i <= b.len(),
            order_of(a@, b@) == order_of(a@.skip(i as int), b@.skip(i as int)),
        decreases a.len() - i,
    {
        let x = a[i];
        let y = b[i];
        if x != y {
            assert(a@.skip(i as int) != b@.skip(i as int)) by {
                assert(a@.skip(i as int)[0] != b@.skip(i as int)[0]);
            }
            if (x as u32) < (y as u32) {
                return Order::Less;
            } else {
                return Order::Greater;
            }
        }
        proof {
            lemma_order_step(a@.skip(i as int), b@.skip(i as int));
            assert(a@.skip(i as int).drop_first() == a@.skip(i + 1));
            assert(b@.skip(i as int).drop_first() == b@.skip(i + 1));
        }
        i += 1;
    }
    if i < b.len() {
        assert(a@.skip(i as int).len() == 0);
        Order::Less
    } else if i < a.len() {
        assert(b@.skip(i as int).len() == 0);
        Order::Greater
    } else {
        assert(a@.skip(i as int) =~= b@.skip(i as int));
        Order::Equal
    }
}

/// Compares two strings lexicographically by code point.
pub fn compare(a: &str, b: &str) -> (r: Order)
    ensures
        r == order_of(a@, b@),
{
    let x = chars_of(a);
    let y = chars_of(b);
    compare_chars(&x, &y)
}

/// No text comes before itself.
pub proof fn lemma_lex_irreflexive(a: Seq<char>)
    ensures
        !lex_lt(a, a),
    decreases a.len(),
{
    if a.len() > 0 {
        lemma_lex_irreflexive(a.drop_first());
    }
}

/// Of two texts, at most one comes before the other, and then they differ.
pub proof fn lemma_lex_asymmetric(a: Seq<char>, b: Seq<char>)
    requires
        lex_lt(a, b),
    ensures
        !lex_lt(b, a),
        a != b,
    decreases a.len(),
{
    lemma_lex_irreflexive(a);
    if a.len() > 0 && b.len() > 0 && a[0] == b[0] {
        lemma_lex_asymmetric(a.drop_first(), b.drop_first());
    }
}

/// Of two texts that differ, one comes before the other.
pub proof fn lemma_lex_total(a: Seq<char>, b: Seq<char>)
    ensures
        lex_lt(a, b) || a == b || lex_lt(b, a),
    decreases a.len(),
{
    if a.len() == 0 || b.len() == 0 {
        if a.len() == 0 && b.len() == 0 {
            assert(a =~= b);
        }
    } else if a[0] == b[0] {
        lemma_lex_total(a.drop_first(), b.drop_first());
        if a.drop_first() == b.drop_first() {
            assert(a =~= seq![a[0]] + a.drop_first());
            assert(b =~= seq![b[0]] + b.drop_first());
        }
    } else {
        vstd::utf8::char_u32_cast(a[0], a[0] as u32);
        vstd::utf8::char_u32_cast(b[0], b[0] as u32);
    }
}

/// What comes before a text comes before everything that the text comes
/// before.
pub proof fn lemma_lex_transitive(a: Seq<char>, b: Seq<char>, c: Seq<char>)
    requires
        lex_lt(a, b),
        lex_lt(b, c),
    ensures
        lex_lt(a, c),
    decreases a.len(),
{
    if a.len() > 0 && b.len() > 0 && c.len() > 0 && a[0] == b[0] && b[0] == c[0] {
        lemma_lex_transitive(a.drop_first(), b.drop_first(), c.drop_first());
    }
}

/// Whether `s` is strictly increasing in lexicographic order.
pub open spec fn strictly_sorted(s: Seq<Seq<char>>) -> bool {
    forall|i: int, j: int| 0 <= i < j < s.len() ==> lex_lt(#[trigger] s[i], #[trigger] s[j])
}

/// `s` with `t` put at its place in the order, unless it is there already.
pub open spec fn sorted_insert(s: Seq<Seq<char>>, t: Seq<char>) -> Seq<Seq<char>>
    decreases s.len(),
{
    if s.len() == 0 {
        seq![t]
    } else if t == s[0] {
        s
    } else if lex_lt(t, s[0]) {
        seq![t] + s
    } else {
        seq![s[0]] + sorted_insert(s.drop_first(), t)
    }
}

/// Inserting keeps the order and adds exactly the new element.
pub proof fn lemma_sorted_insert(s: Seq<Seq<char>>, t: Seq<char>)
    requires
        strictly_sorted(s),
    ensures
        strictly_sorted(sorted_insert(s, t)),
        forall|x: Seq<char>| #[trigger] sorted_insert(s, t).contains(x) <==> (x == t || s.contains(x)),
    decreases s.len(),
{
    let r = sorted_insert(s, t);
    if s.len() == 0 {
        assert(r[0] == t);
    } else if t == s[0] {
        assert(s.contains(t));
    } else if lex_lt(t, s[0]) {
        assert forall|i: int, j: int| 0 <= i < j < r.len() implies lex_lt(
            #[trigger] r[i],
            #[trigger] r[j],
        ) by {
            if i == 0 {
                if j > 1 {
                    lemma_lex_transitive(t, s[0], s[j - 1]);
                }
            } else {
                assert(r[i] == s[i - 1] && r[j] == s[j - 1]);
            }
        }
        assert forall|x: Seq<char>| #[trigger] r.contains(x) <==> (x == t || s.contains(x)) by {
            if r.contains(x) {
                let k = choose|k: int| 0 <= k < r.len() && r[k] == x;
                if k > 0 {
                    assert(s[k - 1] == x);
                }
            }
            if x == t {
                assert(r[0] == x);
            }
            if s.contains(x) {
                let k = choose|k: int| 0 <= k < s.len() && s[k] == x;
                assert(r[k + 1] == x);
            }
        }
    } else {
        let tail = s.drop_first();
        assert(strictly_sorted(tail)) by {
            assert forall|i: int, j: int| 0 <= i < j < tail.len() implies lex_lt(
                #[trigger] tail[i],
                #[trigger] tail[j],
            ) by {
                assert(tail[i] == s[i + 1] && tail[j] == s[j + 1]);
            }
        }
        lemma_sorted_insert(tail, t);
        let rt = sorted_insert(tail, t);
        lemma_lex_total(t, s[0]);
        assert forall|i: int, j: int| 0 <= i < j < r.len() implies lex_lt(
            #[trigger] r[i],
            #[trigger] r[j],
        ) by {
            if i == 0 {
                assert(rt.contains(rt[j - 1]));
                if rt[j - 1] == t {
                } else {
                    let k = choose|k: int| 0 <= k < tail.len() && tail[k] == rt[j - 1];
                    assert(s[k + 1] == rt[j - 1]);
                }
            } else {
                assert(r[i] == rt[i - 1] && r[j] == rt[j - 1]);
            }
        }
        assert forall|x: Seq<char>| #[trigger] r.contains(x) <==> (x == t || s.contains(x)) by {
            if r.contains(x) {
                let k = choose|k: int| 0 <= k < r.len() && r[k] == x;
                if k > 0 {
                    assert(rt[k - 1] == x);
                    assert(rt.contains(x));
                    if x != t {
                        let m = choose|m: int| 0 <= m < tail.len() && tail[m] == x;
                        assert(s[m + 1] == x);
                    }
                } else {
                    assert(s[0] == x);
                }
            }
            if x == t {
                assert(rt.contains(t));
                let k = choose|k: int| 0 <= k < rt.len() && rt[k] == t;
                assert(r[k + 1] == t);
            }
            if s.contains(x) {
                let k = choose|k: int| 0 <= k < s.len() && s[k] == x;
                if k == 0 {
                    assert(r[0] == x);
                } else {
                    assert(tail[k - 1] == x);
                    assert(tail.contains(x));
                    assert(rt.contains(x));
                    let m = choose|m: int| 0 <= m < rt.len() && rt[m] == x;
                    assert(r[m + 1] == x);
                }
            }
        }
    }
}

/// An element greater than every element of a sorted sequence goes to its end.
pub proof fn lemma_sorted_insert_last(s: Seq<Seq<char>>, t: Seq<char>)
    requires
        forall|i: int| 0 <= i < s.len() ==> lex_lt(#[trigger] s[i], t),
    ensures
        sorted_insert(s, t) == s.push(t),
    decreases s.len(),
{
    if s.len() > 0 {
        lemma_lex_asymmetric(s[0], t);
        let tail = s.drop_first();
        assert forall|i: int| 0 <= i < tail.len() implies lex_lt(#[trigger] tail[i], t) by {
            assert(tail[i] == s[i + 1]);
        }
        lemma_sorted_insert_last(tail, t);
        assert(seq![s[0]] + tail.push(t) =~= s.push(t));
    } else {
        assert(seq![t] =~= s.push(t));
    }
}

/// The views of the strings of `v`, in order.
pub open spec fn views(v: Seq<String>) -> Seq<Seq<char>> {
    Seq::new(v.len(), |i: int| v[i]@)
}

/// The views of the strings of a vector are its deep view.
pub proof fn lemma_views_deep(v: &Vec<String>)
    ensures
        v.deep_view() == views(v@),
{
    assert(v.deep_view() =~= views(v@));
}

/// The views after one more string are the views before, and its view.
pub proof fn lemma_views_push(v: Seq<String>, s: String)
    ensures
        views(v.push(s)) == views(v).push(s@),
{
    assert(views(v.push(s)) =~= views(v).push(s@));
}

/// Puts `token` at its place in a sorted vector of strings, unless it is
/// there already.
pub fn insert_sorted(set: &mut Vec<String>, token: String)
    ensures
        views(final(set)@) == sorted_insert(views(old(set)@), token@),
{
    let t = chars_of(token.as_str());
    let mut i: usize = 0;
    let ghost s = views(set@);
    assert(s.skip(0) == s);
    assert(s.take(0) + sorted_insert(s, token@) == sorted_insert(s, token@));
    while i < set.len()
        invariant
            i <= set.len(),
            *set == *old(set),
            s == views(set@),
            t@ == token@,
            sorted_insert(s, token@) == s.take(i as int) + sorted_insert(
                s.skip(i as int),
                token@,
            ),
        decreases set.len() - i,
    {
        let e = chars_of(set[i].as_str());
        let ghost rest = s.skip(i as int);
        assert(rest[0] == e@);
        match compare_chars(&t, &e) {
            Order::Equal => {
                assert(s.take(i as int) + rest == s);
                return ;
            },
            Order::Less => {
                set.insert(i, token);
                assert(views(set@) == s.take(i as int) + (seq![t@] + rest));
                return ;
            },
            Order::Greater => {
                proof {
                    assert(rest.drop_first() == s.skip(i + 1));
                    assert(s.take(i as int) + (seq![rest[0]] + sorted_insert(
                        s.skip(i + 1),
                        token@,
                    )) == s.take(i + 1) + sorted_insert(s.skip(i + 1), token@));
                }
                i += 1;
            },
        }
    }
    assert(s.skip(i as int).len() == 0);
    set.push(token);
    assert(views(set@) == s.take(i as int) + seq![t@]);
}

/// The leading token of a text is not changed by what follows a space.
pub proof fn lemma_token_len_before_space(a: Seq<char>, b: Seq<char>)
    ensures
        token_len(a + seq![' '] + b) == token_len(a),
{
    let s = a + seq![' '] + b;
    let n = token_len(a) as int;
    lemma_token_len_bound(a);
    assert(s.take(n) =~= a.take(n));
    if n < a.len() {
        assert(s[n] == a[n]);
    } else {
        assert(s[n] == ' ');
    }
    lemma_token_len_is(s, n);
}

/// The tokens of two texts with a space between them are those of the first,
/// then those of the second.
pub proof fn lemma_split_around_space(a: Seq<char>, b: Seq<char>)
    ensures
        split_whitespace(a + seq![' '] + b) == split_whitespace(a) + split_whitespace(b),
    decreases a.len(),
{
    let s = a + seq![' '] + b;
    if a.len() == 0 {
        assert(s.drop_first() =~= b);
        assert(split_whitespace(a) + split_whitespace(b) =~= split_whitespace(b));
    } else if is_whitespace(a[0]) {
        assert(s[0] == a[0]);
        assert(s.drop_first() =~= a.drop_first() + seq![' '] + b);
        lemma_split_around_space(a.drop_first(), b);
    } else {
        assert(s[0] == a[0]);
        let n = token_len(a) as int;
        lemma_token_len_bound(a);
        lemma_token_len_before_space(a, b);
        assert(s.take(n) =~= a.take(n));
        assert(s.skip(n) =~= a.skip(n) + seq![' '] + b);
        lemma_split_around_space(a.skip(n), b);
        assert(seq![a.take(n)] + (split_whitespace(a.skip(n)) + split_whitespace(b)) =~= (seq![
            a.take(n),
        ] + split_whitespace(a.skip(n))) + split_whitespace(b));
    }
}

/// A text without whitespace that is not empty is its own single token.
pub proof fn lemma_split_single(t: Seq<char>)
    requires
        t.len() > 0,
        no_whitespace(t),
    ensures
        split_whitespace(t) == seq![t],
{
    let n = t.len() as int;
    assert(t.take(n) =~= t);
    lemma_token_len_is(t, n);
    assert(t.skip(n).len() == 0);
    assert(seq![t.take(n)] + split_whitespace(t.skip(n)) =~= seq![t]);
}

/// The character of a decimal digit.
pub open spec fn digit(d: int) -> char {
    if d == 0 {
        '0'
    } else if d == 1 {
        '1'
    } else if d == 2 {
        '2'
    } else if d == 3 {
        '3'
    } else if d == 4 {
        '4'
    } else if d == 5 {
        '5'
    } else if d == 6 {
        '6'
    } else if d == 7 {
        '7'
    } else if d == 8 {
        '8'
    } else {
        '9'
    }
}

/// The decimal notation of a natural number, without leading zeros.
pub open spec fn decimal(n: nat) -> Seq<char>
    decreases n,
{
    if n < 10 {
        seq![digit(n as int)]
    } else {
        decimal(n / 10).push(digit((n % 10) as int))
    }
}

/// The decimal notation of an integer, with `-` before a negative one.
pub open spec fn signed_decimal(n: int) -> Seq<char> {
    if n < 0 {
        seq!['-'] + decimal((-n) as nat)
    } else {
        decimal(n as nat)
    }
}

/// The character of the digit `d`.
pub fn digit_char(d: u64) -> (r: char)
    requires
        d < 10,
    ensures
        r == digit(d as int),
{
    if d == 0 {
        '0'
    } else if d == 1 {
        '1'
    } else if d == 2 {
        '2'
    } else if d == 3 {
        '3'
    } else if d == 4 {
        '4'
    } else if d == 5 {
        '5'
    } else if d == 6 {
        '6'
    } else if d == 7 {
        '7'
    } else if d == 8 {
        '8'
    } else {
        '9'
    }
}

/// Appends the decimal notation of `n`.
pub fn push_decimal(out: &mut String, n: u64)
    ensures
        final(out)@ == old(out)@ + decimal(n as nat),
    decreases n,
{
    if n >= 10 {
        push_decimal(out, n / 10);
    }
    out.push(digit_char(n % 10));
}

/// Appends the decimal notation of `n`, with `-` before a negative one.
pub fn push_signed_decimal(out: &mut String, n: i64)
    ensures
        final(out)@ == old(out)@ + signed_decimal(n as int),
{
    if n < 0 {
        out.push('-');
        let magnitude: u64 = if n == i64::MIN {
            0x8000_0000_0000_0000u64
        } else {
            (-n) as u64
        };
        push_decimal(out, magnitude);
    } else {
        push_decimal(out, n as u64);
    }
}

/// A text without its leading whitespace.
pub open spec fn trim_start(s: Seq<char>) -> Seq<char>
    decreases s.len(),
{
    if s.len() > 0 && is_whitespace(s[0]) {
        trim_start(s.drop_first())
    } else {
        s
    }
}

/// A text without its trailing whitespace.
pub open spec fn trim_end(s: Seq<char>) -> Seq<char>
    decreases s.len(),
{
    if s.len() > 0 && is_whitespace(s.last()) {
        trim_end(s.drop_last())
    } else {
        s
    }
}

/// A text without its leading and trailing whitespace.
pub open spec fn trimmed(s: Seq<char>) -> Seq<char> {
    trim_end(trim_start(s))
}

/// Removes leading and trailing whitespace.
pub fn trim(text: &str) -> (r: String)
    ensures
        r@ == trimmed(text@),
{
    let chars = chars_of(text);
    let n = chars.len();
    let mut start: usize = 0;
    assert(chars@.skip(0) == chars@);
    while start < n && whitespace(chars[start])
        invariant
            n == chars.len(),
            start <= n,
            trim_start(chars@) == trim_start(chars@.skip(start as int)),
        decreases n - start,
    {
        assert(chars@.skip(start as int).drop_first() == chars@.skip(start + 1));
        start += 1;
    }
    let ghost body = chars@.skip(start as int);
    assert(trim_start(chars@) == body);
    let mut end: usize = n;
    assert(body.take(n - start) == body);
    while end > start && whitespace(chars[end - 1])
        invariant
            n == chars.len(),
            start <= end <= n,
            body == chars@.skip(start as int),
            trim_end(body) == trim_end(body.take(end - start)),
        decreases end,
    {
        assert(body.take(end - start).drop_last() == body.take(end - start - 1));
        end -= 1;
    }
    assert(body.take(end - start) == chars@.subrange(start as int, end as int));
    string_of(&chars, start, end)
}

/// Whether `s` begins with `p`.
pub open spec fn has_prefix(s: Seq<char>, p: Seq<char>) -> bool {
    p.len() <= s.len() && s.take(p.len() as int) == p
}

/// What follows `prefix` in `text`, or `None` where `text` does not begin
/// with it.
pub fn strip_prefix(text: &str, prefix: &str) -> (r: Option<String>)
    ensures
        r is Some <==> has_prefix(text@, prefix@),
        r matches Some(rest) ==> rest@ == text@.skip(prefix@.len() as int),
{
    let t = chars_of(text);
    let p = chars_of(prefix);
    if p.len() > t.len() {
        return None;
    }
    let mut i: usize = 0;
    while i < p.len()
        invariant
            i <= p.len() <= t.len(),
            t@ == text@,
            p@ == prefix@,
            t@.take(i as int) == p@.take(i as int),
        decreases p.len() - i,
    {
        if t[i] != p[i] {
            assert(t@.take(p.len() as int)[i as int] != p@[i as int]);
            return None;
        }
        assert(t@.take(i + 1) == t@.take(i as int).push(t@[i as int]));
        assert(p@.take(i + 1) == p@.take(i as int).push(p@[i as int]));
        i += 1;
    }
    assert(p@.take(i as int) == p@);
    assert(t@.subrange(p.len() as int, t.len() as int) == t@.skip(p.len() as int));
    Some(string_of(&t, p.len(), t.len()))
}

/// Whether two strings hold the same characters.
pub fn same_text(a: &str, b: &str) -> (r: bool)
    ensures
        r == (a@ == b@),
{
    compare(a, b) == Order::Equal
}

} // verus!
