//! Texts in the MarkdownV2 markup of the chat platform.

use crate::marketplace::marktplaats::{Listing, PriceInfo, PriceType};
use crate::text::{chars_of, decimal, digit, digit_char, push_decimal};
use vstd::prelude::*;
use vstd::string::StringExecFns;

verus! {

/// Whether a character must be escaped in MarkdownV2.
pub open spec fn is_reserved(c: char) -> bool {
    c == '_' || c == '*' || c == '[' || c == ']' || c == '(' || c == ')' || c == '~' || c == '`'
        || c == '>' || c == '#' || c == '+' || c == '-' || c == '=' || c == '|' || c == '{' || c
        == '}' || c == '.' || c == '!'
}

/// A text with a backslash before each reserved character.
pub open spec fn markdown_escaped(text: Seq<char>) -> Seq<char>
    decreases text.len(),
{
    if text.len() == 0 {
        Seq::empty()
    } else if is_reserved(text.last()) {
        markdown_escaped(text.drop_last()).push('\\').push(text.last())
    } else {
        markdown_escaped(text.drop_last()).push(text.last())
    }
}

/// Appends a text, escaped for MarkdownV2.
pub fn push_markdown(out: &mut String, text: &str)
    ensures
        final(out)@ == old(out)@ + markdown_escaped(text@),
{
    let chars = chars_of(text);
    let mut i: usize = 0;
    while i < chars.len()
        invariant
            i <= chars.len(),
            chars@ == text@,
            out@ == old(out)@ + markdown_escaped(chars@.take(i as int)),
        decreases chars.len() - i,
    {
        let c = chars[i];
        proof {
            let next = chars@.take(i + 1);
            assert(next.drop_last() == chars@.take(i as int));
            assert(next.last() == c);
        }
        let reserved = c == '_' || c == '*' || c == '[' || c == ']' || c == '(' || c == ')' || c
            == '~' || c == '`' || c == '>' || c == '#' || c == '+' || c == '-' || c == '=' || c
            == '|' || c == '{' || c == '}' || c == '.' || c == '!';
        if reserved {
            out.push('\\');
        }
        out.push(c);
        i += 1;
    }
    assert(chars@.take(i as int) == chars@);
}

/// Escape the text for the MarkdownV2 markup.
pub fn escape_markdown_v2(text: &str) -> (r: String)
    ensures
        r@ == markdown_escaped(text@),
{
    let mut out = String::new();
    push_markdown(&mut out, text);
    out
}

/// Euros and cents of an amount, with an escaped point between them.
pub open spec fn euros_text(cents: u64) -> Seq<char> {
    decimal((cents / 100) as nat) + "\\."@ + seq![
        digit((cents % 100 / 10) as int),
        digit((cents % 10) as int),
    ]
}

/// Text of a price.
pub open spec fn price_text(price: &PriceInfo) -> Seq<char> {
    match price.type_ {
        PriceType::Exchange => "💱 Exchange"@,
        PriceType::FastBid => "🤔 Bid"@,
        PriceType::Fixed => "💰 "@ + euros_text(price.cents),
        PriceType::Free => "🆓 Free"@,
        PriceType::MinBid => "💰⬇️ "@ + euros_text(price.cents),
        PriceType::OnRequest => "❓ On Request"@,
        PriceType::Reserved => "😕 Reserved"@,
        PriceType::SeeDescription => "📝 See Description"@,
        PriceType::ToBeAgreed => "🤝 To Be Agreed"@,
    }
}

/// Appends euros and cents of an amount.
fn push_euros(out: &mut String, cents: u64)
    ensures
        final(out)@ == old(out)@ + euros_text(cents),
{
    push_decimal(out, cents / 100);
    out.append("\\.");
    out.push(digit_char(cents % 100 / 10));
    out.push(digit_char(cents % 10));
}

/// Writes a price as text.
pub fn format_price(price: &PriceInfo) -> (r: String)
    ensures
        r@ == price_text(price),
{
    match price.type_ {
        PriceType::Exchange => String::from_str("💱 Exchange"),
        PriceType::FastBid => String::from_str("🤔 Bid"),
        PriceType::Fixed => {
            let mut out = String::from_str("💰 ");
            push_euros(&mut out, price.cents);
            out
        },
        PriceType::Free => String::from_str("🆓 Free"),
        PriceType::MinBid => {
            let mut out = String::from_str("💰⬇️ ");
            push_euros(&mut out, price.cents);
            out
        },
        PriceType::OnRequest => String::from_str("❓ On Request"),
        PriceType::Reserved => String::from_str("😕 Reserved"),
        PriceType::SeeDescription => String::from_str("📝 See Description"),
        PriceType::ToBeAgreed => String::from_str("🤝 To Be Agreed"),
    }
}

/// Text of a listing: title and price in bold, then the description.
pub open spec fn listing_text(listing: &Listing) -> Seq<char> {
    "*"@ + markdown_escaped(listing.title@) + "*\n\n*"@ + price_text(&listing.price) + "*\n\n"@
        + markdown_escaped(listing.description@)
}

/// Writes a listing as text.
pub fn format_listing_text(listing: &Listing) -> (r: String)
    ensures
        r@ == listing_text(listing),
{
    let mut out = String::from_str("*");
    push_markdown(&mut out, listing.title.as_str());
    out.append("*\n\n*");
    out.append(format_price(&listing.price).as_str());
    out.append("*\n\n");
    push_markdown(&mut out, listing.description.as_str());
    out
}

} // verus!
