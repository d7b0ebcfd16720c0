use mrktpltsbot::db::key_values::{push_field, read_field, read_text, KeyedMessage};
use mrktpltsbot::marketplace::item::Amount;
use mrktpltsbot::marketplace::vinted::{
    amount_of, read_number, cookie, eq_ignore_ascii_case, find_cookie, search_status, tokens_from_cookies,
    AuthenticationTokens, MissingCookie, SearchStatus,
};

fn tokens(access: &str, refresh: &str) -> AuthenticationTokens {
    AuthenticationTokens { access: access.to_string(), refresh: refresh.to_string() }
}

fn cookies(pairs: &[(&str, &str)]) -> Vec<(String, String)> {
    pairs.iter().map(|(name, value)| (name.to_string(), value.to_string())).collect()
}

#[test]
fn tokens_are_written_as_two_fields() {
    assert_eq!(
        tokens("ab", "ç").encode_to_vec(),
        vec![1, 2, 0, 0, 0, 0, 0, 0, 0, b'a', b'b', 2, 2, 0, 0, 0, 0, 0, 0, 0, 0xC3, 0xA7]
    );
    assert_eq!(
        tokens("", "").encode_to_vec(),
        vec![1, 0, 0, 0, 0, 0, 0, 0, 0, 2, 0, 0, 0, 0, 0, 0, 0, 0]
    );
    assert_eq!(
        AuthenticationTokens::key(),
        "mrktpltsbot::marketplace::vinted::client::AuthenticationTokens"
    );
}

#[test]
fn tokens_round_trip() {
    let long = "x".repeat(1000);
    for value in [
        tokens("", ""),
        tokens("a", ""),
        tokens("", "b"),
        tokens("eyJhbGciOi.J9.sig", "refresh-🔑"),
        tokens(&long, &long),
    ] {
        assert_eq!(AuthenticationTokens::decode(&value.encode_to_vec()), Some(value));
    }
}

#[test]
fn decode_fills_in_and_passes_over() {
    assert_eq!(AuthenticationTokens::decode(&vec![]), Some(tokens("", "")));
    let mut bytes = Vec::new();
    push_field(&mut bytes, 2, b"r1");
    push_field(&mut bytes, 9, b"unknown");
    push_field(&mut bytes, 1, b"a1");
    push_field(&mut bytes, 2, b"r2");
    assert_eq!(AuthenticationTokens::decode(&bytes), Some(tokens("a1", "r2")));
}

#[test]
fn decode_refuses_what_is_no_value() {
    assert_eq!(AuthenticationTokens::decode(&vec![1]), None);
    assert_eq!(AuthenticationTokens::decode(&vec![1, 3, 0, 0, 0, 0, 0, 0, 0, b'a']), None);
    assert_eq!(
        AuthenticationTokens::decode(&vec![1, 1, 0, 0, 0, 0, 0, 0, 0, 0xFF]),
        None
    );
    assert_eq!(
        AuthenticationTokens::decode(&vec![2, 2, 0, 0, 0, 0, 0, 0, 0, 0xC3, 0x28]),
        None
    );
    assert_eq!(
        AuthenticationTokens::decode(&vec![7, 0xFF, 0xFF, 0xFF, 0xFF, 0xFF, 0xFF, 0xFF, 0xFF]),
        None
    );
}

#[test]
fn fields_are_found_where_they_are() {
    let mut bytes = vec![0xAA];
    push_field(&mut bytes, 5, "hé".as_bytes());
    push_field(&mut bytes, 6, b"");
    assert_eq!(read_field(&bytes, 1), Some((5, 10, 13)));
    assert_eq!(read_text(&bytes, 10, 13), Some("hé".to_string()));
    assert_eq!(read_text(&bytes, 10, 12), None);
    assert_eq!(read_field(&bytes, 13), Some((6, 22, 22)));
    assert_eq!(read_field(&bytes, 22), None);
    assert_eq!(read_field(&bytes, 14), None);
}

#[test]
fn names_are_compared_without_case() {
    assert!(eq_ignore_ascii_case("Access_Token_Web", "access_token_web"));
    assert!(eq_ignore_ascii_case("", ""));
    assert!(eq_ignore_ascii_case("ÀB", "Àb"));
    assert!(!eq_ignore_ascii_case("À", "à"));
    assert!(!eq_ignore_ascii_case("ab", "abc"));
    assert!(!eq_ignore_ascii_case("@", "`"));
    assert!(!eq_ignore_ascii_case("[", "{"));
    for a in ["a", "A", "z", "Z", "0", "_", "é"] {
        for b in ["a", "A", "z", "Z", "0", "_", "é"] {
            assert_eq!(eq_ignore_ascii_case(a, b), a.eq_ignore_ascii_case(b), "{a} {b}");
        }
    }
}

#[test]
fn tokens_are_picked_out_of_the_cookies() {
    let all = cookies(&[
        ("session", "s"),
        ("ACCESS_TOKEN_WEB", "old"),
        ("refresh_token_web", "r"),
        ("access_token_web", "new"),
    ]);
    assert_eq!(tokens_from_cookies(&all), Ok(tokens("new", "r")));
    assert_eq!(find_cookie(&all, "Session"), Some("s".to_string()));
    assert_eq!(find_cookie(&all, "other"), None);
    assert_eq!(
        tokens_from_cookies(&cookies(&[("refresh_token_web", "r")])),
        Err(MissingCookie::Access)
    );
    assert_eq!(
        tokens_from_cookies(&cookies(&[("access_token_web", "a")])),
        Err(MissingCookie::Refresh)
    );
    assert_eq!(tokens_from_cookies(&cookies(&[])), Err(MissingCookie::Access));
}

#[test]
fn cookie_of_a_request() {
    assert_eq!(cookie("access_token_web", "abc"), "access_token_web=abc");
    assert_eq!(cookie("refresh_token_web", ""), "refresh_token_web=");
}

#[test]
fn status_of_a_search() {
    assert_eq!(search_status(401), SearchStatus::Reauthenticate);
    assert_eq!(search_status(403), SearchStatus::Reauthenticate);
    assert_eq!(search_status(400), SearchStatus::Failed);
    assert_eq!(search_status(404), SearchStatus::Failed);
    assert_eq!(search_status(429), SearchStatus::Failed);
    assert_eq!(search_status(500), SearchStatus::Failed);
    assert_eq!(search_status(599), SearchStatus::Failed);
    assert_eq!(search_status(200), SearchStatus::Results);
    assert_eq!(search_status(304), SearchStatus::Results);
    assert_eq!(search_status(600), SearchStatus::Results);
}

#[test]
fn amount_in_euros() {
    for (text, cents) in [
        ("0", Some(0u64)),
        ("12", Some(1200)),
        ("12.5", Some(1250)),
        ("12.50", Some(1250)),
        ("12.05", Some(1205)),
        ("0.99", Some(99)),
        ("007.10", Some(710)),
        ("184467440737095516.15", Some(u64::MAX)),
        ("184467440737095516.16", None),
        ("184467440737095517", None),
        ("99999999999999999999999", None),
        ("", None),
        (".", None),
        (".5", None),
        ("12.", None),
        ("12.345", None),
        ("12,50", None),
        ("1.2.3", None),
        ("-1", None),
        ("1e3", None),
        (" 1", None),
        ("١٢", None),
    ] {
        assert_eq!(amount_of(text), cents.map(|cents| Amount { cents }), "{text:?}");
    }
}

#[test]
fn number_of_digits() {
    let chars: Vec<char> = "ab0123x18446744073709551615 18446744073709551616".chars().collect();
    assert_eq!(read_number(&chars, 2, 6), Some(123));
    assert_eq!(read_number(&chars, 2, 2), Some(0));
    assert_eq!(read_number(&chars, 1, 6), None);
    assert_eq!(read_number(&chars, 7, 27), Some(u64::MAX));
    assert_eq!(read_number(&chars, 28, 48), None);
}
