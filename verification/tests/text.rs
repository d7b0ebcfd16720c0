use mrktpltsbot::text::{
    compare_chars, digit_char, chars_of, compare, insert_sorted, push_decimal, push_signed_decimal, same_text, string_of,
    strip_prefix, tokens, trim, whitespace, Order,
};

#[test]
fn whitespace_is_the_unicode_property() {
    for code in 0u32..=0x10FFFF {
        if let Some(c) = char::from_u32(code) {
            assert_eq!(whitespace(c), c.is_whitespace(), "U+{code:04X}");
        }
    }
}

#[test]
fn tokens_are_the_runs_between_whitespace() {
    for text in [
        "",
        " ",
        "a",
        " a ",
        "a b",
        "  several   spaces\tand\nlines  ",
        "no-break\u{00A0}space",
        "ideographic\u{3000}space",
        "zero\u{200B}width",
    ] {
        let expected: Vec<String> = text.split_whitespace().map(String::from).collect();
        assert_eq!(tokens(text), expected, "{text:?}");
    }
    assert_eq!(tokens(" Xiaomi  Foldable "), vec!["Xiaomi", "Foldable"]);
}

#[test]
fn trim_removes_whitespace_at_both_ends() {
    for text in ["", "  ", "a", "  a", "a  ", " a b ", "\t\n x \u{2003}", "\u{00A0}y\u{00A0}"] {
        assert_eq!(trim(text), text.trim(), "{text:?}");
    }
    assert_eq!(trim("  /start  abc "), "/start  abc");
}

#[test]
fn compare_orders_by_code_point() {
    let samples = ["", "a", "ab", "abc", "b", "B", "-a", "é", "z", "日本", "a\u{10FFFF}", "aa"];
    for a in samples {
        for b in samples {
            let expected = match a.cmp(b) {
                std::cmp::Ordering::Less => Order::Less,
                std::cmp::Ordering::Equal => Order::Equal,
                std::cmp::Ordering::Greater => Order::Greater,
            };
            assert_eq!(compare(a, b), expected, "{a:?} {b:?}");
            assert_eq!(same_text(a, b), a == b);
        }
    }
}

#[test]
fn insert_sorted_keeps_order_and_drops_duplicates() {
    let mut set: Vec<String> = Vec::new();
    for token in ["m", "a", "z", "m", "b", "a", ""] {
        insert_sorted(&mut set, token.to_string());
    }
    assert_eq!(set, vec!["", "a", "b", "m", "z"]);
}

#[test]
fn strip_prefix_gives_the_rest() {
    assert_eq!(strip_prefix("/start abc", "/start "), Some("abc".to_string()));
    assert_eq!(strip_prefix("/start ", "/start "), Some(String::new()));
    assert_eq!(strip_prefix("/start", "/start "), None);
    assert_eq!(strip_prefix("/stop abc", "/start "), None);
    assert_eq!(strip_prefix("anything", ""), Some("anything".to_string()));
}

#[test]
fn chars_and_strings_convert() {
    let chars = chars_of("héllo");
    assert_eq!(chars, vec!['h', 'é', 'l', 'l', 'o']);
    assert_eq!(string_of(&chars, 1, 4), "éll");
    assert_eq!(string_of(&chars, 2, 2), "");
}

#[test]
fn decimal_notation() {
    for n in [0u64, 7, 10, 99, 100, 1234567890, u64::MAX] {
        let mut out = String::from("n=");
        push_decimal(&mut out, n);
        assert_eq!(out, format!("n={n}"));
    }
    for n in [0i64, 5, -5, 1000, -1000, i64::MAX, i64::MIN] {
        let mut out = String::new();
        push_signed_decimal(&mut out, n);
        assert_eq!(out, n.to_string());
    }
}

#[test]
fn digits_and_character_vectors() {
    let digits: String = (0..10).map(digit_char).collect();
    assert_eq!(digits, "0123456789");
    let chars = |text: &str| -> Vec<char> { text.chars().collect() };
    assert_eq!(compare_chars(&chars("abc"), &chars("abd")), Order::Less);
    assert_eq!(compare_chars(&chars("abc"), &chars("ab")), Order::Greater);
    assert_eq!(compare_chars(&chars(""), &chars("")), Order::Equal);
}
