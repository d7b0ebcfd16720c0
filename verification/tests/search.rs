use mrktpltsbot::db::SearchQuery;
use mrktpltsbot::marketplace::search::{
    contains, copy_strings, fingerprint_text, free_of_whitespace, is_stable, join,
    NormalisedQuery,
};

fn terms(text: &str) -> Vec<String> {
    text.split_whitespace().map(String::from).collect()
}

#[test]
fn parse_ok() {
    let query = NormalisedQuery::parse("-samsung smartphone");
    assert_eq!(query.included(), &["smartphone"]);
    assert_eq!(query.excluded(), &["samsung"]);
}

#[test]
fn unparse_ok() {
    let query = NormalisedQuery::parse("-samsung smartphone");
    assert_eq!(query.unparse(), "smartphone -samsung");
}

#[test]
fn deunicode_ok() {
    let query = NormalisedQuery::parse("SKÅDIS");
    assert_eq!(query.included(), &["skadis"]);
}

#[test]
fn search_text_ok() {
    let query = NormalisedQuery::parse("-samsung smartphone");
    assert_eq!(query.to_search_text(), "smartphone");
}

#[test]
fn matches_ok() {
    let query = NormalisedQuery::parse("-samsung foldable smartphone");
    assert!(
        query.matches(&terms("Xiaomi Foldable Smartphone")),
        "contains all the positives and no negatives"
    );
    assert!(
        !query.matches(&terms("Samsung Foldable Smartphone")),
        "contains all the positives but also the negative"
    );
    assert!(
        !query.matches(&terms("xiaomi smartphone")),
        "does not contain all the positives"
    );
}

#[test]
fn normalise_and_fingerprint() {
    let query = NormalisedQuery::parse("SKÅDIS -ikea skadis");
    assert_eq!(query.included(), &["skadis"]);
    assert_eq!(query.excluded(), &["ikea"]);
    assert_eq!(query.unparse(), "skadis -ikea");
    let other = NormalisedQuery::parse("  -IKEA   Skådis ");
    assert_eq!(other.unparse(), "skadis -ikea");
    assert_eq!(query.fingerprint(), other.fingerprint());
    let different = NormalisedQuery::parse("skadis ikea");
    assert_ne!(query.fingerprint(), different.fingerprint());
}

#[test]
fn normalise_token_lowercases_then_folds() {
    assert_eq!(NormalisedQuery::normalise_token("Æneid"), "aeneid");
    assert_eq!(NormalisedQuery::normalise_token("ÉTUDE"), "etude");
    assert_eq!(NormalisedQuery::normalise_token("plain"), "plain");
}

#[test]
fn parse_sorts_and_collapses() {
    let query = NormalisedQuery::parse("b a -d c a -c -d B");
    assert_eq!(query.included(), &["a", "b", "c"]);
    assert_eq!(query.excluded(), &["c", "d"]);
    assert_eq!(query.unparse(), "a b c -c -d");
    assert_eq!(query.to_search_text(), "a b c");
}

#[test]
fn parse_of_nothing_is_empty() {
    for text in ["", "   ", "\t\n"] {
        let query = NormalisedQuery::parse(text);
        assert!(query.included().is_empty());
        assert!(query.excluded().is_empty());
        assert_eq!(query.unparse(), "");
    }
}

#[test]
fn parse_splits_on_unicode_whitespace() {
    let query = NormalisedQuery::parse("one\u{00A0}two\u{2003}three\u{3000}four\nfive");
    assert_eq!(query.included(), &["five", "four", "one", "three", "two"]);
}

#[test]
fn lone_dash_excludes_the_empty_token() {
    let query = NormalisedQuery::parse("- a");
    assert_eq!(query.included(), &["a"]);
    assert_eq!(query.excluded(), &[""]);
    assert_eq!(query.unparse(), "a -");
    assert_eq!(NormalisedQuery::parse("a -").unparse(), "a -");
}

#[test]
fn normalisation_is_idempotent() {
    for text in [
        "-samsung foldable smartphone",
        "SKÅDIS -ikea skadis",
        "  Ünïcödé   -Wörds  wörds ",
        "--double -dash",
        "",
    ] {
        let query = NormalisedQuery::parse(text);
        assert!(query.is_canonical(), "{text:?}");
        let again = NormalisedQuery::parse(&query.unparse());
        assert_eq!(again.included(), query.included());
        assert_eq!(again.excluded(), query.excluded());
        assert_eq!(again.unparse(), query.unparse());
    }
}

#[test]
fn query_that_does_not_read_back_is_not_canonical() {
    // The transliteration of these characters holds a space and capitals.
    let query = NormalisedQuery::parse("北京");
    assert!(!query.is_canonical());
    let again = NormalisedQuery::parse(&query.unparse());
    assert_ne!(again.included(), query.included());
}

#[test]
fn fingerprint_is_fnv1a_of_the_canonical_text() {
    assert_eq!(fingerprint_text(""), 0xcbf29ce484222325u64 as i64);
    assert_eq!(fingerprint_text("a"), 0xaf63dc4c8601ec8cu64 as i64);
    assert_eq!(fingerprint_text("foobar"), 0x85944171f73967e8u64 as i64);
    let query = NormalisedQuery::parse("Foobar");
    assert_eq!(query.fingerprint(), 0x85944171f73967e8u64 as i64);
}

#[test]
fn fingerprint_depends_on_the_canonical_text_alone() {
    let a = NormalisedQuery::parse("tado -unifi");
    let b = NormalisedQuery::parse("-UNIFI  TADO tado");
    assert_eq!(a.unparse(), b.unparse());
    assert_eq!(a.fingerprint(), b.fingerprint());
    assert_eq!(a.fingerprint(), fingerprint_text(&a.unparse()));
}

#[test]
fn matches_iff_included_present_and_excluded_absent() {
    let query = NormalisedQuery::parse("foldable -samsung");
    let normalised = |words: &[&str]| -> Vec<String> { words.iter().map(|w| w.to_string()).collect() };
    assert!(query.matches_normalised(&normalised(&["foldable", "phone"])));
    assert!(!query.matches_normalised(&normalised(&["phone"])));
    assert!(!query.matches_normalised(&normalised(&["foldable", "samsung"])));
    // Terms are normalised before they are compared.
    assert!(query.matches(&normalised(&["FOLDABLE"])));
    assert!(!query.matches(&normalised(&["Foldable", "SAMSUNG"])));
    // The empty query matches everything.
    assert!(NormalisedQuery::parse("").matches(&normalised(&[])));
}

#[test]
fn search_query_holds_canonical_text_and_fingerprint() {
    let query = SearchQuery::from_text("  Smartphone -SAMSUNG ");
    assert_eq!(query.text, "smartphone -samsung");
    assert_eq!(query.hash, fingerprint_text("smartphone -samsung"));
    let normalised = query.to_normalised_query();
    assert_eq!(normalised.included(), &["smartphone"]);
    assert_eq!(normalised.excluded(), &["samsung"]);
}

#[test]
fn clone_keeps_the_tokens() {
    let query = NormalisedQuery::parse("b -c a");
    let copy = query.clone();
    assert_eq!(copy.included(), query.included());
    assert_eq!(copy.excluded(), query.excluded());
}

#[test]
fn from_tokens_sorts_canonical_tokens() {
    let tokens: Vec<String> =
        ["b", "-x", "a", "-", "--y", "b"].iter().map(|t| t.to_string()).collect();
    let query = NormalisedQuery::from_tokens(&tokens);
    assert_eq!(query.included(), &["a", "b"]);
    assert_eq!(query.excluded(), &["", "-y", "x"]);
    assert_eq!(query.unparse(), "a b - --y -x");
    let empty = NormalisedQuery::from_tokens(&vec![]);
    assert!(empty.included().is_empty() && empty.excluded().is_empty());
}

#[test]
fn join_puts_the_separator_between() {
    let parts = |words: &[&str]| -> Vec<String> { words.iter().map(|w| w.to_string()).collect() };
    assert_eq!(join(&parts(&[]), ", "), "");
    assert_eq!(join(&parts(&["a"]), ", "), "a");
    assert_eq!(join(&parts(&["a", "", "c"]), ", "), "a, , c");
    assert_eq!(join(&parts(&["a", "b"]), ""), "ab");
    assert_eq!(copy_strings(&parts(&["x", "y"])), parts(&["x", "y"]));
    assert!(contains(&parts(&["x", "y"]), &"y".to_string()));
    assert!(!contains(&parts(&["x", "y"]), &"z".to_string()));
}

#[test]
fn stable_tokens_read_back_as_themselves() {
    assert!(is_stable("skadis"));
    assert!(is_stable("-ikea"));
    assert!(is_stable("4k"));
    assert!(!is_stable(""));
    assert!(!is_stable("two words"));
    assert!(!is_stable("Upper"));
    assert!(!is_stable("skådis"));
    assert!(free_of_whitespace("abc-def"));
    assert!(free_of_whitespace(""));
    assert!(!free_of_whitespace("a\u{2009}b"));
    assert!(!free_of_whitespace("tab\t"));
}
