use minigrep::search::{search, search_case_insensitive, search_with_case};

#[test]
fn one_result() {
    let query = "duct";
    let contents = "\
        Rust:
safe, fast, productive
        Pick three.";
    assert_eq!(vec!["safe, fast, productive"], search(query, contents));
}

#[test]
fn case_insensitive() {
    let query = "rUsT";

    let contents = "\
Rust:
safe, fast, productive.
Pick three.
Trust me.";

    assert_eq!(
        vec!["Rust:", "Trust me."],
        search_case_insensitive(query, contents)
    );
}

#[test]
fn case_sensitive_scenario() {
    let results = search_with_case("duct", "Rust:\nsafe, fast, productive.\nPick three.", true);
    assert_eq!(vec!["safe, fast, productive."], results);
}

#[test]
fn case_insensitive_scenario() {
    let results = search_with_case(
        "rUsT",
        "Rust:\nsafe, fast, productive.\nPick three.\nTrust me.",
        false,
    );
    assert_eq!(vec!["Rust:", "Trust me."], results);
}

#[test]
fn empty_query_matches_every_line() {
    let results = search_with_case("", "a\nb\nc", true);
    assert_eq!(vec!["a", "b", "c"], results);
}

#[test]
fn no_match_yields_empty_sequence() {
    let results = search_with_case("zzz", "a\nb", true);
    assert!(results.is_empty());
}

#[test]
fn search_is_idempotent() {
    let query = "prod";
    let contents = "Rust:\nsafe, fast, productive.\nPick three.";
    let first = search(query, contents);
    let second = search(query, contents);
    assert_eq!(first, second);
    let first_folded = search_case_insensitive("RUST", contents);
    let second_folded = search_case_insensitive("RUST", contents);
    assert_eq!(first_folded, second_folded);
}

#[test]
fn case_sensitive_search_respects_case() {
    let contents = "Rust:\ntrust me.";
    assert_eq!(vec!["trust me."], search("rust", contents));
    assert_eq!(vec!["Rust:", "trust me."], search_case_insensitive("RUST", contents));
}

#[test]
fn query_longer_than_any_line_matches_nothing() {
    let results = search("abcdef", "ab\ncd");
    assert!(results.is_empty());
}
