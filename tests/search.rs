use minigrep::config::{parse_config, Config, Error, Field};
use minigrep::search::{contains, search, search_case_insensitive, search_lines};

#[test]
fn case_sensitive() {
    let query = "duct";
    let contents = "\
Rust:
safe, fast, productive.
Pick three.
Duct tape.";

    assert_eq!(vec!["safe, fast, productive."], search(query, contents));
}

#[test]
fn case_insensitive() {
    let query = "rUsT";
    let contents = "\
Rust:
safe, fast, productive.
Pick three.
Trust me.";

    assert_eq!(vec!["Rust:", "Trust me."], search_case_insensitive(query, contents));
}

#[test]
fn exact_search_keeps_order_and_repeats() {
    let body = "one fish\ntwo\nfish fish\nred fish";
    assert_eq!(vec!["one fish", "fish fish", "red fish"], search("fish", body));
}

#[test]
fn folded_search_finds_at_least_the_exact_matches() {
    let body = "Fish\nfish\nFISH\nbird";
    let exact = search("fish", body);
    let folded = search_case_insensitive("fish", body);
    assert_eq!(vec!["fish"], exact);
    assert_eq!(vec!["Fish", "fish", "FISH"], folded);
    assert!(folded.len() >= exact.len());
}

#[test]
fn repeated_search_gives_the_same_lines() {
    let body = "alpha\nbeta\nalphabet";
    assert_eq!(search("alpha", body), search("alpha", body));
    assert_eq!(search_case_insensitive("BET", body), search_case_insensitive("BET", body));
}

#[test]
fn empty_query_gives_every_line() {
    let body = "first\n\nthird\n";
    assert_eq!(vec!["first", "", "third"], search("", body));
}

#[test]
fn empty_body_gives_no_lines() {
    let none: Vec<&str> = Vec::new();
    assert_eq!(none, search("needle", ""));
    assert_eq!(none, search_case_insensitive("needle", ""));
}

#[test]
fn body_without_line_break_is_one_line() {
    assert_eq!(vec!["just one line"], search("one", "just one line"));
    let none: Vec<&str> = Vec::new();
    assert_eq!(none, search("two", "just one line"));
}

#[test]
fn lines_keep_multibyte_characters_whole() {
    let body = "grüße\nnaïve café\nplain";
    assert_eq!(vec!["naïve café"], search("café", body));
    assert_eq!(vec!["grüße"], search_case_insensitive("GRÜ", body));
}

#[test]
fn folded_results_are_the_lines_as_they_stand() {
    let body = "HELLO World\nbye";
    let found = search_case_insensitive("hello", body);
    assert_eq!(vec!["HELLO World"], found);
}

#[test]
fn search_lines_follows_the_case_policy() {
    let body = "Rust:\nTrust me.";
    assert_eq!(vec!["Trust me."], search_lines("rust", body, true));
    assert_eq!(vec!["Rust:", "Trust me."], search_lines("rust", body, false));
}

#[test]
fn contains_finds_runs_of_characters() {
    assert!(contains("productive", "duct"));
    assert!(contains("abc", ""));
    assert!(!contains("Duct", "duct"));
    assert!(!contains("ab", "abc"));
}

fn tokens(items: &[&str]) -> Vec<String> {
    items.iter().map(|s| s.to_string()).collect()
}

#[test]
fn config_without_query_is_refused() {
    assert_eq!(Err(Error::MissingArgument(Field::Query)), Config::new(tokens(&["prog"]), false));
    assert_eq!(Err(Error::MissingArgument(Field::Query)), Config::new(Vec::new(), false));
}

#[test]
fn config_without_source_is_refused() {
    assert_eq!(
        Err(Error::MissingArgument(Field::Source)),
        Config::new(tokens(&["prog", "needle"]), false)
    );
}

#[test]
fn config_resolves_three_tokens() {
    let expected = Config {
        query: "needle".to_string(),
        filename: "haystack.txt".to_string(),
        case_sensitive: true,
    };
    assert_eq!(Ok(expected), Config::new(tokens(&["prog", "needle", "haystack.txt"]), false));
}

#[test]
fn config_ignores_extra_tokens_and_honours_the_switch() {
    let config = parse_config(tokens(&["prog", "q", "f.txt", "extra"]), true).unwrap();
    assert_eq!("q", config.query);
    assert_eq!("f.txt", config.filename);
    assert!(!config.case_sensitive);
}

#[test]
fn config_searches_under_its_own_policy() {
    let config = Config::new(tokens(&["prog", "rUsT", "poem.txt"]), true).unwrap();
    assert_eq!(vec!["Rust:", "Trust me."], config.matching_lines("Rust:\nsafe\nTrust me."));
}

#[test]
fn error_messages_name_the_missing_argument_or_the_cause() {
    assert_eq!("query", Field::Query.name());
    assert_eq!("source", Field::Source.name());
    assert_eq!("Didn't get a query string", Error::MissingArgument(Field::Query).message());
    assert_eq!("Didn't get a filename", Error::MissingArgument(Field::Source).message());
    assert_eq!("no such file", Error::IoFailure("no such file".to_string()).message());
}

#[test]
fn carriage_returns_stay_in_their_lines() {
    assert_eq!(vec!["b\r"], search("b", "a\r\nb\r\n"));
}
