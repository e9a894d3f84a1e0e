use rust_guide::collections::{double_all, Scores};
use rust_guide::dates::{Date, MAX_YEAR, MIN_YEAR};
use rust_guide::patterns::{five_letter_words, Pattern};
use rust_guide::strings::{concatenate, join_with_space, mentions, words};
use rust_guide::web::{echo_reply, echo_text, hello_body, User};

#[test]
fn doubles_each_element() {
    let mut v = vec![1, 2, 3, 4, 5];
    double_all(&mut v);
    assert_eq!(v, vec![2, 4, 6, 8, 10]);
    let mut e: Vec<i32> = Vec::new();
    double_all(&mut e);
    assert!(e.is_empty());
    let mut n = vec![-7, 0];
    double_all(&mut n);
    assert_eq!(n, vec![-14, 0]);
}

#[test]
fn score_table() {
    let mut scores = Scores::new();
    scores.insert("Alice", 85);
    scores.insert("Bob", 90);
    scores.insert("Charlie", 78);
    assert_eq!(scores.get("Bob"), Some(90));
    assert_eq!(scores.get("Dora"), None);
    scores.insert("Alice", 95);
    assert_eq!(scores.get("Alice"), Some(95));
    assert_eq!(scores.entry_or_insert("David", 88), 88);
    assert_eq!(scores.entry_or_insert("David", 10), 88);
    assert_eq!(scores.entry_or_insert("Bob", 1), 90);
    assert_eq!(scores.remove("Charlie"), Some(78));
    assert_eq!(scores.remove("Charlie"), None);
    assert_eq!(scores.get("Charlie"), None);
    assert_eq!(scores.get("Alice"), Some(95));
    assert_eq!(scores.get("David"), Some(88));
}

#[test]
fn score_table_names() {
    let mut scores = Scores::new();
    assert!(scores.names().is_empty());
    scores.insert("Alice", 85);
    scores.insert("Bob", 90);
    scores.insert("Alice", 95);
    let mut names = scores.names();
    names.sort();
    assert_eq!(names, vec!["Alice", "Bob"]);
    scores.remove("Alice");
    assert_eq!(scores.names(), vec!["Bob"]);
}

#[test]
fn string_building_and_search() {
    assert_eq!(join_with_space("Hello", "Rust!"), "Hello Rust!");
    assert_eq!(concatenate(String::from("Hello, "), &String::from("world!")), "Hello, world!");
    assert!(mentions("Hello Rust!", "Rust"));
    assert!(!mentions("Hello Rust!", "rust"));
    assert!(mentions("abc", ""));
    assert!(!mentions("", "a"));
}

#[test]
fn splits_into_words() {
    assert_eq!(words("This is a Rust string."), vec!["This", "is", "a", "Rust", "string."]);
    assert_eq!(words("  two\t words\n"), vec!["two", "words"]);
    assert!(words("").is_empty());
}

#[test]
fn calendar_dates() {
    let d = Date::from_ymd(2025, 3, 28);
    assert_eq!((d.year(), d.month(), d.day()), (2025, 3, 28));
    assert!(Date::from_ymd_opt(2024, 2, 29).is_some());
    assert!(Date::from_ymd_opt(2023, 2, 29).is_none());
    assert!(Date::from_ymd_opt(2000, 2, 29).is_some());
    assert!(Date::from_ymd_opt(1900, 2, 29).is_none());
    assert!(Date::from_ymd_opt(-4, 2, 29).is_some());
    assert!(Date::from_ymd_opt(2023, 4, 31).is_none());
    assert!(Date::from_ymd_opt(2015, 0, 14).is_none());
    assert!(Date::from_ymd_opt(2015, 13, 1).is_none());
    assert!(Date::from_ymd_opt(2015, 1, 0).is_none());
    assert!(Date::from_ymd_opt(MAX_YEAR, 12, 31).is_some());
    assert!(Date::from_ymd_opt(MAX_YEAR + 1, 1, 1).is_none());
    assert!(Date::from_ymd_opt(MIN_YEAR, 1, 1).is_some());
    assert!(Date::from_ymd_opt(MIN_YEAR - 1, 12, 31).is_none());
}

#[test]
fn five_letter_words_found() {
    let found = five_letter_words("The quick brown fox jumps over the lazy dog").unwrap();
    assert_eq!(found, vec!["quick", "brown", "jumps"]);
    assert_eq!(five_letter_words("").unwrap(), Vec::<String>::new());
}

#[test]
fn patterns_compile_or_not() {
    assert!(Pattern::new("foo(bar").is_err());
    let p = Pattern::new("a+").ok().unwrap();
    assert_eq!(p.find_iter("caaab a"), vec!["aaa", "a"]);
}

#[test]
fn route_replies() {
    assert_eq!(hello_body(), "Hello, World!");
    assert_eq!(echo_text("hi"), "You said: hi");
    assert_eq!(echo_reply(Some("there")), "You said: there");
    assert_eq!(echo_reply(None), "You said: No text provided");
    let u = User::new(String::from("Alice"));
    assert_eq!(u.name, "Alice");
}
