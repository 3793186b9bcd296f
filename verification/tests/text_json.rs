use rust_kratos::json::{bool_in, member_of, object1, text_in, u64_in, Json};
use rust_kratos::text::{contains, decimal_string, find, join, replace_all, starts_with, text_eq};

fn s(x: &str) -> String {
    x.to_string()
}

#[test]
fn find_gives_the_first_occurrence() {
    assert_eq!(find("a flow=1 flow=2", "flow="), Some(2));
    assert_eq!(find("abc", "d"), None);
    assert_eq!(find("abc", ""), Some(0));
}

#[test]
fn contains_and_starts_with() {
    assert!(contains("http://localhost:4433", "localhost"));
    assert!(!contains("http://127.0.0.1", "localhost"));
    assert!(starts_with("ory_kratos_session=1", "ory_"));
    assert!(!starts_with("a", "ab"));
    assert!(text_eq("x", "x"));
    assert!(!text_eq("x", "y"));
}

#[test]
fn replace_all_replaces_every_occurrence() {
    assert_eq!(replace_all("localhost and localhost", "localhost", "127.0.0.1"), "127.0.0.1 and 127.0.0.1");
    assert_eq!(replace_all("aaa", "aa", "b"), "ba");
    assert_eq!(replace_all("none here", "x", "y"), "none here");
}

#[test]
fn join_puts_the_separator_between_parts() {
    assert_eq!(join(&vec![s("a=1"), s("b=2"), s("c=3")], "; "), "a=1; b=2; c=3");
    assert_eq!(join(&vec![s("only")], "; "), "only");
    assert_eq!(join(&vec![], "; "), "");
}

#[test]
fn decimal_writes_numbers() {
    assert_eq!(decimal_string(0), "0");
    assert_eq!(decimal_string(503), "503");
    assert_eq!(decimal_string(18446744073709551615), "18446744073709551615");
}

#[test]
fn json_access() {
    let doc = Json::Object(vec![
        (s("id"), Json::Str(s("f1"))),
        (s("active"), Json::Bool(true)),
        (s("n"), Json::Number(s("4000006"))),
        (s("neg"), Json::Number(s("-1"))),
        (s("inner"), object1("k", Json::Str(s("v")))),
    ]);
    assert_eq!(text_in(doc.get("id")), Some(s("f1")));
    assert_eq!(text_in(doc.get("missing")), None);
    assert_eq!(bool_in(doc.get("active")), Some(true));
    assert_eq!(bool_in(doc.get("id")), None);
    assert_eq!(u64_in(doc.get("n")), Some(4000006));
    assert_eq!(u64_in(doc.get("neg")), None);
    assert_eq!(text_in(member_of(doc.get("inner"), "k")), Some(s("v")));
    assert_eq!(text_in(member_of(None, "k")), None);
    assert!(doc.get("inner").unwrap().as_array().is_none());
    assert_eq!(doc.get("n").unwrap().as_u64(), Some(4000006));
}

#[test]
fn json_first_member_of_a_key_wins() {
    let doc = Json::Object(vec![(s("a"), Json::Str(s("first"))), (s("a"), Json::Str(s("second")))]);
    assert_eq!(text_in(doc.get("a")), Some(s("first")));
}
