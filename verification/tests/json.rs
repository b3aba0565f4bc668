use serde_json::Value;
use studio_bridge::json::{string_at, Step};

fn parse(text: &str) -> Value {
    serde_json::from_str(text).expect("a JSON document")
}

#[test]
fn string_at_the_root() {
    assert_eq!(string_at(&parse("\"hello\""), &vec![]), Some("hello".to_string()));
    assert_eq!(string_at(&parse("\"\""), &vec![]), Some(String::new()));
    assert_eq!(string_at(&parse("12"), &vec![]), None);
    assert_eq!(string_at(&parse("null"), &vec![]), None);
    assert_eq!(string_at(&parse("{}"), &vec![]), None);
    assert_eq!(string_at(&parse("[\"a\"]"), &vec![]), None);
}

#[test]
fn string_under_a_key() {
    let doc = parse("{\"a\": \"x\", \"b\": 2, \"c\": {\"a\": \"y\"}}");
    assert_eq!(string_at(&doc, &vec![Step::Key("a")]), Some("x".to_string()));
    assert_eq!(string_at(&doc, &vec![Step::Key("b")]), None);
    assert_eq!(string_at(&doc, &vec![Step::Key("c")]), None);
    assert_eq!(string_at(&doc, &vec![Step::Key("c"), Step::Key("a")]), Some("y".to_string()));
    assert_eq!(string_at(&doc, &vec![Step::Key("d")]), None);
    assert_eq!(string_at(&doc, &vec![Step::Key("a"), Step::Key("a")]), None);
    assert_eq!(string_at(&doc, &vec![Step::Index(0)]), None);
}

#[test]
fn string_at_a_position() {
    let doc = parse("[\"zero\", [\"inner\"], {\"k\": \"v\"}, 3]");
    assert_eq!(string_at(&doc, &vec![Step::Index(0)]), Some("zero".to_string()));
    assert_eq!(string_at(&doc, &vec![Step::Index(1)]), None);
    assert_eq!(string_at(&doc, &vec![Step::Index(1), Step::Index(0)]), Some("inner".to_string()));
    assert_eq!(string_at(&doc, &vec![Step::Index(2), Step::Key("k")]), Some("v".to_string()));
    assert_eq!(string_at(&doc, &vec![Step::Index(3)]), None);
    assert_eq!(string_at(&doc, &vec![Step::Index(4)]), None);
    assert_eq!(string_at(&doc, &vec![Step::Key("0")]), None);
}

#[test]
fn keys_are_compared_exactly() {
    let doc = parse("{\"Text\": \"upper\", \"text \": \"spaced\", \"t\u{00E9}xt\": \"accent\"}");
    assert_eq!(string_at(&doc, &vec![Step::Key("text")]), None);
    assert_eq!(string_at(&doc, &vec![Step::Key("Text")]), Some("upper".to_string()));
    assert_eq!(string_at(&doc, &vec![Step::Key("text ")]), Some("spaced".to_string()));
    assert_eq!(string_at(&doc, &vec![Step::Key("t\u{00E9}xt")]), Some("accent".to_string()));
}

#[test]
fn string_is_returned_unescaped() {
    let doc = parse("{\"s\": \"a\\nb\\t\\\"c\\\" \\u00e9\"}");
    assert_eq!(string_at(&doc, &vec![Step::Key("s")]), Some("a\nb\t\"c\" \u{00E9}".to_string()));
}
