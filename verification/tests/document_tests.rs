use sidecar_supervisor::document::{parse, Json, Member};

fn text(s: &str) -> Json {
    Json::Text(s.to_string())
}

fn member(name: &str, value: Json) -> Member {
    Member { name: name.to_string(), value }
}

#[test]
fn parse_reads_an_object_with_a_text() {
    let doc = parse(r#"{"a": "b"}"#).unwrap();
    assert_eq!(doc.member("a").and_then(|v| v.as_text()), Some("b"));
    assert!(doc.member("b").is_none());
}

#[test]
fn parse_keeps_every_kind_of_value() {
    let doc = parse(r#"{"n": null, "t": true, "f": false, "i": 12, "s": "x", "a": [], "o": {}}"#)
        .unwrap();
    assert!(matches!(doc.member("n"), Some(Json::Null)));
    assert!(matches!(doc.member("t"), Some(Json::Bool(true))));
    assert!(matches!(doc.member("f"), Some(Json::Bool(false))));
    match doc.member("i") {
        Some(Json::Number(n)) => assert_eq!(n, "12"),
        other => panic!("not a number: {:?}", other),
    }
    assert_eq!(doc.member("s").and_then(|v| v.as_text()), Some("x"));
    assert_eq!(doc.member("a").and_then(|v| v.as_items()).map(|v| v.len()), Some(0));
    match doc.member("o") {
        Some(Json::Object(members)) => assert!(members.is_empty()),
        other => panic!("not an object: {:?}", other),
    }
}

#[test]
fn parse_keeps_numbers_as_their_text() {
    let doc = parse("[1, -3, 2.5]").unwrap();
    let items = doc.as_items().unwrap();
    assert_eq!(items.len(), 3);
    let texts: Vec<String> = items
        .iter()
        .map(|item| match item {
            Json::Number(n) => n.clone(),
            other => panic!("not a number: {:?}", other),
        })
        .collect();
    assert_eq!(texts, vec!["1".to_string(), "-3".to_string(), "2.5".to_string()]);
}

#[test]
fn parse_keeps_array_order_and_nesting() {
    let doc = parse(r#"[["a", "b"], {"k": ["c"]}, "d"]"#).unwrap();
    let items = doc.as_items().unwrap();
    assert_eq!(items.len(), 3);
    let first = items[0].as_items().unwrap();
    assert_eq!(first[0].as_text(), Some("a"));
    assert_eq!(first[1].as_text(), Some("b"));
    let inner = items[1].member("k").unwrap().as_items().unwrap();
    assert_eq!(inner.len(), 1);
    assert_eq!(inner[0].as_text(), Some("c"));
    assert_eq!(items[2].as_text(), Some("d"));
}

#[test]
fn parse_of_a_repeated_name_keeps_the_last_value() {
    let doc = parse(r#"{"a": "first", "a": "second"}"#).unwrap();
    assert_eq!(doc.member("a").and_then(|v| v.as_text()), Some("second"));
    match &doc {
        Json::Object(members) => assert_eq!(members.len(), 1),
        other => panic!("not an object: {:?}", other),
    }
}

#[test]
fn parse_refuses_what_is_not_json() {
    for bad in ["", "{", "{\"a\": }", "[1, 2", "nul", "{\"a\": 1} trailing", "{'a': 1}"] {
        let failure = parse(bad).unwrap_err();
        assert!(!failure.detail.is_empty(), "no detail for {:?}", bad);
    }
}

#[test]
fn parse_failure_says_where() {
    let failure = parse("{\n  \"a\": ?\n}").unwrap_err();
    assert_eq!(failure.detail, "expected value at line 2 column 8");
}

#[test]
fn member_finds_the_first_of_that_name() {
    let doc = Json::Object(vec![
        member("x", text("1")),
        member("y", text("2")),
        member("x", text("3")),
    ]);
    assert_eq!(doc.member("x").and_then(|v| v.as_text()), Some("1"));
    assert_eq!(doc.member("y").and_then(|v| v.as_text()), Some("2"));
    assert!(doc.member("z").is_none());
    assert!(doc.member("").is_none());
}

#[test]
fn member_of_what_is_no_object_is_none() {
    assert!(Json::Null.member("a").is_none());
    assert!(Json::Bool(true).member("a").is_none());
    assert!(Json::Number("1".to_string()).member("a").is_none());
    assert!(text("a").member("a").is_none());
    assert!(Json::Array(vec![text("a")]).member("a").is_none());
    assert!(Json::Object(vec![]).member("a").is_none());
}

#[test]
fn as_text_is_some_for_texts_only() {
    assert_eq!(text("hello").as_text(), Some("hello"));
    assert_eq!(text("").as_text(), Some(""));
    assert_eq!(Json::Null.as_text(), None);
    assert_eq!(Json::Bool(false).as_text(), None);
    assert_eq!(Json::Number("7".to_string()).as_text(), None);
    assert_eq!(Json::Array(vec![]).as_text(), None);
    assert_eq!(Json::Object(vec![]).as_text(), None);
}

#[test]
fn as_items_is_some_for_arrays_only() {
    let array = Json::Array(vec![text("a"), Json::Null]);
    assert_eq!(array.as_items().map(|v| v.len()), Some(2));
    assert!(Json::Null.as_items().is_none());
    assert!(text("a").as_items().is_none());
    assert!(Json::Object(vec![]).as_items().is_none());
}
