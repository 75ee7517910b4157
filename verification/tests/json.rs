use usage_widget::json::parse_json;
use usage_widget::json::Json;
use usage_widget::json::JsonMember;

#[test]
fn parse_reads_every_kind_of_value() {
    assert!(matches!(parse_json("null").unwrap(), Json::Null));
    assert!(matches!(parse_json("true").unwrap(), Json::Bool(true)));
    assert!(matches!(parse_json("false").unwrap(), Json::Bool(false)));
    match parse_json("42").unwrap() {
        Json::Number(text) => assert_eq!(text, "42"),
        other => panic!("expected a number, got {:?}", other),
    }
    match parse_json("-7").unwrap() {
        Json::Number(text) => assert_eq!(text, "-7"),
        other => panic!("expected a number, got {:?}", other),
    }
    match parse_json("\"a\\nb\"").unwrap() {
        Json::Text(text) => assert_eq!(text, "a\nb"),
        other => panic!("expected a text, got {:?}", other),
    }
}

#[test]
fn parse_reads_nested_values() {
    let doc = parse_json(r#"{"b": [1, "two", {"c": null}], "a": {"d": true}}"#).unwrap();
    let a = doc.member("a").unwrap();
    assert!(matches!(a.member("d"), Some(Json::Bool(true))));
    match doc.member("b").unwrap() {
        Json::Array(items) => {
            assert_eq!(items.len(), 3);
            assert!(matches!(&items[0], Json::Number(n) if n == "1"));
            assert_eq!(items[1].as_text().unwrap(), "two");
            assert!(matches!(items[2].member("c"), Some(Json::Null)));
        }
        other => panic!("expected an array, got {:?}", other),
    }
    match &doc {
        Json::Object(members) => assert_eq!(members.len(), 2),
        other => panic!("expected an object, got {:?}", other),
    }
}

#[test]
fn parse_reports_what_serde_json_reports() {
    for text in ["", "{", "{\"a\": }", "[1,]", "nul", "{\"a\": 1} x"] {
        let expected = serde_json::from_str::<serde_json::Value>(text).unwrap_err().to_string();
        assert_eq!(parse_json(text).unwrap_err(), expected);
    }
}

#[test]
fn later_member_of_a_name_wins_in_text() {
    let doc = parse_json(r#"{"a": "first", "a": "second"}"#).unwrap();
    assert_eq!(doc.member("a").unwrap().as_text().unwrap(), "second");
}

#[test]
fn member_is_the_first_of_its_name() {
    let doc = Json::Object(vec![
        JsonMember { name: "a".to_string(), value: Json::Text("first".to_string()) },
        JsonMember { name: "b".to_string(), value: Json::Null },
        JsonMember { name: "a".to_string(), value: Json::Text("second".to_string()) },
    ]);
    assert_eq!(doc.member("a").unwrap().as_text().unwrap(), "first");
    assert!(matches!(doc.member("b"), Some(Json::Null)));
    assert!(doc.member("c").is_none());
    assert!(doc.member("").is_none());
}

#[test]
fn only_objects_have_members() {
    assert!(Json::Null.member("a").is_none());
    assert!(Json::Bool(true).member("a").is_none());
    assert!(Json::Number("1".to_string()).member("a").is_none());
    assert!(Json::Text("a".to_string()).member("a").is_none());
    assert!(Json::Array(vec![Json::Null]).member("a").is_none());
}

#[test]
fn only_texts_have_a_text() {
    assert_eq!(Json::Text("t".to_string()).as_text().unwrap(), "t");
    assert!(Json::Null.as_text().is_none());
    assert!(Json::Bool(false).as_text().is_none());
    assert!(Json::Number("1".to_string()).as_text().is_none());
    assert!(Json::Array(vec![]).as_text().is_none());
    assert!(Json::Object(vec![]).as_text().is_none());
}
