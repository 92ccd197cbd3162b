use branch_head::error::{Error, Expected};
use branch_head::json::{parse, quote, Json, Member};

fn member(key: &str, value: Json) -> Member {
    Member { key: key.to_string(), value }
}

fn text(value: &str) -> Json {
    Json::String(value.to_string())
}

#[test]
fn parse_reads_scalars() {
    assert_eq!(parse("null").unwrap(), Json::Null);
    assert_eq!(parse("true").unwrap(), Json::Bool(true));
    assert_eq!(parse("false").unwrap(), Json::Bool(false));
    assert_eq!(parse("4999").unwrap(), Json::Number(Some(4999)));
    assert_eq!(parse("-7").unwrap(), Json::Number(Some(-7)));
    assert_eq!(parse("\"init\"").unwrap(), text("init"));
}

#[test]
fn parse_keeps_only_integers_that_fit() {
    assert_eq!(parse("9223372036854775807").unwrap(), Json::Number(Some(i64::MAX)));
    assert_eq!(parse("-9223372036854775808").unwrap(), Json::Number(Some(i64::MIN)));
    assert_eq!(parse("9223372036854775808").unwrap(), Json::Number(None));
    assert_eq!(parse("1.5").unwrap(), Json::Number(None));
    assert_eq!(parse("1.0").unwrap(), Json::Number(None));
}

#[test]
fn parse_unescapes_strings() {
    assert_eq!(parse(r#""a\"b\\c\nd\u00e9""#).unwrap(), text("a\"b\\c\nd\u{e9}"));
}

#[test]
fn parse_reads_arrays_in_order() {
    let parsed = parse("[1, \"two\", null, [3]]").unwrap();
    let expected = Json::Array(vec![
        Json::Number(Some(1)),
        text("two"),
        Json::Null,
        Json::Array(vec![Json::Number(Some(3))]),
    ]);
    assert_eq!(parsed, expected);
}

#[test]
fn parse_reads_objects() {
    let parsed = parse(r#"{"a": 1, "b": {"c": "d"}}"#).unwrap();
    let expected = Json::Object(vec![
        member("a", Json::Number(Some(1))),
        member("b", Json::Object(vec![member("c", text("d"))])),
    ]);
    assert_eq!(parsed, expected);
}

#[test]
fn parse_agrees_with_serde_json_on_members() {
    let source = r#"{"z": 1, "a": [true, {"k": "v"}], "m": null}"#;
    let parsed = parse(source).unwrap();
    let value: serde_json::Value = serde_json::from_str(source).unwrap();
    let object = value.as_object().unwrap();
    assert_eq!(object.len(), 3);
    for (key, _) in object {
        assert!(parsed.get(key).is_some());
    }
    assert_eq!(*parsed.get("z").unwrap(), Json::Number(Some(1)));
    assert_eq!(*parsed.get("m").unwrap(), Json::Null);
    assert_eq!(*parsed.get("a").unwrap(), Json::Array(vec![Json::Bool(true), Json::Object(vec![member("k", text("v"))])]));
}

#[test]
fn parse_refuses_what_is_no_json() {
    for source in ["", "{", "[1,", "{\"a\" 1}", "nul", "{} x", "<html>"] {
        match parse(source) {
            Err(Error::Syntax(reason)) => assert!(!reason.is_empty()),
            other => panic!("{:?} gave {:?}", source, other.map(|_| ())),
        }
    }
}

#[test]
fn parse_failure_carries_the_words_of_serde_json() {
    let expected = serde_json::from_str::<serde_json::Value>("{").unwrap_err().to_string();
    match parse("{") {
        Err(error) => assert_eq!(error.message(), expected),
        Ok(_) => panic!("parsed"),
    }
}

#[test]
fn parse_is_the_same_each_time() {
    let source = r#"{"data": {"n": [1, 2, 3]}, "errors": null}"#;
    assert_eq!(parse(source).unwrap(), parse(source).unwrap());
}

#[test]
fn quote_writes_a_string_literal() {
    assert_eq!(quote("main").unwrap(), "\"main\"");
    assert_eq!(quote("").unwrap(), "\"\"");
}

#[test]
fn quote_escapes_what_json_must_escape() {
    assert_eq!(quote("a\"b").unwrap(), "\"a\\\"b\"");
    assert_eq!(quote("a\\b").unwrap(), "\"a\\\\b\"");
    assert_eq!(quote("line\nbreak").unwrap(), "\"line\\nbreak\"");
    assert_eq!(quote("tab\there").unwrap(), "\"tab\\there\"");
    assert_eq!(quote("\u{1}").unwrap(), "\"\\u0001\"");
}

#[test]
fn quote_then_parse_gives_the_text_back() {
    for source in ["main", "feature/x", "a\"b\\c", "caf\u{e9} \u{1F600}", "\n\r\t", ""] {
        let literal = quote(source).unwrap();
        assert_eq!(parse(&literal).unwrap(), text(source));
    }
}

#[test]
fn get_finds_the_member_by_key() {
    let object = Json::Object(vec![member("a", Json::Number(Some(1))), member("b", text("x"))]);
    assert_eq!(*object.get("a").unwrap(), Json::Number(Some(1)));
    assert_eq!(*object.get("b").unwrap(), text("x"));
    assert!(object.get("c").is_none());
    assert!(object.get("").is_none());
}

#[test]
fn get_takes_the_first_of_two_members_with_one_key() {
    let object = Json::Object(vec![member("a", Json::Number(Some(1))), member("a", Json::Null)]);
    assert_eq!(*object.get("a").unwrap(), Json::Number(Some(1)));
}

#[test]
fn get_finds_nothing_in_what_is_no_object() {
    assert!(Json::Null.get("a").is_none());
    assert!(text("a").get("a").is_none());
    assert!(Json::Array(vec![text("a")]).get("a").is_none());
    assert!(Json::Object(Vec::new()).get("a").is_none());
}

#[test]
fn string_at_reads_a_text() {
    let object = parse(r#"{"name": "main", "n": 1, "none": null}"#).unwrap();
    assert_eq!(object.string_at("name").unwrap(), "main");
    assert!(matches!(object.string_at("absent"), Err(Error::MissingField(field)) if field == "absent"));
    assert!(matches!(
        object.string_at("n"),
        Err(Error::InvalidType { field, expected: Expected::String }) if field == "n"
    ));
    assert!(matches!(
        object.string_at("none"),
        Err(Error::InvalidType { field, expected: Expected::String }) if field == "none"
    ));
}

#[test]
fn optional_string_at_takes_absent_and_null_for_none() {
    let object = parse(r#"{"name": "Ada", "n": 1, "none": null}"#).unwrap();
    assert_eq!(object.optional_string_at("name").unwrap(), Some("Ada".to_string()));
    assert_eq!(object.optional_string_at("absent").unwrap(), None);
    assert_eq!(object.optional_string_at("none").unwrap(), None);
    assert!(matches!(
        object.optional_string_at("n"),
        Err(Error::InvalidType { field, expected: Expected::String }) if field == "n"
    ));
}

#[test]
fn integer_at_reads_an_integer() {
    let object = parse(r#"{"cost": 1, "big": 5000, "half": 0.5, "text": "1", "none": null}"#).unwrap();
    assert_eq!(object.integer_at("cost").unwrap(), 1);
    assert_eq!(object.integer_at("big").unwrap(), 5000);
    assert!(matches!(object.integer_at("absent"), Err(Error::MissingField(field)) if field == "absent"));
    for key in ["half", "text", "none"] {
        assert!(matches!(
            object.integer_at(key),
            Err(Error::InvalidType { field, expected: Expected::Integer }) if field == key
        ));
    }
}

#[test]
fn object_at_reads_an_object() {
    let object = parse(r#"{"owner": {"login": "octo"}, "n": 1, "none": null}"#).unwrap();
    assert_eq!(object.object_at("owner").unwrap().string_at("login").unwrap(), "octo");
    assert!(matches!(object.object_at("absent"), Err(Error::MissingField(field)) if field == "absent"));
    for key in ["n", "none"] {
        assert!(matches!(
            object.object_at(key),
            Err(Error::InvalidType { field, expected: Expected::Object }) if field == key
        ));
    }
}

#[test]
fn optional_object_at_takes_absent_and_null_for_none() {
    let object = parse(r#"{"ref": {"name": "main"}, "n": [], "none": null}"#).unwrap();
    assert_eq!(
        object.optional_object_at("ref").unwrap().unwrap().string_at("name").unwrap(),
        "main"
    );
    assert!(object.optional_object_at("absent").unwrap().is_none());
    assert!(object.optional_object_at("none").unwrap().is_none());
    assert!(matches!(
        object.optional_object_at("n"),
        Err(Error::InvalidType { field, expected: Expected::Object }) if field == "n"
    ));
}

#[test]
fn optional_array_at_takes_absent_and_null_for_none() {
    let object = parse(r#"{"errors": [1, 2], "n": {}, "none": null}"#).unwrap();
    assert_eq!(object.optional_array_at("errors").unwrap().unwrap().len(), 2);
    assert!(object.optional_array_at("absent").unwrap().is_none());
    assert!(object.optional_array_at("none").unwrap().is_none());
    assert!(matches!(
        object.optional_array_at("n"),
        Err(Error::InvalidType { field, expected: Expected::Array }) if field == "n"
    ));
}

#[test]
fn parse_reads_deep_nesting() {
    let depth = 100;
    let source = format!("{}7{}", "[".repeat(depth), "]".repeat(depth));
    let mut value = &parse(&source).unwrap();
    for _ in 0..depth {
        match value {
            Json::Array(items) => {
                assert_eq!(items.len(), 1);
                value = &items[0];
            }
            other => panic!("{:?}", other),
        }
    }
    assert_eq!(*value, Json::Number(Some(7)));
}

#[test]
fn parse_refuses_nesting_beyond_the_limit_of_serde_json() {
    let depth = 200;
    let source = format!("{}7{}", "[".repeat(depth), "]".repeat(depth));
    assert!(matches!(parse(&source), Err(Error::Syntax(_))));
}

#[test]
fn parse_keeps_the_last_of_two_members_with_one_key() {
    let parsed = parse(r#"{"a": 1, "a": 2}"#).unwrap();
    assert_eq!(parsed, Json::Object(vec![member("a", Json::Number(Some(2)))]));
}
