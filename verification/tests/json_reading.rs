use local_companion::json::{
    field_of, field_of_parsed, item_of, item_of_parsed, items_of, items_of_parsed, lookup_member,
    parse_json, str_field_of, str_of, str_of_parsed, JsonNode,
};

#[test]
fn parse_json_top_level_object() {
    match parse_json("{\"b\": [1, 2], \"a\": {\"x\": true}}") {
        Ok(JsonNode::Object(entries)) => {
            let keys: Vec<&str> = entries.iter().map(|(k, _)| k.as_str()).collect();
            assert!(keys.contains(&"a") && keys.contains(&"b"));
            for (k, v) in &entries {
                if k == "b" {
                    assert_eq!(v, "[1,2]");
                }
                if k == "a" {
                    assert_eq!(v, "{\"x\":true}");
                }
            }
        },
        other => panic!("unexpected {:?}", other),
    }
}

#[test]
fn parse_json_scalars() {
    assert!(matches!(parse_json("null"), Ok(JsonNode::Null)));
    assert!(matches!(parse_json(" true "), Ok(JsonNode::Bool(true))));
    match parse_json("12.5") {
        Ok(JsonNode::Number(n)) => assert_eq!(n, "12.5"),
        other => panic!("unexpected {:?}", other),
    }
    match parse_json("\"a\\nb\"") {
        Ok(JsonNode::Str(s)) => assert_eq!(s, "a\nb"),
        other => panic!("unexpected {:?}", other),
    }
}

#[test]
fn parse_json_error_has_message() {
    match parse_json("{not json") {
        Err(e) => assert!(!e.is_empty()),
        Ok(n) => panic!("unexpected {:?}", n),
    }
}

#[test]
fn walking_members() {
    let doc = "{\"choices\":[{\"message\":{\"content\":\"hi\"}}]}";
    let choices = field_of(doc, "choices").unwrap();
    let first = item_of(&choices, 0).unwrap();
    assert_eq!(item_of(&choices, 1), None);
    let msg = field_of(&first, "message").unwrap();
    assert_eq!(str_field_of(&msg, "content"), Some("hi".to_string()));
    assert_eq!(str_of(&msg), None);
    assert_eq!(items_of(&choices).map(|v| v.len()), Some(1));
    assert_eq!(field_of("[1]", "a"), None);
    assert_eq!(field_of("oops", "a"), None);
}

#[test]
fn member_lookup_first_match() {
    let es = vec![
        ("a".to_string(), "1".to_string()),
        ("b".to_string(), "\"x\"".to_string()),
        ("a".to_string(), "2".to_string()),
    ];
    assert_eq!(lookup_member(&es, "a"), Some("1".to_string()));
    assert_eq!(lookup_member(&es, "b"), Some("\"x\"".to_string()));
    assert_eq!(lookup_member(&es, "c"), None);
    assert_eq!(lookup_member(&Vec::new(), "a"), None);
}

#[test]
fn reading_given_parse_results() {
    let obj: Result<JsonNode, String> = Ok(JsonNode::Object(vec![
        ("k".to_string(), "[1,2]".to_string()),
    ]));
    assert_eq!(field_of_parsed(&obj, "k"), Some("[1,2]".to_string()));
    assert_eq!(field_of_parsed(&obj, "z"), None);
    let arr: Result<JsonNode, String> =
        Ok(JsonNode::Array(vec!["true".to_string(), "null".to_string()]));
    assert_eq!(field_of_parsed(&arr, "k"), None);
    assert_eq!(item_of_parsed(&arr, 1), Some("null".to_string()));
    assert_eq!(item_of_parsed(&arr, 2), None);
    assert_eq!(item_of_parsed(&obj, 0), None);
    assert_eq!(
        items_of_parsed(Ok(JsonNode::Array(vec!["1".to_string()]))),
        Some(vec!["1".to_string()])
    );
    assert_eq!(items_of_parsed(Ok(JsonNode::Null)), None);
    assert_eq!(str_of_parsed(Ok(JsonNode::Str("hi".to_string()))), Some("hi".to_string()));
    assert_eq!(str_of_parsed(Ok(JsonNode::Number("3".to_string()))), None);
    assert_eq!(str_of_parsed(Err("bad".to_string())), None);
}
