use rust_agent::error::MemoryError;
use rust_agent::json::{
    insert_member, json_array, json_count, json_object, json_string, members_without,
    JsonNumber, JsonValue,
};
use rust_agent::memory::utils::{
    deserialize_from_str, estimate_json_token_count, serialize_to_string,
};

#[test]
fn text_is_read_into_a_tree() {
    let tree = deserialize_from_str(
        "{\"b\": [1, -2, 1.5, true, null, \"x\"], \"a\": {\"inner\": \"v\"}}",
    )
    .unwrap();
    assert_eq!(tree.get("a").unwrap().str_at("inner"), Some("v"));
    assert!(tree.get("missing").is_none());
    let items = match tree.get("b").unwrap() {
        JsonValue::Array(items) => items,
        _ => panic!("b is an array"),
    };
    assert_eq!(items.len(), 6);
    assert_eq!(items[0].as_u64(), Some(1));
    assert!(matches!(items[1], JsonValue::Number(JsonNumber::NegInt(-2))));
    assert_eq!(items[1].as_u64(), None);
    match &items[2] {
        JsonValue::Number(JsonNumber::Float(text)) => assert_eq!(text, "1.5"),
        other => panic!("unexpected {:?}", other),
    }
    assert!(matches!(items[3], JsonValue::Bool(true)));
    assert!(items[4].is_null());
    assert_eq!(items[5].as_str(), Some("x"));
    assert_eq!(tree.as_str(), None);
    assert!(tree.str_at("b").is_none());
}

#[test]
fn text_that_is_no_json_is_refused() {
    assert_eq!(deserialize_from_str("{oops").err(), Some(MemoryError::InvalidJson));
    assert_eq!(deserialize_from_str("").err(), Some(MemoryError::InvalidJson));
}

#[test]
fn tree_is_written_as_compact_text() {
    let mut members = Vec::new();
    insert_member(&mut members, "name", json_string("x \"y\""));
    insert_member(&mut members, "count", json_count(3));
    insert_member(
        &mut members,
        "list",
        json_array(vec![
            JsonValue::Number(JsonNumber::NegInt(-4)),
            JsonValue::Number(JsonNumber::Float("2.5".to_string())),
            JsonValue::Null,
            JsonValue::Bool(false),
        ]),
    );
    let text = serialize_to_string(&json_object(members)).unwrap();
    assert_eq!(text, "{\"count\":3,\"list\":[-4,2.5,null,false],\"name\":\"x \\\"y\\\"\"}");
    let again = deserialize_from_str(&text).unwrap();
    assert_eq!(serialize_to_string(&again).unwrap(), text);
}

#[test]
fn insert_replaces_a_member_of_the_same_name() {
    let mut members = Vec::new();
    insert_member(&mut members, "a", json_count(1));
    insert_member(&mut members, "b", json_count(2));
    insert_member(&mut members, "a", json_count(3));
    assert_eq!(members.len(), 2);
    assert_eq!(members[0].0, "a");
    assert_eq!(members[0].1.as_u64(), Some(3));
    assert_eq!(members[1].1.as_u64(), Some(2));
    let kept = members_without(&members, "a");
    assert_eq!(kept.len(), 1);
    assert_eq!(kept[0].0, "b");
}

#[test]
fn duplicate_copies_the_whole_tree() {
    let tree = deserialize_from_str("{\"a\": [1, {\"b\": \"c\"}], \"d\": 2.25}").unwrap();
    let copy = tree.duplicate();
    assert_eq!(serialize_to_string(&copy).unwrap(), serialize_to_string(&tree).unwrap());
}

#[test]
fn json_token_estimate_follows_the_formula() {
    assert_eq!(estimate_json_token_count(&json_string("abcdefgh")), 2);
    assert_eq!(estimate_json_token_count(&json_count(7)), 1);
    assert_eq!(estimate_json_token_count(&JsonValue::Bool(true)), 1);
    assert_eq!(estimate_json_token_count(&JsonValue::Null), 1);
    assert_eq!(estimate_json_token_count(&json_array(vec![])), 2);
    let list = json_array(vec![json_count(1), json_string("abcd")]);
    assert_eq!(estimate_json_token_count(&list), 2 + (1 + 1) + (1 + 1));
    let object = json_object(vec![
        ("abcd".to_string(), json_count(1)),
        ("k".to_string(), json_array(vec![JsonValue::Null])),
    ]);
    assert_eq!(estimate_json_token_count(&object), 2 + (1 + 1) + (1 + 1) + (0 + 1) + (4 + 1));
}
