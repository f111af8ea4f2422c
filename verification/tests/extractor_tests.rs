use parse_royale::json::JsonValue;
use parse_royale::util::find_in_json_array;

fn obj(fields: Vec<(&str, JsonValue)>) -> JsonValue {
    JsonValue::Object(
        fields
            .into_iter()
            .map(|(k, v)| (k.to_string(), v))
            .collect(),
    )
}

#[test]
fn returns_first_of_two_matching_entries() {
    let doc = obj(vec![(
        "cards",
        JsonValue::Array(vec![
            obj(vec![("id", JsonValue::Int(7)), ("tag", JsonValue::Int(1))]),
            obj(vec![("id", JsonValue::Int(7)), ("tag", JsonValue::Int(2))]),
        ]),
    )]);
    let found = find_in_json_array(&doc, "cards", |v: &JsonValue| {
        matches!(v.get("id"), Some(JsonValue::Int(7)))
    })
    .unwrap();
    // The earliest matching entry wins, not the last.
    assert_eq!(found.get("tag").unwrap().as_i64(), Some(1));
}

#[test]
fn finds_later_entry_when_earlier_ones_do_not_match() {
    let doc = obj(vec![(
        "cards",
        JsonValue::Array(vec![
            obj(vec![("id", JsonValue::Int(1))]),
            obj(vec![("id", JsonValue::Int(2))]),
            obj(vec![("id", JsonValue::Int(3))]),
        ]),
    )]);
    let found = find_in_json_array(&doc, "cards", |v: &JsonValue| {
        matches!(v.get("id"), Some(JsonValue::Int(3)))
    })
    .unwrap();
    assert_eq!(found.get("id").unwrap().as_i64(), Some(3));
}

#[test]
fn returns_none_when_nothing_matches() {
    let doc = obj(vec![(
        "cards",
        JsonValue::Array(vec![obj(vec![("id", JsonValue::Int(1))])]),
    )]);
    let found = find_in_json_array(&doc, "cards", |v: &JsonValue| {
        matches!(v.get("id"), Some(JsonValue::Int(9)))
    });
    assert!(found.is_none());
}

#[test]
fn returns_none_when_field_is_absent() {
    let doc = obj(vec![("badges", JsonValue::Array(vec![]))]);
    let found = find_in_json_array(&doc, "cards", |_: &JsonValue| true);
    assert!(found.is_none());
}

#[test]
fn returns_none_when_field_is_not_an_array() {
    let doc = obj(vec![("cards", JsonValue::Int(3))]);
    let found = find_in_json_array(&doc, "cards", |_: &JsonValue| true);
    assert!(found.is_none());
}

#[test]
fn json_get_takes_first_field_on_repeated_name() {
    let doc = obj(vec![
        ("x", JsonValue::Int(1)),
        ("x", JsonValue::Int(2)),
    ]);
    assert_eq!(doc.get("x").unwrap().as_i64(), Some(1));
}

#[test]
fn json_accessors_reject_other_shapes() {
    let doc = obj(vec![("s", JsonValue::Str("hi".to_string()))]);
    assert!(doc.get("s").unwrap().as_i64().is_none());
    assert!(doc.get("s").unwrap().as_array().is_none());
    assert_eq!(doc.get("s").unwrap().as_str(), Some("hi"));
    assert!(doc.get("missing").is_none());
    assert!(JsonValue::Null.get("s").is_none());
}
