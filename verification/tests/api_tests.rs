use parse_royale::api::check_api_response;
use parse_royale::json::JsonValue;
use parse_royale::numfmt::{i64_to_string, usize_to_string};

fn obj(fields: Vec<(&str, JsonValue)>) -> JsonValue {
    JsonValue::Object(
        fields
            .into_iter()
            .map(|(k, v)| (k.to_string(), v))
            .collect(),
    )
}

#[test]
fn response_with_reason_is_an_error() {
    let doc = obj(vec![(
        "reason",
        JsonValue::Str("accessDenied".to_string()),
    )]);
    assert_eq!(
        check_api_response(&doc).unwrap_err(),
        "Clash Royale API returned an error \"accessDenied\""
    );
}

#[test]
fn response_without_reason_is_good() {
    let doc = obj(vec![("name", JsonValue::Str("ace".to_string()))]);
    assert!(check_api_response(&doc).is_ok());
}

#[test]
fn response_with_non_string_reason_is_good() {
    // Only a string `reason` marks an error response.
    let doc = obj(vec![("reason", JsonValue::Int(1))]);
    assert!(check_api_response(&doc).is_ok());
}

#[test]
fn renders_integers_in_decimal() {
    assert_eq!(i64_to_string(0), "0");
    assert_eq!(i64_to_string(14), "14");
    assert_eq!(i64_to_string(-3), "-3");
    assert_eq!(i64_to_string(1234567890), "1234567890");
    assert_eq!(i64_to_string(i64::MIN), "-9223372036854775808");
    assert_eq!(i64_to_string(i64::MAX), "9223372036854775807");
    assert_eq!(usize_to_string(121), "121");
}
