//! The error taxonomy and the identifier domain.

use roblox_api::apis::{Error, Id, JsonError, OptionId, RobloxError, StringError};
use roblox_api::json::{parse_json, u64_to_string, JsonValue};

#[test]
fn structured_error_body_decodes() {
    let body = "{\"errors\":[{\"code\":3,\"message\":\"oops\",\"userFacingMessage\":\"Oh no\"}]}";
    let e = JsonError::parse(String::from(body));
    match e {
        JsonError::Valid {
            code,
            message,
            user_facing_message,
            field,
        } => {
            assert_eq!(code, 3);
            assert_eq!(message, "oops");
            assert_eq!(user_facing_message.as_deref(), Some("Oh no"));
            assert!(field.is_none());
        }
        JsonError::Malformed(_) => panic!("a well-formed error body must decode"),
    }
}

#[test]
fn structured_error_prefers_user_facing_message() {
    let body = "{\"errors\":[{\"code\":1,\"message\":\"raw\",\"userFacingMessage\":\"shown\"}]}";
    let e = JsonError::parse(String::from(body));
    assert_eq!(e.display_error_message(), "shown");
}

#[test]
fn structured_error_falls_back_to_message() {
    let body = "{\"errors\":[{\"code\":1,\"message\":\"raw\"}]}";
    let e = JsonError::parse(String::from(body));
    assert_eq!(e.display_error_message(), "raw");
}

#[test]
fn valid_json_without_errors_array_is_malformed() {
    let body = "{\"ok\":true}";
    let e = JsonError::parse(String::from(body));
    match e {
        JsonError::Malformed(b) => assert_eq!(b, body),
        JsonError::Valid { .. } => panic!("a body without the errors array must stay malformed"),
    }
}

#[test]
fn invalid_json_is_malformed_verbatim() {
    let body = "not json at all";
    let e = JsonError::parse(String::from(body));
    match e {
        JsonError::Malformed(b) => assert_eq!(b, body),
        JsonError::Valid { .. } => panic!("junk must stay malformed"),
    }
}

#[test]
fn malformed_error_renders_with_prefix() {
    let e = JsonError::parse(String::from("[]"));
    assert_eq!(e.display_error_message(), "malformed response: []");
}

#[test]
fn two_element_errors_array_is_malformed() {
    let body = "{\"errors\":[{\"code\":1,\"message\":\"a\"},{\"code\":2,\"message\":\"b\"}]}";
    let e = JsonError::parse(String::from(body));
    assert!(matches!(e, JsonError::Malformed(_)));
}

#[test]
fn error_code_out_of_signed_byte_range_is_malformed() {
    let body = "{\"errors\":[{\"code\":300,\"message\":\"a\"}]}";
    let e = JsonError::parse(String::from(body));
    assert!(matches!(e, JsonError::Malformed(_)));
}

#[test]
fn opaque_policy_keeps_body_verbatim() {
    let e = <StringError as RobloxError>::parse(String::from("whole body"));
    assert_eq!(e.message(), "whole body");
    assert_eq!(e.display_message(), "string api error: whole body");
}

#[test]
fn id_construction_accepts_the_domain() {
    assert!(Id::new(0).is_none());
    assert_eq!(Id::new(1).unwrap().get(), 1);
    assert_eq!(Id::new(i64::MAX as u64).unwrap().get(), i64::MAX as u64);
    assert!(Id::new(i64::MAX as u64 + 1).is_none());
    assert!(Id::new(u64::MAX).is_none());
}

#[test]
fn id_round_trips_through_its_wire_form() {
    for n in [1u64, 5, 10, 123_456_789, i64::MAX as u64] {
        let id = Id::new(n).unwrap();
        let rendered = id.to_dec_string();
        let parsed = parse_json(rendered.as_str()).expect("a decimal literal parses");
        let back = Id::from_json(&parsed).expect("an in-domain integer decodes");
        assert_eq!(back.get(), n);
        assert_eq!(back, id);
    }
}

#[test]
fn zeroable_id_decoding() {
    let zero = parse_json("0").unwrap();
    assert!(matches!(
        OptionId::from_json_zeroable(&zero),
        Some(OptionId::Absent)
    ));

    let five = parse_json("5").unwrap();
    match OptionId::from_json_zeroable(&five) {
        Some(OptionId::Present(id)) => assert_eq!(id.get(), 5),
        other => panic!("5 must decode to a present id, got {other:?}"),
    }

    let negative = parse_json("-1").unwrap();
    assert!(OptionId::from_json_zeroable(&negative).is_none());

    let too_big = parse_json("9223372036854775808").unwrap();
    assert!(OptionId::from_json_zeroable(&too_big).is_none());
}

#[test]
fn plain_option_id_decoding_treats_null_as_absent() {
    let null = parse_json("null").unwrap();
    assert!(matches!(
        OptionId::from_json(&null),
        Some(OptionId::Absent)
    ));

    let zero = parse_json("0").unwrap();
    assert!(OptionId::from_json(&zero).is_none());

    let seven = parse_json("7").unwrap();
    match OptionId::from_json(&seven) {
        Some(oid) => {
            assert!(!oid.is_none());
            assert_eq!(oid.get(), Some(7));
        }
        None => panic!("7 must decode"),
    }
}

#[test]
fn decimal_rendering_is_exact() {
    assert_eq!(u64_to_string(0), "0");
    assert_eq!(u64_to_string(7), "7");
    assert_eq!(u64_to_string(10), "10");
    assert_eq!(u64_to_string(90210), "90210");
    assert_eq!(u64_to_string(u64::MAX), "18446744073709551615");
}

#[test]
fn json_parser_handles_structure_and_escapes() {
    let doc = " {\"a\" : [1, -2, true, null, \"x\\u0041\\n\"], \"a\": 9} ";
    let v = parse_json(doc).unwrap();
    match v {
        JsonValue::Obj(ps) => {
            assert_eq!(ps.len(), 2);
            assert_eq!(ps[0].0, "a");
            match &ps[0].1 {
                JsonValue::Arr(items) => {
                    assert_eq!(items.len(), 5);
                    assert!(matches!(items[0], JsonValue::Int(1)));
                    assert!(matches!(items[1], JsonValue::Int(-2)));
                    assert!(matches!(items[2], JsonValue::Bool(true)));
                    assert!(matches!(items[3], JsonValue::Null));
                    match &items[4] {
                        JsonValue::Str(s) => assert_eq!(s, "xA\n"),
                        other => panic!("expected a string, got {other:?}"),
                    }
                }
                other => panic!("expected an array, got {other:?}"),
            }
            assert!(matches!(ps[1].1, JsonValue::Int(9)));
        }
        other => panic!("expected an object, got {other:?}"),
    }
}

#[test]
fn json_parser_rejects_trailing_garbage() {
    assert!(parse_json("1 2").is_none());
    assert!(parse_json("{\"a\":1,}").is_none());
    assert!(parse_json("[1 1]").is_none());
    assert!(parse_json("").is_none());
    assert!(parse_json("\"unterminated").is_none());
}

#[test]
fn json_parser_classifies_numbers() {
    assert!(matches!(parse_json("42"), Some(JsonValue::Int(42))));
    assert!(matches!(
        parse_json("-9223372036854775808"),
        Some(JsonValue::Int(i64::MIN))
    ));
    assert!(matches!(
        parse_json("9223372036854775807"),
        Some(JsonValue::Int(i64::MAX))
    ));
    assert!(matches!(
        parse_json("9223372036854775808"),
        Some(JsonValue::BigNum)
    ));
    assert!(matches!(parse_json("1.5"), Some(JsonValue::BigNum)));
    assert!(matches!(parse_json("1e3"), Some(JsonValue::BigNum)));
    assert!(parse_json("01").is_none());
    assert!(parse_json("-").is_none());
    assert!(parse_json("1.").is_none());
}

#[test]
fn error_kind_predicates() {
    let api: Error<JsonError> = Error::Api(JsonError::parse(String::from("x")));
    assert!(api.is_api() && !api.is_request() && !api.is_rate_limit());
    let req: Error<JsonError> = Error::Request(String::from("connection reset"));
    assert!(req.is_request());
    let limited: Error<JsonError> = Error::default();
    assert!(limited.is_rate_limit());
    let from_string: Error<StringError> = Error::Api(StringError::default());
    assert!(from_string.is_api());
}
