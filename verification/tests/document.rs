use json_structs::document::{generate_from_text, parse_json, ParseError};
use json_structs::json::{number_kind, JsonValue, NumberKind};
use json_structs::language::{Go, Rust};

fn member(key: &str, value: JsonValue) -> (String, JsonValue) {
    (String::from(key), value)
}

#[test]
fn number_kind_of_flag() {
    assert_eq!(number_kind(true), NumberKind::Float);
    assert_eq!(number_kind(false), NumberKind::Integer);
}

#[test]
fn parse_scalars() {
    assert_eq!(parse_json("null"), Ok(JsonValue::Null));
    assert_eq!(parse_json("true"), Ok(JsonValue::Bool(true)));
    assert_eq!(parse_json("false"), Ok(JsonValue::Bool(false)));
    assert_eq!(parse_json("\"hi\""), Ok(JsonValue::String(String::from("hi"))));
    assert_eq!(parse_json(" 7 "), Ok(JsonValue::Number(NumberKind::Integer)));
}

#[test]
fn parse_tells_integers_from_floats() {
    assert_eq!(parse_json("1"), Ok(JsonValue::Number(NumberKind::Integer)));
    assert_eq!(parse_json("-1"), Ok(JsonValue::Number(NumberKind::Integer)));
    assert_eq!(parse_json("0"), Ok(JsonValue::Number(NumberKind::Integer)));
    assert_eq!(
        parse_json("18446744073709551615"),
        Ok(JsonValue::Number(NumberKind::Integer))
    );
    assert_eq!(parse_json("1.0"), Ok(JsonValue::Number(NumberKind::Float)));
    assert_eq!(parse_json("1e2"), Ok(JsonValue::Number(NumberKind::Float)));
    assert_eq!(parse_json("-0.5"), Ok(JsonValue::Number(NumberKind::Float)));
    assert_eq!(
        parse_json("18446744073709551616"),
        Ok(JsonValue::Number(NumberKind::Float))
    );
}

#[test]
fn parse_keeps_array_items_in_order() {
    assert_eq!(
        parse_json("[null, 1, \"a\", [true]]"),
        Ok(JsonValue::Array(vec![
            JsonValue::Null,
            JsonValue::Number(NumberKind::Integer),
            JsonValue::String(String::from("a")),
            JsonValue::Array(vec![JsonValue::Bool(true)]),
        ]))
    );
    assert_eq!(parse_json("[]"), Ok(JsonValue::Array(vec![])));
}

#[test]
fn parse_keeps_members_in_document_order() {
    assert_eq!(
        parse_json("{\"zeta\": 1, \"alpha\": {\"m\": null, \"b\": 2.5}, \"mid\": []}"),
        Ok(JsonValue::Object(vec![
            member("zeta", JsonValue::Number(NumberKind::Integer)),
            member(
                "alpha",
                JsonValue::Object(vec![
                    member("m", JsonValue::Null),
                    member("b", JsonValue::Number(NumberKind::Float)),
                ])
            ),
            member("mid", JsonValue::Array(vec![])),
        ]))
    );
    assert_eq!(parse_json("{}"), Ok(JsonValue::Object(vec![])));
}

#[test]
fn parse_rejects_malformed_text() {
    assert_eq!(parse_json(""), Err(ParseError { line: 1, column: 0 }));
    assert_eq!(parse_json("{"), Err(ParseError { line: 1, column: 1 }));
    assert_eq!(parse_json("[1,]"), Err(ParseError { line: 1, column: 4 }));
    assert_eq!(parse_json("{\"a\": 1}\n x"), Err(ParseError { line: 2, column: 2 }));
    assert!(parse_json("{'a': 1}").is_err());
    assert!(parse_json("1 2").is_err());
    assert!(parse_json("nul").is_err());
}

#[test]
fn generate_from_text_renders_the_document() {
    assert_eq!(
        generate_from_text("{\"user\": {\"id\": 1, \"name\": \"x\"}}", &Rust {}),
        Ok(vec![
            String::from("pub struct User {\n\tpub id: i64,\n\tpub name: String,\n}"),
            String::from("pub struct AutoGenerated {\n\tpub user: User,\n}"),
        ])
    );
    assert_eq!(
        generate_from_text("{\"b\": 1, \"a\": 2}", &Go {}),
        Ok(vec![String::from(
            "type AutoGenerated struct {\n\tB\tint\t\t`json:\"b\"`\n\tA\tint\t\t`json:\"a\"`\n}"
        )])
    );
    assert_eq!(generate_from_text("[1, 2, 3]", &Go {}), Ok(vec![]));
    assert_eq!(generate_from_text("42", &Go {}), Ok(vec![]));
}

#[test]
fn generate_from_text_fails_on_malformed_text() {
    assert_eq!(
        generate_from_text("{\"a\": }", &Rust {}),
        Err(ParseError { line: 1, column: 7 })
    );
    assert!(generate_from_text("", &Go {}).is_err());
}

#[test]
fn parse_keeps_the_last_value_of_a_repeated_key() {
    assert_eq!(
        parse_json("{\"a\": 1, \"b\": true, \"a\": \"x\"}"),
        Ok(JsonValue::Object(vec![
            member("a", JsonValue::String(String::from("x"))),
            member("b", JsonValue::Bool(true)),
        ]))
    );
}

#[test]
fn parse_decodes_escapes_in_keys_and_strings() {
    assert_eq!(
        parse_json("{\"stra\\u00dfe\": \"a\\nb\"}"),
        Ok(JsonValue::Object(vec![member(
            "straße",
            JsonValue::String(String::from("a\nb"))
        )]))
    );
}
