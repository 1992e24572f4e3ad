use json_structs::formatting::{
    create_go_key, first_char_upper, format_array_type, format_member_definition,
    get_primitive_type_name, replace_first_char,
};
use json_structs::json::{primitive_kind, JsonValue, NumberKind, PrimitiveKind};
use json_structs::text::{singular_key, split_on_underscore};

#[test]
fn first_char_upper_of_empty_is_empty() {
    assert_eq!(first_char_upper(""), "");
}

#[test]
fn first_char_upper_changes_only_first() {
    assert_eq!(first_char_upper("abc"), "Abc");
    assert_eq!(first_char_upper("aBC"), "ABC");
    assert_eq!(first_char_upper("Already"), "Already");
    assert_eq!(first_char_upper("x"), "X");
    assert_eq!(first_char_upper("1st"), "1st");
}

#[test]
fn first_char_upper_is_unicode_aware() {
    assert_eq!(first_char_upper("élan"), "Élan");
    assert_eq!(first_char_upper("ßeta"), "SSeta");
    assert_eq!(first_char_upper("ñ"), "Ñ");
}

#[test]
fn replace_first_char_keeps_the_rest() {
    assert_eq!(replace_first_char(String::from("XY"), "abc"), "XYbc");
    assert_eq!(replace_first_char(String::from(""), "abc"), "bc");
    assert_eq!(replace_first_char(String::from("Q"), "é"), "Q");
    assert_eq!(replace_first_char(String::from("Q"), ""), "Q");
}

#[test]
fn split_keeps_empty_pieces() {
    assert_eq!(split_on_underscore("a_b"), vec!["a", "b"]);
    assert_eq!(split_on_underscore(""), vec![""]);
    assert_eq!(split_on_underscore("_"), vec!["", ""]);
    assert_eq!(split_on_underscore("a__b_"), vec!["a", "", "b", ""]);
    assert_eq!(split_on_underscore("plain"), vec!["plain"]);
}

#[test]
fn create_go_key_is_pascal_case() {
    assert_eq!(create_go_key("user_name"), "UserName");
    assert_eq!(create_go_key("user"), "User");
    assert_eq!(create_go_key(""), "");
    assert_eq!(create_go_key("a__b"), "AB");
    assert_eq!(create_go_key("_x_"), "X");
    assert_eq!(create_go_key("created_at_utc"), "CreatedAtUtc");
    assert_eq!(create_go_key("AutoGenerated"), "AutoGenerated");
}

#[test]
fn member_definition_has_name_type_and_tag() {
    assert_eq!(
        format_member_definition(String::from("UserName"), "string", "user_name"),
        "\tUserName\tstring\t\t`json:\"user_name\"`\n"
    );
}

#[test]
fn array_type_puts_prefix_before_element() {
    assert_eq!(format_array_type("int", ""), "[]int");
    assert_eq!(format_array_type("User", "*"), "[]*User");
}

#[test]
fn primitive_kinds_of_values() {
    assert_eq!(primitive_kind(&JsonValue::Bool(true)), PrimitiveKind::Bool);
    assert_eq!(
        primitive_kind(&JsonValue::Number(NumberKind::Integer)),
        PrimitiveKind::Integer
    );
    assert_eq!(
        primitive_kind(&JsonValue::Number(NumberKind::Float)),
        PrimitiveKind::Float
    );
    assert_eq!(
        primitive_kind(&JsonValue::String(String::from("x"))),
        PrimitiveKind::String
    );
    assert_eq!(primitive_kind(&JsonValue::Null), PrimitiveKind::Any);
    assert_eq!(primitive_kind(&JsonValue::Array(vec![])), PrimitiveKind::Any);
    assert_eq!(primitive_kind(&JsonValue::Object(vec![])), PrimitiveKind::Any);
}

#[test]
fn default_primitive_names() {
    assert_eq!(get_primitive_type_name(&JsonValue::Bool(false)), "bool");
    assert_eq!(
        get_primitive_type_name(&JsonValue::Number(NumberKind::Integer)),
        "int"
    );
    assert_eq!(
        get_primitive_type_name(&JsonValue::Number(NumberKind::Float)),
        "float64"
    );
    assert_eq!(
        get_primitive_type_name(&JsonValue::String(String::new())),
        "string"
    );
    assert_eq!(get_primitive_type_name(&JsonValue::Null), "interface{}");
    assert_eq!(
        get_primitive_type_name(&JsonValue::Array(vec![JsonValue::Bool(true)])),
        "interface{}"
    );
    assert_eq!(get_primitive_type_name(&JsonValue::Object(vec![])), "interface{}");
}

#[test]
fn singular_key_strips_plural_endings() {
    assert_eq!(singular_key("categories"), "category");
    assert_eq!(singular_key("users"), "user");
    assert_eq!(singular_key("data"), "data");
    assert_eq!(singular_key("ies"), "y");
    assert_eq!(singular_key("s"), "");
    assert_eq!(singular_key(""), "");
    assert_eq!(singular_key("es"), "e");
    assert_eq!(singular_key("class"), "clas");
    assert_eq!(singular_key("séries"), "séry");
}
