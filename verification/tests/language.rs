use json_structs::json::{JsonValue, NumberKind};
use json_structs::language::{
    camelcase, get_language_formatter, language_for, Go, Java, Language, LanguageFormatter, Rust,
    Scala,
};

fn samples() -> Vec<JsonValue> {
    vec![
        JsonValue::Bool(true),
        JsonValue::Number(NumberKind::Integer),
        JsonValue::Number(NumberKind::Float),
        JsonValue::String(String::from("s")),
        JsonValue::Null,
        JsonValue::Array(vec![]),
        JsonValue::Object(vec![]),
    ]
}

fn names_of<L: LanguageFormatter>(lang: &L) -> Vec<&'static str> {
    samples().iter().map(|v| lang.premitive_type_name(v)).collect()
}

#[test]
fn camelcase_keeps_first_piece() {
    assert_eq!(camelcase("user_name"), "userName");
    assert_eq!(camelcase("user"), "user");
    assert_eq!(camelcase(""), "");
    assert_eq!(camelcase("_x"), "X");
    assert_eq!(camelcase("a__b_c"), "aBC");
    assert_eq!(camelcase("User_name"), "UserName");
}

#[test]
fn lookup_ignores_case() {
    assert_eq!(get_language_formatter("go"), Some(Language::Go));
    assert_eq!(get_language_formatter("GO"), Some(Language::Go));
    assert_eq!(get_language_formatter("Scala"), Some(Language::Scala));
    assert_eq!(get_language_formatter("jAvA"), Some(Language::Java));
    assert_eq!(get_language_formatter("RUST"), Some(Language::Rust));
}

#[test]
fn lookup_rejects_unknown_language() {
    assert_eq!(get_language_formatter("cobol"), None);
    assert_eq!(get_language_formatter(""), None);
    assert_eq!(get_language_formatter(" go"), None);
    assert_eq!(get_language_formatter("golang"), None);
}

#[test]
fn language_for_wants_lower_case() {
    assert_eq!(language_for("go"), Some(Language::Go));
    assert_eq!(language_for("scala"), Some(Language::Scala));
    assert_eq!(language_for("java"), Some(Language::Java));
    assert_eq!(language_for("rust"), Some(Language::Rust));
    assert_eq!(language_for("Go"), None);
    assert_eq!(language_for("RUST"), None);
}

#[test]
fn rust_renderer_texts() {
    let lang = Rust {};
    assert_eq!(
        lang.struct_or_class_header(String::from("user_profile")),
        "pub struct UserProfile {\n"
    );
    assert_eq!(lang.struct_or_class_footer(None), "}");
    assert_eq!(lang.struct_or_class_footer(Some(String::from("X"))), "}");
    assert_eq!(lang.field_name("user_name"), "user_name");
    assert_eq!(lang.format_field_type("i64", "user_id"), "\tpub user_id: i64,\n");
    assert_eq!(lang.format_arr_type(String::from("i64"), false), "Vec<i64>");
    assert_eq!(lang.format_arr_type(String::from("i64"), true), "Vec<Option<i64>>");
    assert_eq!(lang.struct_or_class_name("user_profile"), "UserProfile");
    assert_eq!(
        names_of(&lang),
        vec!["bool", "i64", "f64", "String", "serde_json::Value", "serde_json::Value", "serde_json::Value"]
    );
}

#[test]
fn scala_renderer_texts() {
    let lang = Scala {};
    assert_eq!(
        lang.struct_or_class_header(String::from("user_profile")),
        "case class UserProfile(\n"
    );
    assert_eq!(lang.field_name("user_name"), "userName");
    assert_eq!(lang.format_field_type("Int", "user_id"), "\t\tuserId: Int,\n");
    assert_eq!(lang.format_arr_type(String::from("Int"), false), "Seq[Int]");
    assert_eq!(lang.format_arr_type(String::from("Int"), true), "Seq[Option[Int]]");
    assert_eq!(lang.struct_or_class_name("user_profile"), "UserProfile");
    assert_eq!(
        names_of(&lang),
        vec!["Boolean", "Int", "Double", "String", "Any", "Any", "Any"]
    );
}

#[test]
fn scala_footer_is_indented_by_header_width() {
    let lang = Scala {};
    // "case class AutoGenerated(\n" has 26 bytes
    assert_eq!(lang.struct_or_class_footer(None), "\t\t\t)");
    assert_eq!(
        lang.struct_or_class_footer(Some(String::from("AutoGenerated"))),
        "\t\t\t)"
    );
    // "case class A(\n" has 14 bytes
    assert_eq!(lang.struct_or_class_footer(Some(String::from("a"))), "\t)");
    // "case class (\n" has 13 bytes
    assert_eq!(lang.struct_or_class_footer(Some(String::new())), "\t)");
    // "case class Abc(\n" has 16 bytes
    assert_eq!(lang.struct_or_class_footer(Some(String::from("abc"))), "\t\t)");
    // "case class Éa(\n" has 16 bytes, 15 characters
    assert_eq!(lang.struct_or_class_footer(Some(String::from("éa"))), "\t\t)");
}

#[test]
fn go_renderer_texts() {
    let lang = Go {};
    assert_eq!(
        lang.struct_or_class_header(String::from("user_profile")),
        "type UserProfile struct {\n"
    );
    assert_eq!(lang.struct_or_class_footer(None), "}");
    assert_eq!(lang.field_name("user_name"), "UserName");
    assert_eq!(
        lang.format_field_type("int", "user_id"),
        "\tUserId\tint\t\t`json:\"user_id\"`\n"
    );
    assert_eq!(lang.format_arr_type(String::from("int"), false), "[]int");
    assert_eq!(lang.format_arr_type(String::from("int"), true), "[]*int");
    assert_eq!(lang.struct_or_class_name("user_profile"), "UserProfile");
    assert_eq!(
        names_of(&lang),
        vec!["bool", "int", "float64", "string", "interface{}", "interface{}", "interface{}"]
    );
}

#[test]
fn java_renderer_texts() {
    let lang = Java {};
    assert_eq!(
        lang.struct_or_class_header(String::from("user_profile")),
        "public class UserProfile {\n"
    );
    assert_eq!(lang.struct_or_class_footer(None), "}");
    assert_eq!(lang.field_name("user_name"), "userName");
    assert_eq!(
        lang.format_field_type("Integer", "user_id"),
        "\tpublic Integer userId;\n"
    );
    assert_eq!(lang.format_arr_type(String::from("Integer"), false), "List<Integer>");
    assert_eq!(
        lang.format_arr_type(String::from("Integer"), true),
        "List<Optional<Integer>>"
    );
    assert_eq!(lang.struct_or_class_name("user_profile"), "UserProfile");
    assert_eq!(
        names_of(&lang),
        vec!["Boolean", "Integer", "Double", "String", "Object", "Object", "Object"]
    );
}

#[test]
fn array_key_gives_singular_type_name() {
    let lang = Rust {};
    assert_eq!(lang.struct_name_from_array_key("categories"), "Category");
    assert_eq!(lang.struct_name_from_array_key("users"), "User");
    assert_eq!(lang.struct_name_from_array_key("data"), "Data");
    assert_eq!(lang.struct_name_from_array_key("line_items"), "LineItem");
    assert_eq!(lang.struct_name_from_array_key("a_ies"), "AY");
    assert_eq!(lang.struct_name_from_array_key("s"), "");
    assert_eq!(lang.struct_name_from_array_key("AutoGenerated"), "AutoGenerated");
    assert_eq!((Go {}).struct_name_from_array_key("categories"), "Category");
    assert_eq!((Scala {}).struct_name_from_array_key("users"), "User");
    assert_eq!((Java {}).struct_name_from_array_key("data"), "Data");
}

#[test]
fn language_value_renders_as_its_language() {
    let key = "user_name";
    assert_eq!(Language::Go.field_name(key), (Go {}).field_name(key));
    assert_eq!(Language::Scala.field_name(key), (Scala {}).field_name(key));
    assert_eq!(Language::Java.field_name(key), (Java {}).field_name(key));
    assert_eq!(Language::Rust.field_name(key), (Rust {}).field_name(key));
    assert_eq!(
        Language::Go.struct_or_class_header(String::from("a")),
        "type A struct {\n"
    );
    assert_eq!(
        Language::Scala.struct_or_class_header(String::from("a")),
        "case class A(\n"
    );
    assert_eq!(
        Language::Java.struct_or_class_header(String::from("a")),
        "public class A {\n"
    );
    assert_eq!(
        Language::Rust.struct_or_class_header(String::from("a")),
        "pub struct A {\n"
    );
    assert_eq!(Language::Scala.struct_or_class_footer(None), "\t\t\t)");
    assert_eq!(Language::Go.format_arr_type(String::from("int"), true), "[]*int");
    assert_eq!(
        Language::Java.format_field_type("String", "first_name"),
        "\tpublic String firstName;\n"
    );
    assert_eq!(Language::Rust.premitive_type_name(&JsonValue::Bool(true)), "bool");
    assert_eq!(Language::Scala.struct_or_class_name("a_b"), "AB");
    assert_eq!(Language::Java.struct_name_from_array_key("entries"), "Entry");
}

#[test]
fn optional_array_type_differs_from_plain() {
    for lang in [Language::Go, Language::Scala, Language::Java, Language::Rust] {
        assert_ne!(
            lang.format_arr_type(String::from("T"), true),
            lang.format_arr_type(String::from("T"), false)
        );
        assert_ne!(
            lang.format_arr_type(String::new(), true),
            lang.format_arr_type(String::new(), false)
        );
    }
    assert_eq!(Language::Go.format_arr_type(String::from("T"), true), "[]*T");
    assert_eq!(Language::Scala.format_arr_type(String::from("T"), true), "Seq[Option[T]]");
    assert_eq!(Language::Java.format_arr_type(String::from("T"), true), "List<Optional<T>>");
    assert_eq!(Language::Rust.format_arr_type(String::from("T"), true), "Vec<Option<T>>");
}
