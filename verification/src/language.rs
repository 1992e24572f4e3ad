//! The renderer interface and its four implementations.

use vstd::prelude::*;
use crate::constants::{
    GO_ANY,
    GO_BOOL,
    GO_FLOAT,
    GO_INT,
    GO_STRING,
    JAVA_ANY,
    JAVA_BOOL,
    JAVA_FLOAT,
    JAVA_INT,
    JAVA_STRING,
    RUST_ANY,
    RUST_BOOL,
    RUST_FLOAT,
    RUST_INT,
    RUST_STRING,
    SCALA_ANY,
    SCALA_AUTO_GENERATED,
    SCALA_BOOL,
    SCALA_FLOAT,
    SCALA_INT,
    SCALA_STRING,
};
use crate::formatting::{
    array_type,
    create_go_key,
    first_char_upper,
    format_array_type,
    format_member_definition,
    member_definition,
};
use crate::json::{kind_of, primitive_kind, JsonValue, PrimitiveKind};
use crate::text::{
    camel_case,
    capitalized_concat,
    lemma_segments_nonempty,
    lowercase_of,
    pascal_case,
    segments,
    singular,
    singular_key,
    split_on_underscore,
    str_to_lowercase,
};

verus! {

/// The view of an optional string.
pub open spec fn optional_text(name: Option<String>) -> Option<Seq<char>> {
    match name {
        Some(s) => Some(s@),
        None => None,
    }
}

/// What a target language has to say to render record declarations. Each
/// method returns exactly the text that the spec function beside it names.
pub trait LanguageFormatter {
    /// The text that opens the declaration of the record named after `raw`.
    spec fn header(&self, raw: Seq<char>) -> Seq<char>;

    /// The text that closes a declaration.
    spec fn footer(&self, struct_name: Option<Seq<char>>) -> Seq<char>;

    /// The identifier of the field that holds `json_key`.
    spec fn field_identifier(&self, json_key: Seq<char>) -> Seq<char>;

    /// One field declaration line.
    spec fn field_line(&self, tpe: Seq<char>, json_key: Seq<char>) -> Seq<char>;

    /// The collection type over the element type `arr_type`. With
    /// `optional` the element is marked as one that may be null; how is the
    /// language's own policy.
    spec fn array_type(&self, arr_type: Seq<char>, optional: bool) -> Seq<char>;

    /// The name of a primitive type.
    spec fn primitive_name(&self, kind: PrimitiveKind) -> Seq<char>;

    /// The name of the record type that `key` introduces.
    spec fn record_name(&self, key: Seq<char>) -> Seq<char>;

    /// The mark shows: the optional array type over an element type is
    /// never the text of the plain one.
    proof fn lemma_optional_is_marked(&self, arr_type: Seq<char>)
        ensures
            self.array_type(arr_type, true) != self.array_type(arr_type, false),
    ;

    fn struct_or_class_header(&self, raw: String) -> (text: String)
        ensures
            text@ == self.header(raw@),
    ;

    fn struct_or_class_footer(&self, struct_name: Option<String>) -> (text: String)
        ensures
            text@ == self.footer(optional_text(struct_name)),
    ;

    fn field_name(&self, json_key: &str) -> (name: String)
        ensures
            name@ == self.field_identifier(json_key@),
    ;

    fn format_field_type(&self, tpe: &str, json_key: &str) -> (line: String)
        ensures
            line@ == self.field_line(tpe@, json_key@),
    ;

    fn format_arr_type(&self, arr_type: String, optional: bool) -> (text: String)
        ensures
            text@ == self.array_type(arr_type@, optional),
    ;

    fn premitive_type_name(&self, from: &JsonValue) -> (name: &'static str)
        ensures
            name@ == self.primitive_name(kind_of(*from)),
    ;

    fn struct_or_class_name(&self, key: &str) -> (name: String)
        ensures
            name@ == self.record_name(key@),
    ;

    /// The record type name for the elements of the array under `arr_key`:
    /// the type name of the key's naive singular.
    fn struct_name_from_array_key(&self, arr_key: &str) -> (name: String)
        ensures
            name@ == self.record_name(singular(arr_key@)),
    {
        let stem = singular_key(arr_key);
        self.struct_or_class_name(stem.as_str())
    }
}

/// Turns a snake_case key into camelCase.
pub fn camelcase(snake_case: &str) -> (name: String)
    ensures
        name@ == camel_case(snake_case@),
{
    let words = split_on_underscore(snake_case);
    proof {
        lemma_segments_nonempty(Seq::empty(), snake_case@);
    }
    let mut name = String::from_str(words[0].as_str());
    let mut i: usize = 1;
    while i < words.len()
        invariant
            1 <= i <= words.len(),
            words.deep_view() == segments(snake_case@),
            name@ == words[0]@ + capitalized_concat(words.deep_view().skip(1).take(i - 1)),
        decreases words.len() - i,
    {
        let word = first_char_upper(words[i].as_str());
        name.append(word.as_str());
        proof {
            let rest = words.deep_view().skip(1);
            assert(rest.take(i as int).drop_last() =~= rest.take(i - 1));
            assert(rest.take(i as int).last() == words[i as int]@);
            assert(words[0]@ + capitalized_concat(rest.take(i - 1)) + word@ =~= words[0]@ + (
            capitalized_concat(rest.take(i - 1)) + word@));
        }
        i += 1;
    }
    proof {
        let rest = words.deep_view().skip(1);
        assert(rest.take(words.len() - 1) =~= rest);
    }
    name
}

pub struct Rust {}

pub struct Scala {}

pub struct Go {}

pub struct Java {}

impl LanguageFormatter for Rust {
    open spec fn header(&self, raw: Seq<char>) -> Seq<char> {
        "pub struct "@ + pascal_case(raw) + " {\n"@
    }

    open spec fn footer(&self, struct_name: Option<Seq<char>>) -> Seq<char> {
        "}"@
    }

    open spec fn field_identifier(&self, json_key: Seq<char>) -> Seq<char> {
        json_key
    }

    open spec fn field_line(&self, tpe: Seq<char>, json_key: Seq<char>) -> Seq<char> {
        "\tpub "@ + json_key + ": "@ + tpe + ",\n"@
    }

    /// An element that may be null is held in an `Option`.
    open spec fn array_type(&self, arr_type: Seq<char>, optional: bool) -> Seq<char> {
        if optional {
            "Vec<Option<"@ + arr_type + ">>"@
        } else {
            "Vec<"@ + arr_type + ">"@
        }
    }

    open spec fn primitive_name(&self, kind: PrimitiveKind) -> Seq<char> {
        match kind {
            PrimitiveKind::Bool => RUST_BOOL@,
            PrimitiveKind::Integer => RUST_INT@,
            PrimitiveKind::Float => RUST_FLOAT@,
            PrimitiveKind::String => RUST_STRING@,
            PrimitiveKind::Any => RUST_ANY@,
        }
    }

    open spec fn record_name(&self, key: Seq<char>) -> Seq<char> {
        pascal_case(key)
    }

    proof fn lemma_optional_is_marked(&self, arr_type: Seq<char>) {
        reveal_strlit("Vec<Option<");
        reveal_strlit(">>");
        reveal_strlit("Vec<");
        reveal_strlit(">");
        assert(self.array_type(arr_type, true).len() > self.array_type(arr_type, false).len());
    }

    fn struct_or_class_header(&self, raw: String) -> (text: String) {
        let rust_struct_name = self.struct_or_class_name(raw.as_str());
        let mut text = String::from_str("pub struct ");
        text.append(rust_struct_name.as_str());
        text.append(" {\n");
        text
    }

    fn struct_or_class_footer(&self, _struct_name: Option<String>) -> (text: String) {
        String::from_str("}")
    }

    fn field_name(&self, json_key: &str) -> (name: String) {
        String::from_str(json_key)
    }

    fn format_field_type(&self, tpe: &str, json_key: &str) -> (line: String) {
        let mut line = String::from_str("\tpub ");
        line.append(json_key);
        line.append(": ");
        line.append(tpe);
        line.append(",\n");
        line
    }

    fn format_arr_type(&self, arr_type: String, optional: bool) -> (text: String) {
        if optional {
            let mut text = String::from_str("Vec<Option<");
            text.append(arr_type.as_str());
            text.append(">>");
            text
        } else {
            let mut text = String::from_str("Vec<");
            text.append(arr_type.as_str());
            text.append(">");
            text
        }
    }

    fn premitive_type_name(&self, from: &JsonValue) -> (name: &'static str) {
        match primitive_kind(from) {
            PrimitiveKind::Bool => RUST_BOOL,
            PrimitiveKind::Integer => RUST_INT,
            PrimitiveKind::Float => RUST_FLOAT,
            PrimitiveKind::String => RUST_STRING,
            PrimitiveKind::Any => RUST_ANY,
        }
    }

    fn struct_or_class_name(&self, key: &str) -> (name: String) {
        create_go_key(key)
    }
}

/// `tabs` tab characters and a closing parenthesis.
pub open spec fn indented_closer(tabs: nat) -> Seq<char> {
    Seq::new(tabs, |i: int| '\t').push(')')
}

/// The number of bytes that `text` takes in UTF-8, as `str::len` counts them.
pub open spec fn byte_len(text: Seq<char>) -> usize {
    vstd::utf8::encode_utf8(text).len() as usize
}

impl LanguageFormatter for Scala {
    open spec fn header(&self, raw: Seq<char>) -> Seq<char> {
        "case class "@ + pascal_case(raw) + "(\n"@
    }

    /// The closer is indented by one tab for every eight bytes of the header
    /// that it closes.
    open spec fn footer(&self, struct_name: Option<Seq<char>>) -> Seq<char> {
        let name = match struct_name {
            Some(name) => name,
            None => SCALA_AUTO_GENERATED@,
        };
        indented_closer((byte_len(self.header(name)) / 8) as nat)
    }

    open spec fn field_identifier(&self, json_key: Seq<char>) -> Seq<char> {
        camel_case(json_key)
    }

    open spec fn field_line(&self, tpe: Seq<char>, json_key: Seq<char>) -> Seq<char> {
        "\t\t"@ + camel_case(json_key) + ": "@ + tpe + ",\n"@
    }

    /// An element that may be null is held in an `Option`.
    open spec fn array_type(&self, arr_type: Seq<char>, optional: bool) -> Seq<char> {
        if optional {
            "Seq[Option["@ + arr_type + "]]"@
        } else {
            "Seq["@ + arr_type + "]"@
        }
    }

    open spec fn primitive_name(&self, kind: PrimitiveKind) -> Seq<char> {
        match kind {
            PrimitiveKind::Bool => SCALA_BOOL@,
            PrimitiveKind::Integer => SCALA_INT@,
            PrimitiveKind::Float => SCALA_FLOAT@,
            PrimitiveKind::String => SCALA_STRING@,
            PrimitiveKind::Any => SCALA_ANY@,
        }
    }

    open spec fn record_name(&self, key: Seq<char>) -> Seq<char> {
        pascal_case(key)
    }

    proof fn lemma_optional_is_marked(&self, arr_type: Seq<char>) {
        reveal_strlit("Seq[Option[");
        reveal_strlit("]]");
        reveal_strlit("Seq[");
        reveal_strlit("]");
        assert(self.array_type(arr_type, true).len() > self.array_type(arr_type, false).len());
    }

    fn struct_or_class_header(&self, raw: String) -> (text: String) {
        let class_name = self.struct_or_class_name(raw.as_str());
        let mut text = String::from_str("case class ");
        text.append(class_name.as_str());
        text.append("(\n");
        text
    }

    fn struct_or_class_footer(&self, struct_name: Option<String>) -> (text: String) {
        let name = match struct_name {
            Some(name) => name,
            None => String::from_str(SCALA_AUTO_GENERATED),
        };
        let header_len = self.struct_or_class_header(name).as_str().len();
        let tabs = header_len / 8;
        let mut padding = String::new();
        let mut i: usize = 0;
        while i < tabs
            invariant
                i <= tabs,
                padding@ == Seq::new(i as nat, |j: int| '\t'),
            decreases tabs - i,
        {
            padding.push('\t');
            assert(padding@ =~= Seq::new((i + 1) as nat, |j: int| '\t'));
            i += 1;
        }
        padding.push(')');
        padding
    }

    fn field_name(&self, json_key: &str) -> (name: String) {
        camelcase(json_key)
    }

    fn format_field_type(&self, tpe: &str, json_key: &str) -> (line: String) {
        let scala_field_name = self.field_name(json_key);
        let mut line = String::from_str("\t\t");
        line.append(scala_field_name.as_str());
        line.append(": ");
        line.append(tpe);
        line.append(",\n");
        line
    }

    fn format_arr_type(&self, arr_type: String, optional: bool) -> (text: String) {
        if optional {
            let mut text = String::from_str("Seq[Option[");
            text.append(arr_type.as_str());
            text.append("]]");
            text
        } else {
            let mut text = String::from_str("Seq[");
            text.append(arr_type.as_str());
            text.append("]");
            text
        }
    }

    fn premitive_type_name(&self, from: &JsonValue) -> (name: &'static str) {
        match primitive_kind(from) {
            PrimitiveKind::Bool => SCALA_BOOL,
            PrimitiveKind::Integer => SCALA_INT,
            PrimitiveKind::Float => SCALA_FLOAT,
            PrimitiveKind::String => SCALA_STRING,
            PrimitiveKind::Any => SCALA_ANY,
        }
    }

    fn struct_or_class_name(&self, key: &str) -> (name: String) {
        create_go_key(key)
    }
}

impl LanguageFormatter for Go {
    open spec fn header(&self, raw: Seq<char>) -> Seq<char> {
        "type "@ + pascal_case(raw) + " struct {\n"@
    }

    open spec fn footer(&self, struct_name: Option<Seq<char>>) -> Seq<char> {
        "}"@
    }

    open spec fn field_identifier(&self, json_key: Seq<char>) -> Seq<char> {
        pascal_case(json_key)
    }

    open spec fn field_line(&self, tpe: Seq<char>, json_key: Seq<char>) -> Seq<char> {
        member_definition(pascal_case(json_key), tpe, json_key)
    }

    /// An element that may be null is held by pointer.
    open spec fn array_type(&self, arr_type: Seq<char>, optional: bool) -> Seq<char> {
        array_type(
            arr_type,
            if optional {
                "*"@
            } else {
                ""@
            },
        )
    }

    open spec fn primitive_name(&self, kind: PrimitiveKind) -> Seq<char> {
        match kind {
            PrimitiveKind::Bool => GO_BOOL@,
            PrimitiveKind::Integer => GO_INT@,
            PrimitiveKind::Float => GO_FLOAT@,
            PrimitiveKind::String => GO_STRING@,
            PrimitiveKind::Any => GO_ANY@,
        }
    }

    open spec fn record_name(&self, key: Seq<char>) -> Seq<char> {
        pascal_case(key)
    }

    proof fn lemma_optional_is_marked(&self, arr_type: Seq<char>) {
        reveal_strlit("[]");
        reveal_strlit("*");
        reveal_strlit("");
        assert(self.array_type(arr_type, true).len() > self.array_type(arr_type, false).len());
    }

    fn struct_or_class_header(&self, raw: String) -> (text: String) {
        let go_struct_name = self.field_name(raw.as_str());
        let mut text = String::from_str("type ");
        text.append(go_struct_name.as_str());
        text.append(" struct {\n");
        text
    }

    fn struct_or_class_footer(&self, _struct_name: Option<String>) -> (text: String) {
        String::from_str("}")
    }

    fn field_name(&self, json_key: &str) -> (name: String) {
        let name = create_go_key(json_key);
        assert(self.field_identifier(json_key@) == pascal_case(json_key@));
        name
    }

    fn format_field_type(&self, tpe: &str, json_key: &str) -> (line: String) {
        let go_key = self.field_name(json_key);
        format_member_definition(go_key, tpe, json_key)
    }

    fn format_arr_type(&self, arr_type: String, optional: bool) -> (text: String) {
        let type_prefix = if optional {
            "*"
        } else {
            ""
        };
        format_array_type(arr_type.as_str(), type_prefix)
    }

    fn premitive_type_name(&self, from: &JsonValue) -> (name: &'static str) {
        match primitive_kind(from) {
            PrimitiveKind::Bool => GO_BOOL,
            PrimitiveKind::Integer => GO_INT,
            PrimitiveKind::Float => GO_FLOAT,
            PrimitiveKind::String => GO_STRING,
            PrimitiveKind::Any => GO_ANY,
        }
    }

    fn struct_or_class_name(&self, key: &str) -> (name: String) {
        self.field_name(key)
    }
}

impl LanguageFormatter for Java {
    open spec fn header(&self, raw: Seq<char>) -> Seq<char> {
        "public class "@ + pascal_case(raw) + " {\n"@
    }

    open spec fn footer(&self, struct_name: Option<Seq<char>>) -> Seq<char> {
        "}"@
    }

    open spec fn field_identifier(&self, json_key: Seq<char>) -> Seq<char> {
        camel_case(json_key)
    }

    open spec fn field_line(&self, tpe: Seq<char>, json_key: Seq<char>) -> Seq<char> {
        "\tpublic "@ + tpe + " "@ + camel_case(json_key) + ";\n"@
    }

    /// An element that may be null is held in an `Optional`.
    open spec fn array_type(&self, arr_type: Seq<char>, optional: bool) -> Seq<char> {
        if optional {
            "List<Optional<"@ + arr_type + ">>"@
        } else {
            "List<"@ + arr_type + ">"@
        }
    }

    open spec fn primitive_name(&self, kind: PrimitiveKind) -> Seq<char> {
        match kind {
            PrimitiveKind::Bool => JAVA_BOOL@,
            PrimitiveKind::Integer => JAVA_INT@,
            PrimitiveKind::Float => JAVA_FLOAT@,
            PrimitiveKind::String => JAVA_STRING@,
            PrimitiveKind::Any => JAVA_ANY@,
        }
    }

    open spec fn record_name(&self, key: Seq<char>) -> Seq<char> {
        pascal_case(key)
    }

    proof fn lemma_optional_is_marked(&self, arr_type: Seq<char>) {
        reveal_strlit("List<Optional<");
        reveal_strlit(">>");
        reveal_strlit("List<");
        reveal_strlit(">");
        assert(self.array_type(arr_type, true).len() > self.array_type(arr_type, false).len());
    }

    fn struct_or_class_header(&self, raw: String) -> (text: String) {
        let java_class_name = self.struct_or_class_name(raw.as_str());
        let mut text = String::from_str("public class ");
        text.append(java_class_name.as_str());
        text.append(" {\n");
        text
    }

    fn struct_or_class_footer(&self, _struct_name: Option<String>) -> (text: String) {
        String::from_str("}")
    }

    fn field_name(&self, json_key: &str) -> (name: String) {
        camelcase(json_key)
    }

    fn format_field_type(&self, tpe: &str, json_key: &str) -> (line: String) {
        let java_field_name = self.field_name(json_key);
        let mut line = String::from_str("\tpublic ");
        line.append(tpe);
        line.append(" ");
        line.append(java_field_name.as_str());
        line.append(";\n");
        line
    }

    fn format_arr_type(&self, arr_type: String, optional: bool) -> (text: String) {
        if optional {
            let mut text = String::from_str("List<Optional<");
            text.append(arr_type.as_str());
            text.append(">>");
            text
        } else {
            let mut text = String::from_str("List<");
            text.append(arr_type.as_str());
            text.append(">");
            text
        }
    }

    fn premitive_type_name(&self, from: &JsonValue) -> (name: &'static str) {
        match primitive_kind(from) {
            PrimitiveKind::Bool => JAVA_BOOL,
            PrimitiveKind::Integer => JAVA_INT,
            PrimitiveKind::Float => JAVA_FLOAT,
            PrimitiveKind::String => JAVA_STRING,
            PrimitiveKind::Any => JAVA_ANY,
        }
    }

    fn struct_or_class_name(&self, key: &str) -> (name: String) {
        create_go_key(key)
    }
}

/// The supported target languages. A value of this type renders as the
/// language that it names.
#[derive(Clone, Copy, Debug, PartialEq, Eq, Structural)]
pub enum Language {
    Go,
    Scala,
    Java,
    Rust,
}

impl LanguageFormatter for Language {
    open spec fn header(&self, raw: Seq<char>) -> Seq<char> {
        match self {
            Language::Go => (Go {  }).header(raw),
            Language::Scala => (Scala {  }).header(raw),
            Language::Java => (Java {  }).header(raw),
            Language::Rust => (Rust {  }).header(raw),
        }
    }

    open spec fn footer(&self, struct_name: Option<Seq<char>>) -> Seq<char> {
        match self {
            Language::Go => (Go {  }).footer(struct_name),
            Language::Scala => (Scala {  }).footer(struct_name),
            Language::Java => (Java {  }).footer(struct_name),
            Language::Rust => (Rust {  }).footer(struct_name),
        }
    }

    open spec fn field_identifier(&self, json_key: Seq<char>) -> Seq<char> {
        match self {
            Language::Go => (Go {  }).field_identifier(json_key),
            Language::Scala => (Scala {  }).field_identifier(json_key),
            Language::Java => (Java {  }).field_identifier(json_key),
            Language::Rust => (Rust {  }).field_identifier(json_key),
        }
    }

    open spec fn field_line(&self, tpe: Seq<char>, json_key: Seq<char>) -> Seq<char> {
        match self {
            Language::Go => (Go {  }).field_line(tpe, json_key),
            Language::Scala => (Scala {  }).field_line(tpe, json_key),
            Language::Java => (Java {  }).field_line(tpe, json_key),
            Language::Rust => (Rust {  }).field_line(tpe, json_key),
        }
    }

    open spec fn array_type(&self, arr_type: Seq<char>, optional: bool) -> Seq<char> {
        match self {
            Language::Go => (Go {  }).array_type(arr_type, optional),
            Language::Scala => (Scala {  }).array_type(arr_type, optional),
            Language::Java => (Java {  }).array_type(arr_type, optional),
            Language::Rust => (Rust {  }).array_type(arr_type, optional),
        }
    }

    open spec fn primitive_name(&self, kind: PrimitiveKind) -> Seq<char> {
        match self {
            Language::Go => (Go {  }).primitive_name(kind),
            Language::Scala => (Scala {  }).primitive_name(kind),
            Language::Java => (Java {  }).primitive_name(kind),
            Language::Rust => (Rust {  }).primitive_name(kind),
        }
    }

    open spec fn record_name(&self, key: Seq<char>) -> Seq<char> {
        match self {
            Language::Go => (Go {  }).record_name(key),
            Language::Scala => (Scala {  }).record_name(key),
            Language::Java => (Java {  }).record_name(key),
            Language::Rust => (Rust {  }).record_name(key),
        }
    }

    proof fn lemma_optional_is_marked(&self, arr_type: Seq<char>) {
        match self {
            Language::Go => (Go {  }).lemma_optional_is_marked(arr_type),
            Language::Scala => (Scala {  }).lemma_optional_is_marked(arr_type),
            Language::Java => (Java {  }).lemma_optional_is_marked(arr_type),
            Language::Rust => (Rust {  }).lemma_optional_is_marked(arr_type),
        }
    }

    fn struct_or_class_header(&self, raw: String) -> (text: String) {
        match self {
            Language::Go => (Go {  }).struct_or_class_header(raw),
            Language::Scala => (Scala {  }).struct_or_class_header(raw),
            Language::Java => (Java {  }).struct_or_class_header(raw),
            Language::Rust => (Rust {  }).struct_or_class_header(raw),
        }
    }

    fn struct_or_class_footer(&self, struct_name: Option<String>) -> (text: String) {
        match self {
            Language::Go => (Go {  }).struct_or_class_footer(struct_name),
            Language::Scala => (Scala {  }).struct_or_class_footer(struct_name),
            Language::Java => (Java {  }).struct_or_class_footer(struct_name),
            Language::Rust => (Rust {  }).struct_or_class_footer(struct_name),
        }
    }

    fn field_name(&self, json_key: &str) -> (name: String) {
        match self {
            Language::Go => (Go {  }).field_name(json_key),
            Language::Scala => (Scala {  }).field_name(json_key),
            Language::Java => (Java {  }).field_name(json_key),
            Language::Rust => (Rust {  }).field_name(json_key),
        }
    }

    fn format_field_type(&self, tpe: &str, json_key: &str) -> (line: String) {
        match self {
            Language::Go => (Go {  }).format_field_type(tpe, json_key),
            Language::Scala => (Scala {  }).format_field_type(tpe, json_key),
            Language::Java => (Java {  }).format_field_type(tpe, json_key),
            Language::Rust => (Rust {  }).format_field_type(tpe, json_key),
        }
    }

    fn format_arr_type(&self, arr_type: String, optional: bool) -> (text: String) {
        match self {
            Language::Go => (Go {  }).format_arr_type(arr_type, optional),
            Language::Scala => (Scala {  }).format_arr_type(arr_type, optional),
            Language::Java => (Java {  }).format_arr_type(arr_type, optional),
            Language::Rust => (Rust {  }).format_arr_type(arr_type, optional),
        }
    }

    fn premitive_type_name(&self, from: &JsonValue) -> (name: &'static str) {
        match self {
            Language::Go => (Go {  }).premitive_type_name(from),
            Language::Scala => (Scala {  }).premitive_type_name(from),
            Language::Java => (Java {  }).premitive_type_name(from),
            Language::Rust => (Rust {  }).premitive_type_name(from),
        }
    }

    fn struct_or_class_name(&self, key: &str) -> (name: String) {
        match self {
            Language::Go => (Go {  }).struct_or_class_name(key),
            Language::Scala => (Scala {  }).struct_or_class_name(key),
            Language::Java => (Java {  }).struct_or_class_name(key),
            Language::Rust => (Rust {  }).struct_or_class_name(key),
        }
    }
}

/// The element type `element` as `lang` writes it where the element may be
/// null.
pub open spec fn nullable_element(lang: Language, element: Seq<char>) -> Seq<char> {
    match lang {
        Language::Go => "*"@ + element,
        Language::Scala => "Option["@ + element + "]"@,
        Language::Java => "Optional<"@ + element + ">"@,
        Language::Rust => "Option<"@ + element + ">"@,
    }
}

/// In each supported language the optional array type is the plain array
/// type over the nullable element.
pub proof fn lemma_optional_wraps_element(lang: Language, element: Seq<char>)
    ensures
        lang.array_type(element, true) == lang.array_type(nullable_element(lang, element), false),
{
    reveal_strlit("*");
    reveal_strlit("");
    reveal_strlit("[]");
    reveal_strlit("Seq[");
    reveal_strlit("Seq[Option[");
    reveal_strlit("Option[");
    reveal_strlit("]");
    reveal_strlit("]]");
    reveal_strlit("List<");
    reveal_strlit("List<Optional<");
    reveal_strlit("Optional<");
    reveal_strlit("Vec<");
    reveal_strlit("Vec<Option<");
    reveal_strlit("Option<");
    reveal_strlit(">");
    reveal_strlit(">>");
    assert(lang.array_type(element, true) =~= lang.array_type(
        nullable_element(lang, element),
        false,
    ));
}

/// The language that an identifier in lower case names.
pub open spec fn language_named(name: Seq<char>) -> Option<Language> {
    if name == "go"@ {
        Some(Language::Go)
    } else if name == "scala"@ {
        Some(Language::Scala)
    } else if name == "java"@ {
        Some(Language::Java)
    } else if name == "rust"@ {
        Some(Language::Rust)
    } else {
        None
    }
}

/// Looks up a language by its identifier in lower case.
pub fn language_for(name: &str) -> (found: Option<Language>)
    ensures
        found == language_named(name@),
{
    let name = String::from_str(name);
    if name == String::from_str("go") {
        Some(Language::Go)
    } else if name == String::from_str("scala") {
        Some(Language::Scala)
    } else if name == String::from_str("java") {
        Some(Language::Java)
    } else if name == String::from_str("rust") {
        Some(Language::Rust)
    } else {
        None
    }
}

/// Looks up a language by its identifier, whatever the case of its letters.
/// An identifier that names no supported language gives `None`.
pub fn get_language_formatter(lang: &str) -> (found: Option<Language>)
    ensures
        found == language_named(lowercase_of(lang@)),
{
    let lowered = str_to_lowercase(lang);
    language_for(lowered.as_str())
}

} // verus!
