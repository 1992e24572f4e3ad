//! The record definitions that a JSON document gives rise to, whatever the
//! target language, and their rendering by a language.

use vstd::prelude::*;
use crate::constants::GO_AUTO_GENERATED;
use crate::json::{kind_of, JsonValue, PrimitiveKind};
use crate::language::LanguageFormatter;
use crate::text::singular;

verus! {

/// Where a record takes its name from.
pub enum RecordName {
    /// The object is the value of this key.
    Key(Seq<char>),
    /// The object is an element of the array under this key.
    Element(Seq<char>),
}

/// The type inferred for a field or for the elements of an array.
pub enum InferredType {
    Primitive(PrimitiveKind),
    /// An array with its element type; `optional` says that one of the
    /// elements was null.
    Array(Box<InferredType>, bool),
    /// A record that the definition list holds.
    Named(RecordName),
}

/// One record: its name and its fields in the order of the object's keys.
pub struct RecordDefinition {
    pub name: RecordName,
    pub fields: Seq<(Seq<char>, InferredType)>,
}

/// Whether one of the items is null.
pub open spec fn has_null(items: Seq<JsonValue>) -> bool {
    exists|i: int| 0 <= i < items.len() && items[i] is Null
}

/// The index of the first item that is not null; the number of items where
/// all are null.
pub open spec fn first_candidate(items: Seq<JsonValue>) -> int
    decreases items.len(),
{
    if items.len() == 0 || !(items[0] is Null) {
        0
    } else {
        1 + first_candidate(items.skip(1))
    }
}

/// The key that names the records of an array: its own, or the placeholder
/// where it has none.
pub open spec fn naming_hint(key: Option<String>) -> Seq<char> {
    match key {
        Some(key) => key@,
        None => GO_AUTO_GENERATED@,
    }
}

/// The type of the array `value` under `key`, taken from its first element
/// that is not null. A value that is no array counts as an empty one.
pub open spec fn array_shape(key: Seq<char>, value: JsonValue) -> InferredType
    decreases value,
{
    match value {
        JsonValue::Array(items) => {
            let first = first_candidate(items@);
            let element = if 0 <= first < items@.len() {
                match items@[first] {
                    JsonValue::Array(_) => array_shape(key, items@[first]),
                    JsonValue::Object(_) => InferredType::Named(RecordName::Element(key)),
                    other => InferredType::Primitive(kind_of(other)),
                }
            } else {
                InferredType::Primitive(PrimitiveKind::Any)
            };
            InferredType::Array(Box::new(element), has_null(items@))
        },
        _ => InferredType::Array(Box::new(InferredType::Primitive(PrimitiveKind::Any)), false),
    }
}

/// The type of the field that holds `value` under `key`.
pub open spec fn member_type(key: Seq<char>, value: JsonValue) -> InferredType {
    match value {
        JsonValue::Object(_) => InferredType::Named(RecordName::Key(key)),
        JsonValue::Array(_) => array_shape(key, value),
        other => InferredType::Primitive(kind_of(other)),
    }
}

/// The fields of the record for an object with these members.
pub open spec fn field_types(members: Seq<(String, JsonValue)>) -> Seq<(Seq<char>, InferredType)> {
    Seq::new(members.len(), |i: int| (members[i].0@, member_type(members[i].0@, members[i].1)))
}

/// The records that the array `value` under `key` introduces: those of its
/// first element that is not null.
pub open spec fn array_definitions(key: Seq<char>, value: JsonValue) -> Seq<RecordDefinition>
    decreases value, 0nat,
{
    match value {
        JsonValue::Array(items) => {
            let first = first_candidate(items@);
            if 0 <= first < items@.len() {
                match items@[first] {
                    JsonValue::Array(_) => array_definitions(key, items@[first]),
                    JsonValue::Object(members) => object_definitions(
                        RecordName::Element(key),
                        members@,
                    ),
                    _ => Seq::empty(),
                }
            } else {
                Seq::empty()
            }
        },
        _ => Seq::empty(),
    }
}

/// The records that the member `value` under `key` introduces.
pub open spec fn member_definitions(key: Seq<char>, value: JsonValue) -> Seq<RecordDefinition>
    decreases value, 1nat,
{
    match value {
        JsonValue::Object(members) => object_definitions(RecordName::Key(key), members@),
        JsonValue::Array(_) => array_definitions(key, value),
        _ => Seq::empty(),
    }
}

/// The records that the first `n` members introduce, in the members' order.
pub open spec fn nested_definitions(members: Seq<(String, JsonValue)>, n: nat) -> Seq<
    RecordDefinition,
>
    decreases members, n,
{
    if n == 0 || n > members.len() {
        Seq::empty()
    } else {
        nested_definitions(members, (n - 1) as nat) + member_definitions(
            members[n - 1].0@,
            members[n - 1].1,
        )
    }
}

/// The records of an object: those that its members introduce, then its own.
pub open spec fn object_definitions(name: RecordName, members: Seq<(String, JsonValue)>) -> Seq<
    RecordDefinition,
>
    decreases members, members.len() + 1,
{
    nested_definitions(members, members.len()).push(
        RecordDefinition { name, fields: field_types(members) },
    )
}

/// The records of a document: those of the object or array at its root,
/// named by the placeholder; none for a scalar.
pub open spec fn definitions(value: JsonValue) -> Seq<RecordDefinition> {
    match value {
        JsonValue::Array(_) => array_definitions(GO_AUTO_GENERATED@, value),
        JsonValue::Object(members) => object_definitions(
            RecordName::Key(GO_AUTO_GENERATED@),
            members@,
        ),
        _ => Seq::empty(),
    }
}

/// The name under which `lang` declares a record: the key itself, or the
/// type name of the singular of an array's key.
pub open spec fn declared_name<L: LanguageFormatter>(lang: &L, name: RecordName) -> Seq<char> {
    match name {
        RecordName::Key(key) => key,
        RecordName::Element(key) => lang.record_name(singular(key)),
    }
}

/// The text of a type in `lang`.
pub open spec fn type_text<L: LanguageFormatter>(lang: &L, tpe: InferredType) -> Seq<char>
    decreases tpe,
{
    match tpe {
        InferredType::Primitive(kind) => lang.primitive_name(kind),
        InferredType::Array(element, optional) => lang.array_type(
            type_text(lang, *element),
            optional,
        ),
        InferredType::Named(RecordName::Key(key)) => lang.record_name(key),
        InferredType::Named(RecordName::Element(key)) => lang.record_name(singular(key)),
    }
}

/// The line that declares one field: what the language makes of the text
/// of the field's type and of the JSON key, whatever the field holds.
pub open spec fn field_text<L: LanguageFormatter>(
    lang: &L,
    key: Seq<char>,
    tpe: InferredType,
) -> Seq<char> {
    lang.field_line(type_text(lang, tpe), key)
}

/// The lines of the first `n` fields, in order.
pub open spec fn fields_text<L: LanguageFormatter>(
    lang: &L,
    fields: Seq<(Seq<char>, InferredType)>,
    n: nat,
) -> Seq<char>
    decreases n,
{
    if n == 0 || n > fields.len() {
        Seq::empty()
    } else {
        fields_text(lang, fields, (n - 1) as nat) + field_text(
            lang,
            fields[n - 1].0,
            fields[n - 1].1,
        )
    }
}

/// The declaration of one record: header, field lines, footer.
pub open spec fn record_text<L: LanguageFormatter>(lang: &L, record: RecordDefinition) -> Seq<
    char,
> {
    let name = declared_name(lang, record.name);
    lang.header(name) + fields_text(lang, record.fields, record.fields.len()) + lang.footer(
        Some(name),
    )
}

/// The declarations of the records, one text for each.
pub open spec fn records_text<L: LanguageFormatter>(
    lang: &L,
    records: Seq<RecordDefinition>,
) -> Seq<Seq<char>> {
    Seq::new(records.len(), |i: int| record_text(lang, records[i]))
}

/// The record of an object has one field for each member, under the
/// member's key and in the members' order, and it comes last among the
/// records that the object gives rise to.
pub proof fn lemma_fields_follow_members(name: RecordName, members: Seq<(String, JsonValue)>)
    ensures
        object_definitions(name, members).len() >= 1,
        object_definitions(name, members).last().name == name,
        object_definitions(name, members).last().fields.len() == members.len(),
        forall|i: int|
            0 <= i < members.len() ==> {
                let field = #[trigger] object_definitions(name, members).last().fields[i];
                &&& field.0 == members[i].0@
                &&& field.1 == member_type(members[i].0@, members[i].1)
            },
{
}

/// In a record's text the field lines stand between header and footer in
/// the order of the fields: the text up to and with the line of field `i` is
/// the text up to that field, then that line.
pub proof fn lemma_field_lines_in_order<L: LanguageFormatter>(
    lang: &L,
    record: RecordDefinition,
    i: int,
)
    requires
        0 <= i < record.fields.len(),
    ensures
        fields_text(lang, record.fields, (i + 1) as nat) == fields_text(
            lang,
            record.fields,
            i as nat,
        ) + field_text(lang, record.fields[i].0, record.fields[i].1),
        record_text(lang, record) == lang.header(declared_name(lang, record.name)) + fields_text(
            lang,
            record.fields,
            record.fields.len(),
        ) + lang.footer(Some(declared_name(lang, record.name))),
{
}

/// The elements of an array are optional exactly when one of its items is
/// null, and the array's text is what the language makes of the elements'
/// text and that flag.
pub proof fn lemma_optional_iff_null<L: LanguageFormatter>(
    lang: &L,
    key: Seq<char>,
    value: JsonValue,
)
    requires
        value is Array,
    ensures
        array_shape(key, value) is Array,
        array_shape(key, value)->Array_1 == has_null(value->Array_0@),
        type_text(lang, array_shape(key, value)) == lang.array_type(
            type_text(lang, *array_shape(key, value)->Array_0),
            has_null(value->Array_0@),
        ),
{
}

/// Whether an array holds a null shows in its text, in every language: of
/// two arrays with the same element type, one with a null and one without,
/// the texts differ.
pub proof fn lemma_null_shows_in_text<L: LanguageFormatter>(
    lang: &L,
    key: Seq<char>,
    with_null: JsonValue,
    without: JsonValue,
)
    requires
        with_null is Array,
        without is Array,
        has_null(with_null->Array_0@),
        !has_null(without->Array_0@),
        array_shape(key, with_null)->Array_0 == array_shape(key, without)->Array_0,
    ensures
        type_text(lang, array_shape(key, with_null)) != type_text(
            lang,
            array_shape(key, without),
        ),
{
    lang.lemma_optional_is_marked(type_text(lang, *array_shape(key, with_null)->Array_0));
}

/// Only the first item that is not null decides what the elements of an
/// array are and which records the array introduces: two arrays with the
/// same such item agree in both, whatever else they hold.
pub proof fn lemma_first_candidate_decides(key: Seq<char>, a: JsonValue, b: JsonValue)
    requires
        a is Array,
        b is Array,
        first_candidate(a->Array_0@) < a->Array_0@.len(),
        first_candidate(b->Array_0@) < b->Array_0@.len(),
        a->Array_0@[first_candidate(a->Array_0@)] == b->Array_0@[first_candidate(b->Array_0@)],
    ensures
        array_shape(key, a)->Array_0 == array_shape(key, b)->Array_0,
        array_definitions(key, a) == array_definitions(key, b),
{
    lemma_first_candidate_in_range(a->Array_0@);
    lemma_first_candidate_in_range(b->Array_0@);
}

/// The first candidate is the one index with a value that is not null and
/// only nulls before it.
pub proof fn lemma_first_candidate(items: Seq<JsonValue>, i: int)
    requires
        0 <= i <= items.len(),
        forall|j: int| 0 <= j < i ==> items[j] is Null,
        i < items.len() ==> !(items[i] is Null),
    ensures
        first_candidate(items) == i,
    decreases i,
{
    if i > 0 {
        let rest = items.skip(1);
        assert forall|j: int| 0 <= j < i - 1 implies rest[j] is Null by {
            assert(rest[j] == items[j + 1]);
        }
        lemma_first_candidate(rest, i - 1);
    }
}

/// The first candidate is an index of the items, or their number.
pub proof fn lemma_first_candidate_in_range(items: Seq<JsonValue>)
    ensures
        0 <= first_candidate(items) <= items.len(),
    decreases items.len(),
{
    if items.len() != 0 && items[0] is Null {
        lemma_first_candidate_in_range(items.skip(1));
    }
}

/// Every language renders the same records: the texts that two languages
/// give for a document are, one by one, their renderings of the document's
/// definitions, which depend on no language.
pub proof fn lemma_languages_render_same_records<A: LanguageFormatter, B: LanguageFormatter>(
    first: &A,
    second: &B,
    value: JsonValue,
)
    ensures
        records_text(first, definitions(value)).len() == definitions(value).len(),
        records_text(second, definitions(value)).len() == definitions(value).len(),
        forall|i: int|
            0 <= i < definitions(value).len() ==> {
                &&& #[trigger] records_text(first, definitions(value))[i] == record_text(
                    first,
                    definitions(value)[i],
                )
                &&& #[trigger] records_text(second, definitions(value))[i] == record_text(
                    second,
                    definitions(value)[i],
                )
            },
{
}

} // verus!
