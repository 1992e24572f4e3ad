//! The inference engine: a recursive descent over a JSON value that renders
//! one declaration for every object it meets.

use vstd::prelude::*;
use crate::constants::GO_AUTO_GENERATED;
use crate::json::{kind_of, JsonValue, PrimitiveKind};
use crate::language::LanguageFormatter;
use crate::text::singular;
use crate::model::{
    array_definitions,
    array_shape,
    declared_name,
    definitions,
    field_text,
    field_types,
    fields_text,
    first_candidate,
    has_null,
    lemma_first_candidate,
    member_definitions,
    member_type,
    naming_hint,
    nested_definitions,
    object_definitions,
    record_text,
    records_text,
    type_text,
    InferredType,
    RecordDefinition,
    RecordName,
};

verus! {

/// Rendering goes record by record.
pub proof fn lemma_records_text_concat<L: LanguageFormatter>(
    lang: &L,
    a: Seq<RecordDefinition>,
    b: Seq<RecordDefinition>,
)
    ensures
        records_text(lang, a + b) == records_text(lang, a) + records_text(lang, b),
{
    assert(records_text(lang, a + b) =~= records_text(lang, a) + records_text(lang, b));
}

/// A record's text depends on its name only through the name it is
/// declared under.
pub proof fn lemma_declared_name_decides<L: LanguageFormatter>(
    lang: &L,
    a: RecordName,
    b: RecordName,
    members: Seq<(String, JsonValue)>,
)
    requires
        declared_name(lang, a) == declared_name(lang, b),
    ensures
        records_text(lang, object_definitions(a, members)) == records_text(
            lang,
            object_definitions(b, members),
        ),
{
    assert(records_text(lang, object_definitions(a, members)) =~= records_text(
        lang,
        object_definitions(b, members),
    ));
}

/// Whether one of the items is null.
pub fn contains_null(items: &Vec<JsonValue>) -> (found: bool)
    ensures
        found == has_null(items@),
{
    let mut i: usize = 0;
    while i < items.len()
        invariant
            i <= items.len(),
            forall|j: int| 0 <= j < i ==> !(items@[j] is Null),
        decreases items.len() - i,
    {
        if let JsonValue::Null = items[i] {
            return true;
        }
        i += 1;
    }
    false
}

/// The index of the first item that is not null, or the number of items.
pub fn first_non_null(items: &Vec<JsonValue>) -> (index: usize)
    ensures
        index == first_candidate(items@),
        index <= items.len(),
{
    let mut i: usize = 0;
    while i < items.len()
        invariant
            i <= items.len(),
            forall|j: int| 0 <= j < i ==> items@[j] is Null,
        decreases items.len() - i,
    {
        if let JsonValue::Null = items[i] {
            i += 1;
        } else {
            proof {
                lemma_first_candidate(items@, i as int);
            }
            return i;
        }
    }
    proof {
        lemma_first_candidate(items@, i as int);
    }
    i
}

/// Moves the texts of `more` behind those of `into`.
pub fn append_texts(into: &mut Vec<String>, more: Vec<String>)
    ensures
        final(into).deep_view() == old(into).deep_view() + more.deep_view(),
{
    let mut more = more;
    let ghost before = into.deep_view();
    let ghost added = more.deep_view();
    into.append(&mut more);
    assert(into.deep_view() =~= before + added);
}

/// Infers the type of the array `value` and appends to `structs_into` the
/// declarations of the records that its first element that is not null
/// introduces. `key` names those records; without it the placeholder does.
pub fn infer_array<L: LanguageFormatter>(
    key: Option<String>,
    value: &JsonValue,
    structs_into: &mut Vec<String>,
    lang: &L,
) -> (arr_type: String)
    ensures
        arr_type@ == type_text(lang, array_shape(naming_hint(key), *value)),
        final(structs_into).deep_view() == old(structs_into).deep_view() + records_text(
            lang,
            array_definitions(naming_hint(key), *value),
        ),
    decreases value,
{
    let ghost hint = naming_hint(key);
    proof {
        assert(structs_into.deep_view() + Seq::<Seq<char>>::empty() =~= structs_into.deep_view());
        assert(records_text(lang, Seq::<RecordDefinition>::empty()) =~= Seq::<Seq<char>>::empty());
    }
    if let JsonValue::Array(arr) = value {
        let optional = contains_null(arr);
        let first = first_non_null(arr);
        if first == arr.len() {
            let null = JsonValue::Null;
            assert(type_text(lang, InferredType::Primitive(PrimitiveKind::Any))
                == lang.primitive_name(PrimitiveKind::Any));
            lang.format_arr_type(String::from_str(lang.premitive_type_name(&null)), optional)
        } else {
            let first_inferrable_value = &arr[first];
            proof {
                assert(decreases_to!(*value => value->Array_0));
            }
            match first_inferrable_value {
                JsonValue::Array(_) => {
                    let inner_arr_type = infer_array(
                        key,
                        first_inferrable_value,
                        structs_into,
                        lang,
                    );
                    lang.format_arr_type(inner_arr_type, optional)
                },
                JsonValue::Object(members) => {
                    assert(type_text(lang, InferredType::Named(RecordName::Element(hint)))
                        == lang.record_name(singular(hint)));
                    let raw = match key {
                        Some(key) => key,
                        None => String::from_str(GO_AUTO_GENERATED),
                    };
                    let struct_name = lang.struct_name_from_array_key(raw.as_str());
                    let records = infer_struct(struct_name.clone(), first_inferrable_value, lang);
                    proof {
                        lemma_declared_name_decides(
                            lang,
                            RecordName::Key(struct_name@),
                            RecordName::Element(hint),
                            members@,
                        );
                    }
                    append_texts(structs_into, records);
                    lang.format_arr_type(struct_name, optional)
                },
                other => {
                    assert(type_text(lang, InferredType::Primitive(kind_of(*other)))
                        == lang.primitive_name(kind_of(*other)));
                    lang.format_arr_type(
                        String::from_str(lang.premitive_type_name(other)),
                        optional,
                    )
                },
            }
        }
    } else {
        let null = JsonValue::Null;
        assert(type_text(lang, InferredType::Primitive(PrimitiveKind::Any)) == lang.primitive_name(
            PrimitiveKind::Any,
        ));
        lang.format_arr_type(String::from_str(lang.premitive_type_name(&null)), false)
    }
}

/// What `infer_struct` returns for `obj` under `struct_name`: the
/// declarations of an object's records, its own last; for any other value
/// only the header that was opened.
pub open spec fn struct_texts<L: LanguageFormatter>(
    lang: &L,
    struct_name: Seq<char>,
    obj: JsonValue,
) -> Seq<Seq<char>> {
    match obj {
        JsonValue::Object(members) => records_text(
            lang,
            object_definitions(RecordName::Key(struct_name), members@),
        ),
        _ => seq![lang.header(struct_name)],
    }
}

/// Renders the record named `struct_name` for the object `obj`, behind the
/// records that its members introduce.
pub fn infer_struct<L: LanguageFormatter>(struct_name: String, obj: &JsonValue, lang: &L) -> (result:
    Vec<String>)
    ensures
        result.deep_view() == struct_texts(lang, struct_name@, *obj),
    decreases obj,
{
    let mut result: Vec<String> = Vec::new();
    let mut struct_content: String = lang.struct_or_class_header(struct_name.clone());
    if let JsonValue::Object(o) = obj {
        let ghost fields = field_types(o@);
        let mut i: usize = 0;
        proof {
            assert(result.deep_view() =~= records_text(lang, nested_definitions(o@, 0)));
            assert(struct_content@ =~= lang.header(struct_name@) + fields_text(lang, fields, 0));
        }
        while i < o.len()
            invariant
                i <= o.len(),
                *obj is Object,
                obj->Object_0 == *o,
                fields == field_types(o@),
                result.deep_view() == records_text(lang, nested_definitions(o@, i as nat)),
                struct_content@ == lang.header(struct_name@) + fields_text(lang, fields, i as nat),
            decreases o.len() - i,
        {
            let json_key = &o[i].0;
            let json = &o[i].1;
            let ghost before = nested_definitions(o@, i as nat);
            proof {
                assert(decreases_to!(*obj => obj->Object_0));
                assert(decreases_to!(o@[i as int] => o@[i as int].1));
                lemma_records_text_concat(lang, before, member_definitions(json_key@, *json));
                assert(fields[i as int] == (json_key@, member_type(json_key@, *json)));
            }
            let line = match json {
                JsonValue::Object(_) => {
                    let inner_struct = infer_struct(json_key.clone(), json, lang);
                    append_texts(&mut result, inner_struct);
                    let tpe = lang.struct_or_class_name(json_key.as_str());
                    lang.format_field_type(tpe.as_str(), json_key.as_str())
                },
                JsonValue::Array(_) => {
                    let arr_type = infer_array(Some(json_key.clone()), json, &mut result, lang);
                    lang.format_field_type(arr_type.as_str(), json_key.as_str())
                },
                other => {
                    proof {
                        assert(records_text(lang, Seq::<RecordDefinition>::empty())
                            =~= Seq::<Seq<char>>::empty());
                        assert(result.deep_view() + Seq::<Seq<char>>::empty()
                            =~= result.deep_view());
                    }
                    lang.format_field_type(lang.premitive_type_name(other), json_key.as_str())
                },
            };
            assert(line@ == field_text(lang, fields[i as int].0, fields[i as int].1));
            struct_content.append(line.as_str());
            assert(struct_content@ =~= lang.header(struct_name@) + fields_text(
                lang,
                fields,
                (i + 1) as nat,
            ));
            i += 1;
        }
        let footer = lang.struct_or_class_footer(Some(struct_name.clone()));
        struct_content.append(footer.as_str());
        let ghost nested = result.deep_view();
        result.push(struct_content);
        proof {
            let own = RecordDefinition { name: RecordName::Key(struct_name@), fields };
            assert(struct_content@ == record_text(lang, own));
            assert(result.deep_view() =~= nested.push(struct_content@));
            assert(result.deep_view() =~= records_text(
                lang,
                nested_definitions(o@, o@.len()).push(own),
            ));
        }
        result
    } else {
        result.push(struct_content);
        assert(result.deep_view() =~= seq![lang.header(struct_name@)]);
        result
    }
}

/// What `generate_types` returns: the declarations of the document's
/// records as `lang` renders them.
pub open spec fn generated<L: LanguageFormatter>(lang: &L, value: JsonValue) -> Seq<Seq<char>> {
    records_text(lang, definitions(value))
}

/// Renders the record declarations of a document, those of nested records
/// before the record that refers to them. A scalar has none, nor has an
/// array whose first element that is not null is a scalar.
pub fn generate_types<L: LanguageFormatter>(value: JsonValue, lang: &L) -> (result: Vec<String>)
    ensures
        result.deep_view() == generated(lang, value),
{
    let mut result: Vec<String> = Vec::new();
    proof {
        assert(result.deep_view() =~= Seq::<Seq<char>>::empty());
        assert(records_text(lang, Seq::<RecordDefinition>::empty()) =~= Seq::<Seq<char>>::empty());
    }
    match value {
        JsonValue::Array(_) => {
            let _ = infer_array(None, &value, &mut result, lang);
            assert(result.deep_view() =~= generated(lang, value));
        },
        JsonValue::Object(_) => {
            let records = infer_struct(String::from_str(GO_AUTO_GENERATED), &value, lang);
            append_texts(&mut result, records);
            assert(result.deep_view() =~= generated(lang, value));
        },
        _ => {},
    }
    result
}

} // verus!
