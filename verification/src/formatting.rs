//! Go-flavoured formatting helpers: member lines, slice types, primitive
//! names and exported identifiers.

use vstd::prelude::*;
use crate::constants::{ANY, BOOL, FLOAT, INT, STRING};
use crate::json::{kind_of, primitive_kind, JsonValue, PrimitiveKind};
use crate::text::{
    capitalized,
    capitalized_concat,
    char_to_uppercase,
    pascal_case,
    segments,
    split_on_underscore,
};

verus! {

/// A struct member line: the exported name, its type, and a tag that keeps
/// the JSON key.
pub open spec fn member_definition(go_key: Seq<char>, tpe: Seq<char>, json_key: Seq<char>) -> Seq<
    char,
> {
    "\t"@ + go_key + "\t"@ + tpe + "\t\t`json:\""@ + json_key + "\"`\n"@
}

/// A slice type whose element type carries `type_prefix`.
pub open spec fn array_type(tpe: Seq<char>, type_prefix: Seq<char>) -> Seq<char> {
    "[]"@ + type_prefix + tpe
}

/// The name of each primitive kind in the default tables.
pub open spec fn primitive_type_name(kind: PrimitiveKind) -> Seq<char> {
    match kind {
        PrimitiveKind::Bool => BOOL@,
        PrimitiveKind::Integer => INT@,
        PrimitiveKind::Float => FLOAT@,
        PrimitiveKind::String => STRING@,
        PrimitiveKind::Any => ANY@,
    }
}

pub fn format_member_definition(go_key: String, tpe: &str, json_key: &str) -> (line: String)
    ensures
        line@ == member_definition(go_key@, tpe@, json_key@),
{
    let mut line = String::from_str("\t");
    line.append(go_key.as_str());
    line.append("\t");
    line.append(tpe);
    line.append("\t\t`json:\"");
    line.append(json_key);
    line.append("\"`\n");
    line
}

pub fn format_array_type(tpe: &str, type_prefix: &str) -> (text: String)
    ensures
        text@ == array_type(tpe@, type_prefix@),
{
    let mut text = String::from_str("[]");
    text.append(type_prefix);
    text.append(tpe);
    text
}

pub fn get_primitive_type_name(value: &JsonValue) -> (name: &'static str)
    ensures
        name@ == primitive_type_name(kind_of(*value)),
{
    match primitive_kind(value) {
        PrimitiveKind::Bool => BOOL,
        PrimitiveKind::Integer => INT,
        PrimitiveKind::Float => FLOAT,
        PrimitiveKind::String => STRING,
        PrimitiveKind::Any => ANY,
    }
}

/// `head` in place of the first character of `s`; `head` alone where `s` is
/// empty.
pub fn replace_first_char(head: String, s: &str) -> (text: String)
    ensures
        text@ == head@ + s@.subrange(if s@.len() == 0 { 0 } else { 1 }, s@.len() as int),
{
    let mut text = head;
    let mut first = true;
    for c in it: s.chars()
        invariant
            it.seq() == s@,
            first == (it.index() == 0),
            first ==> text@ == head@,
            !first ==> text@ == head@ + s@.subrange(1, it.index() as int),
    {
        if first {
            first = false;
            assert(s@.subrange(1, 1) =~= Seq::<char>::empty());
            assert(head@ + Seq::<char>::empty() =~= head@);
        } else {
            text.push(c);
            assert(s@.subrange(1, it.index() + 1) =~= s@.subrange(1, it.index() as int).push(c));
            assert(head@ + s@.subrange(1, it.index() as int).push(c) =~= (head@ + s@.subrange(
                1,
                it.index() as int,
            )).push(c));
        }
    }
    assert(head@ + s@.subrange(0, 0) =~= head@);
    text
}

/// Upper-cases the first character of `s`.
pub fn first_char_upper(s: &str) -> (text: String)
    ensures
        text@ == capitalized(s@),
{
    let mut chars = s.chars();
    match chars.next() {
        None => String::new(),
        Some(ch) => {
            assert(s@.subrange(1, s@.len() as int) =~= s@.skip(1));
            replace_first_char(char_to_uppercase(ch), s)
        },
    }
}

/// Turns a key into an exported identifier: PascalCase.
pub fn create_go_key(raw: &str) -> (key: String)
    ensures
        key@ == pascal_case(raw@),
{
    let words = split_on_underscore(raw);
    let mut key = String::new();
    let mut i: usize = 0;
    while i < words.len()
        invariant
            i <= words.len(),
            words.deep_view() == segments(raw@),
            key@ == capitalized_concat(words.deep_view().take(i as int)),
        decreases words.len() - i,
    {
        let word = first_char_upper(words[i].as_str());
        key.append(word.as_str());
        proof {
            let parts = words.deep_view();
            assert(parts.take(i + 1).drop_last() =~= parts.take(i as int));
            assert(parts.take(i + 1).last() == words[i as int]@);
        }
        i += 1;
    }
    assert(words.deep_view().take(words.len() as int) =~= words.deep_view());
    key
}

} // verus!
