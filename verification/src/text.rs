//! Identifier transforms on character sequences, and the string primitives
//! that the renderers build on.

use vstd::prelude::*;

verus! {

/// The upper-case mapping of one character, which may be several characters
/// long.
pub uninterp spec fn uppercase_of(c: char) -> Seq<char>;

/// The lower-case form of a string.
pub uninterp spec fn lowercase_of(s: Seq<char>) -> Seq<char>;

/// `String::push` appends one character.
pub assume_specification[ std::string::String::push ](s: &mut std::string::String, c: char)
    ensures
        final(s)@ == old(s)@.push(c),
;

/// Calls `char::to_uppercase` and collects what it yields. Nothing is
/// claimed of the characters themselves: they are named `uppercase_of(c)`.
#[verifier::external_body]
pub(crate) fn char_to_uppercase(c: char) -> (upper: String)
    ensures
        upper@ == uppercase_of(c),
{
    c.to_uppercase().to_string()
}

/// Calls `str::to_lowercase`. Nothing is claimed of the characters
/// themselves: they are named `lowercase_of(s)`.
#[verifier::external_body]
pub(crate) fn str_to_lowercase(s: &str) -> (lower: String)
    ensures
        lower@ == lowercase_of(s@),
{
    s.to_lowercase()
}

/// `s` with its first character replaced by that character's upper-case
/// mapping.
pub open spec fn capitalized(s: Seq<char>) -> Seq<char> {
    if s.len() == 0 {
        s
    } else {
        uppercase_of(s[0]) + s.skip(1)
    }
}

/// The pieces of `rest` between underscores, where `current` is what has
/// been read of the first piece.
pub open spec fn segments_from(current: Seq<char>, rest: Seq<char>) -> Seq<Seq<char>>
    decreases rest.len(),
{
    if rest.len() == 0 {
        seq![current]
    } else if rest[0] == '_' {
        seq![current] + segments_from(Seq::empty(), rest.skip(1))
    } else {
        segments_from(current.push(rest[0]), rest.skip(1))
    }
}

/// The pieces of `s` between underscores: one more than `s` has
/// underscores, some of them possibly empty.
pub open spec fn segments(s: Seq<char>) -> Seq<Seq<char>> {
    segments_from(Seq::empty(), s)
}

/// The concatenation of the capitalized pieces.
pub open spec fn capitalized_concat(parts: Seq<Seq<char>>) -> Seq<char>
    decreases parts.len(),
{
    if parts.len() == 0 {
        Seq::empty()
    } else {
        capitalized_concat(parts.drop_last()) + capitalized(parts.last())
    }
}

/// `s` in PascalCase: every piece between underscores capitalized.
pub open spec fn pascal_case(s: Seq<char>) -> Seq<char> {
    capitalized_concat(segments(s))
}

/// `s` in camelCase: the first piece as it is, the others capitalized.
pub open spec fn camel_case(s: Seq<char>) -> Seq<char> {
    segments(s)[0] + capitalized_concat(segments(s).skip(1))
}

pub open spec fn ends_with_ies(key: Seq<char>) -> bool {
    &&& key.len() >= 3
    &&& key[key.len() - 3] == 'i'
    &&& key[key.len() - 2] == 'e'
    &&& key[key.len() - 1] == 's'
}

pub open spec fn ends_with_s(key: Seq<char>) -> bool {
    key.len() >= 1 && key[key.len() - 1] == 's'
}

/// The naive singular of a plural key: a final "ies" becomes "y", any other
/// final "s" is dropped, and every other key stays as it is.
pub open spec fn singular(key: Seq<char>) -> Seq<char> {
    if ends_with_ies(key) {
        key.take(key.len() - 3).push('y')
    } else if ends_with_s(key) {
        key.take(key.len() - 1)
    } else {
        key
    }
}

/// The pieces with one underscore between each two neighbours.
pub open spec fn joined(parts: Seq<Seq<char>>) -> Seq<char>
    decreases parts.len(),
{
    if parts.len() == 0 {
        Seq::empty()
    } else if parts.len() == 1 {
        parts[0]
    } else {
        parts[0].push('_') + joined(parts.skip(1))
    }
}

/// There is always a first piece.
pub proof fn lemma_segments_nonempty(current: Seq<char>, rest: Seq<char>)
    ensures
        segments_from(current, rest).len() >= 1,
    decreases rest.len(),
{
    if rest.len() != 0 && rest[0] != '_' {
        lemma_segments_nonempty(current.push(rest[0]), rest.skip(1));
    }
}

/// Splitting loses nothing but the underscores: no piece holds one, and the
/// pieces joined by underscores are the text that was split.
pub proof fn lemma_segments_rejoin(current: Seq<char>, rest: Seq<char>)
    requires
        !current.contains('_'),
    ensures
        joined(segments_from(current, rest)) == current + rest,
        forall|i: int|
            0 <= i < segments_from(current, rest).len() ==> !(#[trigger] segments_from(
                current,
                rest,
            )[i]).contains('_'),
    decreases rest.len(),
{
    if rest.len() == 0 {
        assert(current + rest =~= current);
    } else if rest[0] == '_' {
        let tail = segments_from(Seq::empty(), rest.skip(1));
        let all = seq![current] + tail;
        lemma_segments_nonempty(Seq::empty(), rest.skip(1));
        lemma_segments_rejoin(Seq::empty(), rest.skip(1));
        assert(all.skip(1) =~= tail);
        assert(Seq::<char>::empty() + rest.skip(1) =~= rest.skip(1));
        assert(current.push('_') + rest.skip(1) =~= current + rest);
        assert forall|i: int| 0 <= i < all.len() implies !(#[trigger] all[i]).contains('_') by {
            if i > 0 {
                assert(all[i] == tail[i - 1]);
            }
        }
    } else {
        let grown = current.push(rest[0]);
        assert(!grown.contains('_')) by {
            if grown.contains('_') {
                let j = choose|j: int| 0 <= j < grown.len() && grown[j] == '_';
                assert(j < current.len());
                assert(current[j] == '_');
            }
        }
        lemma_segments_rejoin(grown, rest.skip(1));
        assert(grown + rest.skip(1) =~= current + rest);
    }
}

/// Splits `s` at every underscore.
pub fn split_on_underscore(s: &str) -> (parts: Vec<String>)
    ensures
        parts.deep_view() == segments(s@),
{
    let mut parts: Vec<String> = Vec::new();
    let mut current = String::new();
    proof {
        assert(s@.skip(0) == s@);
        assert(parts.deep_view() + segments(s@) =~= segments(s@));
    }
    for c in it: s.chars()
        invariant
            it.seq() == s@,
            segments(s@) == parts.deep_view() + segments_from(current@, s@.skip(it.index() as int)),
    {
        proof {
            let rest = s@.skip(it.index() as int);
            assert(rest[0] == c);
            assert(rest.skip(1) == s@.skip(it.index() + 1));
        }
        if c == '_' {
            parts.push(current);
            current = String::new();
        } else {
            current.push(c);
        }
    }
    parts.push(current);
    parts
}

/// Replaces a final "ies" by "y", or drops a final "s".
pub fn singular_key(key: &str) -> (stem: String)
    ensures
        stem@ == singular(key@),
{
    let n = key.unicode_len();
    if n >= 3 && key.get_char(n - 3) == 'i' && key.get_char(n - 2) == 'e' && key.get_char(n - 1)
        == 's' {
        let mut stem = String::from_str(key.substring_char(0, n - 3));
        stem.push('y');
        stem
    } else if n >= 1 && key.get_char(n - 1) == 's' {
        String::from_str(key.substring_char(0, n - 1))
    } else {
        String::from_str(key)
    }
}

} // verus!
