//! The grammar of schema type tokens: what a token denotes, and the parser.
//!
//! ```text
//! type      := primitive | "Vec<" type ">" | "HashMap<" type "," [" "] type ">"
//! primitive := "i8" .. "i128" | "u8" .. "u128" | "f32" | "f64"
//!            | "bool" | "char" | "String" | "()"
//! ```
//!
//! The two halves of a map's interior part at its first comma that stands
//! outside every inner pair of angle brackets.

use vstd::prelude::*;
use vstd::string::*;
use crate::denotation::{denotes, lemma_parse_exact};
use crate::text::{begins_with, ends_with_char, same_text};
use crate::value_type::ValueType;

verus! {

/// What one character adds to the bracket depth.
pub open spec fn step(c: char) -> int {
    if c == '<' {
        1
    } else if c == '>' {
        -1
    } else {
        0
    }
}

/// The opening angle brackets of `s` less its closing ones.
pub open spec fn depth(s: Seq<char>) -> int
    decreases s.len(),
{
    if s.len() == 0 {
        0
    } else {
        depth(s.drop_last()) + step(s.last())
    }
}

/// Whether `s` holds a comma at `i` with as many brackets opened as closed
/// before it.
pub open spec fn is_top_comma(s: Seq<char>, i: int) -> bool {
    &&& 0 <= i < s.len()
    &&& s[i] == ','
    &&& depth(s.take(i)) == 0
}

/// Whether `i` is the first top-level comma of `s`.
pub open spec fn splits_at(s: Seq<char>, i: int) -> bool {
    &&& is_top_comma(s, i)
    &&& forall|j: int| 0 <= j < i ==> !is_top_comma(s, j)
}

/// The first top-level comma of `s`, if it has one.
pub open spec fn top_comma(s: Seq<char>) -> Option<int> {
    if exists|i: int| splits_at(s, i) {
        Some(choose|i: int| splits_at(s, i))
    } else {
        None
    }
}

/// Whether `s` has the shape `Vec<` .. `>`.
pub open spec fn is_list_token(s: Seq<char>) -> bool {
    &&& s.len() >= 5
    &&& "Vec<"@.is_prefix_of(s)
    &&& s.last() == '>'
}

/// What stands between the brackets of a list token.
pub open spec fn list_item(s: Seq<char>) -> Seq<char> {
    s.subrange(4, s.len() - 1)
}

/// What stands between the brackets of a map token.
pub open spec fn map_interior(s: Seq<char>) -> Seq<char> {
    s.subrange(8, s.len() - 1)
}

/// Whether `s` has the shape `HashMap<` .. `,` .. `>` with a top-level comma.
pub open spec fn is_map_token(s: Seq<char>) -> bool {
    &&& s.len() >= 9
    &&& "HashMap<"@.is_prefix_of(s)
    &&& s.last() == '>'
    &&& top_comma(map_interior(s)) is Some
}

/// The part of an interior before the comma at `c`.
pub open spec fn key_part(inner: Seq<char>, c: int) -> Seq<char> {
    inner.take(c)
}

/// The part of an interior after the comma at `c`, less one leading space
/// where there is one.
pub open spec fn value_part(inner: Seq<char>, c: int) -> Seq<char> {
    let rest = inner.skip(c + 1);
    if rest.len() > 0 && rest[0] == ' ' {
        rest.skip(1)
    } else {
        rest
    }
}

/// The base type that `s` names, if it names one.
pub open spec fn primitive(s: Seq<char>) -> Option<ValueType> {
    if s == "i8"@ {
        Some(ValueType::I8)
    } else if s == "i16"@ {
        Some(ValueType::I16)
    } else if s == "i32"@ {
        Some(ValueType::I32)
    } else if s == "i64"@ {
        Some(ValueType::I64)
    } else if s == "i128"@ {
        Some(ValueType::I128)
    } else if s == "u8"@ {
        Some(ValueType::U8)
    } else if s == "u16"@ {
        Some(ValueType::U16)
    } else if s == "u32"@ {
        Some(ValueType::U32)
    } else if s == "u64"@ {
        Some(ValueType::U64)
    } else if s == "u128"@ {
        Some(ValueType::U128)
    } else if s == "f32"@ {
        Some(ValueType::F32)
    } else if s == "f64"@ {
        Some(ValueType::F64)
    } else if s == "bool"@ {
        Some(ValueType::Bool)
    } else if s == "char"@ {
        Some(ValueType::Char)
    } else if s == "String"@ {
        Some(ValueType::String)
    } else if s == "()"@ {
        Some(ValueType::Unit)
    } else {
        None
    }
}

/// The message that rejects the token `s`.
pub open spec fn unsupported(s: Seq<char>) -> Seq<char> {
    "Unsupported type: "@ + s
}

/// The type that the token `s` denotes, or the message that rejects the
/// innermost part of it that is no token. Of a map the key is read first.
pub open spec fn parse(s: Seq<char>) -> Result<ValueType, Seq<char>>
    decreases s.len(),
{
    if is_list_token(s) {
        match parse(list_item(s)) {
            Ok(item) => Ok(ValueType::List(Box::new(item))),
            Err(e) => Err(e),
        }
    } else if is_map_token(s) {
        let inner = map_interior(s);
        let c = top_comma(inner).unwrap();
        match parse(key_part(inner, c)) {
            Err(e) => Err(e),
            Ok(key) => match parse(value_part(inner, c)) {
                Err(e) => Err(e),
                Ok(value) => Ok(
                    ValueType::Mapping { key_type: Box::new(key), value_type: Box::new(value) },
                ),
            },
        }
    } else {
        match primitive(s) {
            Some(t) => Ok(t),
            None => Err(unsupported(s)),
        }
    }
}

/// A text has at most one first top-level comma.
pub proof fn lemma_split_unique(s: Seq<char>, i: int, j: int)
    requires
        splits_at(s, i),
        splits_at(s, j),
    ensures
        i == j,
{
    if i < j {
        assert(!is_top_comma(s, i));
    } else if j < i {
        assert(!is_top_comma(s, j));
    }
}

/// The depth after one more character.
pub proof fn lemma_depth_take_next(s: Seq<char>, i: int)
    requires
        0 <= i < s.len(),
    ensures
        depth(s.take(i + 1)) == depth(s.take(i)) + step(s[i]),
{
    assert(s.take(i + 1).drop_last() =~= s.take(i));
}

/// Finds the first top-level comma of `s`.
pub fn find_top_comma(s: &str) -> (r: Option<usize>)
    ensures
        match r {
            Some(i) => top_comma(s@) == Some(i as int),
            None => top_comma(s@) is None,
        },
{
    let n: usize = s.unicode_len();
    let mut i: usize = 0;
    let mut d: i128 = 0;
    while i < n
        invariant
            n == s@.len(),
            i <= n,
            d == depth(s@.take(i as int)),
            -(i as int) <= d <= i as int,
            forall|j: int| 0 <= j < i ==> !is_top_comma(s@, j),
        decreases n - i,
    {
        let c: char = s.get_char(i);
        if c == ',' && d == 0 {
            proof {
                assert(splits_at(s@, i as int));
                let k = choose|k: int| splits_at(s@, k);
                lemma_split_unique(s@, i as int, k);
            }
            return Some(i);
        }
        proof {
            lemma_depth_take_next(s@, i as int);
        }
        if c == '<' {
            d = d + 1;
        } else if c == '>' {
            d = d - 1;
        }
        i += 1;
    }
    assert forall|k: int| !splits_at(s@, k) by {
        if 0 <= k < n {
            assert(!is_top_comma(s@, k));
        }
    }
    None
}

/// Reads a base type's name.
pub fn parse_primitive(value: &str) -> (r: Option<ValueType>)
    ensures
        r == primitive(value@),
{
    if same_text(value, "i8") {
        Some(ValueType::I8)
    } else if same_text(value, "i16") {
        Some(ValueType::I16)
    } else if same_text(value, "i32") {
        Some(ValueType::I32)
    } else if same_text(value, "i64") {
        Some(ValueType::I64)
    } else if same_text(value, "i128") {
        Some(ValueType::I128)
    } else if same_text(value, "u8") {
        Some(ValueType::U8)
    } else if same_text(value, "u16") {
        Some(ValueType::U16)
    } else if same_text(value, "u32") {
        Some(ValueType::U32)
    } else if same_text(value, "u64") {
        Some(ValueType::U64)
    } else if same_text(value, "u128") {
        Some(ValueType::U128)
    } else if same_text(value, "f32") {
        Some(ValueType::F32)
    } else if same_text(value, "f64") {
        Some(ValueType::F64)
    } else if same_text(value, "bool") {
        Some(ValueType::Bool)
    } else if same_text(value, "char") {
        Some(ValueType::Char)
    } else if same_text(value, "String") {
        Some(ValueType::String)
    } else if same_text(value, "()") {
        Some(ValueType::Unit)
    } else {
        None
    }
}

/// Whether the parser's answer `r` is what `parse` gives for `s`: the same
/// type, or the same message.
pub open spec fn agrees(r: Result<ValueType, String>, s: Seq<char>) -> bool {
    match r {
        Ok(t) => parse(s) == Ok::<ValueType, Seq<char>>(t),
        Err(e) => parse(s) == Err::<ValueType, Seq<char>>(e@),
    }
}

/// Parses a schema type token. A token of a type gives that type. Any other
/// text, malformed or unknown, is rejected with a message that names the
/// part that could not be read.
pub fn parse_value_type(value: &str) -> (r: Result<ValueType, String>)
    ensures
        forall|t: ValueType| #[trigger] denotes(value@, t) <==> r == Ok::<ValueType, String>(t),
        agrees(r, value@),
    decreases value@.len(),
{
    let n: usize = value.unicode_len();
    proof {
        reveal_strlit("Vec<");
        reveal_strlit("HashMap<");
        assert forall|t: ValueType| #[trigger]
            denotes(value@, t) <==> parse(value@) == Ok::<ValueType, Seq<char>>(t) by {
            lemma_parse_exact(value@, t);
        }
    }
    if begins_with(value, "Vec<") && ends_with_char(value, '>') {
        assert(value@.subrange(0, 4)[3] == '<');
        let item = parse_value_type(value.substring_char(4, n - 1));
        return match item {
            Ok(t) => Ok(ValueType::List(Box::new(t))),
            Err(e) => Err(e),
        };
    }
    assert(!is_list_token(value@));
    if begins_with(value, "HashMap<") && ends_with_char(value, '>') {
        assert(value@.subrange(0, 8)[7] == '<');
        let inner: &str = value.substring_char(8, n - 1);
        if let Some(c) = find_top_comma(inner) {
            let m: usize = inner.unicode_len();
            let key_text: &str = inner.substring_char(0, c);
            let rest: &str = inner.substring_char(c + 1, m);
            let value_text: &str = if m - c - 1 > 0 && rest.get_char(0) == ' ' {
                rest.substring_char(1, m - c - 1)
            } else {
                rest
            };
            assert(key_text@ == key_part(inner@, c as int));
            assert(value_text@ == value_part(inner@, c as int));
            let key = parse_value_type(key_text);
            return match key {
                Err(e) => Err(e),
                Ok(k) => {
                    let val = parse_value_type(value_text);
                    match val {
                        Err(e) => Err(e),
                        Ok(v) => Ok(
                            ValueType::Mapping { key_type: Box::new(k), value_type: Box::new(v) },
                        ),
                    }
                },
            };
        }
    }
    assert(!is_map_token(value@));
    match parse_primitive(value) {
        Some(t) => Ok(t),
        None => Err(String::from_str("Unsupported type: ").concat(value)),
    }
}

} // verus!
