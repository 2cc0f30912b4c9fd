//! The grammar as a relation between a text and the type it stands for, and
//! the proof that the parser accepts exactly the texts of that relation.

use vstd::prelude::*;
use vstd::string::*;
use crate::grammar::{
    is_list_token, is_map_token, key_part, list_item, map_interior, parse, primitive, splits_at,
    top_comma, value_part,
};
use crate::nesting::{lemma_depth_opener, lemma_parted, lemma_wrapped, nested};
use crate::round_trip::{lemma_list_nested, lemma_primitive_token, lemma_round_trip};
use crate::value_type::ValueType;

verus! {

/// Whether `s` has the shape `HashMap<` .. `>`.
pub open spec fn is_map_shaped(s: Seq<char>) -> bool {
    &&& s.len() >= 9
    &&& "HashMap<"@.is_prefix_of(s)
    &&& s.last() == '>'
}

/// Whether `s` holds a comma at `c`.
pub open spec fn comma_at(s: Seq<char>, c: int) -> bool {
    0 <= c < s.len() && s[c] == ','
}

/// Whether the text `s` is a token of the type `t`: the name of a base type,
/// a token of the item between `Vec<` and `>`, or between `HashMap<` and `>`
/// a token of the key, a comma, at most one space, and a token of the value.
pub open spec fn denotes(s: Seq<char>, t: ValueType) -> bool
    decreases t,
{
    match t {
        ValueType::List(item) => is_list_token(s) && denotes(list_item(s), *item),
        ValueType::Mapping { key_type, value_type } => {
            &&& is_map_shaped(s)
            &&& exists|c: int|
                {
                    &&& #[trigger] comma_at(map_interior(s), c)
                    &&& denotes(key_part(map_interior(s), c), *key_type)
                    &&& denotes(value_part(map_interior(s), c), *value_type)
                }
        },
        _ => s == t.token(),
    }
}

/// A token of a type begins with a character that is no space, balances its
/// brackets and holds every comma inside a bracket.
pub proof fn lemma_denotes_nested(s: Seq<char>, t: ValueType)
    requires
        denotes(s, t),
    ensures
        nested(s, 1),
        s.len() > 0,
        s[0] != ' ',
    decreases t,
{
    reveal_strlit("Vec<");
    reveal_strlit("HashMap<");
    reveal_strlit(">");
    match t {
        ValueType::List(item) => {
            lemma_denotes_nested(list_item(s), *item);
            lemma_list_nested(list_item(s));
            assert(s.subrange(0, 4)[0] == 'V');
            assert(s =~= "Vec<"@ + list_item(s) + ">"@) by {
                assert("Vec<"@ =~= s.subrange(0, 4));
            }
        },
        ValueType::Mapping { key_type, value_type } => {
            let c = choose|c: int|
                {
                    &&& #[trigger] comma_at(map_interior(s), c)
                    &&& denotes(key_part(map_interior(s), c), *key_type)
                    &&& denotes(value_part(map_interior(s), c), *value_type)
                };
            let inner = map_interior(s);
            lemma_denotes_nested(inner.take(c), *key_type);
            lemma_denotes_nested(value_part(inner, c), *value_type);
            lemma_parted(inner, c);
            lemma_depth_opener("HashMap<"@);
            lemma_wrapped("HashMap<"@, inner);
            assert(s.subrange(0, 8)[0] == 'H');
            assert(s =~= "HashMap<"@ + inner + ">"@) by {
                assert("HashMap<"@ =~= s.subrange(0, 8));
            }
        },
        _ => {
            lemma_primitive_token(t);
            lemma_primitive_first(t);
        },
    }
}

/// The name of a base type begins with a letter or a bracket.
pub proof fn lemma_primitive_first(t: ValueType)
    requires
        t.is_primitive(),
    ensures
        t.token().len() > 0,
        t.token()[0] != ' ',
{
    reveal_strlit("i8");
    reveal_strlit("i16");
    reveal_strlit("i32");
    reveal_strlit("i64");
    reveal_strlit("i128");
    reveal_strlit("u8");
    reveal_strlit("u16");
    reveal_strlit("u32");
    reveal_strlit("u64");
    reveal_strlit("u128");
    reveal_strlit("f32");
    reveal_strlit("f64");
    reveal_strlit("bool");
    reveal_strlit("char");
    reveal_strlit("String");
    reveal_strlit("()");
}

/// Whatever the parser accepts as a type is a token of that type.
pub proof fn lemma_parse_sound(s: Seq<char>, t: ValueType)
    requires
        parse(s) == Ok::<ValueType, Seq<char>>(t),
    ensures
        denotes(s, t),
    decreases s.len(),
{
    if is_list_token(s) {
        let item = parse(list_item(s))->Ok_0;
        lemma_parse_sound(list_item(s), item);
        assert(t == ValueType::List(Box::new(item)));
        assert(denotes(s, t));
    } else if is_map_token(s) {
        let inner = map_interior(s);
        let c = top_comma(inner).unwrap();
        assert(splits_at(inner, c));
        let key = parse(key_part(inner, c))->Ok_0;
        let value = parse(value_part(inner, c))->Ok_0;
        lemma_parse_sound(key_part(inner, c), key);
        lemma_parse_sound(value_part(inner, c), value);
        assert(t == ValueType::Mapping { key_type: Box::new(key), value_type: Box::new(value) });
        assert(comma_at(map_interior(s), c));
        assert(denotes(s, t));
    } else {
        assert(primitive(s) == Some(t));
        assert(t.is_primitive());
        assert(s == t.token());
        assert(denotes(s, t));
    }
}

/// The parser accepts every token of a type, as that type.
pub proof fn lemma_parse_complete(s: Seq<char>, t: ValueType)
    requires
        denotes(s, t),
    ensures
        parse(s) == Ok::<ValueType, Seq<char>>(t),
    decreases t,
{
    reveal_strlit("Vec<");
    reveal_strlit("HashMap<");
    match t {
        ValueType::List(item) => {
            lemma_parse_complete(list_item(s), *item);
        },
        ValueType::Mapping { key_type, value_type } => {
            let c = choose|c: int|
                {
                    &&& #[trigger] comma_at(map_interior(s), c)
                    &&& denotes(key_part(map_interior(s), c), *key_type)
                    &&& denotes(value_part(map_interior(s), c), *value_type)
                };
            let inner = map_interior(s);
            lemma_denotes_nested(inner.take(c), *key_type);
            lemma_denotes_nested(value_part(inner, c), *value_type);
            lemma_parted(inner, c);
            assert(s.subrange(0, 8)[0] == 'H');
            if "Vec<"@.is_prefix_of(s) {
                assert(s.subrange(0, 4)[0] == 'V');
            }
            lemma_parse_complete(key_part(inner, c), *key_type);
            lemma_parse_complete(value_part(inner, c), *value_type);
        },
        _ => {
            lemma_primitive_token(t);
        },
    }
}

/// The parser accepts a text as a type exactly where the text is a token of
/// that type; so a text is a token of at most one type.
pub proof fn lemma_parse_exact(s: Seq<char>, t: ValueType)
    ensures
        parse(s) == Ok::<ValueType, Seq<char>>(t) <==> denotes(s, t),
{
    if parse(s) == Ok::<ValueType, Seq<char>>(t) {
        lemma_parse_sound(s, t);
    }
    if denotes(s, t) {
        lemma_parse_complete(s, t);
    }
}

/// The schema token of a type is a token of it.
pub proof fn lemma_token_denotes(t: ValueType)
    ensures
        denotes(t.token(), t),
{
    lemma_round_trip(t);
    lemma_parse_sound(t.token(), t);
}

} // verus!
