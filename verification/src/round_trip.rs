//! Laws that tie the schema token of a type to the parser: the token of every
//! type is read back as that type.

use vstd::prelude::*;
use vstd::string::*;
use crate::grammar::{
    is_list_token, is_map_token, key_part, list_item, map_interior, parse, primitive, top_comma,
    value_part,
};
use crate::nesting::{lemma_depth_opener, lemma_depth_plain, lemma_parted, lemma_wrapped, nested};
use crate::value_type::ValueType;

verus! {

/// A key and a value joined by a comma and a space part at that comma.
pub proof fn lemma_pair(k: Seq<char>, v: Seq<char>)
    requires
        nested(k, 1),
        nested(v, 1),
    ensures
        nested(k + ", "@ + v, 0),
        top_comma(k + ", "@ + v) == Some(k.len() as int),
        key_part(k + ", "@ + v, k.len() as int) == k,
        value_part(k + ", "@ + v, k.len() as int) == v,
{
    reveal_strlit(", ");
    let s = k + ", "@ + v;
    let c = k.len() as int;
    assert(key_part(s, c) =~= k);
    assert(s.skip(c + 1)[0] == ' ');
    assert(value_part(s, c) =~= v);
    lemma_parted(s, c);
}

/// The token of a base type is that type's name, and holds no bracket and no
/// comma.
pub proof fn lemma_primitive_token(t: ValueType)
    requires
        t.is_primitive(),
    ensures
        primitive(t.token()) == Some(t),
        !is_list_token(t.token()),
        !is_map_token(t.token()),
        nested(t.token(), 1),
{
    reveal_strlit("i8");
    reveal_strlit("i16");
    reveal_strlit("i32");
    reveal_strlit("i64");
    reveal_strlit("i128");
    reveal_strlit("u8");
    reveal_strlit("u16");
    reveal_strlit("u32");
    reveal_strlit("u64");
    reveal_strlit("u128");
    reveal_strlit("f32");
    reveal_strlit("f64");
    reveal_strlit("bool");
    reveal_strlit("char");
    reveal_strlit("String");
    reveal_strlit("()");
    reveal_strlit("Vec<");
    reveal_strlit("HashMap<");
    let s = t.token();
    assert(s[0] != 'V' && s[0] != 'H');
    if "Vec<"@.is_prefix_of(s) {
        assert(s.subrange(0, 4)[0] == 'V');
    }
    if "HashMap<"@.is_prefix_of(s) {
        assert(s.subrange(0, 8)[0] == 'H');
    }
    lemma_depth_plain(s);
}

/// A text between `Vec<` and `>` is a list token with that text as its item.
pub proof fn lemma_list_shape(x: Seq<char>)
    ensures
        is_list_token("Vec<"@ + x + ">"@),
        list_item("Vec<"@ + x + ">"@) == x,
{
    reveal_strlit("Vec<");
    reveal_strlit(">");
    let s = "Vec<"@ + x + ">"@;
    assert("Vec<"@ =~= s.subrange(0, 4));
    assert(list_item(s) =~= x);
}

/// A nested key and value between `HashMap<` and `>`, joined by a comma and a
/// space, make a map token that parts into that key and that value.
pub proof fn lemma_map_shape(k: Seq<char>, v: Seq<char>)
    requires
        nested(k, 1),
        nested(v, 1),
    ensures
        ({
            let s = "HashMap<"@ + k + ", "@ + v + ">"@;
            &&& !is_list_token(s)
            &&& is_map_token(s)
            &&& map_interior(s) == k + ", "@ + v
            &&& top_comma(map_interior(s)) == Some(k.len() as int)
            &&& key_part(map_interior(s), k.len() as int) == k
            &&& value_part(map_interior(s), k.len() as int) == v
        }),
{
    reveal_strlit("Vec<");
    reveal_strlit("HashMap<");
    reveal_strlit(">");
    let s = "HashMap<"@ + k + ", "@ + v + ">"@;
    let inner = k + ", "@ + v;
    lemma_pair(k, v);
    assert(s[0] == 'H');
    if "Vec<"@.is_prefix_of(s) {
        assert(s.subrange(0, 4)[0] == 'V');
    }
    assert("HashMap<"@ =~= s.subrange(0, 8));
    assert(map_interior(s) =~= inner);
}

/// A nested text between `Vec<` and `>` is nested.
pub proof fn lemma_list_nested(x: Seq<char>)
    requires
        nested(x, 1),
    ensures
        nested("Vec<"@ + x + ">"@, 1),
{
    reveal_strlit("Vec<");
    lemma_depth_opener("Vec<"@);
    lemma_wrapped("Vec<"@, x);
}

/// A nested key and value between `HashMap<` and `>` are nested.
pub proof fn lemma_map_nested(k: Seq<char>, v: Seq<char>)
    requires
        nested(k, 1),
        nested(v, 1),
    ensures
        nested("HashMap<"@ + k + ", "@ + v + ">"@, 1),
{
    reveal_strlit("HashMap<");
    lemma_pair(k, v);
    lemma_depth_opener("HashMap<"@);
    let inner = k + ", "@ + v;
    lemma_wrapped("HashMap<"@, inner);
    assert("HashMap<"@ + k + ", "@ + v + ">"@ =~= "HashMap<"@ + inner + ">"@);
}

/// In the token of every type the brackets are balanced and every comma
/// stands inside a bracket.
pub proof fn lemma_token_nested(t: ValueType)
    ensures
        nested(t.token(), 1),
    decreases t,
{
    match t {
        ValueType::List(item) => {
            lemma_token_nested(*item);
            lemma_list_nested(item.token());
        },
        ValueType::Mapping { key_type, value_type } => {
            lemma_token_nested(*key_type);
            lemma_token_nested(*value_type);
            lemma_map_nested(key_type.token(), value_type.token());
        },
        _ => {
            lemma_primitive_token(t);
        },
    }
}

/// Round trip: the parser reads the token of every type, of whatever depth,
/// back as that type.
pub proof fn lemma_round_trip(t: ValueType)
    ensures
        parse(t.token()) == Ok::<ValueType, Seq<char>>(t),
    decreases t,
{
    match t {
        ValueType::List(item) => {
            lemma_round_trip(*item);
            lemma_list_shape(item.token());
        },
        ValueType::Mapping { key_type, value_type } => {
            lemma_round_trip(*key_type);
            lemma_round_trip(*value_type);
            lemma_token_nested(*key_type);
            lemma_token_nested(*value_type);
            lemma_map_shape(key_type.token(), value_type.token());
        },
        _ => {
            lemma_primitive_token(t);
        },
    }
}

} // verus!
