use guilder::grammar::{find_top_comma, parse_primitive, parse_value_type};
use guilder::language::ProgrammingLanguage;
use guilder::text::{begins_with, ends_with_char, find_char, same_text};
use guilder::value_type::ValueType;

fn primitives() -> Vec<(ValueType, &'static str)> {
    vec![
        (ValueType::I8, "i8"),
        (ValueType::I16, "i16"),
        (ValueType::I32, "i32"),
        (ValueType::I64, "i64"),
        (ValueType::I128, "i128"),
        (ValueType::U8, "u8"),
        (ValueType::U16, "u16"),
        (ValueType::U32, "u32"),
        (ValueType::U64, "u64"),
        (ValueType::U128, "u128"),
        (ValueType::F32, "f32"),
        (ValueType::F64, "f64"),
        (ValueType::Bool, "bool"),
        (ValueType::Char, "char"),
        (ValueType::String, "String"),
        (ValueType::Unit, "()"),
    ]
}

fn list(item: ValueType) -> ValueType {
    ValueType::List(Box::new(item))
}

fn mapping(key: ValueType, value: ValueType) -> ValueType {
    ValueType::Mapping { key_type: Box::new(key), value_type: Box::new(value) }
}

#[test]
fn every_primitive_token_is_read_back() {
    for (t, token) in primitives() {
        assert_eq!(t.canonical_token(), token);
        assert_eq!(parse_value_type(token), Ok(t.clone()));
        assert_eq!(parse_value_type(&t.canonical_token()), Ok(t));
    }
}

#[test]
fn nested_lists_are_read_back() {
    for (p, _) in primitives() {
        let mut t = p;
        for _ in 0..5 {
            t = list(t);
            assert_eq!(parse_value_type(&t.canonical_token()), Ok(t.clone()));
        }
    }
    let deep = list(list(list(list(ValueType::I64))));
    assert_eq!(deep.canonical_token(), "Vec<Vec<Vec<Vec<i64>>>>");
    assert_eq!(parse_value_type("Vec<Vec<Vec<Vec<i64>>>>"), Ok(deep));
}

#[test]
fn nested_maps_are_read_back() {
    let t = mapping(
        mapping(ValueType::String, list(ValueType::U8)),
        list(mapping(ValueType::I8, mapping(ValueType::Char, ValueType::Unit))),
    );
    assert_eq!(
        t.canonical_token(),
        "HashMap<HashMap<String, Vec<u8>>, Vec<HashMap<i8, HashMap<char, ()>>>>"
    );
    assert_eq!(parse_value_type(&t.canonical_token()), Ok(t));
}

#[test]
fn map_with_a_list_value_parts_at_the_outer_comma() {
    assert_eq!(
        parse_value_type("HashMap<String, Vec<i64>>"),
        Ok(mapping(ValueType::String, list(ValueType::I64)))
    );
}

#[test]
fn map_with_a_map_key_parts_at_the_outer_comma() {
    assert_eq!(
        parse_value_type("HashMap<HashMap<i8, i16>, Vec<i64>>"),
        Ok(mapping(mapping(ValueType::I8, ValueType::I16), list(ValueType::I64)))
    );
}

#[test]
fn map_reads_with_or_without_the_space() {
    let want = mapping(ValueType::I8, ValueType::I16);
    assert_eq!(parse_value_type("HashMap<i8, i16>"), Ok(want.clone()));
    assert_eq!(parse_value_type("HashMap<i8,i16>"), Ok(want));
    assert_eq!(
        parse_value_type("HashMap<i8,  i16>"),
        Err("Unsupported type:  i16".to_string())
    );
}

#[test]
fn malformed_tokens_are_rejected() {
    assert_eq!(parse_value_type(""), Err("Unsupported type: ".to_string()));
    assert_eq!(parse_value_type("Vec<"), Err("Unsupported type: Vec<".to_string()));
    assert_eq!(parse_value_type("Foo"), Err("Unsupported type: Foo".to_string()));
}

#[test]
fn rejection_names_the_innermost_part() {
    assert_eq!(parse_value_type("Vec<Foo>"), Err("Unsupported type: Foo".to_string()));
    assert_eq!(parse_value_type("Vec<>"), Err("Unsupported type: ".to_string()));
    assert_eq!(parse_value_type("Vec<Vec<i64>"), Err("Unsupported type: Vec<i64".to_string()));
    assert_eq!(
        parse_value_type("HashMap<Foo, Bar>"),
        Err("Unsupported type: Foo".to_string())
    );
    assert_eq!(
        parse_value_type("HashMap<i8, Bar>"),
        Err("Unsupported type: Bar".to_string())
    );
    assert_eq!(parse_value_type("HashMap<,>"), Err("Unsupported type: ".to_string()));
    assert_eq!(
        parse_value_type("HashMap<i8>"),
        Err("Unsupported type: HashMap<i8>".to_string())
    );
    assert_eq!(
        parse_value_type("HashMap<Vec<i8, i16>>"),
        Err("Unsupported type: HashMap<Vec<i8, i16>>".to_string())
    );
    assert_eq!(
        parse_value_type("HashMap<i8, i16, i32>"),
        Err("Unsupported type: i16, i32".to_string())
    );
    assert_eq!(parse_value_type(" i8"), Err("Unsupported type:  i8".to_string()));
    assert_eq!(parse_value_type("string"), Err("Unsupported type: string".to_string()));
    assert_eq!(parse_value_type("unit"), Err("Unsupported type: unit".to_string()));
}

#[test]
fn tokens_beyond_ascii_are_rejected_whole() {
    assert_eq!(parse_value_type("Vec<é>"), Err("Unsupported type: é".to_string()));
    assert_eq!(
        parse_value_type("HashMap<é, ü>"),
        Err("Unsupported type: é".to_string())
    );
}

#[test]
fn top_comma_skips_commas_inside_brackets() {
    assert_eq!(find_top_comma("a,b"), Some(1));
    assert_eq!(find_top_comma("X<a,b>,c"), Some(6));
    assert_eq!(find_top_comma("X<a,b>"), None);
    assert_eq!(find_top_comma("a>,<b,c"), Some(5));
    assert_eq!(find_top_comma(">,"), None);
    assert_eq!(find_top_comma(""), None);
    assert_eq!(find_top_comma("é,"), Some(1));
}

#[test]
fn primitive_names_are_exact() {
    assert_eq!(parse_primitive("u128"), Some(ValueType::U128));
    assert_eq!(parse_primitive("()"), Some(ValueType::Unit));
    assert_eq!(parse_primitive("Vec<i8>"), None);
    assert_eq!(parse_primitive("I8"), None);
}

#[test]
fn every_type_has_a_spelling_in_every_language() {
    let mut all: Vec<ValueType> = primitives().into_iter().map(|(t, _)| t).collect();
    all.push(list(ValueType::I8));
    all.push(mapping(ValueType::String, ValueType::F64));
    all.push(list(mapping(ValueType::Unit, list(ValueType::Char))));
    for t in all {
        assert!(!t.to_string(ProgrammingLanguage::Rust).is_empty());
        assert!(!t.to_string(ProgrammingLanguage::Python).is_empty());
    }
}

#[test]
fn rust_spellings() {
    let rust = ProgrammingLanguage::Rust;
    for (t, token) in primitives() {
        if t != ValueType::Unit {
            assert_eq!(t.to_string(rust), token);
        }
    }
    assert_eq!(ValueType::Unit.to_string(rust), "unit");
    assert_eq!(list(ValueType::I64).to_string(rust), "Vec<i64>");
    assert_eq!(
        mapping(ValueType::String, list(ValueType::F64)).to_string(rust),
        "HashMap<String, Vec<f64>>"
    );
}

#[test]
fn python_spellings() {
    let python = ProgrammingLanguage::Python;
    for t in [
        ValueType::I8,
        ValueType::I16,
        ValueType::I32,
        ValueType::I64,
        ValueType::I128,
        ValueType::U8,
        ValueType::U16,
        ValueType::U32,
        ValueType::U64,
        ValueType::U128,
    ] {
        assert_eq!(t.to_string(python), "int");
    }
    assert_eq!(ValueType::F32.to_string(python), "float");
    assert_eq!(ValueType::F64.to_string(python), "float");
    assert_eq!(ValueType::Bool.to_string(python), "bool");
    assert_eq!(ValueType::Char.to_string(python), "str");
    assert_eq!(ValueType::String.to_string(python), "str");
    assert_eq!(ValueType::Unit.to_string(python), "None");
    assert_eq!(list(ValueType::I64).to_string(python), "list[int]");
    assert_eq!(
        mapping(ValueType::String, list(ValueType::F64)).to_string(python),
        "dict[str, list[float]]"
    );
}

#[test]
fn map_of_text_to_float_in_both_languages() {
    let t = parse_value_type("HashMap<String, f64>").unwrap();
    assert_eq!(t.to_string(ProgrammingLanguage::Rust), "HashMap<String, f64>");
    assert_eq!(t.to_string(ProgrammingLanguage::Python), "dict[str, float]");
}

#[test]
fn duplicate_is_equal() {
    let t = mapping(ValueType::String, list(ValueType::F64));
    assert_eq!(t.duplicate(), t);
    assert_eq!(t.clone(), t);
}

#[test]
fn language_names() {
    assert_eq!(ProgrammingLanguage::Rust.file_extension(), "rs");
    assert_eq!(ProgrammingLanguage::Python.file_extension(), "py");
    assert_eq!(ProgrammingLanguage::Rust.alias(), "rust");
    assert_eq!(ProgrammingLanguage::Python.alias(), "python");
}

#[test]
fn text_helpers() {
    assert!(same_text("abc", "abc"));
    assert!(!same_text("abc", "abd"));
    assert!(!same_text("abc", "ab"));
    assert!(same_text("", ""));
    assert!(begins_with("Vec<i8>", "Vec<"));
    assert!(!begins_with("Vec", "Vec<"));
    assert!(begins_with("x", ""));
    assert!(ends_with_char("a>", '>'));
    assert!(!ends_with_char("", '>'));
    assert!(!ends_with_char(">a", '>'));
    assert_eq!(find_char("a_b_c", '_'), Some(1));
    assert_eq!(find_char("abc", '_'), None);
    assert_eq!(find_char("é_", '_'), Some(1));
}
