//! The closed grammar of value types and its spelling in each target.

use vstd::prelude::*;
use vstd::string::*;
use crate::language::ProgrammingLanguage;

verus! {

/// The type of an argument or of a returned value.
#[derive(Debug, PartialEq, Eq)]
pub enum ValueType {
    I8,
    I16,
    I32,
    I64,
    I128,
    U8,
    U16,
    U32,
    U64,
    U128,
    F32,
    F64,
    Bool,
    Char,
    String,
    Unit,
    /// A sequence of values of one type.
    List(Box<ValueType>),
    /// A mapping from keys of one type to values of another.
    Mapping { key_type: Box<ValueType>, value_type: Box<ValueType> },
}

impl Clone for ValueType {
    fn clone(&self) -> (r: Self)
        ensures
            r == *self,
    {
        self.duplicate()
    }
}

impl ValueType {
    /// A copy of this type, equal to it.
    pub fn duplicate(&self) -> (r: Self)
        ensures
            r == *self,
        decreases self,
    {
        match self {
            Self::I8 => Self::I8,
            Self::I16 => Self::I16,
            Self::I32 => Self::I32,
            Self::I64 => Self::I64,
            Self::I128 => Self::I128,
            Self::U8 => Self::U8,
            Self::U16 => Self::U16,
            Self::U32 => Self::U32,
            Self::U64 => Self::U64,
            Self::U128 => Self::U128,
            Self::F32 => Self::F32,
            Self::F64 => Self::F64,
            Self::Bool => Self::Bool,
            Self::Char => Self::Char,
            Self::String => Self::String,
            Self::Unit => Self::Unit,
            Self::List(item) => Self::List(Box::new(item.duplicate())),
            Self::Mapping { key_type, value_type } => Self::Mapping {
                key_type: Box::new(key_type.duplicate()),
                value_type: Box::new(value_type.duplicate()),
            },
        }
    }

    /// Whether this type is one of the sixteen base types.
    pub open spec fn is_primitive(self) -> bool {
        !(self is List) && !(self is Mapping)
    }

    /// The spelling of this type in Rust.
    pub open spec fn rust_spelling(self) -> Seq<char>
        decreases self,
    {
        match self {
            Self::I8 => "i8"@,
            Self::I16 => "i16"@,
            Self::I32 => "i32"@,
            Self::I64 => "i64"@,
            Self::I128 => "i128"@,
            Self::U8 => "u8"@,
            Self::U16 => "u16"@,
            Self::U32 => "u32"@,
            Self::U64 => "u64"@,
            Self::U128 => "u128"@,
            Self::F32 => "f32"@,
            Self::F64 => "f64"@,
            Self::Bool => "bool"@,
            Self::Char => "char"@,
            Self::String => "String"@,
            Self::Unit => "unit"@,
            Self::List(item) => "Vec<"@ + item.rust_spelling() + ">"@,
            Self::Mapping { key_type, value_type } => "HashMap<"@ + key_type.rust_spelling() + ", "@
                + value_type.rust_spelling() + ">"@,
        }
    }

    /// The spelling of this type in Python, which has one integer type, one
    /// float type and no type for a single character.
    pub open spec fn python_spelling(self) -> Seq<char>
        decreases self,
    {
        match self {
            Self::I8 | Self::I16 | Self::I32 | Self::I64 | Self::I128 => "int"@,
            Self::U8 | Self::U16 | Self::U32 | Self::U64 | Self::U128 => "int"@,
            Self::F32 | Self::F64 => "float"@,
            Self::Bool => "bool"@,
            Self::Char | Self::String => "str"@,
            Self::Unit => "None"@,
            Self::List(item) => "list["@ + item.python_spelling() + "]"@,
            Self::Mapping { key_type, value_type } => "dict["@ + key_type.python_spelling() + ", "@
                + value_type.python_spelling() + "]"@,
        }
    }

    /// The spelling of this type in the given language.
    pub open spec fn spelling(self, language: ProgrammingLanguage) -> Seq<char> {
        match language {
            ProgrammingLanguage::Rust => self.rust_spelling(),
            ProgrammingLanguage::Python => self.python_spelling(),
        }
    }

    /// The token that stands for this type in a schema, whatever the target.
    pub open spec fn token(self) -> Seq<char>
        decreases self,
    {
        match self {
            Self::I8 => "i8"@,
            Self::I16 => "i16"@,
            Self::I32 => "i32"@,
            Self::I64 => "i64"@,
            Self::I128 => "i128"@,
            Self::U8 => "u8"@,
            Self::U16 => "u16"@,
            Self::U32 => "u32"@,
            Self::U64 => "u64"@,
            Self::U128 => "u128"@,
            Self::F32 => "f32"@,
            Self::F64 => "f64"@,
            Self::Bool => "bool"@,
            Self::Char => "char"@,
            Self::String => "String"@,
            Self::Unit => "()"@,
            Self::List(item) => "Vec<"@ + item.token() + ">"@,
            Self::Mapping { key_type, value_type } => "HashMap<"@ + key_type.token() + ", "@
                + value_type.token() + ">"@,
        }
    }

    /// Every type has a spelling of at least one character in every language.
    pub proof fn lemma_spelling_nonempty(self, language: ProgrammingLanguage)
        ensures
            self.spelling(language).len() > 0,
        decreases self,
    {
        reveal_strlit("i8");
        reveal_strlit("i16");
        reveal_strlit("i32");
        reveal_strlit("i64");
        reveal_strlit("i128");
        reveal_strlit("u8");
        reveal_strlit("u16");
        reveal_strlit("u32");
        reveal_strlit("u64");
        reveal_strlit("u128");
        reveal_strlit("f32");
        reveal_strlit("f64");
        reveal_strlit("bool");
        reveal_strlit("char");
        reveal_strlit("String");
        reveal_strlit("unit");
        reveal_strlit("int");
        reveal_strlit("float");
        reveal_strlit("str");
        reveal_strlit("None");
        match self {
            Self::List(item) => {
                item.lemma_spelling_nonempty(language);
            },
            Self::Mapping { key_type, value_type } => {
                key_type.lemma_spelling_nonempty(language);
            },
            _ => {},
        }
    }

    /// Spells this type in the given language.
    pub fn to_string(&self, language: ProgrammingLanguage) -> (r: String)
        ensures
            r@ == self.spelling(language),
            r@.len() > 0,
        decreases self,
    {
        proof {
            self.lemma_spelling_nonempty(language);
        }
        match language {
            ProgrammingLanguage::Rust => match self {
                Self::I8 => String::from_str("i8"),
                Self::I16 => String::from_str("i16"),
                Self::I32 => String::from_str("i32"),
                Self::I64 => String::from_str("i64"),
                Self::I128 => String::from_str("i128"),
                Self::U8 => String::from_str("u8"),
                Self::U16 => String::from_str("u16"),
                Self::U32 => String::from_str("u32"),
                Self::U64 => String::from_str("u64"),
                Self::U128 => String::from_str("u128"),
                Self::F32 => String::from_str("f32"),
                Self::F64 => String::from_str("f64"),
                Self::Bool => String::from_str("bool"),
                Self::Char => String::from_str("char"),
                Self::String => String::from_str("String"),
                Self::Unit => String::from_str("unit"),
                Self::List(item) => {
                    let inner = item.to_string(language);
                    String::from_str("Vec<").concat(inner.as_str()).concat(">")
                },
                Self::Mapping { key_type, value_type } => {
                    let key = key_type.to_string(language);
                    let value = value_type.to_string(language);
                    String::from_str("HashMap<").concat(key.as_str()).concat(", ").concat(
                        value.as_str(),
                    ).concat(">")
                },
            },
            ProgrammingLanguage::Python => match self {
                Self::I8
                | Self::I16
                | Self::I32
                | Self::I64
                | Self::I128
                | Self::U8
                | Self::U16
                | Self::U32
                | Self::U64
                | Self::U128 => String::from_str("int"),
                Self::F32 | Self::F64 => String::from_str("float"),
                Self::Bool => String::from_str("bool"),
                Self::Char | Self::String => String::from_str("str"),
                Self::Unit => String::from_str("None"),
                Self::List(item) => {
                    let inner = item.to_string(language);
                    String::from_str("list[").concat(inner.as_str()).concat("]")
                },
                Self::Mapping { key_type, value_type } => {
                    let key = key_type.to_string(language);
                    let value = value_type.to_string(language);
                    String::from_str("dict[").concat(key.as_str()).concat(", ").concat(
                        value.as_str(),
                    ).concat("]")
                },
            },
        }
    }

    /// Writes the schema token of this type.
    pub fn canonical_token(&self) -> (r: String)
        ensures
            r@ == self.token(),
        decreases self,
    {
        match self {
            Self::Unit => String::from_str("()"),
            Self::List(item) => {
                let inner = item.canonical_token();
                String::from_str("Vec<").concat(inner.as_str()).concat(">")
            },
            Self::Mapping { key_type, value_type } => {
                let key = key_type.canonical_token();
                let value = value_type.canonical_token();
                String::from_str("HashMap<").concat(key.as_str()).concat(", ").concat(
                    value.as_str(),
                ).concat(">")
            },
            _ => self.to_string(ProgrammingLanguage::Rust),
        }
    }
}

} // verus!
