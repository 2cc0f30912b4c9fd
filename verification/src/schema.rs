//! The schema model: traits, their methods and the methods' arguments, in the
//! order in which the schema lists them.

use vstd::prelude::*;
use crate::value_type::ValueType;

verus! {

/// One argument of a method.
#[derive(Debug, Clone)]
pub struct Argument {
    pub name: String,
    pub arg_type: ValueType,
}

/// One method of a trait.
#[derive(Debug, Clone)]
pub struct Method {
    pub name: String,
    pub description: Option<String>,
    pub return_type: ValueType,
    pub args: Vec<Argument>,
}

/// A named set of methods.
#[derive(Debug, Clone)]
pub struct Trait {
    pub name: String,
    pub description: Option<String>,
    pub methods: Vec<Method>,
}

/// A whole schema.
#[derive(Debug, Clone)]
pub struct YamlConfig {
    pub traits: Vec<Trait>,
}

/// An argument, with its name as characters.
pub struct ArgumentView {
    pub name: Seq<char>,
    pub arg_type: ValueType,
}

/// A method, with its texts as characters and its arguments in order.
pub struct MethodView {
    pub name: Seq<char>,
    pub description: Option<Seq<char>>,
    pub return_type: ValueType,
    pub args: Seq<ArgumentView>,
}

/// A trait, with its texts as characters and its methods in order.
pub struct TraitView {
    pub name: Seq<char>,
    pub description: Option<Seq<char>>,
    pub methods: Seq<MethodView>,
}

/// A schema, with its traits in order.
pub struct YamlConfigView {
    pub traits: Seq<TraitView>,
}

/// The characters of an optional text.
pub open spec fn text_of(t: Option<String>) -> Option<Seq<char>> {
    match t {
        Some(s) => Some(s@),
        None => None,
    }
}

impl View for Argument {
    type V = ArgumentView;

    open spec fn view(&self) -> ArgumentView {
        ArgumentView { name: self.name@, arg_type: self.arg_type }
    }
}

impl View for Method {
    type V = MethodView;

    open spec fn view(&self) -> MethodView {
        MethodView {
            name: self.name@,
            description: text_of(self.description),
            return_type: self.return_type,
            args: Seq::new(self.args@.len(), |i: int| self.args@[i]@),
        }
    }
}

impl View for Trait {
    type V = TraitView;

    open spec fn view(&self) -> TraitView {
        TraitView {
            name: self.name@,
            description: text_of(self.description),
            methods: Seq::new(self.methods@.len(), |i: int| self.methods@[i]@),
        }
    }
}

impl View for YamlConfig {
    type V = YamlConfigView;

    open spec fn view(&self) -> YamlConfigView {
        YamlConfigView { traits: Seq::new(self.traits@.len(), |i: int| self.traits@[i]@) }
    }
}

} // verus!
