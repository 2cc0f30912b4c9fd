//! The declarations that a schema stands for in each target language.
//!
//! In Rust a trait of the schema becomes a `pub trait` of signatures that
//! take `&self` first. In Python it becomes a class that inherits `ABC`, each
//! method marked `@abstractmethod`, taking `self` first, with `pass` as body.

use vstd::prelude::*;
use vstd::string::*;
use crate::language::ProgrammingLanguage;
use crate::schema::{
    Argument, ArgumentView, Method, MethodView, Trait, TraitView, YamlConfig, YamlConfigView,
};

verus! {

/// The receiver that every method takes before its own arguments.
pub open spec fn receiver(language: ProgrammingLanguage) -> Seq<char> {
    match language {
        ProgrammingLanguage::Rust => "&self"@,
        ProgrammingLanguage::Python => "self"@,
    }
}

/// One argument as `name: type`.
pub open spec fn argument_text(a: ArgumentView, language: ProgrammingLanguage) -> Seq<char> {
    a.name + ": "@ + a.arg_type.spelling(language)
}

/// The arguments in order, each after a comma and a space.
pub open spec fn following_arguments(
    args: Seq<ArgumentView>,
    language: ProgrammingLanguage,
) -> Seq<char>
    decreases args.len(),
{
    if args.len() == 0 {
        Seq::empty()
    } else {
        following_arguments(args.drop_last(), language) + ", "@ + argument_text(
            args.last(),
            language,
        )
    }
}

/// What stands between the brackets of a method: the receiver, then the
/// arguments in order.
pub open spec fn arguments_text(args: Seq<ArgumentView>, language: ProgrammingLanguage) -> Seq<
    char,
> {
    receiver(language) + following_arguments(args, language)
}

/// A description as a line of its own: a doc comment in Rust, a doc string
/// in Python, after `indent`. Nothing where there is no description.
pub open spec fn description_text(
    description: Option<Seq<char>>,
    indent: Seq<char>,
    language: ProgrammingLanguage,
) -> Seq<char> {
    match description {
        None => Seq::empty(),
        Some(d) => match language {
            ProgrammingLanguage::Rust => indent + "/// "@ + d + "\n"@,
            ProgrammingLanguage::Python => indent + "\"\"\""@ + d + "\"\"\"\n"@,
        },
    }
}

/// The declaration of one method.
pub open spec fn method_text(m: MethodView, language: ProgrammingLanguage) -> Seq<char> {
    match language {
        ProgrammingLanguage::Rust => description_text(m.description, "\t"@, language) + "\tfn "@
            + m.name + "("@ + arguments_text(m.args, language) + ") -> "@
            + m.return_type.spelling(language) + ";\n"@,
        ProgrammingLanguage::Python => "\t@abstractmethod\n\tdef "@ + m.name + "("@
            + arguments_text(m.args, language) + ") -> "@ + m.return_type.spelling(language)
            + ":\n"@ + description_text(m.description, "\t\t"@, language) + "\t\tpass\n\n"@,
    }
}

/// The declarations of the methods, in order.
pub open spec fn methods_text(ms: Seq<MethodView>, language: ProgrammingLanguage) -> Seq<char>
    decreases ms.len(),
{
    if ms.len() == 0 {
        Seq::empty()
    } else {
        methods_text(ms.drop_last(), language) + method_text(ms.last(), language)
    }
}

/// The declaration of one trait.
pub open spec fn trait_text(t: TraitView, language: ProgrammingLanguage) -> Seq<char> {
    match language {
        ProgrammingLanguage::Rust => description_text(t.description, Seq::empty(), language)
            + "pub trait "@ + t.name + " {\n"@ + methods_text(t.methods, language) + "}\n\n"@,
        ProgrammingLanguage::Python => "class "@ + t.name + "(ABC):\n"@ + description_text(
            t.description,
            "\t"@,
            language,
        ) + methods_text(t.methods, language) + "\n"@,
    }
}

/// The declarations of the traits, in order.
pub open spec fn traits_text(ts: Seq<TraitView>, language: ProgrammingLanguage) -> Seq<char>
    decreases ts.len(),
{
    if ts.len() == 0 {
        Seq::empty()
    } else {
        traits_text(ts.drop_last(), language) + trait_text(ts.last(), language)
    }
}

/// The imports that the declarations need.
pub open spec fn preamble(language: ProgrammingLanguage) -> Seq<char> {
    match language {
        ProgrammingLanguage::Rust => "use std::collections::HashMap;\n\n"@,
        ProgrammingLanguage::Python => "from abc import ABC, abstractmethod\n\n"@,
    }
}

/// The whole generated file.
pub open spec fn code_text(config: YamlConfigView, language: ProgrammingLanguage) -> Seq<char> {
    preamble(language) + traits_text(config.traits, language)
}

/// Writes the receiver and the arguments of a method.
pub fn arguments_string(args: &Vec<Argument>, language: ProgrammingLanguage) -> (r: String)
    ensures
        r@ == arguments_text(Seq::new(args@.len(), |i: int| args@[i]@), language),
{
    let ghost views = Seq::new(args@.len(), |i: int| args@[i]@);
    let mut out = match language {
        ProgrammingLanguage::Rust => String::from_str("&self"),
        ProgrammingLanguage::Python => String::from_str("self"),
    };
    assert(views.take(0) =~= Seq::empty());
    assert(out@ =~= arguments_text(views.take(0), language));
    let mut i: usize = 0;
    while i < args.len()
        invariant
            i <= args@.len(),
            views == Seq::new(args@.len(), |i: int| args@[i]@),
            out@ == arguments_text(views.take(i as int), language),
        decreases args@.len() - i,
    {
        let arg = &args[i];
        let spelled = arg.arg_type.to_string(language);
        out.append(", ");
        out.append(arg.name.as_str());
        out.append(": ");
        out.append(spelled.as_str());
        proof {
            assert(views.take(i + 1).drop_last() =~= views.take(i as int));
            assert(views.take(i + 1).last() == args@[i as int]@);
            assert(out@ =~= arguments_text(views.take(i + 1), language));
        }
        i += 1;
    }
    assert(views.take(i as int) =~= views);
    out
}

/// Writes a description as a line of its own after `indent`.
pub fn description_string(
    description: &Option<String>,
    indent: &str,
    language: ProgrammingLanguage,
) -> (r: String)
    ensures
        r@ == description_text(crate::schema::text_of(*description), indent@, language),
{
    match description {
        None => String::new(),
        Some(d) => match language {
            ProgrammingLanguage::Rust => String::from_str(indent).concat("/// ").concat(
                d.as_str(),
            ).concat("\n"),
            ProgrammingLanguage::Python => String::from_str(indent).concat("\"\"\"").concat(
                d.as_str(),
            ).concat("\"\"\"\n"),
        },
    }
}

/// Writes the declaration of one method.
pub fn method_string(m: &Method, language: ProgrammingLanguage) -> (r: String)
    ensures
        r@ == method_text(m@, language),
{
    let args = arguments_string(&m.args, language);
    let ret = m.return_type.to_string(language);
    match language {
        ProgrammingLanguage::Rust => {
            let mut out = description_string(&m.description, "\t", language);
            out.append("\tfn ");
            out.append(m.name.as_str());
            out.append("(");
            out.append(args.as_str());
            out.append(") -> ");
            out.append(ret.as_str());
            out.append(";\n");
            out
        },
        ProgrammingLanguage::Python => {
            let doc = description_string(&m.description, "\t\t", language);
            let mut out = String::from_str("\t@abstractmethod\n\tdef ");
            out.append(m.name.as_str());
            out.append("(");
            out.append(args.as_str());
            out.append(") -> ");
            out.append(ret.as_str());
            out.append(":\n");
            out.append(doc.as_str());
            out.append("\t\tpass\n\n");
            out
        },
    }
}

/// Writes the declaration of one trait, its methods in order.
pub fn trait_string(t: &Trait, language: ProgrammingLanguage) -> (r: String)
    ensures
        r@ == trait_text(t@, language),
{
    let mut out = match language {
        ProgrammingLanguage::Rust => {
            let mut head = description_string(&t.description, "", language);
            head.append("pub trait ");
            head.append(t.name.as_str());
            head.append(" {\n");
            head
        },
        ProgrammingLanguage::Python => {
            let doc = description_string(&t.description, "\t", language);
            let mut head = String::from_str("class ");
            head.append(t.name.as_str());
            head.append("(ABC):\n");
            head.append(doc.as_str());
            head
        },
    };
    proof {
        reveal_strlit("");
        assert(""@ =~= Seq::<char>::empty());
    }
    let ghost head = out@;
    let ghost methods = t@.methods;
    assert(methods.take(0) =~= Seq::empty());
    assert(out@ =~= head + methods_text(methods.take(0), language));
    let mut i: usize = 0;
    while i < t.methods.len()
        invariant
            i <= t.methods@.len(),
            methods == t@.methods,
            out@ == head + methods_text(methods.take(i as int), language),
        decreases t.methods@.len() - i,
    {
        let line = method_string(&t.methods[i], language);
        out.append(line.as_str());
        proof {
            assert(methods.take(i + 1).drop_last() =~= methods.take(i as int));
            assert(methods.take(i + 1).last() == t.methods@[i as int]@);
            assert(out@ =~= head + methods_text(methods.take(i + 1), language));
        }
        i += 1;
    }
    assert(methods.take(i as int) =~= methods);
    match language {
        ProgrammingLanguage::Rust => out.append("}\n\n"),
        ProgrammingLanguage::Python => out.append("\n"),
    }
    out
}

/// Writes the whole file for one language: the imports, then every trait of
/// the schema in order.
pub fn codegen_str(config: &YamlConfig, language: ProgrammingLanguage) -> (r: String)
    ensures
        r@ == code_text(config@, language),
{
    let mut out = match language {
        ProgrammingLanguage::Rust => String::from_str("use std::collections::HashMap;\n\n"),
        ProgrammingLanguage::Python => String::from_str("from abc import ABC, abstractmethod\n\n"),
    };
    let ghost traits = config@.traits;
    assert(traits.take(0) =~= Seq::empty());
    assert(out@ =~= preamble(language) + traits_text(traits.take(0), language));
    let mut i: usize = 0;
    while i < config.traits.len()
        invariant
            i <= config.traits@.len(),
            traits == config@.traits,
            out@ == preamble(language) + traits_text(traits.take(i as int), language),
        decreases config.traits@.len() - i,
    {
        let block = trait_string(&config.traits[i], language);
        out.append(block.as_str());
        proof {
            assert(traits.take(i + 1).drop_last() =~= traits.take(i as int));
            assert(traits.take(i + 1).last() == config.traits@[i as int]@);
            assert(out@ =~= preamble(language) + traits_text(traits.take(i + 1), language));
        }
        i += 1;
    }
    assert(traits.take(i as int) =~= traits);
    out
}

/// Generates the Rust declarations of a schema.
pub fn codegen_str_rust(config: YamlConfig) -> (r: String)
    ensures
        r@ == code_text(config@, ProgrammingLanguage::Rust),
{
    codegen_str(&config, ProgrammingLanguage::Rust)
}

/// Generates the Python declarations of a schema.
pub fn codegen_str_python(config: YamlConfig) -> (r: String)
    ensures
        r@ == code_text(config@, ProgrammingLanguage::Python),
{
    codegen_str(&config, ProgrammingLanguage::Python)
}

/// Where the file of one language goes below the directory `base`.
pub open spec fn path_text(base: Seq<char>, language: ProgrammingLanguage) -> Seq<char> {
    match language {
        ProgrammingLanguage::Rust => base + "/"@ + language.lower_name()
            + "/src/guilder_abstraction."@ + language.extension(),
        ProgrammingLanguage::Python => base + "/"@ + language.lower_name()
            + "/guilder_abstraction."@ + language.extension(),
    }
}

/// Names the file that holds the declarations of one language.
pub fn output_file(base: &str, language: ProgrammingLanguage) -> (r: String)
    ensures
        r@ == path_text(base@, language),
{
    let mut out = String::from_str(base);
    out.append("/");
    out.append(language.alias());
    match language {
        ProgrammingLanguage::Rust => out.append("/src/guilder_abstraction."),
        ProgrammingLanguage::Python => out.append("/guilder_abstraction."),
    }
    out.append(language.file_extension());
    out
}

/// Generates the declarations of one language and names the file that they
/// go to: the path first, then the text.
pub fn codegen(config: YamlConfig, language: ProgrammingLanguage, output_path: &str) -> (r: (
    String,
    String,
))
    ensures
        r.0@ == path_text(output_path@, language),
        r.1@ == code_text(config@, language),
{
    let text = match language {
        ProgrammingLanguage::Rust => codegen_str_rust(config),
        ProgrammingLanguage::Python => codegen_str_python(config),
    };
    (output_file(output_path, language), text)
}

/// The methods of two lists joined are declared as those of the first list,
/// then those of the second.
pub proof fn lemma_methods_concat(
    a: Seq<MethodView>,
    b: Seq<MethodView>,
    language: ProgrammingLanguage,
)
    ensures
        methods_text(a + b, language) == methods_text(a, language) + methods_text(b, language),
    decreases b.len(),
{
    if b.len() == 0 {
        assert(a + b =~= a);
        assert(methods_text(a, language) + methods_text(b, language) =~= methods_text(
            a,
            language,
        ));
    } else {
        lemma_methods_concat(a, b.drop_last(), language);
        assert((a + b).drop_last() =~= a + b.drop_last());
        assert(methods_text(a + b, language) =~= methods_text(a, language) + methods_text(
            b,
            language,
        ));
    }
}

/// The traits of two lists joined are declared as those of the first list,
/// then those of the second.
pub proof fn lemma_traits_concat(
    a: Seq<TraitView>,
    b: Seq<TraitView>,
    language: ProgrammingLanguage,
)
    ensures
        traits_text(a + b, language) == traits_text(a, language) + traits_text(b, language),
    decreases b.len(),
{
    if b.len() == 0 {
        assert(a + b =~= a);
        assert(traits_text(a, language) + traits_text(b, language) =~= traits_text(a, language));
    } else {
        lemma_traits_concat(a, b.drop_last(), language);
        assert((a + b).drop_last() =~= a + b.drop_last());
        assert(traits_text(a + b, language) =~= traits_text(a, language) + traits_text(
            b,
            language,
        ));
    }
}

/// Order of methods: the declaration of each method stands after those of all
/// methods before it in the schema, and before those of all methods after it.
pub proof fn lemma_method_order(ms: Seq<MethodView>, i: int, language: ProgrammingLanguage)
    requires
        0 <= i < ms.len(),
    ensures
        methods_text(ms, language) == methods_text(ms.take(i), language) + method_text(
            ms[i],
            language,
        ) + methods_text(ms.skip(i + 1), language),
{
    assert(ms =~= ms.take(i + 1) + ms.skip(i + 1));
    lemma_methods_concat(ms.take(i + 1), ms.skip(i + 1), language);
    assert(ms.take(i + 1).drop_last() =~= ms.take(i));
}

/// Order of traits: in the generated file the block of each trait stands
/// after the blocks of all traits before it in the schema, and before those
/// of all traits after it.
pub proof fn lemma_trait_order(config: YamlConfigView, i: int, language: ProgrammingLanguage)
    requires
        0 <= i < config.traits.len(),
    ensures
        code_text(config, language) == preamble(language) + traits_text(
            config.traits.take(i),
            language,
        ) + trait_text(config.traits[i], language) + traits_text(
            config.traits.skip(i + 1),
            language,
        ),
{
    let ts = config.traits;
    assert(ts =~= ts.take(i + 1) + ts.skip(i + 1));
    lemma_traits_concat(ts.take(i + 1), ts.skip(i + 1), language);
    assert(ts.take(i + 1).drop_last() =~= ts.take(i));
    assert(code_text(config, language) =~= preamble(language) + traits_text(ts.take(i), language)
        + trait_text(ts[i], language) + traits_text(ts.skip(i + 1), language));
}

/// Determinism: two schemas that hold the same traits, methods and arguments
/// give the same file in every language.
pub proof fn lemma_same_schema_same_code(
    a: YamlConfig,
    b: YamlConfig,
    language: ProgrammingLanguage,
)
    requires
        a@ == b@,
    ensures
        code_text(a@, language) == code_text(b@, language),
{
}

/// The two languages never share a file.
pub proof fn lemma_paths_differ(base: Seq<char>)
    ensures
        path_text(base, ProgrammingLanguage::Rust) != path_text(
            base,
            ProgrammingLanguage::Python,
        ),
{
    reveal_strlit("/");
    reveal_strlit("rust");
    reveal_strlit("python");
    reveal_strlit("rs");
    reveal_strlit("py");
    reveal_strlit("/src/guilder_abstraction.");
    reveal_strlit("/guilder_abstraction.");
    assert(path_text(base, ProgrammingLanguage::Rust).len() == base.len() + 32);
    assert(path_text(base, ProgrammingLanguage::Python).len() == base.len() + 30);
}

} // verus!
