use guilder::codegen::{
    arguments_string, codegen, codegen_str, codegen_str_python, codegen_str_rust,
    description_string, method_string, output_file, trait_string,
};
use guilder::grammar::parse_value_type;
use guilder::language::ProgrammingLanguage;
use guilder::schema::{Argument, Method, Trait, YamlConfig};
use guilder::value_type::ValueType;

fn method(name: &str, description: Option<&str>, args: Vec<(&str, &str)>, ret: &str) -> Method {
    Method {
        name: name.to_string(),
        description: description.map(|d| d.to_string()),
        return_type: parse_value_type(ret).unwrap(),
        args: args
            .into_iter()
            .map(|(n, t)| Argument { name: n.to_string(), arg_type: parse_value_type(t).unwrap() })
            .collect(),
    }
}

fn test_server() -> Trait {
    Trait {
        name: "TestServer".to_string(),
        description: Some("test server network connection".to_string()),
        methods: vec![
            method("ping", Some("test ping"), vec![], "bool"),
            method("get_server_time", Some("get server local time"), vec![], "i64"),
        ],
    }
}

fn market_data() -> Trait {
    Trait {
        name: "GetMarketData".to_string(),
        description: None,
        methods: vec![
            method("get_symbol", None, vec![], "Vec<String>"),
            method("get_price", None, vec![("symbol", "String")], "f64"),
            method(
                "set_prices",
                None,
                vec![("prices", "HashMap<String, f64>"), ("replace", "bool")],
                "()",
            ),
        ],
    }
}

#[test]
fn rust_declarations_of_test_server() {
    let config = YamlConfig { traits: vec![test_server()] };
    let want = "use std::collections::HashMap;\n\n\
/// test server network connection\n\
pub trait TestServer {\n\
\t/// test ping\n\
\tfn ping(&self) -> bool;\n\
\t/// get server local time\n\
\tfn get_server_time(&self) -> i64;\n\
}\n\n";
    assert_eq!(codegen_str_rust(config), want);
}

#[test]
fn python_declarations_of_test_server() {
    let config = YamlConfig { traits: vec![test_server()] };
    let want = "from abc import ABC, abstractmethod\n\n\
class TestServer(ABC):\n\
\t\"\"\"test server network connection\"\"\"\n\
\t@abstractmethod\n\
\tdef ping(self) -> bool:\n\
\t\t\"\"\"test ping\"\"\"\n\
\t\tpass\n\n\
\t@abstractmethod\n\
\tdef get_server_time(self) -> int:\n\
\t\t\"\"\"get server local time\"\"\"\n\
\t\tpass\n\n\
\n";
    assert_eq!(codegen_str_python(config), want);
}

#[test]
fn declarations_without_descriptions() {
    let config = YamlConfig { traits: vec![market_data()] };
    let rust = "use std::collections::HashMap;\n\n\
pub trait GetMarketData {\n\
\tfn get_symbol(&self) -> Vec<String>;\n\
\tfn get_price(&self, symbol: String) -> f64;\n\
\tfn set_prices(&self, prices: HashMap<String, f64>, replace: bool) -> unit;\n\
}\n\n";
    assert_eq!(codegen_str_rust(config.clone()), rust);
    let python = "from abc import ABC, abstractmethod\n\n\
class GetMarketData(ABC):\n\
\t@abstractmethod\n\
\tdef get_symbol(self) -> list[str]:\n\
\t\tpass\n\n\
\t@abstractmethod\n\
\tdef get_price(self, symbol: str) -> float:\n\
\t\tpass\n\n\
\t@abstractmethod\n\
\tdef set_prices(self, prices: dict[str, float], replace: bool) -> None:\n\
\t\tpass\n\n\
\n";
    assert_eq!(codegen_str_python(config), python);
}

#[test]
fn empty_schema_gives_the_imports_only() {
    let config = YamlConfig { traits: vec![] };
    assert_eq!(codegen_str_rust(config.clone()), "use std::collections::HashMap;\n\n");
    assert_eq!(codegen_str_python(config), "from abc import ABC, abstractmethod\n\n");
}

#[test]
fn trait_without_methods() {
    let t = Trait { name: "Empty".to_string(), description: None, methods: vec![] };
    assert_eq!(trait_string(&t, ProgrammingLanguage::Rust), "pub trait Empty {\n}\n\n");
    assert_eq!(trait_string(&t, ProgrammingLanguage::Python), "class Empty(ABC):\n\n");
}

#[test]
fn traits_and_methods_keep_their_order() {
    let config = YamlConfig { traits: vec![test_server(), market_data()] };
    for language in [ProgrammingLanguage::Rust, ProgrammingLanguage::Python] {
        let text = codegen_str(&config, language);
        let a = text.find("TestServer").unwrap();
        let b = text.find("GetMarketData").unwrap();
        assert!(a < b);
        let m1 = text.find("ping(").unwrap();
        let m2 = text.find("get_server_time(").unwrap();
        assert!(a < m1 && m1 < m2 && m2 < b);
        let first = trait_string(&config.traits[0], language);
        let second = trait_string(&config.traits[1], language);
        assert!(text.ends_with(&format!("{}{}", first, second)));
        let ping = method_string(&config.traits[0].methods[0], language);
        let time = method_string(&config.traits[0].methods[1], language);
        assert!(first.contains(&format!("{}{}", ping, time)));
    }
    let swapped = YamlConfig { traits: vec![market_data(), test_server()] };
    let text = codegen_str_rust(swapped);
    assert!(text.find("GetMarketData").unwrap() < text.find("TestServer").unwrap());
}

#[test]
fn same_schema_gives_the_same_text() {
    let config = YamlConfig { traits: vec![test_server(), market_data()] };
    assert_eq!(codegen_str_rust(config.clone()), codegen_str_rust(config.clone()));
    assert_eq!(codegen_str_python(config.clone()), codegen_str_python(config.clone()));
    let again = YamlConfig { traits: vec![test_server(), market_data()] };
    assert_eq!(codegen_str_rust(config.clone()), codegen_str_rust(again.clone()));
    assert_eq!(codegen_str_python(config), codegen_str_python(again));
}

#[test]
fn map_argument_in_both_languages() {
    let m = method("load", None, vec![("prices", "HashMap<String, f64>")], "bool");
    assert_eq!(
        method_string(&m, ProgrammingLanguage::Rust),
        "\tfn load(&self, prices: HashMap<String, f64>) -> bool;\n"
    );
    assert_eq!(
        method_string(&m, ProgrammingLanguage::Python),
        "\t@abstractmethod\n\tdef load(self, prices: dict[str, float]) -> bool:\n\t\tpass\n\n"
    );
}

#[test]
fn receiver_comes_first() {
    let none: Vec<Argument> = vec![];
    assert_eq!(arguments_string(&none, ProgrammingLanguage::Rust), "&self");
    assert_eq!(arguments_string(&none, ProgrammingLanguage::Python), "self");
    let two = vec![
        Argument { name: "price".to_string(), arg_type: ValueType::I32 },
        Argument { name: "volume".to_string(), arg_type: ValueType::I32 },
    ];
    assert_eq!(
        arguments_string(&two, ProgrammingLanguage::Rust),
        "&self, price: i32, volume: i32"
    );
    assert_eq!(
        arguments_string(&two, ProgrammingLanguage::Python),
        "self, price: int, volume: int"
    );
}

#[test]
fn descriptions_as_comments() {
    let d = Some("place order".to_string());
    assert_eq!(description_string(&d, "\t", ProgrammingLanguage::Rust), "\t/// place order\n");
    assert_eq!(
        description_string(&d, "\t\t", ProgrammingLanguage::Python),
        "\t\t\"\"\"place order\"\"\"\n"
    );
    assert_eq!(description_string(&None, "\t", ProgrammingLanguage::Rust), "");
    assert_eq!(description_string(&None, "\t", ProgrammingLanguage::Python), "");
}

#[test]
fn output_files() {
    assert_eq!(
        output_file("../target", ProgrammingLanguage::Rust),
        "../target/rust/src/guilder_abstraction.rs"
    );
    assert_eq!(
        output_file("../target", ProgrammingLanguage::Python),
        "../target/python/guilder_abstraction.py"
    );
    assert_ne!(
        output_file("out", ProgrammingLanguage::Rust),
        output_file("out", ProgrammingLanguage::Python)
    );
}

#[test]
fn codegen_gives_path_and_text() {
    let config = YamlConfig { traits: vec![test_server()] };
    let (path, text) = codegen(config.clone(), ProgrammingLanguage::Python, "out");
    assert_eq!(path, "out/python/guilder_abstraction.py");
    assert_eq!(text, codegen_str_python(config.clone()));
    let (path, text) = codegen(config.clone(), ProgrammingLanguage::Rust, "out");
    assert_eq!(path, "out/rust/src/guilder_abstraction.rs");
    assert_eq!(text, codegen_str_rust(config));
}
