use quick_deploy::config::ActionParams;
use quick_deploy::config::BackendSpec;
use quick_deploy::config::DeployConfigSpec;
use quick_deploy::config::DictionaryItemSpec;
use quick_deploy::config::FormField;
use quick_deploy::config::Manifest;
use quick_deploy::config::override_name;
use quick_deploy::config::read_backends;
use quick_deploy::error::DeployError;
use quick_deploy::scdn::resolve_backends;
use quick_deploy::scdn::FastlyBackend;
use quick_deploy::tree::Entry;
use quick_deploy::tree::Node;

fn spec_error(r: Result<DeployConfigSpec, DeployError>) -> String {
    match r {
        Err(DeployError::SpecParse(message)) => message,
        other => panic!("a specification error was expected, not {:?}", other),
    }
}

fn form(fields: &[(&str, &str)]) -> ActionParams {
    ActionParams {
        fields: fields
            .iter()
            .map(|(n, v)| FormField { name: n.to_string(), value: v.to_string() })
            .collect(),
    }
}

fn dictionary_item(key: &str, value: Option<&str>) -> DictionaryItemSpec {
    DictionaryItemSpec {
        key: key.to_string(),
        input_type: "string".to_string(),
        prompt: None,
        value: value.map(|v| v.to_string()),
    }
}

#[test]
fn manifest_without_setup_declares_nothing() {
    let spec = DeployConfigSpec::from_toml("name = \"app\"\nlanguage = \"rust\"\n").unwrap();
    assert!(spec.backends.is_empty());
    assert!(spec.dictionaries.is_empty());
}

#[test]
fn empty_manifest_declares_nothing() {
    let spec = DeployConfigSpec::from_toml("").unwrap();
    assert!(spec.backends.is_empty());
    assert!(spec.dictionaries.is_empty());
}

#[test]
fn empty_setup_declares_nothing() {
    let spec = DeployConfigSpec::from_toml("name = \"app\"\n\n[setup]\n").unwrap();
    assert!(spec.backends.is_empty());
    assert!(spec.dictionaries.is_empty());
}

#[test]
fn setup_is_read_in_declared_order() {
    let text = r#"
name = "app"

[[setup.backends]]
name = "origin"
address = "example.com"
port = 443
prompt = "Where is the origin?"

[[setup.backends]]
address = "example.org"
name = "fallback"

[[setup.dictionaries]]
name = "config"

[[setup.dictionaries.items]]
key = "greeting"
input_type = "string"
value = "hello"
prompt = "What to say?"

[[setup.dictionaries.items]]
key = "count"
input_type = "number"

[[setup.dictionaries]]
name = "second"
items = []
"#;
    let spec = DeployConfigSpec::from_toml(text).unwrap();
    assert_eq!(spec.backends.len(), 2);
    assert_eq!(spec.backends[0].name, "origin");
    assert_eq!(spec.backends[0].address, "example.com");
    assert_eq!(spec.backends[0].port, Some(443));
    assert_eq!(spec.backends[0].prompt.as_deref(), Some("Where is the origin?"));
    assert_eq!(spec.backends[1].name, "fallback");
    assert_eq!(spec.backends[1].address, "example.org");
    assert_eq!(spec.backends[1].port, None);
    assert_eq!(spec.backends[1].prompt, None);
    assert_eq!(spec.dictionaries.len(), 2);
    assert_eq!(spec.dictionaries[0].name, "config");
    assert_eq!(spec.dictionaries[0].items.len(), 2);
    assert_eq!(spec.dictionaries[0].items[0].key, "greeting");
    assert_eq!(spec.dictionaries[0].items[0].input_type, "string");
    assert_eq!(spec.dictionaries[0].items[0].value.as_deref(), Some("hello"));
    assert_eq!(spec.dictionaries[0].items[0].prompt.as_deref(), Some("What to say?"));
    assert_eq!(spec.dictionaries[0].items[1].key, "count");
    assert_eq!(spec.dictionaries[0].items[1].value, None);
    assert_eq!(spec.dictionaries[0].items[1].prompt, None);
    assert_eq!(spec.dictionaries[1].name, "second");
    assert!(spec.dictionaries[1].items.is_empty());
}

#[test]
fn setup_with_backends_only_has_no_dictionaries() {
    let spec = DeployConfigSpec::from_toml(
        "[[setup.backends]]\nname = \"a\"\naddress = \"b\"\n",
    )
    .unwrap();
    assert_eq!(spec.backends.len(), 1);
    assert!(spec.dictionaries.is_empty());
}

#[test]
fn text_that_is_not_toml_is_refused() {
    let message = spec_error(DeployConfigSpec::from_toml("name = \n[[["));
    assert!(!message.is_empty());
}

#[test]
fn backend_without_name_is_refused() {
    let message =
        spec_error(DeployConfigSpec::from_toml("[[setup.backends]]\naddress = \"b\"\n"));
    assert_eq!(message, "missing or invalid field: name");
}

#[test]
fn backend_without_address_is_refused() {
    let message = spec_error(DeployConfigSpec::from_toml("[[setup.backends]]\nname = \"b\"\n"));
    assert_eq!(message, "missing or invalid field: address");
}

#[test]
fn port_that_is_no_integer_is_refused() {
    let text = "[[setup.backends]]\nname = \"a\"\naddress = \"b\"\nport = 80.5\n";
    assert_eq!(spec_error(DeployConfigSpec::from_toml(text)), "missing or invalid field: port");
    let text = "[[setup.backends]]\nname = \"a\"\naddress = \"b\"\nport = \"80\"\n";
    assert_eq!(spec_error(DeployConfigSpec::from_toml(text)), "missing or invalid field: port");
}

#[test]
fn port_out_of_range_is_refused() {
    let text = "[[setup.backends]]\nname = \"a\"\naddress = \"b\"\nport = 2147483648\n";
    assert_eq!(spec_error(DeployConfigSpec::from_toml(text)), "missing or invalid field: port");
    let text = "[[setup.backends]]\nname = \"a\"\naddress = \"b\"\nport = 2147483647\n";
    assert_eq!(DeployConfigSpec::from_toml(text).unwrap().backends[0].port, Some(2147483647));
    let text = "[[setup.backends]]\nname = \"a\"\naddress = \"b\"\nport = -2147483648\n";
    assert_eq!(DeployConfigSpec::from_toml(text).unwrap().backends[0].port, Some(-2147483648));
}

#[test]
fn setup_that_is_no_table_is_refused() {
    assert_eq!(
        spec_error(DeployConfigSpec::from_toml("setup = 5\n")),
        "missing or invalid field: setup"
    );
}

#[test]
fn backends_that_are_no_list_are_refused() {
    assert_eq!(
        spec_error(DeployConfigSpec::from_toml("[setup]\nbackends = \"none\"\n")),
        "missing or invalid field: backends"
    );
}

#[test]
fn dictionary_without_items_is_refused() {
    assert_eq!(
        spec_error(DeployConfigSpec::from_toml("[[setup.dictionaries]]\nname = \"d\"\n")),
        "missing or invalid field: items"
    );
}

#[test]
fn item_without_input_type_is_refused() {
    let text = "[[setup.dictionaries]]\nname = \"d\"\n[[setup.dictionaries.items]]\nkey = \"k\"\n";
    assert_eq!(
        spec_error(DeployConfigSpec::from_toml(text)),
        "missing or invalid field: input_type"
    );
}

#[test]
fn first_faulty_backend_decides_the_error() {
    let text = "[[setup.backends]]\nname = \"a\"\n[[setup.backends]]\naddress = \"b\"\n";
    assert_eq!(
        spec_error(DeployConfigSpec::from_toml(text)),
        "missing or invalid field: address"
    );
}

#[test]
fn unknown_fields_are_ignored() {
    let text = "[setup]\nextra = 1\n[[setup.backends]]\nname = \"a\"\naddress = \"b\"\nweight = 3\n";
    let spec = DeployConfigSpec::from_toml(text).unwrap();
    assert_eq!(spec.backends.len(), 1);
}

#[test]
fn specification_is_read_from_a_document() {
    let doc = Node::Table(vec![Entry {
        key: "setup".to_string(),
        value: Node::Table(vec![Entry {
            key: "backends".to_string(),
            value: Node::List(vec![Node::Table(vec![
                Entry { key: "name".to_string(), value: Node::Text("n".to_string()) },
                Entry { key: "address".to_string(), value: Node::Text("a".to_string()) },
                Entry { key: "port".to_string(), value: Node::Integer(8080) },
            ])]),
        }]),
    }]);
    let spec = DeployConfigSpec::from_document(&doc).unwrap();
    assert_eq!(spec.backends.len(), 1);
    assert_eq!(spec.backends[0].port, Some(8080));
    let manifest = Manifest::from_document(&doc).unwrap();
    assert_eq!(manifest.setup.unwrap().backends[0].name, "n");
    let none = Manifest::from_document(&Node::Table(vec![])).unwrap();
    assert!(none.setup.is_none());
}

#[test]
fn backends_are_read_from_a_list() {
    let list = vec![Node::Table(vec![
        Entry { key: "name".to_string(), value: Node::Text("n".to_string()) },
        Entry { key: "address".to_string(), value: Node::Text("a".to_string()) },
    ])];
    let backends = read_backends(&list).unwrap();
    assert_eq!(backends.len(), 1);
    assert_eq!(backends[0].port, None);
    assert_eq!(read_backends(&[Node::Null]).unwrap_err(), "missing or invalid field: name");
    assert!(read_backends(&[]).unwrap().is_empty());
}

#[test]
fn default_backend_is_loopback_on_port_80() {
    let backends = resolve_backends(vec![]);
    assert_eq!(backends.len(), 1);
    assert_eq!(backends[0].name, "127.0.0.1");
    assert_eq!(backends[0].address, "127.0.0.1");
    assert_eq!(backends[0].port, None);
    assert_eq!(backends[0].prompt, None);
    let created = FastlyBackend::from_spec(&backends[0]);
    assert_eq!(created.name, "127.0.0.1");
    assert_eq!(created.address, "127.0.0.1");
    assert_eq!(created.port, 80);
}

#[test]
fn declared_backends_are_kept() {
    let declared = vec![
        BackendSpec {
            prompt: None,
            name: "a".to_string(),
            address: "a.example".to_string(),
            port: Some(8443),
        },
        BackendSpec { prompt: None, name: "b".to_string(), address: "b.example".to_string(), port: None },
    ];
    let backends = resolve_backends(declared);
    assert_eq!(backends.len(), 2);
    assert_eq!(backends[0].name, "a");
    assert_eq!(backends[1].name, "b");
    assert_eq!(FastlyBackend::from_spec(&backends[0]).port, 8443);
    assert_eq!(FastlyBackend::from_spec(&backends[1]).port, 80);
}

#[test]
fn override_field_is_named_after_dictionary_and_key() {
    assert_eq!(override_name("config", "greeting"), "dict.config.greeting");
    assert_eq!(override_name("", ""), "dict..");
}

#[test]
fn last_submitted_field_of_a_name_counts() {
    let params = form(&[("a", "1"), ("b", "2"), ("a", "3")]);
    assert_eq!(params.get("a").map(|s| s.as_str()), Some("3"));
    assert_eq!(params.get("b").map(|s| s.as_str()), Some("2"));
    assert_eq!(params.get("c"), None);
    assert_eq!(form(&[]).get("a"), None);
}

#[test]
fn value_precedence_is_override_then_default_then_error() {
    let params = form(&[("dict.config.greeting", "hi")]);
    let both = dictionary_item("greeting", Some("hello"));
    assert_eq!(both.resolve(&params, "config").unwrap(), "hi");
    assert_eq!(both.resolve(&form(&[]), "config").unwrap(), "hello");
    assert_eq!(both.resolve(&params, "other").unwrap(), "hello");
    let neither = dictionary_item("greeting", None);
    assert_eq!(neither.resolve(&params, "config").unwrap(), "hi");
    match neither.resolve(&form(&[]), "config") {
        Err(DeployError::MissingValue(key)) => assert_eq!(key, "greeting"),
        other => panic!("a missing value was expected, not {:?}", other),
    }
}

#[test]
fn empty_submitted_value_still_counts() {
    let params = form(&[("dict.config.greeting", "")]);
    assert_eq!(dictionary_item("greeting", Some("hello")).resolve(&params, "config").unwrap(), "");
}
