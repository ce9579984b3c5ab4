use quick_deploy::config::DeployConfigSpec;
use quick_deploy::error::DeployError;
use quick_deploy::manifest::EditableManifest;
use quick_deploy::nesting::nesting_bounded;
use quick_deploy::nesting::MAX_DEPTH;
use quick_deploy::nesting::MAX_DOTS;

const TOO_DEEP: &str = "The manifest is nested too deeply";

fn arrays(depth: usize) -> String {
    format!("value = {}\"x\"{}\n", "[".repeat(depth), "]".repeat(depth))
}

fn inline_tables(depth: usize) -> String {
    format!("value = {}1{}\n", "{ v = ".repeat(depth), " }".repeat(depth))
}

fn header(segments: usize) -> String {
    let names: Vec<String> = (0..segments).map(|i| format!("t{}", i)).collect();
    format!("[{}]\nx = 1\n", names.join("."))
}

fn reads(text: &str) {
    assert!(nesting_bounded(text));
    assert!(DeployConfigSpec::from_toml(text).is_ok());
    let mut manifest = EditableManifest::load(text).unwrap();
    assert!(manifest.render().is_ok());
    manifest.set_service_id("SID");
    assert!(manifest.render().unwrap().contains("service_id = \"SID\""));
}

fn is_refused(text: &str) {
    assert!(!nesting_bounded(text));
    match DeployConfigSpec::from_toml(text) {
        Err(DeployError::SpecParse(message)) => assert_eq!(message, TOO_DEEP),
        other => panic!("an error was expected, not {:?}", other),
    }
    match EditableManifest::load(text) {
        Err(DeployError::ManifestParse(message)) => assert_eq!(message, TOO_DEEP),
        other => panic!("an error was expected, not {:?}", other),
    }
    for id in [None, Some("SID".to_string())] {
        let made = EditableManifest { source: text.to_string(), service_id: id };
        match made.render() {
            Err(DeployError::ManifestParse(message)) => assert_eq!(message, TOO_DEEP),
            other => panic!("an error was expected, not {:?}", other),
        }
    }
}

#[test]
fn bounds_are_sixteen_levels_and_sixty_four_dots() {
    assert_eq!(MAX_DEPTH, 16);
    assert_eq!(MAX_DOTS, 64);
}

#[test]
fn arrays_are_read_up_to_the_bound() {
    reads(&arrays(1));
    reads(&arrays(MAX_DEPTH));
    is_refused(&arrays(MAX_DEPTH + 1));
    is_refused(&arrays(20000));
}

#[test]
fn inline_tables_are_read_up_to_the_bound() {
    reads(&inline_tables(1));
    reads(&inline_tables(MAX_DEPTH));
    is_refused(&inline_tables(MAX_DEPTH + 1));
    is_refused(&inline_tables(20000));
}

#[test]
fn headers_are_read_up_to_the_bound() {
    reads(&header(2));
    reads(&header(MAX_DOTS + 1));
    is_refused(&header(MAX_DOTS + 2));
    is_refused(&header(20000));
}

#[test]
fn deepest_text_within_the_bounds_is_read() {
    let text = format!("{}{}", header(MAX_DOTS + 1), arrays(MAX_DEPTH));
    reads(&text);
    let mixed = format!(
        "{}value = {}{}1{}{}\n",
        header(MAX_DOTS + 1),
        "[".repeat(MAX_DEPTH / 2),
        "{ v = ".repeat(MAX_DEPTH / 2),
        " }".repeat(MAX_DEPTH / 2),
        "]".repeat(MAX_DEPTH / 2)
    );
    reads(&mixed);
}

#[test]
fn unclosed_brackets_beyond_the_bound_are_refused_unread() {
    is_refused(&format!("a = {}", "[".repeat(10000)));
    is_refused(&format!("a = {}", "{".repeat(10000)));
    is_refused(&format!("a = {}", "[{ b = ".repeat(5000)));
}

#[test]
fn brackets_in_strings_and_comments_do_not_count() {
    let text = format!(
        "a = \"{}\"\nb = '{}'\n# {}\nc = \"\\\"{}\"\n",
        "[".repeat(100),
        "{".repeat(100),
        "[".repeat(100),
        "[".repeat(100)
    );
    reads(&text);
}

#[test]
fn closed_brackets_do_not_add_up() {
    let mut text = String::from("name = \"app\"\n");
    for i in 0..200 {
        text.push_str(&format!("list{} = [[\"a]\", 'b['], [\"c\"]]\ntable{} = {{ c = \"}}\", d = [1, 2] }}\n", i, i));
    }
    for i in 0..200 {
        text.push_str(&format!("[[setup.backends]]\nname = \"b{}\"\naddress = \"x.y.z\"\n", i));
    }
    assert!(nesting_bounded(&text));
    let spec = DeployConfigSpec::from_toml(&text).unwrap();
    assert_eq!(spec.backends.len(), 200);
    assert!(EditableManifest::load(&text).is_ok());
}

#[test]
fn closing_bracket_in_a_string_does_not_lower_the_count() {
    let mut text = String::from("a = ");
    for _ in 0..(MAX_DEPTH + 1) {
        text.push_str("[ \"]\", ");
    }
    is_refused(&text);
}

#[test]
fn after_a_string_of_several_lines_every_opening_bracket_counts() {
    let start = "text = \"\"\"\nlines\n]]]\n\"\"\"\n";
    let mut few = String::from(start);
    for i in 0..MAX_DEPTH {
        few.push_str(&format!("[t{}]\n", i));
    }
    reads(&few);
    let mut many = String::from(start);
    for i in 0..(MAX_DEPTH + 1) {
        many.push_str(&format!("[t{}]\n", i));
    }
    is_refused(&many);
    let literal = format!("text = '''\n]\n'''\nvalue = {}\n", arrays(MAX_DEPTH + 1));
    is_refused(&literal);
}

#[test]
fn dots_are_counted_line_by_line() {
    let mut text = String::new();
    for i in 0..500 {
        text.push_str(&format!("v{} = \"1.2.3.4.5\"\n", i));
    }
    reads(&text);
    assert!(nesting_bounded(&format!("a = \"{}\"\n", ".".repeat(MAX_DOTS))));
    assert!(!nesting_bounded(&format!("a = \"{}\"\n", ".".repeat(MAX_DOTS + 1))));
    assert!(nesting_bounded(""));
    assert!(nesting_bounded("\n\n\n"));
}
