use quick_deploy::encoding::armor;
use quick_deploy::encoding::decode_bytes;
use quick_deploy::encoding::encode_bytes;
use quick_deploy::encoding::unarmor;
use quick_deploy::error::DeployError;
use quick_deploy::http::ApiRequest;
use quick_deploy::http::Host;
use quick_deploy::http::Method;
use quick_deploy::templates::DeployContext;
use quick_deploy::templates::ErrorContext;
use quick_deploy::templates::SuccessContext;
use quick_deploy::github::GitHubRepository;
use quick_deploy::github::GitHubUser;
use quick_deploy::scdn::FastlyUser;
use quick_deploy::text::chars_of;
use quick_deploy::text::join_text;
use quick_deploy::text::last_segment;
use quick_deploy::text::occurs_times;
use quick_deploy::text::remove_char;
use quick_deploy::text::replace_char;
use quick_deploy::text::same_text;
use quick_deploy::text::split_first;
use quick_deploy::text::text_of;
use quick_deploy::text::trim;
use quick_deploy::tree::bad_field_message;
use quick_deploy::tree::Entry;
use quick_deploy::tree::Listing;
use quick_deploy::tree::Node;
use quick_deploy::tree::Record;

fn template() -> GitHubRepository {
    GitHubRepository {
        name: "r".to_string(),
        default_branch: "main".to_string(),
        owner: GitHubUser { login: "o".to_string(), name: None },
        forks_count: 1,
        stargazers_count: 2,
        is_template: true,
    }
}

#[test]
fn texts_are_joined_and_compared() {
    assert_eq!(join_text("ab", "cd"), "abcd");
    assert_eq!(join_text("", ""), "");
    assert_eq!(join_text("\u{e9}", "\u{1F600}"), "\u{e9}\u{1F600}");
    assert!(same_text("a", "a"));
    assert!(!same_text("a", "A"));
    assert!(!same_text("a", "ab"));
    assert!(same_text("", ""));
}

#[test]
fn characters_are_taken_one_by_one() {
    assert_eq!(chars_of("a\u{e9}\u{1F600}"), vec!['a', '\u{e9}', '\u{1F600}']);
    assert!(chars_of("").is_empty());
    assert_eq!(text_of(&vec!['a', 'b', 'c', 'd'], 1, 3), "bc");
    assert_eq!(text_of(&vec!['a', 'b'], 2, 2), "");
    assert_eq!(text_of(&vec!['a', 'b'], 0, 2), "ab");
}

#[test]
fn characters_are_replaced_and_removed() {
    assert_eq!(replace_char("a b  c", ' ', '-'), "a-b--c");
    assert_eq!(replace_char("abc", 'x', 'y'), "abc");
    assert_eq!(replace_char("", ' ', '-'), "");
    assert_eq!(remove_char("a\nb\n\nc\n", '\n'), "abc");
    assert_eq!(remove_char("\n", '\n'), "");
    assert_eq!(remove_char("abc", '\n'), "abc");
}

#[test]
fn occurrences_are_counted() {
    assert!(occurs_times("/a/b", '/', 2));
    assert!(!occurs_times("/a/b", '/', 1));
    assert!(!occurs_times("/a/b", '/', 3));
    assert!(occurs_times("", '/', 0));
    assert!(occurs_times("///", '/', 3));
}

#[test]
fn text_is_split_at_the_first_separator() {
    assert_eq!(split_first("a=b=c", '='), ("a".to_string(), Some("b=c".to_string())));
    assert_eq!(split_first("abc", '='), ("abc".to_string(), None));
    assert_eq!(split_first("=", '='), ("".to_string(), Some("".to_string())));
    assert_eq!(split_first("", '='), ("".to_string(), None));
    assert_eq!(split_first("a=", '='), ("a".to_string(), Some("".to_string())));
}

#[test]
fn last_segment_follows_the_last_separator() {
    assert_eq!(last_segment("a+b+c", '+'), "c");
    assert_eq!(last_segment("abc", '+'), "abc");
    assert_eq!(last_segment("abc+", '+'), "");
    assert_eq!(last_segment("", '+'), "");
}

#[test]
fn whitespace_is_trimmed_at_both_ends() {
    assert_eq!(trim("  a b \t\n"), "a b");
    assert_eq!(trim("a"), "a");
    assert_eq!(trim("   "), "");
    assert_eq!(trim(""), "");
    assert_eq!(trim("\u{a0}x\u{2003}"), "x");
    for s in ["", " ", "a ", " a", " a b ", "\r\n a\u{3000}", "\u{1680}\u{85}z"] {
        assert_eq!(trim(s), s.trim());
    }
}

#[test]
fn text_is_carried_as_base64() {
    assert_eq!(armor("hello world").unwrap(), "aGVsbG8gd29ybGQ=");
    assert_eq!(armor("").unwrap(), "");
    assert_eq!(armor("\u{e9}").unwrap(), "w6k=");
    assert_eq!(unarmor("aGVsbG8gd29ybGQ=").unwrap(), "hello world");
    assert_eq!(unarmor("").unwrap(), "");
    assert_eq!(unarmor("w6k=").unwrap(), "\u{e9}");
    assert_eq!(unarmor("//4="), None);
    assert_eq!(unarmor("aGVsbG8gd29ybGQ"), Some("hello world".to_string()));
    assert_eq!(unarmor("aGVsbG8 gd29ybGQ="), None);
    assert_eq!(unarmor("a"), None);
    for s in ["", "a", "ab", "abc", "abcd", "line\nbreak", "\u{1F600}\u{0}"] {
        assert_eq!(unarmor(&armor(s).unwrap()).unwrap(), s);
    }
}

#[test]
fn bytes_are_carried_as_base64() {
    assert_eq!(encode_bytes(&[]).unwrap(), "");
    assert_eq!(encode_bytes(&[0xff]).unwrap(), "/w==");
    assert_eq!(encode_bytes(&[0xfb, 0xff]).unwrap(), "+/8=");
    assert_eq!(encode_bytes(&[1, 2, 3]).unwrap(), "AQID");
    assert_eq!(decode_bytes("AQID").unwrap(), vec![1, 2, 3]);
    assert_eq!(decode_bytes("/w==").unwrap(), vec![0xff]);
    assert_eq!(decode_bytes("-_8="), None);
    assert_eq!(decode_bytes("AQID\n"), None);
    let all: Vec<u8> = (0u8..=255).collect();
    assert_eq!(decode_bytes(&encode_bytes(&all).unwrap()).unwrap(), all);
}

#[test]
fn documents_are_built_and_read() {
    let node = Record::new()
        .with_text("a", "1")
        .with("b", Node::Integer(2))
        .with_optional_text("c", &None)
        .with_optional_text("d", &Some("4".to_string()))
        .with("e", Listing::new().with(Node::Bool(true)).with(Node::Null).finish())
        .with("a", Node::Text("again".to_string()))
        .finish();
    assert_eq!(node.text("a").unwrap(), "1");
    assert_eq!(node.int32("b").unwrap(), 2);
    assert_eq!(node.maybe_text("c").unwrap(), None);
    assert_eq!(node.maybe_text("d").unwrap(), Some("4".to_string()));
    assert_eq!(node.maybe_text("zz").unwrap(), None);
    assert_eq!(node.maybe_int32("b").unwrap(), Some(2));
    assert_eq!(node.maybe_int32("c").unwrap(), None);
    assert_eq!(node.maybe_int32("a").unwrap_err(), "missing or invalid field: a");
    assert_eq!(node.text("b").unwrap_err(), "missing or invalid field: b");
    assert_eq!(node.text("zz").unwrap_err(), "missing or invalid field: zz");
    assert_eq!(node.flag("a").unwrap_err(), "missing or invalid field: a");
    assert_eq!(node.list("e", false).unwrap().len(), 2);
    assert!(matches!(node.list("e", false).unwrap()[0], Node::Bool(true)));
    assert_eq!(node.list("zz", false).unwrap_err(), "missing or invalid field: zz");
    assert!(node.list("zz", true).unwrap().is_empty());
    assert_eq!(node.list("a", true).unwrap_err(), "missing or invalid field: a");
    assert!(node.get("zz").is_none());
    assert!(Node::Null.get("a").is_none());
    assert!(Node::List(vec![]).get("a").is_none());
    assert_eq!(bad_field_message("k"), "missing or invalid field: k");
}

#[test]
fn integers_must_fit_32_bits() {
    let node = Node::Table(vec![
        Entry { key: "big".to_string(), value: Node::Integer(2147483648) },
        Entry { key: "max".to_string(), value: Node::Integer(2147483647) },
        Entry { key: "min".to_string(), value: Node::Integer(-2147483648) },
        Entry { key: "low".to_string(), value: Node::Integer(-2147483649) },
        Entry { key: "other".to_string(), value: Node::Other },
    ]);
    assert!(node.int32("big").is_err());
    assert_eq!(node.int32("max").unwrap(), i32::MAX);
    assert_eq!(node.int32("min").unwrap(), i32::MIN);
    assert!(node.int32("low").is_err());
    assert!(node.maybe_int32("low").is_err());
    assert!(node.int32("other").is_err());
    assert!(node.maybe_text("other").is_err());
}

#[test]
fn requests_are_built_step_by_step() {
    let r = ApiRequest::new(Method::Patch, "u".to_string(), Host::GitHub);
    assert_eq!(r.method, Method::Patch);
    assert_eq!(r.url, "u");
    assert_eq!(r.host, Host::GitHub);
    assert!(r.headers.is_empty());
    assert!(!r.pass);
    assert_eq!(r.ttl, None);
    assert_eq!(r.body, None);
    let r = r.with_header("a", "1").with_pass(true).with_ttl(60).with_body_json("{}".to_string());
    assert_eq!(r.headers.len(), 1);
    assert_eq!(r.headers[0].name, "a");
    assert_eq!(r.headers[0].value, "1");
    assert!(r.pass);
    assert_eq!(r.ttl, Some(60));
    assert_eq!(r.body.as_deref(), Some("{}"));
    assert!(!r.with_pass(false).pass);
}

#[test]
fn error_messages_are_exact() {
    assert_eq!(DeployError::Auth("a".to_string()).message(), "a");
    assert_eq!(DeployError::ExternalApi("b".to_string()).message(), "b");
    assert_eq!(DeployError::ManifestParse("c".to_string()).message(), "c");
    assert_eq!(DeployError::SpecParse("d".to_string()).message(), "d");
    assert_eq!(
        DeployError::MissingValue("greeting".to_string()).message(),
        "No value provided for dict key greeting"
    );
    assert_eq!(DeployError::Precondition("e".to_string()).message(), "e");
    assert_eq!(
        DeployError::NotATemplate("/o/r".to_string()).message(),
        "The chosen source is not a template repository: github.com/o/r"
    );
    let copy = DeployError::MissingValue("k".to_string()).duplicate();
    assert!(matches!(copy, DeployError::MissingValue(ref k) if k == "k"));
    assert_eq!(ErrorContext::from_error(&DeployError::MissingValue("k".to_string())).message,
        "No value provided for dict key k");
}

#[test]
fn deploy_page_says_what_can_be_done() {
    let gh = || Some(GitHubUser { login: "me".to_string(), name: None });
    let fastly = || Some(FastlyUser { name: "Ada".to_string(), customer_id: "C".to_string() });
    let page = DeployContext::new(template(), None, None, None, None);
    assert!(!page.can_fork);
    assert!(!page.can_deploy);
    let page = DeployContext::new(template(), None, gh(), None, None);
    assert!(page.can_fork);
    assert!(!page.can_deploy);
    let page = DeployContext::new(template(), None, gh(), fastly(), None);
    assert!(page.can_fork);
    assert!(!page.can_deploy);
    let page = DeployContext::new(template(), Some("me/r".to_string()), gh(), None, None);
    assert!(!page.can_fork);
    assert!(!page.can_deploy);
    let page = DeployContext::new(template(), Some("me/r".to_string()), None, fastly(), None);
    assert!(!page.can_fork);
    assert!(!page.can_deploy);
    let page = DeployContext::new(template(), Some("me/r".to_string()), gh(), fastly(), None);
    assert!(!page.can_fork);
    assert!(page.can_deploy);
    assert_eq!(page.dest_nwo.as_deref(), Some("me/r"));
    assert_eq!(page.src.name, "r");
}

#[test]
fn status_page_links_are_exact() {
    let page = SuccessContext::new("quick-a-b.edgecompute.app", "me/r", "SID".to_string(), true);
    assert_eq!(page.application_url, "https://quick-a-b.edgecompute.app");
    assert_eq!(page.actions_url, "https://github.com/me/r/actions");
    assert_eq!(page.repo_nwo, "me/r");
    assert_eq!(page.service_id, "SID");
    assert!(page.is_ready);
}

#[test]
fn whitespace_is_what_the_standard_library_says() {
    let mut count = 0;
    for n in 0u32..=0x10ffff {
        if let Some(c) = char::from_u32(n) {
            let framed = format!("{}x{}", c, c);
            let trimmed = trim(&framed);
            assert_eq!(trimmed == "x", c.is_whitespace(), "U+{:04X}", n);
            assert_eq!(trimmed, framed.trim());
            if trimmed == "x" {
                count += 1;
            }
        }
    }
    assert_eq!(count, 25);
}
