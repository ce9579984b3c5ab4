use quick_deploy::session::get_cookie;
use quick_deploy::session::is_cookie_safe;
use quick_deploy::session::update_state;
use quick_deploy::session::ApplicationState;
use quick_deploy::session::DeploymentState;
use quick_deploy::session::LoginState;

fn text(s: &str) -> Option<String> {
    Some(s.to_string())
}

fn full_state() -> ApplicationState {
    ApplicationState {
        login: LoginState { fastly_token: text("ft"), github_token: text("gh\u{e9}\"q") },
        deploy: DeploymentState {
            src: text("a/b"),
            dest: text("a/b+me/b"),
            fastly_service_id: text("SID"),
            fastly_domain: text("quick-x-y.edgecompute.app"),
        },
    }
}

fn assert_same(a: &ApplicationState, b: &ApplicationState) {
    assert_eq!(a.login.fastly_token, b.login.fastly_token);
    assert_eq!(a.login.github_token, b.login.github_token);
    assert_eq!(a.deploy.src, b.deploy.src);
    assert_eq!(a.deploy.dest, b.deploy.dest);
    assert_eq!(a.deploy.fastly_service_id, b.deploy.fastly_service_id);
    assert_eq!(a.deploy.fastly_domain, b.deploy.fastly_domain);
}

fn assert_empty(s: &ApplicationState) {
    assert_same(s, &ApplicationState::default());
    assert_eq!(s.login.fastly_token, None);
    assert_eq!(s.deploy.src, None);
}

#[test]
fn default_state_is_empty() {
    let s = ApplicationState::default();
    assert_eq!(s.login.fastly_token, None);
    assert_eq!(s.login.github_token, None);
    assert_eq!(s.deploy.src, None);
    assert_eq!(s.deploy.dest, None);
    assert_eq!(s.deploy.fastly_service_id, None);
    assert_eq!(s.deploy.fastly_domain, None);
}

#[test]
fn empty_state_token_is_exact() {
    let token = ApplicationState::default().encode().unwrap();
    assert_eq!(
        token,
        "eyJkZXBsb3kiOnsiZGVzdCI6bnVsbCwiZmFzdGx5X2RvbWFpbiI6bnVsbCwiZmFzdGx5X3NlcnZpY2VfaWQiOm51bGwsInNyYyI6bnVsbH0sImxvZ2luIjp7ImZhc3RseV90b2tlbiI6bnVsbCwiZ2l0aHViX3Rva2VuIjpudWxsfX0="
    );
}

#[test]
fn full_state_token_is_exact() {
    let token = full_state().encode().unwrap();
    assert_eq!(
        token,
        "eyJkZXBsb3kiOnsiZGVzdCI6ImEvYittZS9iIiwiZmFzdGx5X2RvbWFpbiI6InF1aWNrLXgteS5lZGdlY29tcHV0ZS5hcHAiLCJmYXN0bHlfc2VydmljZV9pZCI6IlNJRCIsInNyYyI6ImEvYiJ9LCJsb2dpbiI6eyJmYXN0bHlfdG9rZW4iOiJmdCIsImdpdGh1Yl90b2tlbiI6Imdow6lcInEifX0="
    );
}

#[test]
fn state_round_trips() {
    let s = full_state();
    let back = ApplicationState::decode(&s.encode().unwrap());
    assert_same(&s, &back);
}

#[test]
fn empty_state_round_trips() {
    let s = ApplicationState::default();
    let back = ApplicationState::decode(&s.encode().unwrap());
    assert_same(&s, &back);
}

#[test]
fn partial_states_round_trip() {
    let mut s = ApplicationState::default();
    s.login.github_token = text("");
    s.deploy.src = text("owner/repo");
    assert_same(&s, &ApplicationState::decode(&s.encode().unwrap()));
    s.deploy.dest = text("owner/repo+me/repo");
    s.login.fastly_token = text("line\nbreak\ttab \u{1F600} \u{0}");
    assert_same(&s, &ApplicationState::decode(&s.encode().unwrap()));
}

#[test]
fn decode_reads_fields_in_any_order() {
    let s = ApplicationState::decode(
        "eyJsb2dpbiI6eyJmYXN0bHlfdG9rZW4iOiJUIiwiZ2l0aHViX3Rva2VuIjpudWxsfSwiZGVwbG95Ijp7InNyYyI6Im8vciIsImRlc3QiOm51bGwsImZhc3RseV9zZXJ2aWNlX2lkIjpudWxsLCJmYXN0bHlfZG9tYWluIjpudWxsfX0=",
    );
    assert_eq!(s.login.fastly_token, text("T"));
    assert_eq!(s.login.github_token, None);
    assert_eq!(s.deploy.src, text("o/r"));
    assert_eq!(s.deploy.dest, None);
}

#[test]
fn decode_takes_absent_fields_as_none() {
    let s = ApplicationState::decode("eyJsb2dpbiI6eyJmYXN0bHlfdG9rZW4iOiJUIn0sImRlcGxveSI6e319");
    assert_eq!(s.login.fastly_token, text("T"));
    assert_eq!(s.login.github_token, None);
    assert_eq!(s.deploy.src, None);
}

#[test]
fn decode_of_empty_token_is_empty_state() {
    assert_empty(&ApplicationState::decode(""));
}

#[test]
fn decode_of_truncated_token_is_empty_state() {
    let token = full_state().encode().unwrap();
    for cut in [1usize, 2, 3, 5, 17, 40, token.len() - 2, token.len() - 3, token.len() - 5] {
        assert_empty(&ApplicationState::decode(&token[..cut]));
    }
}

#[test]
fn decode_of_other_text_is_empty_state() {
    assert_empty(&ApplicationState::decode("not base64 at all!"));
    assert_empty(&ApplicationState::decode("//4="));
    assert_empty(&ApplicationState::decode("WzEsMl0="));
    assert_empty(&ApplicationState::decode("e30="));
    assert_empty(&ApplicationState::decode(
        "eyJsb2dpbiI6eyJmYXN0bHlfdG9rZW4iOjV9LCJkZXBsb3kiOnt9fQ==",
    ));
    assert_empty(&ApplicationState::decode(" eyJsb2dpbiI6e30sImRlcGxveSI6e319"));
}

#[test]
fn restore_without_token_is_empty_state() {
    assert_empty(&ApplicationState::restore(None));
    let s = full_state();
    let token = s.encode().unwrap();
    assert_same(&s, &ApplicationState::restore(Some(&token)));
}

#[test]
fn state_cookie_header_is_exact() {
    let header = update_state(&ApplicationState::default()).unwrap();
    assert_eq!(
        header,
        "__Secure-Deploy-Config=eyJkZXBsb3kiOnsiZGVzdCI6bnVsbCwiZmFzdGx5X2RvbWFpbiI6bnVsbCwiZmFzdGx5X3NlcnZpY2VfaWQiOm51bGwsInNyYyI6bnVsbH0sImxvZ2luIjp7ImZhc3RseV90b2tlbiI6bnVsbCwiZ2l0aHViX3Rva2VuIjpudWxsfX0=; Secure; HttpOnly; Path=/;"
    );
}

#[test]
fn cookie_is_found_by_name() {
    assert_eq!(get_cookie("a=1; b=2; c=3", "b"), text("2"));
    assert_eq!(get_cookie("a=1; b=2; c=3", "a"), text("1"));
    assert_eq!(get_cookie("a=1; b=2; c=3", "c"), text("3"));
    assert_eq!(get_cookie("a=1; b=2; c=3", "d"), None);
    assert_eq!(get_cookie("", "a"), None);
}

#[test]
fn cookie_value_is_all_that_follows_the_first_equals_sign() {
    assert_eq!(
        get_cookie("__Secure-Deploy-Config=abcd==; x=y", "__Secure-Deploy-Config"),
        text("abcd==")
    );
    assert_eq!(get_cookie("k=", "k"), text(""));
    assert_eq!(get_cookie("k=a=b=c", "k"), text("a=b=c"));
    assert_eq!(get_cookie("k==", "k"), text("="));
}

#[test]
fn last_cookie_of_a_name_counts() {
    assert_eq!(get_cookie("a=1; a=2", "a"), text("2"));
    assert_eq!(get_cookie("a=1;a=2;b=3", "a"), text("2"));
}

#[test]
fn piece_without_equals_sign_is_no_cookie() {
    assert_eq!(get_cookie("junk; a=1", "a"), text("1"));
    assert_eq!(get_cookie("junk", "junk"), None);
    assert_eq!(get_cookie("  a=1  ", "a"), text("1"));
}

#[test]
fn state_travels_through_a_cookie() {
    let s = full_state();
    let header = update_state(&s).unwrap();
    let pair = header.split(';').next().unwrap().to_string();
    let token = get_cookie(&format!("other=1; {}", pair), "__Secure-Deploy-Config").unwrap();
    assert_eq!(token, s.encode().unwrap());
    assert_same(&s, &ApplicationState::decode(&token));
}

#[test]
fn state_is_read_from_a_cookie_with_its_padding() {
    for token in ["a", "ab", "abc", "abcd", "abcde"] {
        let mut s = ApplicationState::default();
        s.login.github_token = text(token);
        let header = update_state(&s).unwrap();
        let cookie = header.split(';').next().unwrap();
        let carried = get_cookie(cookie, "__Secure-Deploy-Config").unwrap();
        assert_eq!(carried, s.encode().unwrap());
        assert_same(&s, &ApplicationState::decode(&carried));
    }
}

#[test]
fn tokens_can_stand_in_a_cookie() {
    let mut s = full_state();
    for filler in ["", ";", " ", "\t\n", "a;b c", "\u{3000}\u{a0}", "+=/\"'"] {
        s.deploy.src = text(filler);
        s.login.fastly_token = text(&filler.repeat(7));
        let token = s.encode().unwrap();
        assert!(is_cookie_safe(&token));
        assert!(!token.contains(';'));
        assert!(!token.chars().any(|c| c.is_whitespace()));
        let cookie = format!("__Secure-Deploy-Config={}", token);
        assert_eq!(get_cookie(&cookie, "__Secure-Deploy-Config"), Some(token.clone()));
        assert_same(&s, &ApplicationState::decode(&token));
    }
}

#[test]
fn semicolon_and_whitespace_cannot_stand_in_a_cookie() {
    assert!(is_cookie_safe(""));
    assert!(is_cookie_safe("abc+/=="));
    assert!(!is_cookie_safe("a;b"));
    assert!(!is_cookie_safe("a b"));
    assert!(!is_cookie_safe("ab\n"));
    assert!(!is_cookie_safe("\u{a0}ab"));
    assert!(!is_cookie_safe("a\u{2028}b"));
}
