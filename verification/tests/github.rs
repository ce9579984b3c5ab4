use quick_deploy::error::DeployError;
use quick_deploy::github::AccessTokenRequest;
use quick_deploy::github::AuthParams;
use quick_deploy::github::GitHubClient;
use quick_deploy::github::GitHubFile;
use quick_deploy::http::ApiRequest;
use quick_deploy::http::ApiResponse;
use quick_deploy::http::Host;
use quick_deploy::http::Method;

fn app() -> GitHubClient {
    GitHubClient::from_dictionary("cid".to_string(), "csecret".to_string())
}

fn user() -> GitHubClient {
    let mut client = app();
    client.user_access_token = Some("tok".to_string());
    client
}

fn response(status: u16, body: &str) -> ApiResponse {
    ApiResponse { status, body: body.to_string() }
}

fn names(request: &ApiRequest) -> Vec<(String, String)> {
    request.headers.iter().map(|h| (h.name.clone(), h.value.clone())).collect()
}

fn pair(a: &str, b: &str) -> (String, String) {
    (a.to_string(), b.to_string())
}

fn api_message<T: std::fmt::Debug>(r: Result<T, DeployError>) -> String {
    match r {
        Err(DeployError::ExternalApi(message)) => message,
        other => panic!("an API error was expected, not {:?}", other),
    }
}

const REPO: &str = r#"{"id":1,"name":"app","full_name":"me/app","default_branch":"main",
  "owner":{"login":"me","name":null,"id":7},"forks_count":3,"stargazers_count":12,
  "is_template":true,"private":false}"#;

#[test]
fn client_from_dictionary_has_nobody_logged_in() {
    let client = app();
    assert_eq!(client.client_id, "cid");
    assert_eq!(client.client_secret, "csecret");
    assert_eq!(client.user_access_token, None);
}

#[test]
fn anonymous_client_keeps_the_application_and_drops_the_user() {
    let anonymous = user().anonymous();
    assert_eq!(anonymous.client_id, "cid");
    assert_eq!(anonymous.client_secret, "csecret");
    assert_eq!(anonymous.user_access_token, None);
    let copy = user().duplicate();
    assert_eq!(copy.user_access_token.as_deref(), Some("tok"));
}

#[test]
fn authorize_url_names_client_and_scopes() {
    assert_eq!(
        app().get_authorize_url(),
        "https://github.com/login/oauth/authorize?client_id=cid&scope=repo%20workflow"
    );
}

#[test]
fn anonymous_request_carries_agent_and_accept() {
    let request = app().github_request(ApiRequest::new(
        Method::Get,
        "https://api.github.com/x".to_string(),
        Host::GitHubApi,
    ));
    assert_eq!(
        names(&request),
        vec![
            pair("user-agent", "Quick Deploy (@kailan)"),
            pair("accept", "application/vnd.github.baptiste-preview+json"),
        ]
    );
    assert!(!request.pass);
    assert_eq!(request.body, None);
    assert_eq!(request.ttl, None);
}

#[test]
fn user_request_carries_the_token_and_is_not_cached() {
    let request = user().github_request(ApiRequest::new(
        Method::Get,
        "https://api.github.com/x".to_string(),
        Host::GitHubApi,
    ));
    assert_eq!(
        names(&request),
        vec![
            pair("user-agent", "Quick Deploy (@kailan)"),
            pair("accept", "application/vnd.github.baptiste-preview+json"),
            pair("authorization", "token tok"),
        ]
    );
    assert!(request.pass);
}

#[test]
fn access_token_request_is_exact() {
    let request =
        app().get_access_token_from_params_request(AuthParams { code: "c0de".to_string() });
    assert_eq!(request.method, Method::Post);
    assert_eq!(request.url, "https://github.com/login/oauth/access_token");
    assert_eq!(request.host, Host::GitHub);
    assert_eq!(request.host.name(), "github.com");
    assert!(request.pass);
    assert_eq!(
        request.body.as_deref(),
        Some("{\"client_id\":\"cid\",\"client_secret\":\"csecret\",\"code\":\"c0de\"}")
    );
    let body = AccessTokenRequest::from_code(&app(), "x".to_string());
    assert_eq!(body.client_id, "cid");
    assert_eq!(body.client_secret, "csecret");
    assert_eq!(body.code, "x");
}

#[test]
fn access_token_is_read_from_a_success() {
    let r = GitHubClient::get_access_token_from_params(&response(
        200,
        "{\"access_token\":\"gho_1\",\"token_type\":\"bearer\",\"scope\":\"repo\"}",
    ));
    assert_eq!(r.unwrap(), "gho_1");
}

#[test]
fn failed_exchange_carries_the_platform_message() {
    let r = GitHubClient::get_access_token_from_params(&response(502, "Bad Gateway"));
    assert_eq!(api_message(r), "Bad Gateway");
}

#[test]
fn expired_code_is_an_auth_error() {
    let r = GitHubClient::get_access_token_from_params(&response(
        200,
        "{\"error\":\"bad_verification_code\"}",
    ));
    match r {
        Err(DeployError::Auth(message)) => {
            assert_eq!(message, "missing or invalid field: access_token")
        }
        other => panic!("an auth error was expected, not {:?}", other),
    }
    let r = GitHubClient::get_access_token_from_params(&response(200, "access_token=x"));
    assert!(matches!(r, Err(DeployError::Auth(_))));
}

#[test]
fn nobody_is_fetched_without_a_token() {
    assert!(app().fetch_user_request().is_none());
    let request = user().fetch_user_request().unwrap();
    assert_eq!(request.method, Method::Get);
    assert_eq!(request.url, "https://api.github.com/user");
    assert_eq!(request.host, Host::GitHubApi);
    assert_eq!(request.host.name(), "api.github.com");
}

#[test]
fn user_is_read_from_the_response() {
    let u = GitHubClient::fetch_user(&response(200, "{\"login\":\"me\",\"name\":\"Me\",\"id\":1}"))
        .unwrap()
        .unwrap();
    assert_eq!(u.login, "me");
    assert_eq!(u.name.as_deref(), Some("Me"));
    let u = GitHubClient::fetch_user(&response(200, "{\"login\":\"me\",\"name\":null}"))
        .unwrap()
        .unwrap();
    assert_eq!(u.name, None);
    let u = GitHubClient::fetch_user(&response(200, "{\"login\":\"me\"}")).unwrap().unwrap();
    assert_eq!(u.name, None);
}

#[test]
fn refused_credential_downgrades_to_anonymous() {
    assert!(GitHubClient::fetch_user(&response(401, "{\"message\":\"Bad credentials\"}"))
        .unwrap()
        .is_none());
    assert!(GitHubClient::fetch_user(&response(403, "rate limit")).unwrap().is_none());
}

#[test]
fn unreadable_user_is_an_error() {
    assert_eq!(
        api_message(GitHubClient::fetch_user(&response(200, "{\"name\":\"Me\"}"))),
        "Unable to fetch logged in user from GitHub: missing or invalid field: login"
    );
    let message = api_message(GitHubClient::fetch_user(&response(500, "oops")));
    assert!(message.starts_with("Unable to fetch logged in user from GitHub: "));
}

#[test]
fn repository_request_may_be_cached_for_three_hours() {
    let request = app().fetch_repository_request("owner/repo");
    assert_eq!(request.method, Method::Get);
    assert_eq!(request.url, "https://api.github.com/repos/owner/repo");
    assert_eq!(request.ttl, Some(10800));
    assert!(!request.pass);
}

#[test]
fn repository_is_read_from_the_response() {
    let repo = GitHubClient::fetch_repository("me/app", &response(200, REPO)).unwrap().unwrap();
    assert_eq!(repo.name, "app");
    assert_eq!(repo.default_branch, "main");
    assert_eq!(repo.owner.login, "me");
    assert_eq!(repo.owner.name, None);
    assert_eq!(repo.forks_count, 3);
    assert_eq!(repo.stargazers_count, 12);
    assert!(repo.is_template);
}

#[test]
fn missing_repository_is_none() {
    assert!(GitHubClient::fetch_repository("me/app", &response(404, "{}")).unwrap().is_none());
}

#[test]
fn failed_repository_fetch_carries_the_body() {
    assert_eq!(
        api_message(GitHubClient::fetch_repository("me/app", &response(500, "boom"))),
        "Unable to fetch GitHub repository me/app: boom"
    );
    assert_eq!(
        api_message(GitHubClient::fetch_repository("me/app", &response(200, "{\"name\":\"app\"}"))),
        "missing or invalid field: default_branch"
    );
    let no_owner = REPO.replace("\"owner\"", "\"owned_by\"");
    assert_eq!(
        api_message(GitHubClient::fetch_repository("me/app", &response(200, &no_owner))),
        "missing or invalid field: owner"
    );
    let float_count = REPO.replace("\"forks_count\":3", "\"forks_count\":3.5");
    assert_eq!(
        api_message(GitHubClient::fetch_repository("me/app", &response(200, &float_count))),
        "missing or invalid field: forks_count"
    );
}

#[test]
fn fork_request_names_the_new_repository() {
    let request = user().fork_repository_request("owner/repo", "repo");
    assert_eq!(request.method, Method::Post);
    assert_eq!(request.url, "https://api.github.com/repos/owner/repo/generate");
    assert_eq!(request.body.as_deref(), Some("{\"name\":\"repo\"}"));
    assert!(request.pass);
}

#[test]
fn fork_is_read_from_a_created_response() {
    let repo = GitHubClient::fork_repository("owner/repo", &response(201, REPO)).unwrap();
    assert_eq!(repo.owner.login, "me");
    assert_eq!(repo.name, "app");
    assert_eq!(
        api_message(GitHubClient::fork_repository("owner/repo", &response(200, REPO))),
        format!("Unable to fork GitHub repository owner/repo: {}", REPO)
    );
    assert_eq!(
        api_message(GitHubClient::fork_repository("owner/repo", &response(422, "exists"))),
        "Unable to fork GitHub repository owner/repo: exists"
    );
}

#[test]
fn enable_actions_request_is_exact() {
    let request = user().enable_actions("me/app");
    assert_eq!(request.method, Method::Put);
    assert_eq!(request.url, "https://api.github.com/repos/me/app/actions/workflows/deploy/enable");
    assert!(request.pass);
    assert_eq!(request.body, None);
    assert!(app().enable_actions("me/app").pass);
    assert!(GitHubClient::enable_actions_result(&response(204, "")).is_ok());
    assert!(GitHubClient::enable_actions_result(&response(200, "x")).is_ok());
    assert_eq!(api_message(GitHubClient::enable_actions_result(&response(404, "gone"))), "gone");
    assert_eq!(api_message(GitHubClient::enable_actions_result(&response(199, "early"))), "early");
    assert_eq!(api_message(GitHubClient::enable_actions_result(&response(300, "moved"))), "moved");
}

#[test]
fn file_request_is_exact() {
    let request = app().get_file_request("me/app", "fastly.toml");
    assert_eq!(request.method, Method::Get);
    assert_eq!(request.url, "https://api.github.com/repos/me/app/contents/fastly.toml");
    assert!(!request.pass);
}

#[test]
fn file_content_is_read_from_wrapped_base64() {
    let body = "{\"path\":\"fastly.toml\",\"sha\":\"abc\",\"content\":\"bmFtZSA9\\nICJhcHAi\\nCg==\\n\",\"encoding\":\"base64\"}";
    let file =
        GitHubClient::get_file("me/app", "fastly.toml", &response(200, body)).unwrap().unwrap();
    assert_eq!(file.path, "fastly.toml");
    assert_eq!(file.sha, "abc");
    assert_eq!(file.content, "name = \"app\"\n");
}

#[test]
fn missing_file_is_none() {
    assert!(GitHubClient::get_file("me/app", "fastly.toml", &response(404, "")).unwrap().is_none());
}

#[test]
fn unreadable_file_is_an_error() {
    assert_eq!(
        api_message(GitHubClient::get_file("me/app", "fastly.toml", &response(500, "boom"))),
        "Unable to fetch fastly.toml file from GitHub repository me/app: boom"
    );
    let not_base64 = "{\"path\":\"p\",\"sha\":\"s\",\"content\":\"***\"}";
    assert_eq!(
        api_message(GitHubClient::get_file("me/app", "p", &response(200, not_base64))),
        "missing or invalid field: content"
    );
    let not_text = "{\"path\":\"p\",\"sha\":\"s\",\"content\":\"//4=\"}";
    assert_eq!(
        api_message(GitHubClient::get_file("me/app", "p", &response(200, not_text))),
        "missing or invalid field: content"
    );
    let no_sha = "{\"path\":\"p\",\"content\":\"\"}";
    assert_eq!(
        api_message(GitHubClient::get_file("me/app", "p", &response(200, no_sha))),
        "missing or invalid field: sha"
    );
}

#[test]
fn upsert_request_presents_the_hash_that_was_read() {
    let file = GitHubFile {
        path: "fastly.toml".to_string(),
        content: "old".to_string(),
        sha: "abc".to_string(),
    };
    let request = user().upsert_file("me/app", &file, "name = \"app\"\n").unwrap();
    assert_eq!(request.method, Method::Put);
    assert_eq!(request.url, "https://api.github.com/repos/me/app/contents/fastly.toml");
    assert!(request.pass);
    assert_eq!(
        request.body.as_deref(),
        Some("{\"content\":\"bmFtZSA9ICJhcHAiCg==\",\"message\":\"Service provisioning via deploy.edgecompute.app\",\"sha\":\"abc\"}")
    );
}

#[test]
fn upsert_succeeds_on_update_and_creation_only() {
    assert!(GitHubClient::upsert_file_result(&response(200, "{}")).is_ok());
    assert!(GitHubClient::upsert_file_result(&response(201, "{}")).is_ok());
    assert_eq!(
        api_message(GitHubClient::upsert_file_result(&response(409, "conflict"))),
        "Unable to update file: conflict"
    );
    assert!(GitHubClient::upsert_file_result(&response(204, "")).is_err());
    assert!(GitHubClient::upsert_file_result(&response(422, "")).is_err());
}

#[test]
fn public_key_is_read_as_32_bytes() {
    let request = user().get_repository_public_key_request("me/app");
    assert_eq!(request.url, "https://api.github.com/repos/me/app/actions/secrets/public-key");
    assert_eq!(request.method, Method::Get);
    let body = "{\"key_id\":\"568250167242549743\",\"key\":\"AAECAwQFBgcICQoLDA0ODxAREhMUFRYXGBkaGxwdHh8=\"}";
    let (key, id) = GitHubClient::get_repository_public_key(&response(200, body)).unwrap();
    assert_eq!(key, (0u8..32).collect::<Vec<u8>>());
    assert_eq!(id, "568250167242549743");
}

#[test]
fn public_key_without_id_is_an_error() {
    assert_eq!(
        api_message(GitHubClient::get_repository_public_key(&response(
            200,
            "{\"key\":\"AAECAwQFBgcICQoLDA0ODxAREhMUFRYXGBkaGxwdHh8=\"}"
        ))),
        "missing or invalid field: key_id"
    );
    assert_eq!(
        api_message(GitHubClient::get_repository_public_key(&response(404, "{\"message\":\"x\"}"))),
        "{\"message\":\"x\"}"
    );
    assert_eq!(
        api_message(GitHubClient::get_repository_public_key(&response(200, "{\"message\":\"x\"}"))),
        "missing or invalid field: key"
    );
    assert_eq!(
        api_message(GitHubClient::get_repository_public_key(&response(
            200,
            "{\"key\":\"AAEC\",\"key_id\":\"1\"}"
        ))),
        "missing or invalid field: key"
    );
}

#[test]
fn secret_request_carries_the_sealed_bytes_as_base64() {
    let request = user()
        .create_secret_request("me/app", "FASTLY_API_TOKEN", "KID", &[0xde, 0xad, 0xbe, 0xef])
        .unwrap();
    assert_eq!(request.method, Method::Put);
    assert_eq!(
        request.url,
        "https://api.github.com/repos/me/app/actions/secrets/FASTLY_API_TOKEN"
    );
    assert_eq!(
        request.body.as_deref(),
        Some("{\"encrypted_value\":\"3q2+7w==\",\"key_id\":\"KID\"}")
    );
    assert!(request.pass);
}

#[test]
fn secret_is_stored_on_created_and_no_content() {
    assert!(GitHubClient::create_secret(&response(201, "")).is_ok());
    assert!(GitHubClient::create_secret(&response(204, "")).is_ok());
    assert_eq!(
        api_message(GitHubClient::create_secret(&response(200, "odd"))),
        "Unable to create secret: odd"
    );
    assert_eq!(
        api_message(GitHubClient::create_secret(&response(403, "{\"message\":\"no\"}"))),
        "Unable to create secret: {\"message\":\"no\"}"
    );
}
