use quick_deploy::config::ActionParams;
use quick_deploy::config::DeployConfig;
use quick_deploy::config::DeployConfigSpec;
use quick_deploy::config::DictionaryItemSpec;
use quick_deploy::config::DictionarySpec;
use quick_deploy::error::DeployError;
use quick_deploy::flow::Reply;
use quick_deploy::http::ApiRequest;
use quick_deploy::http::ApiResponse;
use quick_deploy::http::Host;
use quick_deploy::http::Method;
use quick_deploy::scdn::prepared;
use quick_deploy::scdn::resolve_items;
use quick_deploy::scdn::version_address;
use quick_deploy::scdn::CreationStage;
use quick_deploy::scdn::CreationStep;
use quick_deploy::scdn::FastlyClient;
use quick_deploy::scdn::FastlyDictionary;
use quick_deploy::scdn::FastlyDictionaryItemAction;
use quick_deploy::scdn::FastlyDictionaryUpdateRequest;
use quick_deploy::scdn::FastlyDomain;
use quick_deploy::scdn::FastlyService;
use quick_deploy::scdn::FastlyServiceRequest;
use quick_deploy::scdn::FastlyServiceStatusResponse;
use quick_deploy::scdn::FastlyUser;
use quick_deploy::tree::Entry;
use quick_deploy::tree::Node;

fn client() -> FastlyClient {
    FastlyClient::from_token("ftoken".to_string())
}

fn reply(status: u16, body: &str) -> ApiResponse {
    ApiResponse { status, body: body.to_string() }
}

fn table(fields: &[(&str, Node)]) -> Node {
    Node::Table(
        fields
            .iter()
            .map(|(k, v)| Entry {
                key: k.to_string(),
                value: match v {
                    Node::Text(s) => Node::Text(s.clone()),
                    Node::Bool(b) => Node::Bool(*b),
                    Node::Integer(i) => Node::Integer(*i),
                    _ => Node::Null,
                },
            })
            .collect(),
    )
}

fn text(s: &str) -> Node {
    Node::Text(s.to_string())
}

#[test]
fn clients_hold_the_token_or_none() {
    assert_eq!(client().token.as_deref(), Some("ftoken"));
    assert_eq!(FastlyClient::new().token, None);
}

#[test]
fn request_without_token_is_refused() {
    let bare = ApiRequest::new(Method::Get, "https://api.fastly.com/x".to_string(), Host::FastlyApi);
    match FastlyClient::new().fastly_request(bare) {
        Err(DeployError::Auth(message)) => assert_eq!(message, "No Fastly API token set"),
        other => panic!("an auth error was expected, not {:?}", other),
    }
}

#[test]
fn prepared_request_carries_the_four_headers() {
    let bare = ApiRequest::new(Method::Get, "https://api.fastly.com/x".to_string(), Host::FastlyApi);
    let request = client().fastly_request(bare).unwrap();
    let headers: Vec<(String, String)> =
        request.headers.iter().map(|h| (h.name.clone(), h.value.clone())).collect();
    assert_eq!(
        headers,
        vec![
            ("user-agent".to_string(), "Quick Deploy (@kailan)".to_string()),
            ("host".to_string(), "api.fastly.com".to_string()),
            ("accept".to_string(), "application/json".to_string()),
            ("fastly-key".to_string(), "ftoken".to_string()),
        ]
    );
    assert!(request.pass);
    assert_eq!(request.host.name(), "api.fastly.com");
    let other = prepared(
        ApiRequest::new(Method::Put, "u".to_string(), Host::FastlyApi).with_ttl(5),
        "k",
    );
    assert_eq!(other.headers[3].value, "k");
    assert_eq!(other.ttl, Some(5));
    assert_eq!(other.method, Method::Put);
}

#[test]
fn version_address_is_exact() {
    assert_eq!(
        version_address("SID", "/backend"),
        "https://api.fastly.com/service/SID/version/1/backend"
    );
    assert_eq!(version_address("", ""), "https://api.fastly.com/service//version/1");
}

#[test]
fn nobody_is_fetched_without_token() {
    assert!(FastlyClient::new().fetch_user_request().is_none());
    let request = client().fetch_user_request().unwrap();
    assert_eq!(request.method, Method::Get);
    assert_eq!(request.url, "https://api.fastly.com/current_user");
    assert_eq!(request.body, None);
}

#[test]
fn fastly_user_is_read_from_a_200() {
    let user = FastlyClient::fetch_user(&reply(
        200,
        "{\"name\":\"Ada\",\"customer_id\":\"C1\",\"login\":\"ada@example.com\"}",
    ))
    .unwrap()
    .unwrap();
    assert_eq!(user.name, "Ada");
    assert_eq!(user.customer_id, "C1");
}

#[test]
fn refused_token_downgrades_to_anonymous() {
    assert!(FastlyClient::fetch_user(&reply(401, "{}")).unwrap().is_none());
    assert!(FastlyClient::fetch_user(&reply(403, "{}")).unwrap().is_none());
}

#[test]
fn other_status_is_an_authentication_failure() {
    for status in [201u16, 400, 404, 500, 503] {
        match FastlyClient::fetch_user(&reply(status, "{\"name\":\"Ada\",\"customer_id\":\"C1\"}")) {
            Err(DeployError::Auth(message)) => {
                assert_eq!(message, "Unable to authenticate with Fastly")
            }
            other => panic!("an auth error was expected, not {:?}", other),
        }
    }
}

#[test]
fn unreadable_user_body_is_an_error() {
    assert!(matches!(
        FastlyClient::fetch_user(&reply(200, "{\"name\":\"Ada\"}")),
        Err(DeployError::ExternalApi(_))
    ));
    assert!(matches!(FastlyClient::fetch_user(&reply(200, "")), Err(DeployError::ExternalApi(_))));
}

#[test]
fn status_request_asks_for_version_one() {
    let request = client().check_service_deployment_request("SID").unwrap();
    assert_eq!(request.method, Method::Get);
    assert_eq!(request.url, "https://api.fastly.com/service/SID/version/1");
    assert!(matches!(
        FastlyClient::new().check_service_deployment_request("SID"),
        Err(DeployError::Auth(_))
    ));
}

#[test]
fn service_is_active_as_the_response_says() {
    assert_eq!(
        FastlyClient::check_service_deployment(&reply(200, "{\"active\":true,\"number\":1}"))
            .unwrap(),
        true
    );
    assert_eq!(
        FastlyClient::check_service_deployment(&reply(200, "{\"active\":false}")).unwrap(),
        false
    );
    assert!(matches!(
        FastlyClient::check_service_deployment(&reply(200, "{\"active\":\"yes\"}")),
        Err(DeployError::ExternalApi(_))
    ));
    match FastlyClient::check_service_deployment(&reply(404, "{\"active\":true}")) {
        Err(DeployError::Auth(message)) => assert_eq!(message, "Unable to authenticate with Fastly"),
        other => panic!("an auth error was expected, not {:?}", other),
    }
}

#[test]
fn request_bodies_have_their_fields() {
    let node = FastlyServiceRequest { service_type: "wasm".to_string(), name: "n".to_string() }
        .to_node();
    assert_eq!(node.text("type").unwrap(), "wasm");
    assert_eq!(node.text("name").unwrap(), "n");
    let node = FastlyDomain { name: "d".to_string() }.to_node();
    assert_eq!(node.text("name").unwrap(), "d");
    let node = FastlyDictionary { id: None, name: "d".to_string() }.to_node();
    assert!(matches!(node.get("id"), Some(Node::Null)));
    let node = FastlyDictionary { id: Some("i".to_string()), name: "d".to_string() }.to_node();
    assert_eq!(node.text("id").unwrap(), "i");
    let node = FastlyDictionaryUpdateRequest {
        items: vec![FastlyDictionaryItemAction {
            op: "create".to_string(),
            item_key: "k".to_string(),
            item_value: "v".to_string(),
        }],
    }
    .to_node();
    let items = node.list("items", false).unwrap();
    assert_eq!(items.len(), 1);
    assert_eq!(items[0].text("op").unwrap(), "create");
    assert_eq!(items[0].text("item_key").unwrap(), "k");
    assert_eq!(items[0].text("item_value").unwrap(), "v");
}

#[test]
fn responses_are_read_from_documents() {
    let service = FastlyService::from_node(&table(&[("id", text("SID"))])).unwrap();
    assert_eq!(service.id, "SID");
    assert_eq!(service.domain, None);
    let service =
        FastlyService::from_node(&table(&[("id", text("SID")), ("domain", text("d"))])).unwrap();
    assert_eq!(service.domain.as_deref(), Some("d"));
    assert_eq!(
        FastlyService::from_node(&table(&[("id", Node::Integer(5))])).unwrap_err(),
        "missing or invalid field: id"
    );
    assert_eq!(
        FastlyService::from_node(&table(&[("id", text("SID")), ("domain", Node::Bool(true))]))
            .unwrap_err(),
        "missing or invalid field: domain"
    );
    assert_eq!(FastlyDomain::from_node(&table(&[("name", text("d"))])).unwrap().name, "d");
    let dictionary = FastlyDictionary::from_node(&table(&[("name", text("d"))])).unwrap();
    assert_eq!(dictionary.id, None);
    assert_eq!(dictionary.name, "d");
    let user = FastlyUser::from_node(&table(&[("name", text("n")), ("customer_id", text("c"))]))
        .unwrap();
    assert_eq!(user.customer_id, "c");
    assert!(FastlyServiceStatusResponse::from_node(&table(&[("active", Node::Bool(true))]))
        .unwrap()
        .active);
    assert!(FastlyServiceStatusResponse::from_node(&Node::Null).is_err());
}

#[test]
fn items_resolve_in_declared_order() {
    let dictionary = DictionarySpec {
        name: "d".to_string(),
        items: vec![
            DictionaryItemSpec {
                key: "a".to_string(),
                input_type: "string".to_string(),
                prompt: None,
                value: Some("1".to_string()),
            },
            DictionaryItemSpec {
                key: "b".to_string(),
                input_type: "string".to_string(),
                prompt: None,
                value: None,
            },
            DictionaryItemSpec {
                key: "c".to_string(),
                input_type: "string".to_string(),
                prompt: None,
                value: None,
            },
        ],
    };
    match resolve_items(&ActionParams { fields: vec![] }, &dictionary) {
        Err(DeployError::MissingValue(key)) => assert_eq!(key, "b"),
        other => panic!("a missing value was expected, not {:?}", other),
    }
}

#[test]
fn creation_alone_ends_with_the_service() {
    let deploy = DeployConfig {
        spec: DeployConfigSpec { backends: vec![], dictionaries: vec![] },
        params: ActionParams { fields: vec![] },
    };
    let (mut creation, first) = client().create_service("quick-x-y", deploy);
    assert!(matches!(first, CreationStep::Send(_)));
    assert!(matches!(creation.stage, CreationStage::Service));
    assert_eq!(creation.backends.len(), 1);
    let step = creation.advance(Reply::Response(reply(200, "{\"id\":\"SID\"}")));
    assert!(matches!(step, CreationStep::Send(_)));
    assert!(matches!(creation.stage, CreationStage::Domain));
    let step = creation.advance(Reply::Response(reply(200, "{\"name\":\"dom\"}")));
    assert!(matches!(step, CreationStep::Send(_)));
    assert!(matches!(creation.stage, CreationStage::Backend(0)));
    match creation.advance(Reply::Response(reply(200, ""))) {
        CreationStep::Done(service) => {
            assert_eq!(service.id, "SID");
            assert_eq!(service.domain.as_deref(), Some("dom"));
        }
        other => panic!("the end was expected, not {:?}", other),
    }
    assert!(matches!(creation.stage, CreationStage::Finished));
}

#[test]
fn creation_without_token_sends_nothing() {
    let deploy = DeployConfig {
        spec: DeployConfigSpec { backends: vec![], dictionaries: vec![] },
        params: ActionParams { fields: vec![] },
    };
    let (mut creation, first) = FastlyClient::new().create_service("quick-x-y", deploy);
    assert!(matches!(first, CreationStep::Failed(DeployError::Auth(_))));
    assert!(matches!(
        creation.advance(Reply::Response(reply(200, "{\"id\":\"SID\"}"))),
        CreationStep::Failed(DeployError::Auth(_))
    ));
}
