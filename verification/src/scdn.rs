use vstd::prelude::*;
use vstd::string::*;
use crate::config::{
    ActionParams, BackendModel, BackendSpec, DeployConfig, DictionaryModel, DictionarySpec,
};
use crate::error::{DeployError, DeployErrorModel};
use crate::flow::{unexpected_reply, Reply, ReplyModel};
use crate::http::{
    bare_request, is_success, ApiRequest, ApiRequestModel, ApiResponse, Host, Method,
};
use crate::json::{json_parsed, json_text, parse_json, render_json};
use crate::text::{join_text, opt_text};
use crate::tree::{
    optional_text, required_flag, required_text, Listing, Node, NodeModel, Record,
};

verus! {

/// The client of the compute platform: it holds the user's API token, if the
/// user has given one.
#[derive(Debug)]
pub struct FastlyClient {
    pub token: Option<String>,
}

/// The body of the request that creates a service.
#[derive(Debug)]
pub struct FastlyServiceRequest {
    pub service_type: String,
    pub name: String,
}

/// A service as the platform reports it.
#[derive(Debug)]
pub struct FastlyService {
    pub id: String,
    pub domain: Option<String>,
}

/// Whether a version of a service is active.
#[derive(Debug)]
pub struct FastlyServiceStatusResponse {
    pub active: bool,
}

/// A domain of a service.
#[derive(Debug)]
pub struct FastlyDomain {
    pub name: String,
}

/// A dictionary of a service; it has an id once the platform has created it.
#[derive(Debug)]
pub struct FastlyDictionary {
    pub id: Option<String>,
    pub name: String,
}

/// The body of the request that changes many items of a dictionary at once.
#[derive(Debug)]
pub struct FastlyDictionaryUpdateRequest {
    pub items: Vec<FastlyDictionaryItemAction>,
}

/// One change to a dictionary: the operation, the item's key and its value.
#[derive(Debug)]
pub struct FastlyDictionaryItemAction {
    pub op: String,
    pub item_key: String,
    pub item_value: String,
}

/// A backend as the platform takes it.
#[derive(Debug)]
pub struct FastlyBackend {
    pub name: String,
    pub address: String,
    pub port: i32,
}

/// The user that a token belongs to.
#[derive(Debug)]
pub struct FastlyUser {
    pub name: String,
    pub customer_id: String,
}

/// The form with which a user submits an API token.
#[derive(Debug)]
pub struct AuthParams {
    pub token: String,
}

/// The name under which a service is created.
pub open spec fn service_name(slug: Seq<char>) -> Seq<char> {
    slug + " via Quick Deploy"@
}

/// The domain of the service with the given slug.
pub open spec fn service_domain(slug: Seq<char>) -> Seq<char> {
    slug + ".edgecompute.app"@
}

/// The body that asks for a service.
pub open spec fn service_request_node(service_type: Seq<char>, name: Seq<char>) -> NodeModel {
    NodeModel::Table(
        Seq::empty().push(("type"@, NodeModel::Text(service_type))).push(
            ("name"@, NodeModel::Text(name)),
        ),
    )
}

/// The body that names a domain.
pub open spec fn domain_node(name: Seq<char>) -> NodeModel {
    NodeModel::Table(Seq::empty().push(("name"@, NodeModel::Text(name))))
}

/// The body that describes a backend.
pub open spec fn backend_node(name: Seq<char>, address: Seq<char>, port: int) -> NodeModel {
    NodeModel::Table(
        Seq::empty().push(("name"@, NodeModel::Text(name))).push(
            ("address"@, NodeModel::Text(address)),
        ).push(("port"@, NodeModel::Integer(port))),
    )
}

/// The body that describes a dictionary.
pub open spec fn dictionary_node(id: Option<Seq<char>>, name: Seq<char>) -> NodeModel {
    NodeModel::Table(
        Seq::empty().push(("id"@, crate::tree::optional_text_node(id))).push(
            ("name"@, NodeModel::Text(name)),
        ),
    )
}

/// The body that describes one change to a dictionary.
pub open spec fn item_action_node(op: Seq<char>, key: Seq<char>, value: Seq<char>) -> NodeModel {
    NodeModel::Table(
        Seq::empty().push(("op"@, NodeModel::Text(op))).push(
            ("item_key"@, NodeModel::Text(key)),
        ).push(("item_value"@, NodeModel::Text(value))),
    )
}

/// The nodes of the changes that create the given items.
pub open spec fn creation_nodes(pairs: Seq<(Seq<char>, Seq<char>)>) -> Seq<NodeModel> {
    Seq::new(pairs.len(), |i: int| item_action_node("create"@, pairs[i].0, pairs[i].1))
}

/// The body that changes many items at once.
pub open spec fn update_node(items: Seq<NodeModel>) -> NodeModel {
    NodeModel::Table(Seq::empty().push(("items"@, NodeModel::List(items))))
}

/// The port that a backend is created with: 80 where none is declared.
pub open spec fn backend_port(backend: BackendModel) -> int {
    match backend.port {
        Some(p) => p,
        None => 80,
    }
}

impl FastlyServiceRequest {
    /// The JSON document of the body.
    pub fn to_node(&self) -> (r: Node)
        ensures
            r@ == service_request_node(self.service_type@, self.name@),
    {
        Record::new().with_text("type", self.service_type.as_str()).with_text(
            "name",
            self.name.as_str(),
        ).finish()
    }
}

impl FastlyDomain {
    /// The JSON document of the body.
    pub fn to_node(&self) -> (r: Node)
        ensures
            r@ == domain_node(self.name@),
    {
        Record::new().with_text("name", self.name.as_str()).finish()
    }

    /// Reads a domain from the JSON document of a response.
    pub fn from_node(node: &Node) -> (r: Result<FastlyDomain, String>)
        ensures
            match r {
                Ok(d) => required_text(node@, "name"@) == Ok::<Seq<char>, Seq<char>>(d.name@),
                Err(e) => required_text(node@, "name"@) == Err::<Seq<char>, Seq<char>>(e@),
            },
    {
        match node.text("name") {
            Ok(name) => Ok(FastlyDomain { name }),
            Err(e) => Err(e),
        }
    }
}

impl FastlyBackend {
    /// The backend that is created for a declared one: the port is 80 where
    /// none is declared.
    pub fn from_spec(backend: &BackendSpec) -> (r: FastlyBackend)
        ensures
            r.name@ == backend@.name,
            r.address@ == backend@.address,
            r.port as int == backend_port(backend@),
    {
        FastlyBackend {
            name: backend.name.clone(),
            address: backend.address.clone(),
            port: match backend.port {
                Some(p) => p,
                None => 80,
            },
        }
    }

    /// The JSON document of the body.
    pub fn to_node(&self) -> (r: Node)
        ensures
            r@ == backend_node(self.name@, self.address@, self.port as int),
    {
        Record::new().with_text("name", self.name.as_str()).with_text(
            "address",
            self.address.as_str(),
        ).with("port", Node::Integer(self.port as i64)).finish()
    }
}

/// The service that a JSON document describes: its id and, if it has one,
/// its domain.
pub open spec fn service_of(node: NodeModel) -> Result<(Seq<char>, Option<Seq<char>>), Seq<char>> {
    match (required_text(node, "id"@), optional_text(node, "domain"@)) {
        (Ok(id), Ok(domain)) => Ok((id, domain)),
        (Err(e), _) => Err(e),
        (_, Err(e)) => Err(e),
    }
}

impl FastlyService {
    /// Reads a service from the JSON document of a response.
    pub fn from_node(node: &Node) -> (r: Result<FastlyService, String>)
        ensures
            match r {
                Ok(s) => service_of(node@) == Ok::<(Seq<char>, Option<Seq<char>>), Seq<char>>(
                    (s.id@, opt_text(s.domain)),
                ),
                Err(e) => service_of(node@) == Err::<(Seq<char>, Option<Seq<char>>), Seq<char>>(
                    e@,
                ),
            },
    {
        let id = match node.text("id") {
            Ok(v) => v,
            Err(e) => {
                return Err(e);
            },
        };
        let domain = match node.maybe_text("domain") {
            Ok(v) => v,
            Err(e) => {
                return Err(e);
            },
        };
        Ok(FastlyService { id, domain })
    }
}

/// The dictionary that a JSON document describes: its id, if it has one, and
/// its name.
pub open spec fn dictionary_of_json(node: NodeModel) -> Result<
    (Option<Seq<char>>, Seq<char>),
    Seq<char>,
> {
    match (optional_text(node, "id"@), required_text(node, "name"@)) {
        (Ok(id), Ok(name)) => Ok((id, name)),
        (Err(e), _) => Err(e),
        (_, Err(e)) => Err(e),
    }
}

impl FastlyDictionary {
    /// The JSON document of the body.
    pub fn to_node(&self) -> (r: Node)
        ensures
            r@ == dictionary_node(opt_text(self.id), self.name@),
    {
        Record::new().with_optional_text("id", &self.id).with_text(
            "name",
            self.name.as_str(),
        ).finish()
    }

    /// Reads a dictionary from the JSON document of a response.
    pub fn from_node(node: &Node) -> (r: Result<FastlyDictionary, String>)
        ensures
            match r {
                Ok(d) => dictionary_of_json(node@) == Ok::<
                    (Option<Seq<char>>, Seq<char>),
                    Seq<char>,
                >((opt_text(d.id), d.name@)),
                Err(e) => dictionary_of_json(node@) == Err::<
                    (Option<Seq<char>>, Seq<char>),
                    Seq<char>,
                >(e@),
            },
    {
        let id = match node.maybe_text("id") {
            Ok(v) => v,
            Err(e) => {
                return Err(e);
            },
        };
        let name = match node.text("name") {
            Ok(v) => v,
            Err(e) => {
                return Err(e);
            },
        };
        Ok(FastlyDictionary { id, name })
    }
}

/// The user that a JSON document describes: name and customer id.
pub open spec fn fastly_user_of(node: NodeModel) -> Result<(Seq<char>, Seq<char>), Seq<char>> {
    match (required_text(node, "name"@), required_text(node, "customer_id"@)) {
        (Ok(name), Ok(customer_id)) => Ok((name, customer_id)),
        (Err(e), _) => Err(e),
        (_, Err(e)) => Err(e),
    }
}

impl FastlyUser {
    /// A copy of the user.
    pub fn duplicate(&self) -> (r: FastlyUser)
        ensures
            r.name@ == self.name@,
            r.customer_id@ == self.customer_id@,
    {
        FastlyUser { name: self.name.clone(), customer_id: self.customer_id.clone() }
    }

    /// Reads a user from the JSON document of a response.
    pub fn from_node(node: &Node) -> (r: Result<FastlyUser, String>)
        ensures
            match r {
                Ok(u) => fastly_user_of(node@) == Ok::<(Seq<char>, Seq<char>), Seq<char>>(
                    (u.name@, u.customer_id@),
                ),
                Err(e) => fastly_user_of(node@) == Err::<(Seq<char>, Seq<char>), Seq<char>>(e@),
            },
    {
        let name = match node.text("name") {
            Ok(v) => v,
            Err(e) => {
                return Err(e);
            },
        };
        let customer_id = match node.text("customer_id") {
            Ok(v) => v,
            Err(e) => {
                return Err(e);
            },
        };
        Ok(FastlyUser { name, customer_id })
    }
}

impl FastlyServiceStatusResponse {
    /// Reads the status from the JSON document of a response.
    pub fn from_node(node: &Node) -> (r: Result<FastlyServiceStatusResponse, String>)
        ensures
            match r {
                Ok(s) => required_flag(node@, "active"@) == Ok::<bool, Seq<char>>(s.active),
                Err(e) => required_flag(node@, "active"@) == Err::<bool, Seq<char>>(e@),
            },
    {
        match node.flag("active") {
            Ok(active) => Ok(FastlyServiceStatusResponse { active }),
            Err(e) => Err(e),
        }
    }
}

impl FastlyDictionaryItemAction {
    /// The JSON document of the change.
    pub fn to_node(&self) -> (r: Node)
        ensures
            r@ == item_action_node(self.op@, self.item_key@, self.item_value@),
    {
        Record::new().with_text("op", self.op.as_str()).with_text(
            "item_key",
            self.item_key.as_str(),
        ).with_text("item_value", self.item_value.as_str()).finish()
    }
}

/// The nodes of a list of changes.
pub open spec fn action_nodes(items: Seq<FastlyDictionaryItemAction>) -> Seq<NodeModel> {
    Seq::new(
        items.len(),
        |i: int| item_action_node(items[i].op@, items[i].item_key@, items[i].item_value@),
    )
}

impl FastlyDictionaryUpdateRequest {
    /// The JSON document of the body.
    pub fn to_node(&self) -> (r: Node)
        ensures
            r@ == update_node(action_nodes(self.items@)),
    {
        let mut listing = Listing::new();
        let mut i: usize = 0;
        while i < self.items.len()
            invariant
                i <= self.items.len(),
                listing.items() == action_nodes(self.items@).take(i as int),
            decreases self.items.len() - i,
        {
            let node = self.items[i].to_node();
            listing = listing.with(node);
            i += 1;
        }
        assert(action_nodes(self.items@).take(self.items.len() as int) =~= action_nodes(
            self.items@,
        ));
        Record::new().with("items", listing.finish()).finish()
    }
}

/// A request as the platform's API wants it: the headers that every request
/// to it carries, the user's token among them, and never from the cache.
pub open spec fn fastly_prepared(req: ApiRequestModel, token: Seq<char>) -> ApiRequestModel {
    req.header("user-agent"@, "Quick Deploy (@kailan)"@).header("host"@, "api.fastly.com"@).header(
        "accept"@,
        "application/json"@,
    ).header("fastly-key"@, token).passing()
}

/// A request to the platform's API, prepared, with the given method and
/// address.
pub open spec fn fastly_call(method: Method, url: Seq<char>, token: Seq<char>) -> ApiRequestModel {
    fastly_prepared(bare_request(method, url, Host::FastlyApi), token)
}

/// The request for the user that the token belongs to.
pub open spec fn current_user_request(token: Seq<char>) -> ApiRequestModel {
    fastly_call(Method::Get, "https://api.fastly.com/current_user"@, token)
}

/// The request that creates a service for the slug.
pub open spec fn create_service_request(token: Seq<char>, slug: Seq<char>) -> ApiRequestModel {
    fastly_call(Method::Post, "https://api.fastly.com/service"@, token).json(
        json_text(service_request_node("wasm"@, service_name(slug))),
    )
}

/// The address of something in version 1 of a service.
pub open spec fn version_url(service_id: Seq<char>, what: Seq<char>) -> Seq<char> {
    "https://api.fastly.com/service/"@ + service_id + "/version/1"@ + what
}

/// The request that binds the slug's domain to a service.
pub open spec fn create_domain_request(
    token: Seq<char>,
    service_id: Seq<char>,
    slug: Seq<char>,
) -> ApiRequestModel {
    fastly_call(Method::Post, version_url(service_id, "/domain"@), token).json(
        json_text(domain_node(service_domain(slug))),
    )
}

/// The request that creates a backend of a service.
pub open spec fn create_backend_request(
    token: Seq<char>,
    service_id: Seq<char>,
    backend: BackendModel,
) -> ApiRequestModel {
    fastly_call(Method::Post, version_url(service_id, "/backend"@), token).json(
        json_text(backend_node(backend.name, backend.address, backend_port(backend))),
    )
}

/// The request that creates a dictionary of a service.
pub open spec fn create_dictionary_request(
    token: Seq<char>,
    service_id: Seq<char>,
    name: Seq<char>,
) -> ApiRequestModel {
    fastly_call(Method::Post, version_url(service_id, "/dictionary"@), token).json(
        json_text(dictionary_node(None, name)),
    )
}

/// The address of a dictionary's items.
pub open spec fn items_url(service_id: Seq<char>, dictionary_id: Seq<char>) -> Seq<char> {
    "https://api.fastly.com/service/"@ + service_id + "/dictionary/"@ + dictionary_id + "/items"@
}

/// The one request that creates all the given items of a dictionary.
pub open spec fn populate_request(
    token: Seq<char>,
    service_id: Seq<char>,
    dictionary_id: Seq<char>,
    pairs: Seq<(Seq<char>, Seq<char>)>,
) -> ApiRequestModel {
    fastly_call(Method::Patch, items_url(service_id, dictionary_id), token).json(
        json_text(update_node(creation_nodes(pairs))),
    )
}

/// The request for version 1 of a service.
pub open spec fn status_request(token: Seq<char>, service_id: Seq<char>) -> ApiRequestModel {
    fastly_call(Method::Get, version_url(service_id, Seq::empty()), token)
}

/// The message of a request that needs a token where there is none.
pub open spec fn no_token() -> DeployErrorModel {
    DeployErrorModel::Auth("No Fastly API token set"@)
}

/// The message of a token that the platform does not accept.
pub open spec fn not_authenticated() -> DeployErrorModel {
    DeployErrorModel::Auth("Unable to authenticate with Fastly"@)
}

/// What a request says, over views.
pub open spec fn request_outcome(r: Result<ApiRequest, DeployError>) -> Result<
    ApiRequestModel,
    DeployErrorModel,
> {
    match r {
        Ok(q) => Ok(q@),
        Err(e) => Err(e@),
    }
}

/// The user that a response to `current_user_request` reports: the user of
/// a 200, nobody on 401 and 403, an error on anything else.
pub open spec fn user_of_response(status: u16, body: Seq<char>) -> Result<
    Option<(Seq<char>, Seq<char>)>,
    DeployErrorModel,
> {
    if status == 200 {
        match json_parsed(body) {
            Err(e) => Err(DeployErrorModel::ExternalApi(e)),
            Ok(node) => match fastly_user_of(node) {
                Err(e) => Err(DeployErrorModel::ExternalApi(e)),
                Ok(user) => Ok(Some(user)),
            },
        }
    } else if status == 401 || status == 403 {
        Ok(None)
    } else {
        Err(not_authenticated())
    }
}

/// Whether version 1 of a service is active, as a response to
/// `status_request` reports it.
pub open spec fn active_of_response(status: u16, body: Seq<char>) -> Result<bool, DeployErrorModel> {
    if status == 200 {
        match json_parsed(body) {
            Err(e) => Err(DeployErrorModel::ExternalApi(e)),
            Ok(node) => match required_flag(node, "active"@) {
                Err(e) => Err(DeployErrorModel::ExternalApi(e)),
                Ok(active) => Ok(active),
            },
        }
    } else {
        Err(not_authenticated())
    }
}

/// Builds the address of something in version 1 of a service.
pub fn version_address(service_id: &str, what: &str) -> (r: String)
    ensures
        r@ == version_url(service_id@, what@),
{
    let mut url = String::from_str("https://api.fastly.com/service/");
    url.append(service_id);
    url.append("/version/1");
    url.append(what);
    url
}

impl FastlyClient {
    /// A client that holds the token.
    pub fn from_token(token: String) -> (r: FastlyClient)
        ensures
            r.token == Some(token),
    {
        FastlyClient { token: Some(token) }
    }

    /// A client without a token.
    pub fn new() -> (r: FastlyClient)
        ensures
            r.token is None,
    {
        FastlyClient { token: None }
    }

    /// Prepares a request for the platform's API. Without a token there is
    /// nothing to send.
    pub fn fastly_request(&self, req: ApiRequest) -> (r: Result<ApiRequest, DeployError>)
        ensures
            request_outcome(r) == match self.token {
                Some(token) => Ok::<ApiRequestModel, DeployErrorModel>(
                    fastly_prepared(req@, token@),
                ),
                None => Err::<ApiRequestModel, DeployErrorModel>(no_token()),
            },
    {
        match &self.token {
            None => Err(DeployError::Auth(String::from_str("No Fastly API token set"))),
            Some(token) => Ok(prepared(req, token.as_str())),
        }
    }

    /// The request for the user that the token belongs to; none where there
    /// is no token, since then nobody is logged in.
    pub fn fetch_user_request(&self) -> (r: Option<ApiRequest>)
        ensures
            match self.token {
                Some(token) => r is Some && r->0@ == current_user_request(token@),
                None => r is None,
            },
    {
        match &self.token {
            None => None,
            Some(_) => {
                let req = ApiRequest::new(
                    Method::Get,
                    String::from_str("https://api.fastly.com/current_user"),
                    Host::FastlyApi,
                );
                match self.fastly_request(req) {
                    Ok(q) => Some(q),
                    Err(_) => None,
                }
            },
        }
    }

    /// The user that the platform reports for the token: the user of a 200,
    /// nobody on 401 and 403, an error on any other status.
    pub fn fetch_user(response: &ApiResponse) -> (r: Result<Option<FastlyUser>, DeployError>)
        ensures
            match r {
                Ok(Some(u)) => user_of_response(response.status, response.body@) == Ok::<
                    Option<(Seq<char>, Seq<char>)>,
                    DeployErrorModel,
                >(Some((u.name@, u.customer_id@))),
                Ok(None) => user_of_response(response.status, response.body@) == Ok::<
                    Option<(Seq<char>, Seq<char>)>,
                    DeployErrorModel,
                >(None),
                Err(e) => user_of_response(response.status, response.body@) == Err::<
                    Option<(Seq<char>, Seq<char>)>,
                    DeployErrorModel,
                >(e@),
            },
    {
        if response.status == 200 {
            match parse_json(response.body.as_str()) {
                Err(e) => Err(DeployError::ExternalApi(e)),
                Ok(node) => match FastlyUser::from_node(&node) {
                    Err(e) => Err(DeployError::ExternalApi(e)),
                    Ok(user) => Ok(Some(user)),
                },
            }
        } else if response.status == 401 || response.status == 403 {
            Ok(None)
        } else {
            Err(DeployError::Auth(String::from_str("Unable to authenticate with Fastly")))
        }
    }

    /// The request for version 1 of a service.
    pub fn check_service_deployment_request(&self, service_id: &str) -> (r: Result<
        ApiRequest,
        DeployError,
    >)
        ensures
            request_outcome(r) == match self.token {
                Some(token) => Ok::<ApiRequestModel, DeployErrorModel>(
                    status_request(token@, service_id@),
                ),
                None => Err::<ApiRequestModel, DeployErrorModel>(no_token()),
            },
    {
        let url = version_address(service_id, "");
        proof {
            reveal_strlit("");
        }
        self.fastly_request(ApiRequest::new(Method::Get, url, Host::FastlyApi))
    }

    /// Whether version 1 of the service is active, as the response says: one
    /// poll, no waiting.
    pub fn check_service_deployment(response: &ApiResponse) -> (r: Result<bool, DeployError>)
        ensures
            match r {
                Ok(active) => active_of_response(response.status, response.body@) == Ok::<
                    bool,
                    DeployErrorModel,
                >(active),
                Err(e) => active_of_response(response.status, response.body@) == Err::<
                    bool,
                    DeployErrorModel,
                >(e@),
            },
    {
        if response.status == 200 {
            match parse_json(response.body.as_str()) {
                Err(e) => Err(DeployError::ExternalApi(e)),
                Ok(node) => match FastlyServiceStatusResponse::from_node(&node) {
                    Err(e) => Err(DeployError::ExternalApi(e)),
                    Ok(status) => Ok(status.active),
                },
            }
        } else {
            Err(DeployError::Auth(String::from_str("Unable to authenticate with Fastly")))
        }
    }
}

/// Prepares a request for the platform's API with the given token.
pub fn prepared(req: ApiRequest, token: &str) -> (r: ApiRequest)
    ensures
        r@ == fastly_prepared(req@, token@),
{
    req.with_header("user-agent", "Quick Deploy (@kailan)").with_header(
        "host",
        "api.fastly.com",
    ).with_header("accept", "application/json").with_header("fastly-key", token).with_pass(true)
}

/// Builds a prepared request with a JSON body.
fn call_with_body(method: Method, url: String, token: &str, body: &Node) -> (r: ApiRequest)
    ensures
        r@ == fastly_call(method, url@, token@).json(json_text(body@)),
{
    prepared(ApiRequest::new(method, url, Host::FastlyApi), token).with_body_json(
        render_json(body),
    )
}

/// The backend that stands in where a template declares none.
pub open spec fn loopback_backend() -> BackendModel {
    BackendModel { prompt: None, name: "127.0.0.1"@, address: "127.0.0.1"@, port: None }
}

/// The backends that are created: the declared ones, or the loopback
/// backend alone where none is declared.
pub open spec fn resolved_backends(declared: Seq<BackendModel>) -> Seq<BackendModel> {
    if declared.len() == 0 {
        Seq::empty().push(loopback_backend())
    } else {
        declared
    }
}

/// The backends that are created for the declared ones.
pub fn resolve_backends(declared: Vec<BackendSpec>) -> (r: Vec<BackendSpec>)
    ensures
        r.deep_view() == resolved_backends(declared.deep_view()),
{
    if declared.len() == 0 {
        let mut r: Vec<BackendSpec> = Vec::new();
        r.push(
            BackendSpec {
                prompt: None,
                name: String::from_str("127.0.0.1"),
                address: String::from_str("127.0.0.1"),
                port: None,
            },
        );
        r
    } else {
        declared
    }
}

/// A template that declares no backend gets exactly one: the loopback
/// address under its own name, created with port 80.
pub proof fn lemma_default_backend(declared: Seq<BackendModel>)
    requires
        declared.len() == 0,
    ensures
        resolved_backends(declared).len() == 1,
        resolved_backends(declared)[0].name == "127.0.0.1"@,
        resolved_backends(declared)[0].address == "127.0.0.1"@,
        backend_port(resolved_backends(declared)[0]) == 80,
{
}

/// Declared backends are created as they are, in declared order.
pub proof fn lemma_declared_backends(declared: Seq<BackendModel>)
    requires
        declared.len() > 0,
    ensures
        resolved_backends(declared) == declared,
{
}

/// The changes that create the items of a dictionary, each with its resolved
/// value.
pub fn resolve_items(params: &ActionParams, dictionary: &DictionarySpec) -> (r: Result<
    Vec<FastlyDictionaryItemAction>,
    DeployError,
>)
    ensures
        match r {
            Ok(v) => crate::config::resolved_pairs(params@, dictionary@.name, dictionary@.items)
                is Ok && action_nodes(v@) == creation_nodes(
                crate::config::resolved_pairs(params@, dictionary@.name, dictionary@.items)->Ok_0,
            ),
            Err(e) => crate::config::resolved_pairs(params@, dictionary@.name, dictionary@.items)
                == Err::<Seq<(Seq<char>, Seq<char>)>, DeployErrorModel>(e@),
        },
{
    let mut out: Vec<FastlyDictionaryItemAction> = Vec::new();
    let mut i: usize = 0;
    let ghost items = dictionary@.items;
    let ghost name = dictionary@.name;
    while i < dictionary.items.len()
        invariant
            i <= dictionary.items.len(),
            items == dictionary@.items,
            name == dictionary@.name,
            items.len() == dictionary.items.len(),
            crate::config::resolved_pairs(params@, name, items.take(i as int)) is Ok,
            action_nodes(out@) == creation_nodes(
                crate::config::resolved_pairs(params@, name, items.take(i as int))->Ok_0,
            ),
        decreases dictionary.items.len() - i,
    {
        proof {
            assert(items.take(i + 1).drop_last() =~= items.take(i as int));
            crate::config::lemma_resolution_stops(params@, name, items, i + 1);
        }
        let item = &dictionary.items[i];
        match item.resolve(params, dictionary.name.as_str()) {
            Ok(value) => {
                let ghost before = out@;
                let ghost pairs = crate::config::resolved_pairs(
                    params@,
                    name,
                    items.take(i as int),
                )->Ok_0;
                out.push(
                    FastlyDictionaryItemAction {
                        op: String::from_str("create"),
                        item_key: item.key.clone(),
                        item_value: value,
                    },
                );
                proof {
                    let added = item_action_node("create"@, item@.key, value@);
                    assert(action_nodes(out@) =~= action_nodes(before).push(added)) by {
                        assert forall|k: int| 0 <= k < before.len() implies out@[k] == before[k] by {}
                    }
                    assert(creation_nodes(pairs.push((item@.key, value@))) =~= creation_nodes(
                        pairs,
                    ).push(added));
                }
            },
            Err(e) => {
                return Err(e);
            },
        }
        i += 1;
    }
    assert(items.take(items.len() as int) =~= items);
    Ok(out)
}

/// Where the creation of a service stands: which call is awaited.
#[derive(Debug)]
pub enum CreationStage {
    /// The service itself.
    Service,
    /// The domain of the service.
    Domain,
    /// The backend with this index.
    Backend(usize),
    /// The dictionary with this index.
    Dictionary(usize),
    /// The items of the dictionary with this index.
    Items(usize),
    /// Everything was created.
    Finished,
    /// A step failed; what was created before it stays.
    Failed(DeployError),
}

/// A `CreationStage` over mathematical values.
pub enum CreationStageModel {
    Service,
    Domain,
    Backend(int),
    Dictionary(int),
    Items(int),
    Finished,
    Failed(DeployErrorModel),
}

impl View for CreationStage {
    type V = CreationStageModel;

    open spec fn view(&self) -> CreationStageModel {
        match self {
            CreationStage::Service => CreationStageModel::Service,
            CreationStage::Domain => CreationStageModel::Domain,
            CreationStage::Backend(i) => CreationStageModel::Backend(*i as int),
            CreationStage::Dictionary(i) => CreationStageModel::Dictionary(*i as int),
            CreationStage::Items(i) => CreationStageModel::Items(*i as int),
            CreationStage::Finished => CreationStageModel::Finished,
            CreationStage::Failed(e) => CreationStageModel::Failed(e@),
        }
    }
}

/// The creation of a service with its domain, backends and dictionaries, one
/// call after the other: each call is made once, and the first that fails
/// ends the creation with nothing undone.
#[derive(Debug)]
pub struct ServiceCreation {
    pub stage: CreationStage,
    pub token: String,
    pub slug: String,
    /// The backends to create: never empty once resolved.
    pub backends: Vec<BackendSpec>,
    pub dictionaries: Vec<DictionarySpec>,
    pub params: ActionParams,
    /// The id of the service, once it is created.
    pub service_id: String,
    /// The domain of the service, once it is created.
    pub domain: String,
    /// The id of the dictionary whose items are being created.
    pub dictionary_id: String,
}

/// A `ServiceCreation` over mathematical values.
pub struct CreationModel {
    pub stage: CreationStageModel,
    pub token: Seq<char>,
    pub slug: Seq<char>,
    pub backends: Seq<BackendModel>,
    pub dictionaries: Seq<DictionaryModel>,
    pub params: Seq<(Seq<char>, Seq<char>)>,
    pub service_id: Seq<char>,
    pub domain: Seq<char>,
    pub dictionary_id: Seq<char>,
}

impl View for ServiceCreation {
    type V = CreationModel;

    open spec fn view(&self) -> CreationModel {
        CreationModel {
            stage: self.stage@,
            token: self.token@,
            slug: self.slug@,
            backends: self.backends.deep_view(),
            dictionaries: self.dictionaries.deep_view(),
            params: self.params@,
            service_id: self.service_id@,
            domain: self.domain@,
            dictionary_id: self.dictionary_id@,
        }
    }
}

/// What the caller is to do next for a creation.
#[derive(Debug)]
pub enum CreationStep {
    /// Send this request and hand back what comes.
    Send(ApiRequest),
    /// Nothing more: the service stands, with this id and domain.
    Done(FastlyService),
    /// Nothing more: the creation failed with this error.
    Failed(DeployError),
}

/// A `CreationStep` over mathematical values.
pub enum CreationStepModel {
    Send(ApiRequestModel),
    Done { id: Seq<char>, domain: Option<Seq<char>> },
    Failed(DeployErrorModel),
}

impl View for CreationStep {
    type V = CreationStepModel;

    open spec fn view(&self) -> CreationStepModel {
        match self {
            CreationStep::Send(r) => CreationStepModel::Send(r@),
            CreationStep::Done(s) => CreationStepModel::Done {
                id: s.id@,
                domain: opt_text(s.domain),
            },
            CreationStep::Failed(e) => CreationStepModel::Failed(e@),
        }
    }
}

/// The creation ends in failure.
pub open spec fn creation_fails(c: CreationModel, e: DeployErrorModel) -> (
    CreationModel,
    CreationStepModel,
) {
    (CreationModel { stage: CreationStageModel::Failed(e), ..c }, CreationStepModel::Failed(e))
}

/// The creation turns to the dictionary with index `j`, or ends well where
/// there is none.
pub open spec fn enter_dictionary(c: CreationModel, j: int) -> (CreationModel, CreationStepModel) {
    if 0 <= j < c.dictionaries.len() {
        (
            CreationModel { stage: CreationStageModel::Dictionary(j), ..c },
            CreationStepModel::Send(
                create_dictionary_request(c.token, c.service_id, c.dictionaries[j].name),
            ),
        )
    } else {
        (
            CreationModel { stage: CreationStageModel::Finished, ..c },
            CreationStepModel::Done { id: c.service_id, domain: Some(c.domain) },
        )
    }
}

/// The creation turns to the backend with index `i`, or to the dictionaries
/// where there is none.
pub open spec fn enter_backend(c: CreationModel, i: int) -> (CreationModel, CreationStepModel) {
    if 0 <= i < c.backends.len() {
        (
            CreationModel { stage: CreationStageModel::Backend(i), ..c },
            CreationStepModel::Send(create_backend_request(c.token, c.service_id, c.backends[i])),
        )
    } else {
        enter_dictionary(c, 0)
    }
}

/// What follows the reply to the request for the service.
pub open spec fn after_service(c: CreationModel, reply: ReplyModel) -> (
    CreationModel,
    CreationStepModel,
) {
    match reply {
        ReplyModel::Response { status, body } => if status == 200 {
            match json_parsed(body) {
                Err(e) => creation_fails(c, DeployErrorModel::ExternalApi(e)),
                Ok(node) => match service_of(node) {
                    Err(e) => creation_fails(c, DeployErrorModel::ExternalApi(e)),
                    Ok(service) => (
                        CreationModel {
                            stage: CreationStageModel::Domain,
                            service_id: service.0,
                            ..c
                        },
                        CreationStepModel::Send(
                            create_domain_request(c.token, service.0, c.slug),
                        ),
                    ),
                },
            }
        } else {
            creation_fails(
                c,
                DeployErrorModel::ExternalApi("Error while creating service: "@ + body),
            )
        },
        ReplyModel::Failure(m) => creation_fails(c, DeployErrorModel::ExternalApi(m)),
        ReplyModel::Sealed(_) => creation_fails(
            c,
            DeployErrorModel::Precondition(unexpected_reply()),
        ),
    }
}

/// What follows the reply to the request for the domain.
pub open spec fn after_domain(c: CreationModel, reply: ReplyModel) -> (
    CreationModel,
    CreationStepModel,
) {
    match reply {
        ReplyModel::Response { status, body } => if !is_success(status) {
            creation_fails(c, DeployErrorModel::ExternalApi(body))
        } else {
            match json_parsed(body) {
                Err(e) => creation_fails(
                    c,
                    DeployErrorModel::ExternalApi("Error while creating domain: "@ + e),
                ),
                Ok(node) => match required_text(node, "name"@) {
                    Err(e) => creation_fails(
                        c,
                        DeployErrorModel::ExternalApi("Error while creating domain: "@ + e),
                    ),
                    Ok(name) => enter_backend(CreationModel { domain: name, ..c }, 0),
                },
            }
        },
        ReplyModel::Failure(m) => creation_fails(c, DeployErrorModel::ExternalApi(m)),
        ReplyModel::Sealed(_) => creation_fails(
            c,
            DeployErrorModel::Precondition(unexpected_reply()),
        ),
    }
}

/// What follows the reply to the request for the backend with index `i`:
/// the next backend, unless the platform refused this one.
pub open spec fn after_backend(c: CreationModel, i: int, reply: ReplyModel) -> (
    CreationModel,
    CreationStepModel,
) {
    match reply {
        ReplyModel::Response { status, body } => if is_success(status) {
            enter_backend(c, i + 1)
        } else {
            creation_fails(c, DeployErrorModel::ExternalApi(body))
        },
        ReplyModel::Failure(m) => creation_fails(c, DeployErrorModel::ExternalApi(m)),
        ReplyModel::Sealed(_) => creation_fails(
            c,
            DeployErrorModel::Precondition(unexpected_reply()),
        ),
    }
}

/// What follows the reply to the request for the dictionary with index `j`:
/// the one request for all its items, unless one of them has no value. The
/// dictionary exists by then and stays.
pub open spec fn after_dictionary(c: CreationModel, j: int, reply: ReplyModel) -> (
    CreationModel,
    CreationStepModel,
) {
    match reply {
        ReplyModel::Response { status, body } => if !is_success(status) {
            creation_fails(c, DeployErrorModel::ExternalApi(body))
        } else if !(0 <= j < c.dictionaries.len()) {
            enter_dictionary(c, j)
        } else {
            match json_parsed(body) {
                Err(e) => creation_fails(c, DeployErrorModel::ExternalApi(e)),
                Ok(node) => match dictionary_of_json(node) {
                    Err(e) => creation_fails(c, DeployErrorModel::ExternalApi(e)),
                    Ok((None, _)) => creation_fails(
                        c,
                        DeployErrorModel::ExternalApi(crate::tree::bad_field("id"@)),
                    ),
                    Ok((Some(id), _)) => match crate::config::resolved_pairs(
                        c.params,
                        c.dictionaries[j].name,
                        c.dictionaries[j].items,
                    ) {
                        Err(e) => creation_fails(c, e),
                        Ok(pairs) => (
                            CreationModel {
                                stage: CreationStageModel::Items(j),
                                dictionary_id: id,
                                ..c
                            },
                            CreationStepModel::Send(
                                populate_request(c.token, c.service_id, id, pairs),
                            ),
                        ),
                    },
                },
            }
        },
        ReplyModel::Failure(m) => creation_fails(c, DeployErrorModel::ExternalApi(m)),
        ReplyModel::Sealed(_) => creation_fails(
            c,
            DeployErrorModel::Precondition(unexpected_reply()),
        ),
    }
}

/// The message for items that could not be sent.
pub open spec fn items_failure(name: Seq<char>, message: Seq<char>) -> Seq<char> {
    "Error while adding items to dictionary "@ + name + ": "@ + message
}

/// The name of the dictionary with index `j`, or nothing where there is
/// none.
pub open spec fn dictionary_name(c: CreationModel, j: int) -> Seq<char> {
    if 0 <= j < c.dictionaries.len() {
        c.dictionaries[j].name
    } else {
        Seq::empty()
    }
}

/// What follows the reply to the request for the items of the dictionary
/// with index `j`: the next dictionary, unless the platform refused the
/// items.
pub open spec fn after_items(c: CreationModel, j: int, reply: ReplyModel) -> (
    CreationModel,
    CreationStepModel,
) {
    match reply {
        ReplyModel::Response { status, body } => if is_success(status) {
            enter_dictionary(c, j + 1)
        } else {
            creation_fails(c, DeployErrorModel::ExternalApi(body))
        },
        ReplyModel::Failure(m) => creation_fails(
            c,
            DeployErrorModel::ExternalApi(items_failure(dictionary_name(c, j), m)),
        ),
        ReplyModel::Sealed(_) => creation_fails(
            c,
            DeployErrorModel::Precondition(unexpected_reply()),
        ),
    }
}

/// The creation after a reply, and what the caller is to do next.
pub open spec fn creation_next(c: CreationModel, reply: ReplyModel) -> (
    CreationModel,
    CreationStepModel,
) {
    match c.stage {
        CreationStageModel::Service => after_service(c, reply),
        CreationStageModel::Domain => after_domain(c, reply),
        CreationStageModel::Backend(i) => after_backend(c, i, reply),
        CreationStageModel::Dictionary(j) => after_dictionary(c, j, reply),
        CreationStageModel::Items(j) => after_items(c, j, reply),
        CreationStageModel::Finished => (
            c,
            CreationStepModel::Done { id: c.service_id, domain: Some(c.domain) },
        ),
        CreationStageModel::Failed(e) => (c, CreationStepModel::Failed(e)),
    }
}

/// The creation as it begins, and its first step: the request for the
/// service, or the failure where there is no token.
pub open spec fn creation_begun(
    token: Option<Seq<char>>,
    slug: Seq<char>,
    backends: Seq<BackendModel>,
    dictionaries: Seq<DictionaryModel>,
    params: Seq<(Seq<char>, Seq<char>)>,
) -> (CreationModel, CreationStepModel) {
    let c = CreationModel {
        stage: CreationStageModel::Service,
        token: match token {
            Some(t) => t,
            None => Seq::empty(),
        },
        slug,
        backends: resolved_backends(backends),
        dictionaries,
        params,
        service_id: Seq::empty(),
        domain: Seq::empty(),
        dictionary_id: Seq::empty(),
    };
    match token {
        Some(t) => (c, CreationStepModel::Send(create_service_request(t, slug))),
        None => creation_fails(c, no_token()),
    }
}

impl ServiceCreation {
    fn fail(&mut self, error: DeployError) -> (step: CreationStep)
        ensures
            (final(self)@, step@) == creation_fails(old(self)@, error@),
    {
        self.stage = CreationStage::Failed(error.duplicate());
        CreationStep::Failed(error)
    }

    fn go_to_dictionary(&mut self, j: usize) -> (step: CreationStep)
        ensures
            (final(self)@, step@) == enter_dictionary(old(self)@, j as int),
    {
        if j < self.dictionaries.len() {
            let body = FastlyDictionary {
                id: None,
                name: self.dictionaries[j].name.clone(),
            }.to_node();
            let request = call_with_body(
                Method::Post,
                version_address(self.service_id.as_str(), "/dictionary"),
                self.token.as_str(),
                &body,
            );
            self.stage = CreationStage::Dictionary(j);
            CreationStep::Send(request)
        } else {
            self.stage = CreationStage::Finished;
            CreationStep::Done(
                FastlyService { id: self.service_id.clone(), domain: Some(self.domain.clone()) },
            )
        }
    }

    fn go_to_backend(&mut self, i: usize) -> (step: CreationStep)
        ensures
            (final(self)@, step@) == enter_backend(old(self)@, i as int),
    {
        if i < self.backends.len() {
            let body = FastlyBackend::from_spec(&self.backends[i]).to_node();
            let request = call_with_body(
                Method::Post,
                version_address(self.service_id.as_str(), "/backend"),
                self.token.as_str(),
                &body,
            );
            self.stage = CreationStage::Backend(i);
            CreationStep::Send(request)
        } else {
            self.go_to_dictionary(0)
        }
    }

    fn unexpected(&mut self) -> (step: CreationStep)
        ensures
            (final(self)@, step@) == creation_fails(
                old(self)@,
                DeployErrorModel::Precondition(unexpected_reply()),
            ),
    {
        self.fail(
            DeployError::Precondition(
                String::from_str("The reply does not belong to the step in progress"),
            ),
        )
    }

    fn on_service(&mut self, reply: Reply) -> (step: CreationStep)
        ensures
            (final(self)@, step@) == after_service(old(self)@, reply@),
    {
        match reply {
            Reply::Response(response) => {
                if response.status == 200 {
                    match parse_json(response.body.as_str()) {
                        Err(e) => self.fail(DeployError::ExternalApi(e)),
                        Ok(node) => match FastlyService::from_node(&node) {
                            Err(e) => self.fail(DeployError::ExternalApi(e)),
                            Ok(service) => {
                                let name = join_text(self.slug.as_str(), ".edgecompute.app");
                                let body = FastlyDomain { name }.to_node();
                                let request = call_with_body(
                                    Method::Post,
                                    version_address(service.id.as_str(), "/domain"),
                                    self.token.as_str(),
                                    &body,
                                );
                                self.service_id = service.id;
                                self.stage = CreationStage::Domain;
                                CreationStep::Send(request)
                            },
                        },
                    }
                } else {
                    self.fail(
                        DeployError::ExternalApi(
                            join_text("Error while creating service: ", response.body.as_str()),
                        ),
                    )
                }
            },
            Reply::Failure(m) => self.fail(DeployError::ExternalApi(m)),
            Reply::Sealed(_) => self.unexpected(),
        }
    }

    fn on_domain(&mut self, reply: Reply) -> (step: CreationStep)
        ensures
            (final(self)@, step@) == after_domain(old(self)@, reply@),
    {
        match reply {
            Reply::Response(response) => {
                if !response.is_success() {
                    return self.fail(DeployError::ExternalApi(response.body));
                }
                match parse_json(response.body.as_str()) {
                    Err(e) => self.fail(
                        DeployError::ExternalApi(
                            join_text("Error while creating domain: ", e.as_str()),
                        ),
                    ),
                    Ok(node) => match FastlyDomain::from_node(&node) {
                        Err(e) => self.fail(
                            DeployError::ExternalApi(
                                join_text("Error while creating domain: ", e.as_str()),
                            ),
                        ),
                        Ok(domain) => {
                            self.domain = domain.name;
                            self.go_to_backend(0)
                        },
                    },
                }
            },
            Reply::Failure(m) => self.fail(DeployError::ExternalApi(m)),
            Reply::Sealed(_) => self.unexpected(),
        }
    }

    fn on_backend(&mut self, i: usize, reply: Reply) -> (step: CreationStep)
        ensures
            (final(self)@, step@) == after_backend(old(self)@, i as int, reply@),
    {
        match reply {
            Reply::Response(response) => {
                if !response.is_success() {
                    self.fail(DeployError::ExternalApi(response.body))
                } else if i < self.backends.len() {
                    self.go_to_backend(i + 1)
                } else {
                    self.go_to_dictionary(0)
                }
            },
            Reply::Failure(m) => self.fail(DeployError::ExternalApi(m)),
            Reply::Sealed(_) => self.unexpected(),
        }
    }

    fn on_dictionary(&mut self, j: usize, reply: Reply) -> (step: CreationStep)
        ensures
            (final(self)@, step@) == after_dictionary(old(self)@, j as int, reply@),
    {
        match reply {
            Reply::Response(response) => {
                if !response.is_success() {
                    return self.fail(DeployError::ExternalApi(response.body));
                }
                if j >= self.dictionaries.len() {
                    return self.go_to_dictionary(j);
                }
                match parse_json(response.body.as_str()) {
                    Err(e) => self.fail(DeployError::ExternalApi(e)),
                    Ok(node) => match FastlyDictionary::from_node(&node) {
                        Err(e) => self.fail(DeployError::ExternalApi(e)),
                        Ok(created) => match created.id {
                            None => self.fail(
                                DeployError::ExternalApi(crate::tree::bad_field_message("id")),
                            ),
                            Some(id) => match resolve_items(&self.params, &self.dictionaries[j]) {
                                Err(e) => self.fail(e),
                                Ok(items) => {
                                    let body = FastlyDictionaryUpdateRequest { items }.to_node();
                                    let mut url = String::from_str(
                                        "https://api.fastly.com/service/",
                                    );
                                    url.append(self.service_id.as_str());
                                    url.append("/dictionary/");
                                    url.append(id.as_str());
                                    url.append("/items");
                                    let request = call_with_body(
                                        Method::Patch,
                                        url,
                                        self.token.as_str(),
                                        &body,
                                    );
                                    self.dictionary_id = id;
                                    self.stage = CreationStage::Items(j);
                                    CreationStep::Send(request)
                                },
                            },
                        },
                    },
                }
            },
            Reply::Failure(m) => self.fail(DeployError::ExternalApi(m)),
            Reply::Sealed(_) => self.unexpected(),
        }
    }

    fn on_items(&mut self, j: usize, reply: Reply) -> (step: CreationStep)
        ensures
            (final(self)@, step@) == after_items(old(self)@, j as int, reply@),
    {
        match reply {
            Reply::Response(response) => {
                if !response.is_success() {
                    self.fail(DeployError::ExternalApi(response.body))
                } else if j < self.dictionaries.len() {
                    self.go_to_dictionary(j + 1)
                } else {
                    self.go_to_dictionary(j)
                }
            },
            Reply::Failure(m) => {
                let mut message = String::from_str("Error while adding items to dictionary ");
                if j < self.dictionaries.len() {
                    message.append(self.dictionaries[j].name.as_str());
                }
                message.append(": ");
                message.append(m.as_str());
                proof {
                    assert(dictionary_name(self@, j as int) == if j < self.dictionaries.len() {
                        self.dictionaries[j as int].name@
                    } else {
                        Seq::<char>::empty()
                    });
                }
                self.fail(DeployError::ExternalApi(message))
            },
            Reply::Sealed(_) => self.unexpected(),
        }
    }

    /// Takes the reply to the step in progress and says what to do next.
    pub fn advance(&mut self, reply: Reply) -> (step: CreationStep)
        ensures
            (final(self)@, step@) == creation_next(old(self)@, reply@),
    {
        match &self.stage {
            CreationStage::Service => self.on_service(reply),
            CreationStage::Domain => self.on_domain(reply),
            CreationStage::Backend(i) => {
                let i = *i;
                self.on_backend(i, reply)
            },
            CreationStage::Dictionary(j) => {
                let j = *j;
                self.on_dictionary(j, reply)
            },
            CreationStage::Items(j) => {
                let j = *j;
                self.on_items(j, reply)
            },
            CreationStage::Finished => CreationStep::Done(
                FastlyService { id: self.service_id.clone(), domain: Some(self.domain.clone()) },
            ),
            CreationStage::Failed(e) => CreationStep::Failed(e.duplicate()),
        }
    }
}

impl FastlyClient {
    /// Begins the creation of a service named after `slug`, with what
    /// `deploy` declares and the user submitted. The first step is the
    /// request for the service; without a token the creation fails at once
    /// and nothing is sent.
    pub fn create_service(&self, slug: &str, deploy: DeployConfig) -> (r: (
        ServiceCreation,
        CreationStep,
    ))
        ensures
            (r.0@, r.1@) == creation_begun(
                opt_text(self.token),
                slug@,
                deploy.spec@.backends,
                deploy.spec@.dictionaries,
                deploy.params@,
            ),
    {
        let backends = resolve_backends(deploy.spec.backends);
        let mut creation = ServiceCreation {
            stage: CreationStage::Service,
            token: String::new(),
            slug: String::from_str(slug),
            backends,
            dictionaries: deploy.spec.dictionaries,
            params: deploy.params,
            service_id: String::new(),
            domain: String::new(),
            dictionary_id: String::new(),
        };
        match &self.token {
            None => {
                let step = creation.fail(
                    DeployError::Auth(String::from_str("No Fastly API token set")),
                );
                (creation, step)
            },
            Some(token) => {
                creation.token = token.clone();
                let body = FastlyServiceRequest {
                    service_type: String::from_str("wasm"),
                    name: join_text(slug, " via Quick Deploy"),
                }.to_node();
                let request = call_with_body(
                    Method::Post,
                    String::from_str("https://api.fastly.com/service"),
                    token.as_str(),
                    &body,
                );
                (creation, CreationStep::Send(request))
            },
        }
    }
}

impl AuthParams {
    /// Reads the form with which a token is submitted: its field `token`.
    pub fn from_form(form: &ActionParams) -> (r: Option<AuthParams>)
        ensures
            match r {
                Some(p) => crate::config::param_value(form@, "token"@) == Some(p.token@),
                None => crate::config::param_value(form@, "token"@) is None,
            },
    {
        match form.get("token") {
            Some(token) => Some(AuthParams { token: token.clone() }),
            None => None,
        }
    }
}

/// A reply without success ends the creation: whichever call was awaited,
/// the creation fails with an error of the platform that carries the body,
/// and nothing more is sent.
pub proof fn lemma_refused_reply_ends_creation(c: CreationModel, status: u16, body: Seq<char>)
    requires
        !is_success(status),
        !(c.stage is Finished),
        !(c.stage is Failed),
    ensures
        creation_next(c, ReplyModel::Response { status, body }).1 is Failed,
        creation_next(c, ReplyModel::Response { status, body }).0.stage is Failed,
        c.stage is Service ==> creation_next(c, ReplyModel::Response { status, body }).1
            == CreationStepModel::Failed(
            DeployErrorModel::ExternalApi("Error while creating service: "@ + body),
        ),
        !(c.stage is Service) ==> creation_next(c, ReplyModel::Response { status, body }).1
            == CreationStepModel::Failed(DeployErrorModel::ExternalApi(body)),
{
}

/// A creation that ends well carries the domain of the service.
pub proof fn lemma_finished_creation_has_domain(c: CreationModel, reply: ReplyModel)
    requires
        creation_next(c, reply).1 is Done,
    ensures
        creation_next(c, reply).1->Done_domain is Some,
{
}

} // verus!
