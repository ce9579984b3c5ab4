use vstd::prelude::*;
use vstd::string::*;
use crate::encoding::{
    armor, armored, base64_decoded, base64_text, decodable_length, decode_bytes, encode_bytes,
    text_encodable, unarmor, unarmored, base64_encodable,
};
use crate::error::{DeployError, DeployErrorModel};
use crate::http::{
    bare_request, is_success, ApiRequest, ApiRequestModel, ApiResponse, Host, Method,
};
use crate::json::{json_parsed, json_text, parse_json, render_json};
use crate::text::{join_text, opt_text, remove_char, without};
use crate::tree::{
    bad_field, bad_field_message, field, optional_text, required_flag, required_i32,
    required_text, Node, NodeModel, Record,
};

verus! {

/// A repository by name with owner: `owner/name`.
pub type GitHubNWO = String;

/// The client of the source-control platform: the application's own
/// credentials and, once the user has logged in, the user's access token.
#[derive(Debug)]
pub struct GitHubClient {
    pub client_id: String,
    pub client_secret: String,
    pub user_access_token: Option<String>,
}

/// A file of a repository: where it is, what it holds as text, and the hash
/// of the content that was read, which an update must present.
#[derive(Debug)]
pub struct GitHubFile {
    pub path: String,
    pub content: String,
    pub sha: String,
}

/// A user of the platform.
#[derive(Debug)]
pub struct GitHubUser {
    pub login: String,
    pub name: Option<String>,
}

/// A repository as the platform reports it.
#[derive(Debug)]
pub struct GitHubRepository {
    pub name: String,
    pub default_branch: String,
    pub owner: GitHubUser,
    pub forks_count: i32,
    pub stargazers_count: i32,
    pub is_template: bool,
}

/// The query of the callback that ends the authorization handshake.
#[derive(Debug)]
pub struct AuthParams {
    pub code: String,
}

/// The key under which a repository accepts secrets, and the key's id.
#[derive(Debug)]
pub struct PublicKeyResponse {
    pub key: String,
    pub key_id: String,
}

/// The body of the request that stores a secret.
#[derive(Debug)]
pub struct CreateSecretRequest {
    pub encrypted_value: String,
    pub key_id: String,
}

/// The body of the request that writes a file.
#[derive(Debug)]
pub struct FileUpdateRequest {
    pub content: String,
    pub message: String,
    pub sha: String,
}

/// The body of the request that exchanges a code for an access token.
#[derive(Debug)]
pub struct AccessTokenRequest {
    pub client_id: String,
    pub client_secret: String,
    pub code: String,
}

/// A `GitHubUser` over sequences of characters.
pub struct UserModel {
    pub login: Seq<char>,
    pub name: Option<Seq<char>>,
}

/// A `GitHubRepository` over mathematical values.
pub struct RepositoryModel {
    pub name: Seq<char>,
    pub default_branch: Seq<char>,
    pub owner: UserModel,
    pub forks_count: int,
    pub stargazers_count: int,
    pub is_template: bool,
}

/// A `GitHubFile` over sequences of characters.
pub struct FileModel {
    pub path: Seq<char>,
    pub content: Seq<char>,
    pub sha: Seq<char>,
}

/// A `GitHubClient` over sequences of characters.
pub struct ClientModel {
    pub client_id: Seq<char>,
    pub client_secret: Seq<char>,
    pub user_access_token: Option<Seq<char>>,
}

impl View for GitHubUser {
    type V = UserModel;

    open spec fn view(&self) -> UserModel {
        UserModel { login: self.login@, name: opt_text(self.name) }
    }
}

impl View for GitHubRepository {
    type V = RepositoryModel;

    open spec fn view(&self) -> RepositoryModel {
        RepositoryModel {
            name: self.name@,
            default_branch: self.default_branch@,
            owner: self.owner@,
            forks_count: self.forks_count as int,
            stargazers_count: self.stargazers_count as int,
            is_template: self.is_template,
        }
    }
}

impl View for GitHubFile {
    type V = FileModel;

    open spec fn view(&self) -> FileModel {
        FileModel { path: self.path@, content: self.content@, sha: self.sha@ }
    }
}

impl View for GitHubClient {
    type V = ClientModel;

    open spec fn view(&self) -> ClientModel {
        ClientModel {
            client_id: self.client_id@,
            client_secret: self.client_secret@,
            user_access_token: opt_text(self.user_access_token),
        }
    }
}

/// A request as the platform wants it: the headers that every request to it
/// carries, and, for a logged-in user, the access token and no caching.
pub open spec fn github_prepared(req: ApiRequestModel, token: Option<Seq<char>>) -> ApiRequestModel {
    let base = req.header("user-agent"@, "Quick Deploy (@kailan)"@).header(
        "accept"@,
        "application/vnd.github.baptiste-preview+json"@,
    );
    match token {
        Some(t) => base.header("authorization"@, "token "@ + t).passing(),
        None => base,
    }
}

/// The address to which a user is sent to authorize the application.
pub open spec fn authorize_url(client_id: Seq<char>) -> Seq<char> {
    "https://github.com/login/oauth/authorize?client_id="@ + client_id
        + "&scope=repo%20workflow"@
}

/// The address of something in a repository.
pub open spec fn repo_url(nwo: Seq<char>, what: Seq<char>) -> Seq<char> {
    "https://api.github.com/repos/"@ + nwo + what
}

/// The body that exchanges a code for an access token.
pub open spec fn access_token_node(
    client_id: Seq<char>,
    client_secret: Seq<char>,
    code: Seq<char>,
) -> NodeModel {
    NodeModel::Table(
        Seq::empty().push(("client_id"@, NodeModel::Text(client_id))).push(
            ("client_secret"@, NodeModel::Text(client_secret)),
        ).push(("code"@, NodeModel::Text(code))),
    )
}

/// The body that names a repository to generate.
pub open spec fn fork_node(name: Seq<char>) -> NodeModel {
    NodeModel::Table(Seq::empty().push(("name"@, NodeModel::Text(name))))
}

/// The body that writes a file.
pub open spec fn file_update_node(content: Seq<char>, message: Seq<char>, sha: Seq<char>) -> NodeModel {
    NodeModel::Table(
        Seq::empty().push(("content"@, NodeModel::Text(content))).push(
            ("message"@, NodeModel::Text(message)),
        ).push(("sha"@, NodeModel::Text(sha))),
    )
}

/// The body that stores a secret.
pub open spec fn secret_node(encrypted_value: Seq<char>, key_id: Seq<char>) -> NodeModel {
    NodeModel::Table(
        Seq::empty().push(("encrypted_value"@, NodeModel::Text(encrypted_value))).push(
            ("key_id"@, NodeModel::Text(key_id)),
        ),
    )
}

/// The request that exchanges a code for an access token.
pub open spec fn access_token_request(client: ClientModel, code: Seq<char>) -> ApiRequestModel {
    github_prepared(
        bare_request(Method::Post, "https://github.com/login/oauth/access_token"@, Host::GitHub),
        client.user_access_token,
    ).passing().json(json_text(access_token_node(client.client_id, client.client_secret, code)))
}

/// The request for the logged-in user.
pub open spec fn user_request(client: ClientModel) -> ApiRequestModel {
    github_prepared(
        bare_request(Method::Get, "https://api.github.com/user"@, Host::GitHubApi),
        client.user_access_token,
    )
}

/// The request for a repository; the answer may be cached for three hours.
pub open spec fn repository_request(client: ClientModel, nwo: Seq<char>) -> ApiRequestModel {
    github_prepared(
        bare_request(Method::Get, repo_url(nwo, Seq::empty()), Host::GitHubApi),
        client.user_access_token,
    ).cached_for(10800)
}

/// The request that generates a repository named `dst_name` from the
/// template `nwo`.
pub open spec fn fork_request(client: ClientModel, nwo: Seq<char>, dst_name: Seq<char>) -> ApiRequestModel {
    github_prepared(
        bare_request(Method::Post, repo_url(nwo, "/generate"@), Host::GitHubApi),
        client.user_access_token,
    ).passing().json(json_text(fork_node(dst_name)))
}

/// The request that enables the deploy workflow of a repository.
pub open spec fn enable_actions_request(client: ClientModel, nwo: Seq<char>) -> ApiRequestModel {
    github_prepared(
        bare_request(
            Method::Put,
            repo_url(nwo, "/actions/workflows/deploy/enable"@),
            Host::GitHubApi,
        ).passing(),
        client.user_access_token,
    )
}

/// The request for a file of a repository.
pub open spec fn file_request(client: ClientModel, nwo: Seq<char>, path: Seq<char>) -> ApiRequestModel {
    github_prepared(
        bare_request(Method::Get, repo_url(nwo, "/contents/"@ + path), Host::GitHubApi),
        client.user_access_token,
    )
}

/// The message of the commit that writes the manifest.
pub open spec fn commit_message() -> Seq<char> {
    "Service provisioning via deploy.edgecompute.app"@
}

/// The request that writes `content` to the place of `file`, on condition
/// that the file still has the hash that was read.
pub open spec fn upsert_request(
    client: ClientModel,
    nwo: Seq<char>,
    file: FileModel,
    content: Seq<char>,
) -> ApiRequestModel {
    github_prepared(
        bare_request(Method::Put, repo_url(nwo, "/contents/"@ + file.path), Host::GitHubApi),
        client.user_access_token,
    ).passing().json(json_text(file_update_node(armored(content), commit_message(), file.sha)))
}

/// The request for the key under which a repository accepts secrets.
pub open spec fn public_key_request(client: ClientModel, nwo: Seq<char>) -> ApiRequestModel {
    github_prepared(
        bare_request(
            Method::Get,
            repo_url(nwo, "/actions/secrets/public-key"@),
            Host::GitHubApi,
        ),
        client.user_access_token,
    )
}

/// The request that stores the sealed secret `sealed` under the name `key`.
pub open spec fn secret_request(
    client: ClientModel,
    nwo: Seq<char>,
    key: Seq<char>,
    key_id: Seq<char>,
    sealed: Seq<u8>,
) -> ApiRequestModel {
    github_prepared(
        bare_request(Method::Put, repo_url(nwo, "/actions/secrets/"@ + key), Host::GitHubApi),
        client.user_access_token,
    ).passing().json(json_text(secret_node(base64_text(sealed), key_id)))
}

/// The access token that a response to `access_token_request` hands out. A
/// response without success fails with its body as it came.
pub open spec fn access_token_of_response(status: u16, body: Seq<char>) -> Result<
    Seq<char>,
    DeployErrorModel,
> {
    if !is_success(status) {
        Err(DeployErrorModel::ExternalApi(body))
    } else {
        match json_parsed(body) {
            Err(e) => Err(DeployErrorModel::Auth(e)),
            Ok(node) => match required_text(node, "access_token"@) {
                Err(e) => Err(DeployErrorModel::Auth(e)),
                Ok(token) => Ok(token),
            },
        }
    }
}

/// The user that a JSON document describes.
pub open spec fn user_of(node: NodeModel) -> Result<UserModel, Seq<char>> {
    match (required_text(node, "login"@), optional_text(node, "name"@)) {
        (Ok(login), Ok(name)) => Ok(UserModel { login, name }),
        (Err(e), _) => Err(e),
        (_, Err(e)) => Err(e),
    }
}

/// The user under `key` of a JSON document.
pub open spec fn user_at(node: NodeModel, key: Seq<char>) -> Result<UserModel, Seq<char>> {
    match field(node, key) {
        Some(owner) => user_of(owner),
        None => Err(bad_field(key)),
    }
}

/// The repository that a JSON document describes.
pub open spec fn repository_of(node: NodeModel) -> Result<RepositoryModel, Seq<char>> {
    match (
        required_text(node, "name"@),
        required_text(node, "default_branch"@),
        user_at(node, "owner"@),
        required_i32(node, "forks_count"@),
        required_i32(node, "stargazers_count"@),
        required_flag(node, "is_template"@),
    ) {
        (
            Ok(name),
            Ok(default_branch),
            Ok(owner),
            Ok(forks_count),
            Ok(stargazers_count),
            Ok(is_template),
        ) => Ok(
            RepositoryModel {
                name,
                default_branch,
                owner,
                forks_count,
                stargazers_count,
                is_template,
            },
        ),
        (Err(e), _, _, _, _, _) => Err(e),
        (_, Err(e), _, _, _, _) => Err(e),
        (_, _, Err(e), _, _, _) => Err(e),
        (_, _, _, Err(e), _, _) => Err(e),
        (_, _, _, _, Err(e), _) => Err(e),
        (_, _, _, _, _, Err(e)) => Err(e),
    }
}

/// The logged-in user that a response to `user_request` reports: nobody on
/// 401 and 403, so that a credential that ran out does not fail the page.
pub open spec fn user_of_response(status: u16, body: Seq<char>) -> Result<
    Option<UserModel>,
    DeployErrorModel,
> {
    if status == 401 || status == 403 {
        Ok(None)
    } else {
        match json_parsed(body) {
            Err(e) => Err(
                DeployErrorModel::ExternalApi(
                    "Unable to fetch logged in user from GitHub: "@ + e,
                ),
            ),
            Ok(node) => match user_of(node) {
                Err(e) => Err(
                    DeployErrorModel::ExternalApi(
                        "Unable to fetch logged in user from GitHub: "@ + e,
                    ),
                ),
                Ok(user) => Ok(Some(user)),
            },
        }
    }
}

/// The repository that a response to `repository_request` reports: none on
/// 404.
pub open spec fn repository_of_response(nwo: Seq<char>, status: u16, body: Seq<char>) -> Result<
    Option<RepositoryModel>,
    DeployErrorModel,
> {
    if status == 200 {
        match json_parsed(body) {
            Err(e) => Err(DeployErrorModel::ExternalApi(e)),
            Ok(node) => match repository_of(node) {
                Err(e) => Err(DeployErrorModel::ExternalApi(e)),
                Ok(repo) => Ok(Some(repo)),
            },
        }
    } else if status == 404 {
        Ok(None)
    } else {
        Err(
            DeployErrorModel::ExternalApi(
                "Unable to fetch GitHub repository "@ + nwo + ": "@ + body,
            ),
        )
    }
}

/// The repository that a response to `fork_request` reports as created.
pub open spec fn fork_of_response(nwo: Seq<char>, status: u16, body: Seq<char>) -> Result<
    RepositoryModel,
    DeployErrorModel,
> {
    if status == 201 {
        match json_parsed(body) {
            Err(e) => Err(DeployErrorModel::ExternalApi(e)),
            Ok(node) => match repository_of(node) {
                Err(e) => Err(DeployErrorModel::ExternalApi(e)),
                Ok(repo) => Ok(repo),
            },
        }
    } else {
        Err(
            DeployErrorModel::ExternalApi(
                "Unable to fork GitHub repository "@ + nwo + ": "@ + body,
            ),
        )
    }
}

/// The file that a JSON document describes: its content is carried as
/// base64 with line breaks, and is read as text.
pub open spec fn file_of(node: NodeModel) -> Result<FileModel, Seq<char>> {
    match (
        required_text(node, "path"@),
        required_text(node, "content"@),
        required_text(node, "sha"@),
    ) {
        (Ok(path), Ok(content), Ok(sha)) => {
            let packed = without(content, '\n');
            if decodable_length(packed) && unarmored(packed) is Some {
                Ok(FileModel { path, content: unarmored(packed)->0, sha })
            } else {
                Err(bad_field("content"@))
            }
        },
        (Err(e), _, _) => Err(e),
        (_, Err(e), _) => Err(e),
        (_, _, Err(e)) => Err(e),
    }
}

/// The file that a response to `file_request` reports: none on 404.
pub open spec fn file_of_response(
    nwo: Seq<char>,
    path: Seq<char>,
    status: u16,
    body: Seq<char>,
) -> Result<Option<FileModel>, DeployErrorModel> {
    if status == 200 {
        match json_parsed(body) {
            Err(e) => Err(DeployErrorModel::ExternalApi(e)),
            Ok(node) => match file_of(node) {
                Err(e) => Err(DeployErrorModel::ExternalApi(e)),
                Ok(file) => Ok(Some(file)),
            },
        }
    } else if status == 404 {
        Ok(None)
    } else {
        Err(
            DeployErrorModel::ExternalApi(
                "Unable to fetch "@ + path + " file from GitHub repository "@ + nwo + ": "@ + body,
            ),
        )
    }
}

/// The key that a JSON document describes: its 32 bytes and its id.
pub open spec fn public_key_of(node: NodeModel) -> Result<(Seq<u8>, Seq<char>), Seq<char>> {
    match (required_text(node, "key"@), required_text(node, "key_id"@)) {
        (Ok(key), Ok(key_id)) => if decodable_length(key) && base64_decoded(key) is Some
            && base64_decoded(key)->0.len() == 32 {
            Ok((base64_decoded(key)->0, key_id))
        } else {
            Err(bad_field("key"@))
        },
        (Err(e), _) => Err(e),
        (_, Err(e)) => Err(e),
    }
}

/// The key that a response to `public_key_request` reports. A response
/// without success fails with its body as it came.
pub open spec fn public_key_of_response(status: u16, body: Seq<char>) -> Result<
    (Seq<u8>, Seq<char>),
    DeployErrorModel,
> {
    if !is_success(status) {
        Err(DeployErrorModel::ExternalApi(body))
    } else {
        match json_parsed(body) {
            Err(e) => Err(DeployErrorModel::ExternalApi(e)),
            Ok(node) => match public_key_of(node) {
                Err(e) => Err(DeployErrorModel::ExternalApi(e)),
                Ok(key) => Ok(key),
            },
        }
    }
}

/// Whether a response to `enable_actions_request` reports the workflow as
/// enabled. A response without success fails with its body as it came.
pub open spec fn actions_enabled(status: u16, body: Seq<char>) -> Result<(), DeployErrorModel> {
    if is_success(status) {
        Ok(())
    } else {
        Err(DeployErrorModel::ExternalApi(body))
    }
}

/// Whether a response to `secret_request` reports the secret as stored.
pub open spec fn secret_stored(status: u16, body: Seq<char>) -> Result<(), DeployErrorModel> {
    if status == 201 || status == 204 {
        Ok(())
    } else {
        Err(DeployErrorModel::ExternalApi("Unable to create secret: "@ + body))
    }
}

/// Whether a response to `upsert_request` reports the file as written. A
/// file that changed since it was read is refused by the platform, and so
/// the write fails.
pub open spec fn file_written(status: u16, body: Seq<char>) -> Result<(), DeployErrorModel> {
    if status == 200 || status == 201 {
        Ok(())
    } else {
        Err(DeployErrorModel::ExternalApi("Unable to update file: "@ + body))
    }
}

impl GitHubUser {
    /// A copy of the user.
    pub fn duplicate(&self) -> (r: GitHubUser)
        ensures
            r@ == self@,
    {
        GitHubUser { login: self.login.clone(), name: self.name.clone() }
    }

    /// Reads a user from the JSON document of a response.
    pub fn from_node(node: &Node) -> (r: Result<GitHubUser, String>)
        ensures
            match r {
                Ok(u) => user_of(node@) == Ok::<UserModel, Seq<char>>(u@),
                Err(e) => user_of(node@) == Err::<UserModel, Seq<char>>(e@),
            },
    {
        let login = match node.text("login") {
            Ok(v) => v,
            Err(e) => {
                return Err(e);
            },
        };
        let name = match node.maybe_text("name") {
            Ok(v) => v,
            Err(e) => {
                return Err(e);
            },
        };
        Ok(GitHubUser { login, name })
    }
}

impl GitHubRepository {
    /// Reads a repository from the JSON document of a response.
    pub fn from_node(node: &Node) -> (r: Result<GitHubRepository, String>)
        ensures
            match r {
                Ok(x) => repository_of(node@) == Ok::<RepositoryModel, Seq<char>>(x@),
                Err(e) => repository_of(node@) == Err::<RepositoryModel, Seq<char>>(e@),
            },
    {
        let name = match node.text("name") {
            Ok(v) => v,
            Err(e) => {
                return Err(e);
            },
        };
        let default_branch = match node.text("default_branch") {
            Ok(v) => v,
            Err(e) => {
                return Err(e);
            },
        };
        let owner = match node.get("owner") {
            Some(o) => match GitHubUser::from_node(o) {
                Ok(v) => v,
                Err(e) => {
                    return Err(e);
                },
            },
            None => {
                return Err(bad_field_message("owner"));
            },
        };
        let forks_count = match node.int32("forks_count") {
            Ok(v) => v,
            Err(e) => {
                return Err(e);
            },
        };
        let stargazers_count = match node.int32("stargazers_count") {
            Ok(v) => v,
            Err(e) => {
                return Err(e);
            },
        };
        let is_template = match node.flag("is_template") {
            Ok(v) => v,
            Err(e) => {
                return Err(e);
            },
        };
        Ok(
            GitHubRepository {
                name,
                default_branch,
                owner,
                forks_count,
                stargazers_count,
                is_template,
            },
        )
    }
}

impl GitHubFile {
    /// Reads a file from the JSON document of a response, and its content
    /// from the base64 in which it is carried.
    pub fn from_node(node: &Node) -> (r: Result<GitHubFile, String>)
        ensures
            match r {
                Ok(x) => file_of(node@) == Ok::<FileModel, Seq<char>>(x@),
                Err(e) => file_of(node@) == Err::<FileModel, Seq<char>>(e@),
            },
    {
        let path = match node.text("path") {
            Ok(v) => v,
            Err(e) => {
                return Err(e);
            },
        };
        let carried = match node.text("content") {
            Ok(v) => v,
            Err(e) => {
                return Err(e);
            },
        };
        let sha = match node.text("sha") {
            Ok(v) => v,
            Err(e) => {
                return Err(e);
            },
        };
        let packed = remove_char(carried.as_str(), '\n');
        match unarmor(packed.as_str()) {
            Some(content) => Ok(GitHubFile { path, content, sha }),
            None => Err(bad_field_message("content")),
        }
    }
}

impl PublicKeyResponse {
    /// Reads the key and its id from the JSON document of a response.
    pub fn from_node(node: &Node) -> (r: Result<PublicKeyResponse, String>)
        ensures
            match r {
                Ok(x) => required_text(node@, "key"@) == Ok::<Seq<char>, Seq<char>>(x.key@)
                    && required_text(node@, "key_id"@) == Ok::<Seq<char>, Seq<char>>(x.key_id@),
                Err(e) => (required_text(node@, "key"@) == Err::<Seq<char>, Seq<char>>(e@)) || (
                required_text(node@, "key"@) is Ok && required_text(node@, "key_id"@) == Err::<
                    Seq<char>,
                    Seq<char>,
                >(e@)),
            },
    {
        let key = match node.text("key") {
            Ok(v) => v,
            Err(e) => {
                return Err(e);
            },
        };
        let key_id = match node.text("key_id") {
            Ok(v) => v,
            Err(e) => {
                return Err(e);
            },
        };
        Ok(PublicKeyResponse { key, key_id })
    }
}

impl AccessTokenRequest {
    /// The body that exchanges `code` with the client's own credentials.
    pub fn from_code(client: &GitHubClient, code: String) -> (r: AccessTokenRequest)
        ensures
            r.client_id@ == client.client_id@,
            r.client_secret@ == client.client_secret@,
            r.code == code,
    {
        AccessTokenRequest {
            client_id: client.client_id.clone(),
            client_secret: client.client_secret.clone(),
            code,
        }
    }

    /// The JSON document of the body.
    pub fn to_node(&self) -> (r: Node)
        ensures
            r@ == access_token_node(self.client_id@, self.client_secret@, self.code@),
    {
        Record::new().with_text("client_id", self.client_id.as_str()).with_text(
            "client_secret",
            self.client_secret.as_str(),
        ).with_text("code", self.code.as_str()).finish()
    }
}

impl FileUpdateRequest {
    /// The JSON document of the body.
    pub fn to_node(&self) -> (r: Node)
        ensures
            r@ == file_update_node(self.content@, self.message@, self.sha@),
    {
        Record::new().with_text("content", self.content.as_str()).with_text(
            "message",
            self.message.as_str(),
        ).with_text("sha", self.sha.as_str()).finish()
    }
}

impl CreateSecretRequest {
    /// The JSON document of the body.
    pub fn to_node(&self) -> (r: Node)
        ensures
            r@ == secret_node(self.encrypted_value@, self.key_id@),
    {
        Record::new().with_text("encrypted_value", self.encrypted_value.as_str()).with_text(
            "key_id",
            self.key_id.as_str(),
        ).finish()
    }
}

/// Builds the address of something in a repository.
pub fn repo_address(nwo: &str, what: &str) -> (r: String)
    ensures
        r@ == repo_url(nwo@, what@),
{
    let mut url = String::from_str("https://api.github.com/repos/");
    url.append(nwo);
    url.append(what);
    url
}

/// What a result that holds a user says, over views.
pub open spec fn user_outcome(r: Result<Option<GitHubUser>, DeployError>) -> Result<
    Option<UserModel>,
    DeployErrorModel,
> {
    match r {
        Ok(Some(u)) => Ok(Some(u@)),
        Ok(None) => Ok(None),
        Err(e) => Err(e@),
    }
}

/// What a result that holds a repository says, over views.
pub open spec fn repository_outcome(r: Result<Option<GitHubRepository>, DeployError>) -> Result<
    Option<RepositoryModel>,
    DeployErrorModel,
> {
    match r {
        Ok(Some(u)) => Ok(Some(u@)),
        Ok(None) => Ok(None),
        Err(e) => Err(e@),
    }
}

/// What a result that holds a file says, over views.
pub open spec fn file_outcome(r: Result<Option<GitHubFile>, DeployError>) -> Result<
    Option<FileModel>,
    DeployErrorModel,
> {
    match r {
        Ok(Some(u)) => Ok(Some(u@)),
        Ok(None) => Ok(None),
        Err(e) => Err(e@),
    }
}

/// What a result that holds nothing says, over views.
pub open spec fn unit_outcome(r: Result<(), DeployError>) -> Result<(), DeployErrorModel> {
    match r {
        Ok(()) => Ok(()),
        Err(e) => Err(e@),
    }
}

impl GitHubClient {
    /// A client with the application's credentials as they stand in the
    /// dictionary of the edge service, and nobody logged in.
    pub fn from_dictionary(client_id: String, client_secret: String) -> (r: GitHubClient)
        ensures
            r.client_id == client_id,
            r.client_secret == client_secret,
            r.user_access_token is None,
    {
        GitHubClient { client_id, client_secret, user_access_token: None }
    }

    /// The same application with nobody logged in: what it fetches is public
    /// and can be cached.
    pub fn anonymous(&self) -> (r: GitHubClient)
        ensures
            r@ == (ClientModel { user_access_token: None, ..self@ }),
    {
        GitHubClient {
            client_id: self.client_id.clone(),
            client_secret: self.client_secret.clone(),
            user_access_token: None,
        }
    }

    /// A copy of the client.
    pub fn duplicate(&self) -> (r: GitHubClient)
        ensures
            r@ == self@,
    {
        GitHubClient {
            client_id: self.client_id.clone(),
            client_secret: self.client_secret.clone(),
            user_access_token: self.user_access_token.clone(),
        }
    }

    /// Prepares a request for the platform.
    pub fn github_request(&self, req: ApiRequest) -> (r: ApiRequest)
        ensures
            r@ == github_prepared(req@, self@.user_access_token),
    {
        let base = req.with_header("user-agent", "Quick Deploy (@kailan)").with_header(
            "accept",
            "application/vnd.github.baptiste-preview+json",
        );
        match &self.user_access_token {
            Some(token) => {
                let value = join_text("token ", token.as_str());
                base.with_header("authorization", value.as_str()).with_pass(true)
            },
            None => base,
        }
    }

    /// The address to which a user is sent to authorize the application for
    /// repositories and workflows.
    pub fn get_authorize_url(&self) -> (r: String)
        ensures
            r@ == authorize_url(self.client_id@),
    {
        let mut url = String::from_str("https://github.com/login/oauth/authorize?client_id=");
        url.append(self.client_id.as_str());
        url.append("&scope=repo%20workflow");
        url
    }

    /// The request that exchanges the code of a callback for an access token.
    pub fn get_access_token_from_params_request(&self, params: AuthParams) -> (r: ApiRequest)
        ensures
            r@ == access_token_request(self@, params.code@),
    {
        let body = AccessTokenRequest::from_code(self, params.code).to_node();
        self.github_request(
            ApiRequest::new(
                Method::Post,
                String::from_str("https://github.com/login/oauth/access_token"),
                Host::GitHub,
            ),
        ).with_pass(true).with_body_json(render_json(&body))
    }

    /// The access token that the platform handed out. A response without
    /// success fails with the platform's message as it came.
    pub fn get_access_token_from_params(response: &ApiResponse) -> (r: Result<String, DeployError>)
        ensures
            match r {
                Ok(token) => access_token_of_response(response.status, response.body@) == Ok::<
                    Seq<char>,
                    DeployErrorModel,
                >(token@),
                Err(e) => access_token_of_response(response.status, response.body@) == Err::<
                    Seq<char>,
                    DeployErrorModel,
                >(e@),
            },
    {
        if !response.is_success() {
            return Err(DeployError::ExternalApi(response.body.clone()));
        }
        match parse_json(response.body.as_str()) {
            Err(e) => Err(DeployError::Auth(e)),
            Ok(node) => match node.text("access_token") {
                Err(e) => Err(DeployError::Auth(e)),
                Ok(token) => Ok(token),
            },
        }
    }

    /// The request for the logged-in user; none where nobody is logged in,
    /// since then there is nothing to ask.
    pub fn fetch_user_request(&self) -> (r: Option<ApiRequest>)
        ensures
            match self.user_access_token {
                Some(_) => r is Some && r->0@ == user_request(self@),
                None => r is None,
            },
    {
        match &self.user_access_token {
            None => None,
            Some(_) => Some(
                self.github_request(
                    ApiRequest::new(
                        Method::Get,
                        String::from_str("https://api.github.com/user"),
                        Host::GitHubApi,
                    ),
                ),
            ),
        }
    }

    /// The logged-in user that the platform reports: nobody on 401 and 403.
    pub fn fetch_user(response: &ApiResponse) -> (r: Result<Option<GitHubUser>, DeployError>)
        ensures
            user_outcome(r) == user_of_response(response.status, response.body@),
    {
        if response.status == 401 || response.status == 403 {
            return Ok(None);
        }
        match parse_json(response.body.as_str()) {
            Err(e) => Err(
                DeployError::ExternalApi(
                    join_text("Unable to fetch logged in user from GitHub: ", e.as_str()),
                ),
            ),
            Ok(node) => match GitHubUser::from_node(&node) {
                Err(e) => Err(
                    DeployError::ExternalApi(
                        join_text("Unable to fetch logged in user from GitHub: ", e.as_str()),
                    ),
                ),
                Ok(user) => Ok(Some(user)),
            },
        }
    }

    /// The request for the repository `nwo`.
    pub fn fetch_repository_request(&self, nwo: &str) -> (r: ApiRequest)
        ensures
            r@ == repository_request(self@, nwo@),
    {
        proof {
            reveal_strlit("");
        }
        self.github_request(
            ApiRequest::new(Method::Get, repo_address(nwo, ""), Host::GitHubApi),
        ).with_ttl(10800)
    }

    /// The repository that the platform reports for `nwo`: none on 404.
    pub fn fetch_repository(nwo: &str, response: &ApiResponse) -> (r: Result<
        Option<GitHubRepository>,
        DeployError,
    >)
        ensures
            repository_outcome(r) == repository_of_response(
                nwo@,
                response.status,
                response.body@,
            ),
    {
        if response.status == 200 {
            match parse_json(response.body.as_str()) {
                Err(e) => Err(DeployError::ExternalApi(e)),
                Ok(node) => match GitHubRepository::from_node(&node) {
                    Err(e) => Err(DeployError::ExternalApi(e)),
                    Ok(repo) => Ok(Some(repo)),
                },
            }
        } else if response.status == 404 {
            Ok(None)
        } else {
            let mut message = String::from_str("Unable to fetch GitHub repository ");
            message.append(nwo);
            message.append(": ");
            message.append(response.body.as_str());
            Err(DeployError::ExternalApi(message))
        }
    }

    /// The request that generates a repository named `dst_name` from the
    /// template `nwo`.
    pub fn fork_repository_request(&self, nwo: &str, dst_name: &str) -> (r: ApiRequest)
        ensures
            r@ == fork_request(self@, nwo@, dst_name@),
    {
        let body = Record::new().with_text("name", dst_name).finish();
        self.github_request(
            ApiRequest::new(Method::Post, repo_address(nwo, "/generate"), Host::GitHubApi),
        ).with_pass(true).with_body_json(render_json(&body))
    }

    /// The repository that the platform created from the template `nwo`.
    pub fn fork_repository(nwo: &str, response: &ApiResponse) -> (r: Result<
        GitHubRepository,
        DeployError,
    >)
        ensures
            match r {
                Ok(repo) => fork_of_response(nwo@, response.status, response.body@) == Ok::<
                    RepositoryModel,
                    DeployErrorModel,
                >(repo@),
                Err(e) => fork_of_response(nwo@, response.status, response.body@) == Err::<
                    RepositoryModel,
                    DeployErrorModel,
                >(e@),
            },
    {
        if response.status == 201 {
            match parse_json(response.body.as_str()) {
                Err(e) => Err(DeployError::ExternalApi(e)),
                Ok(node) => match GitHubRepository::from_node(&node) {
                    Err(e) => Err(DeployError::ExternalApi(e)),
                    Ok(repo) => Ok(repo),
                },
            }
        } else {
            let mut message = String::from_str("Unable to fork GitHub repository ");
            message.append(nwo);
            message.append(": ");
            message.append(response.body.as_str());
            Err(DeployError::ExternalApi(message))
        }
    }

    /// The request that enables the deploy workflow of `nwo`.
    pub fn enable_actions(&self, nwo: &str) -> (r: ApiRequest)
        ensures
            r@ == enable_actions_request(self@, nwo@),
    {
        self.github_request(
            ApiRequest::new(
                Method::Put,
                repo_address(nwo, "/actions/workflows/deploy/enable"),
                Host::GitHubApi,
            ).with_pass(true),
        )
    }

    /// Whether the platform enabled the workflow.
    pub fn enable_actions_result(response: &ApiResponse) -> (r: Result<(), DeployError>)
        ensures
            unit_outcome(r) == actions_enabled(response.status, response.body@),
    {
        if response.is_success() {
            Ok(())
        } else {
            Err(DeployError::ExternalApi(response.body.clone()))
        }
    }

    /// The request for the file at `path` in `nwo`.
    pub fn get_file_request(&self, nwo: &str, path: &str) -> (r: ApiRequest)
        ensures
            r@ == file_request(self@, nwo@, path@),
    {
        let what = join_text("/contents/", path);
        self.github_request(
            ApiRequest::new(Method::Get, repo_address(nwo, what.as_str()), Host::GitHubApi),
        )
    }

    /// The file that the platform reports at `path` in `nwo`: none on 404.
    pub fn get_file(nwo: &str, path: &str, response: &ApiResponse) -> (r: Result<
        Option<GitHubFile>,
        DeployError,
    >)
        ensures
            file_outcome(r) == file_of_response(nwo@, path@, response.status, response.body@),
    {
        if response.status == 200 {
            match parse_json(response.body.as_str()) {
                Err(e) => Err(DeployError::ExternalApi(e)),
                Ok(node) => match GitHubFile::from_node(&node) {
                    Err(e) => Err(DeployError::ExternalApi(e)),
                    Ok(file) => Ok(Some(file)),
                },
            }
        } else if response.status == 404 {
            Ok(None)
        } else {
            let mut message = String::from_str("Unable to fetch ");
            message.append(path);
            message.append(" file from GitHub repository ");
            message.append(nwo);
            message.append(": ");
            message.append(response.body.as_str());
            Err(DeployError::ExternalApi(message))
        }
    }

    /// The request that writes `content` to the place of `file` in `nwo`, on
    /// condition that the file still has the hash that was read. There is
    /// none where the content is too long to be carried.
    pub fn upsert_file(&self, nwo: &str, file: &GitHubFile, content: &str) -> (r: Option<
        ApiRequest,
    >)
        ensures
            match r {
                Some(q) => text_encodable(content@) && q@ == upsert_request(
                    self@,
                    nwo@,
                    file@,
                    content@,
                ),
                None => !text_encodable(content@),
            },
    {
        let carried = match armor(content) {
            Some(c) => c,
            None => {
                return None;
            },
        };
        let body = FileUpdateRequest {
            content: carried,
            message: String::from_str("Service provisioning via deploy.edgecompute.app"),
            sha: file.sha.clone(),
        }.to_node();
        let what = join_text("/contents/", file.path.as_str());
        Some(
            self.github_request(
                ApiRequest::new(Method::Put, repo_address(nwo, what.as_str()), Host::GitHubApi),
            ).with_pass(true).with_body_json(render_json(&body)),
        )
    }

    /// Whether the platform wrote the file. It refuses a file that changed
    /// since it was read, and then the write has failed.
    pub fn upsert_file_result(response: &ApiResponse) -> (r: Result<(), DeployError>)
        ensures
            unit_outcome(r) == file_written(response.status, response.body@),
    {
        if response.status == 200 || response.status == 201 {
            Ok(())
        } else {
            Err(
                DeployError::ExternalApi(
                    join_text("Unable to update file: ", response.body.as_str()),
                ),
            )
        }
    }

    /// The request for the key under which `nwo` accepts secrets.
    pub fn get_repository_public_key_request(&self, nwo: &str) -> (r: ApiRequest)
        ensures
            r@ == public_key_request(self@, nwo@),
    {
        self.github_request(
            ApiRequest::new(
                Method::Get,
                repo_address(nwo, "/actions/secrets/public-key"),
                Host::GitHubApi,
            ),
        )
    }

    /// The key that the platform reports, as its 32 bytes, and the key's id.
    pub fn get_repository_public_key(response: &ApiResponse) -> (r: Result<
        (Vec<u8>, String),
        DeployError,
    >)
        ensures
            match r {
                Ok(k) => public_key_of_response(response.status, response.body@) == Ok::<
                    (Seq<u8>, Seq<char>),
                    DeployErrorModel,
                >((k.0@, k.1@)),
                Err(e) => public_key_of_response(response.status, response.body@) == Err::<
                    (Seq<u8>, Seq<char>),
                    DeployErrorModel,
                >(e@),
            },
    {
        if !response.is_success() {
            return Err(DeployError::ExternalApi(response.body.clone()));
        }
        match parse_json(response.body.as_str()) {
            Err(e) => Err(DeployError::ExternalApi(e)),
            Ok(node) => match PublicKeyResponse::from_node(&node) {
                Err(e) => Err(DeployError::ExternalApi(e)),
                Ok(body) => match decode_bytes(body.key.as_str()) {
                    Some(bytes) => {
                        if bytes.len() == 32 {
                            Ok((bytes, body.key_id))
                        } else {
                            Err(DeployError::ExternalApi(bad_field_message("key")))
                        }
                    },
                    None => Err(DeployError::ExternalApi(bad_field_message("key"))),
                },
            },
        }
    }

    /// The request that stores the sealed secret under the name `key` in
    /// `nwo`. There is none where the sealed bytes are too many to be
    /// carried.
    pub fn create_secret_request(&self, nwo: &str, key: &str, key_id: &str, sealed: &[u8]) -> (r:
        Option<ApiRequest>)
        ensures
            match r {
                Some(q) => base64_encodable(sealed@.len()) && q@ == secret_request(
                    self@,
                    nwo@,
                    key@,
                    key_id@,
                    sealed@,
                ),
                None => !base64_encodable(sealed@.len()),
            },
    {
        let encrypted_value = match encode_bytes(sealed) {
            Some(v) => v,
            None => {
                return None;
            },
        };
        let body = CreateSecretRequest { encrypted_value, key_id: String::from_str(key_id) }.to_node();
        let what = join_text("/actions/secrets/", key);
        Some(
            self.github_request(
                ApiRequest::new(Method::Put, repo_address(nwo, what.as_str()), Host::GitHubApi),
            ).with_pass(true).with_body_json(render_json(&body)),
        )
    }

    /// Whether the platform stored the secret.
    pub fn create_secret(response: &ApiResponse) -> (r: Result<(), DeployError>)
        ensures
            unit_outcome(r) == secret_stored(response.status, response.body@),
    {
        if response.status == 201 || response.status == 204 {
            Ok(())
        } else {
            Err(
                DeployError::ExternalApi(
                    join_text("Unable to create secret: ", response.body.as_str()),
                ),
            )
        }
    }
}

impl AuthParams {
    /// Reads the query of the callback: its field `code`.
    pub fn from_query(query: &crate::config::ActionParams) -> (r: Option<AuthParams>)
        ensures
            match r {
                Some(p) => crate::config::param_value(query@, "code"@) == Some(p.code@),
                None => crate::config::param_value(query@, "code"@) is None,
            },
    {
        match query.get("code") {
            Some(code) => Some(AuthParams { code: code.clone() }),
            None => None,
        }
    }
}

} // verus!
