use vstd::prelude::*;
use vstd::string::*;
use crate::config::{param_value, ActionParams};
use crate::deploy::{
    choose_slug, deploy_next, deployment_begun, two_word_slug, DeployStep, DeployStepModel,
    Deployment, DeploymentModel,
};
use crate::error::{message_of, DeployError, DeployErrorModel};
use crate::flow::{response_of, unexpected_reply, Reply, ReplyModel};
use crate::github::{
    access_token_of_response, access_token_request, authorize_url, file_of_response,
    file_request, fork_of_response, fork_request, repository_of_response, repository_request,
    user_request, AuthParams, ClientModel, GitHubClient, GitHubRepository, GitHubUser,
    RepositoryModel, UserModel,
};
use crate::handlers::{
    auth_reset, conclude_status, deploy_inputs, deploy_inputs_of, deploy_reset,
    destination_for, fastly_login, fork_failure, fork_name, fork_record, github_login, home_of,
    page_spec, page_spec_of, path_source, record_fork, record_service, require_template,
    resolve_destination, return_url, route, route_of, select_source, source_of_path,
    status_inputs, status_inputs_of, template_of, Route,
};
use crate::http::{ApiRequest, ApiRequestModel};
use crate::scdn::{
    active_of_response, current_user_request, no_token, status_request, FastlyClient, FastlyUser,
};
use crate::session::{
    cookie_value, empty_state, get_cookie, no_login, no_progress, state_cookie,
    state_cookie_header, state_encodable, state_of_token, token_of_state, update_state,
    ApplicationState, LoginModel, ProgressModel, StateModel,
};
use crate::templates::{
    deploy_page, may_deploy, opt_fastly_user, opt_user, status_page, DeployContext,
    DeployPageModel, ErrorContext, IndexContext, SuccessContext, SuccessModel,
};
use crate::text::{after_last, opt_text};

verus! {

/// What a request brings, as plain data.
#[derive(Debug)]
pub struct Incoming {
    pub method: String,
    pub path: String,
    /// The fields of the query, or the reader's message where the query
    /// cannot be read.
    pub query: Result<ActionParams, String>,
    /// The fields of the submitted form, or the reader's message where the
    /// body cannot be read as a form.
    pub form: Result<ActionParams, String>,
    /// The value of the `Cookie` header, if the request has one.
    pub cookies: Option<String>,
}

/// An `Incoming` over sequences of characters.
pub struct IncomingModel {
    pub method: Seq<char>,
    pub path: Seq<char>,
    pub query: Result<Seq<(Seq<char>, Seq<char>)>, Seq<char>>,
    pub form: Result<Seq<(Seq<char>, Seq<char>)>, Seq<char>>,
    pub cookies: Option<Seq<char>>,
}

/// Fields that were read, or the reader's message, over sequences of
/// characters.
pub open spec fn fields_outcome(r: Result<ActionParams, String>) -> Result<
    Seq<(Seq<char>, Seq<char>)>,
    Seq<char>,
> {
    match r {
        Ok(fields) => Ok(fields@),
        Err(e) => Err(e@),
    }
}

/// The error of a query or a form that cannot be read: the reader's
/// message.
pub open spec fn unreadable(message: Seq<char>) -> DeployErrorModel {
    DeployErrorModel::Precondition(message)
}

impl View for Incoming {
    type V = IncomingModel;

    open spec fn view(&self) -> IncomingModel {
        IncomingModel {
            method: self.method@,
            path: self.path@,
            query: fields_outcome(self.query),
            form: fields_outcome(self.form),
            cookies: opt_text(self.cookies),
        }
    }
}

/// What a response carries.
#[derive(Debug)]
pub enum Body {
    Empty,
    Text(String),
    /// The style sheet.
    Style,
    /// The background image.
    Background,
    /// The rules for robots.
    Robots,
    /// The icon.
    Favicon,
    Index(IndexContext),
    Deploy(DeployContext),
    Success(SuccessContext),
    Error(ErrorContext),
}

/// A `Body` over mathematical values.
pub enum BodyModel {
    Empty,
    Text(Seq<char>),
    Style,
    Background,
    Robots,
    Favicon,
    Index(Option<Seq<char>>),
    Deploy(DeployPageModel),
    Success(SuccessModel),
    Error(Seq<char>),
}

impl View for Body {
    type V = BodyModel;

    open spec fn view(&self) -> BodyModel {
        match self {
            Body::Empty => BodyModel::Empty,
            Body::Text(t) => BodyModel::Text(t@),
            Body::Style => BodyModel::Style,
            Body::Background => BodyModel::Background,
            Body::Robots => BodyModel::Robots,
            Body::Favicon => BodyModel::Favicon,
            Body::Index(c) => BodyModel::Index(opt_text(c.button_nwo)),
            Body::Deploy(c) => BodyModel::Deploy(c@),
            Body::Success(c) => BodyModel::Success(c@),
            Body::Error(c) => BodyModel::Error(c.message@),
        }
    }
}

/// The response to a request, as plain data: the status, where to go, the
/// state to hand to the browser, and what to show.
#[derive(Debug)]
pub struct Outcome {
    pub status: u16,
    /// The value of the `Location` header, if the response redirects.
    pub location: Option<String>,
    /// The value of the `Set-Cookie` header, if the state is handed back.
    pub set_cookie: Option<String>,
    pub body: Body,
}

/// An `Outcome` over mathematical values.
pub struct OutcomeModel {
    pub status: u16,
    pub location: Option<Seq<char>>,
    pub set_cookie: Option<Seq<char>>,
    pub body: BodyModel,
}

impl View for Outcome {
    type V = OutcomeModel;

    open spec fn view(&self) -> OutcomeModel {
        OutcomeModel {
            status: self.status,
            location: opt_text(self.location),
            set_cookie: opt_text(self.set_cookie),
            body: self.body@,
        }
    }
}

/// The type of what a body holds, if it holds anything.
pub open spec fn content_type_of(body: BodyModel) -> Option<Seq<char>> {
    match body {
        BodyModel::Empty => None,
        BodyModel::Text(_) => Some("text/plain; charset=utf-8"@),
        BodyModel::Style => Some("text/css"@),
        BodyModel::Background => Some("image/png"@),
        BodyModel::Robots => Some("text/plain"@),
        BodyModel::Favicon => Some("image/x-icon"@),
        _ => Some("text/html; charset=utf-8"@),
    }
}

/// Whether a body may be kept by caches: the style sheet and the images may,
/// for half an hour.
pub open spec fn cacheable(body: BodyModel) -> bool {
    body is Style || body is Background || body is Favicon
}

impl Body {
    /// The value of the `Content-Type` header.
    pub fn content_type(&self) -> (r: Option<&'static str>)
        ensures
            match r {
                Some(t) => content_type_of(self@) == Some(t@),
                None => content_type_of(self@) is None,
            },
    {
        match self {
            Body::Empty => None,
            Body::Text(_) => Some("text/plain; charset=utf-8"),
            Body::Style => Some("text/css"),
            Body::Background => Some("image/png"),
            Body::Robots => Some("text/plain"),
            Body::Favicon => Some("image/x-icon"),
            _ => Some("text/html; charset=utf-8"),
        }
    }

    /// The value of the `Cache-Control` header, if the body may be cached.
    pub fn cache_control(&self) -> (r: Option<&'static str>)
        ensures
            match r {
                Some(t) => cacheable(self@) && t@ == "public, max-age=1800"@,
                None => !cacheable(self@),
            },
    {
        match self {
            Body::Style => Some("public, max-age=1800"),
            Body::Background => Some("public, max-age=1800"),
            Body::Favicon => Some("public, max-age=1800"),
            _ => None,
        }
    }
}

/// A response with a status and a body, and nothing else.
pub open spec fn plain(status: u16, body: BodyModel) -> OutcomeModel {
    OutcomeModel { status, location: None, set_cookie: None, body }
}

/// The error page for an error.
pub open spec fn error_outcome(e: DeployErrorModel) -> OutcomeModel {
    plain(500, BodyModel::Error(message_of(e)))
}

/// A redirection.
pub open spec fn redirect(location: Seq<char>) -> OutcomeModel {
    OutcomeModel { status: 302, location: Some(location), set_cookie: None, body: BodyModel::Empty }
}

/// The error of a state that no cookie can carry.
pub open spec fn too_large() -> DeployErrorModel {
    DeployErrorModel::Precondition("The state is too large to be carried in a cookie"@)
}

/// A response that hands the state to the browser; the error page where the
/// state cannot be carried.
pub open spec fn with_cookie(o: OutcomeModel, state: StateModel) -> OutcomeModel {
    if state_encodable(state) {
        OutcomeModel { set_cookie: Some(state_cookie_header(token_of_state(state))), ..o }
    } else {
        error_outcome(too_large())
    }
}

impl Outcome {
    /// A response with a status and a body, and nothing else.
    pub fn plain(status: u16, body: Body) -> (r: Outcome)
        ensures
            r@ == plain(status, body@),
    {
        Outcome { status, location: None, set_cookie: None, body }
    }

    /// The error page for an error.
    pub fn error(e: &DeployError) -> (r: Outcome)
        ensures
            r@ == error_outcome(e@),
    {
        Outcome::plain(500, Body::Error(ErrorContext::from_error(e)))
    }

    /// A redirection.
    pub fn redirect(location: String) -> (r: Outcome)
        ensures
            r@ == redirect(location@),
    {
        Outcome { status: 302, location: Some(location), set_cookie: None, body: Body::Empty }
    }

    /// Hands the state to the browser with the response.
    pub fn with_state(self, state: &ApplicationState) -> (r: Outcome)
        ensures
            r@ == with_cookie(self@, state@),
    {
        match update_state(state) {
            Some(cookie) => {
                let mut r = self;
                r.set_cookie = Some(cookie);
                r
            },
            None => Outcome::error(
                &DeployError::Precondition(
                    String::from_str("The state is too large to be carried in a cookie"),
                ),
            ),
        }
    }
}

/// Where the handling of a request stands: which reply is awaited.
#[derive(Debug)]
pub enum HandlingStage {
    /// The user of the source-control platform.
    GitHubUser,
    /// The user of the compute platform.
    FastlyUser,
    /// The repository generated from this template.
    Forking(String),
    /// Whether the service is live.
    Polling,
    /// The manifest of this repository, which is to be deployed.
    FetchingManifest(String),
    /// The next reply of the deployment.
    Deploying,
    /// The user that this submitted token belongs to.
    CheckingToken(String),
    /// The access token for the code of the callback.
    ExchangingCode,
    /// The template of the deploy page.
    FetchingTemplate,
    /// The manifest of the template of the deploy page.
    FetchingPageManifest,
    /// The response was given.
    Done,
}

/// A `HandlingStage` over sequences of characters.
pub enum HandlingStageModel {
    GitHubUser,
    FastlyUser,
    Forking(Seq<char>),
    Polling,
    FetchingManifest(Seq<char>),
    Deploying,
    CheckingToken(Seq<char>),
    ExchangingCode,
    FetchingTemplate,
    FetchingPageManifest,
    Done,
}

impl View for HandlingStage {
    type V = HandlingStageModel;

    open spec fn view(&self) -> HandlingStageModel {
        match self {
            HandlingStage::GitHubUser => HandlingStageModel::GitHubUser,
            HandlingStage::FastlyUser => HandlingStageModel::FastlyUser,
            HandlingStage::Forking(nwo) => HandlingStageModel::Forking(nwo@),
            HandlingStage::Polling => HandlingStageModel::Polling,
            HandlingStage::FetchingManifest(nwo) => HandlingStageModel::FetchingManifest(nwo@),
            HandlingStage::Deploying => HandlingStageModel::Deploying,
            HandlingStage::CheckingToken(t) => HandlingStageModel::CheckingToken(t@),
            HandlingStage::ExchangingCode => HandlingStageModel::ExchangingCode,
            HandlingStage::FetchingTemplate => HandlingStageModel::FetchingTemplate,
            HandlingStage::FetchingPageManifest => HandlingStageModel::FetchingPageManifest,
            HandlingStage::Done => HandlingStageModel::Done,
        }
    }
}

/// The handling of one request: from what the request brings to the
/// response, by way of the calls that the route needs. Nothing is kept once
/// the response is given.
#[derive(Debug)]
pub struct Handling {
    pub stage: HandlingStage,
    pub route: Route,
    pub incoming: Incoming,
    /// The user's state: as the request carried it, then as the handling
    /// changes it.
    pub state: ApplicationState,
    pub github: GitHubClient,
    pub fastly: FastlyClient,
    pub github_user: Option<GitHubUser>,
    pub fastly_user: Option<FastlyUser>,
    /// The name for a service, should one be created.
    pub slug: String,
    /// The deployment under way, if there is one.
    pub deployment: Option<Deployment>,
    /// The template of the deploy page, once it is fetched.
    pub template: Option<GitHubRepository>,
}

/// A `Handling` over mathematical values.
pub struct HandlingModel {
    pub stage: HandlingStageModel,
    pub route: Route,
    pub incoming: IncomingModel,
    pub state: StateModel,
    pub github: ClientModel,
    pub fastly: Option<Seq<char>>,
    pub github_user: Option<UserModel>,
    pub fastly_user: Option<(Seq<char>, Seq<char>)>,
    pub slug: Seq<char>,
    pub deployment: Option<DeploymentModel>,
    pub template: Option<RepositoryModel>,
}

/// An optional deployment over mathematical values.
pub open spec fn opt_deployment(d: Option<Deployment>) -> Option<DeploymentModel> {
    match d {
        Some(x) => Some(x@),
        None => None,
    }
}

/// An optional repository over mathematical values.
pub open spec fn opt_repository(r: Option<GitHubRepository>) -> Option<RepositoryModel> {
    match r {
        Some(x) => Some(x@),
        None => None,
    }
}

impl View for Handling {
    type V = HandlingModel;

    open spec fn view(&self) -> HandlingModel {
        HandlingModel {
            stage: self.stage@,
            route: self.route,
            incoming: self.incoming@,
            state: self.state@,
            github: self.github@,
            fastly: opt_text(self.fastly.token),
            github_user: opt_user(self.github_user),
            fastly_user: opt_fastly_user(self.fastly_user),
            slug: self.slug@,
            deployment: opt_deployment(self.deployment),
            template: opt_repository(self.template),
        }
    }
}

/// What the caller is to do next for a request.
#[derive(Debug)]
pub enum HandlingStep {
    /// Send this request and hand back what comes.
    Send(ApiRequest),
    /// Seal `secret` under `public_key` and hand back the ciphertext.
    Seal { secret: String, public_key: Vec<u8> },
    /// Give this response; the handling is over.
    Respond(Outcome),
}

/// A `HandlingStep` over mathematical values.
pub enum HandlingStepModel {
    Send(ApiRequestModel),
    Seal { secret: Seq<char>, public_key: Seq<u8> },
    Respond(OutcomeModel),
}

impl View for HandlingStep {
    type V = HandlingStepModel;

    open spec fn view(&self) -> HandlingStepModel {
        match self {
            HandlingStep::Send(r) => HandlingStepModel::Send(r@),
            HandlingStep::Seal { secret, public_key } => HandlingStepModel::Seal {
                secret: secret@,
                public_key: public_key@,
            },
            HandlingStep::Respond(o) => HandlingStepModel::Respond(o@),
        }
    }
}

/// The handling ends with a response.
pub open spec fn finished(h: HandlingModel, outcome: OutcomeModel) -> (
    HandlingModel,
    HandlingStepModel,
) {
    (HandlingModel { stage: HandlingStageModel::Done, ..h }, HandlingStepModel::Respond(outcome))
}

/// The handling ends with the error page.
pub open spec fn errored(h: HandlingModel, e: DeployErrorModel) -> (
    HandlingModel,
    HandlingStepModel,
) {
    finished(h, error_outcome(e))
}

/// The handling ends with a changed state, which goes back to the browser
/// with a redirection.
pub open spec fn redirected(h: HandlingModel, state: StateModel, location: Seq<char>) -> (
    HandlingModel,
    HandlingStepModel,
) {
    finished(HandlingModel { state, ..h }, with_cookie(redirect(location), state))
}

/// The handling goes on with a request and awaits the reply to it.
pub open spec fn awaiting(h: HandlingModel, stage: HandlingStageModel, request: ApiRequestModel) -> (
    HandlingModel,
    HandlingStepModel,
) {
    (HandlingModel { stage, ..h }, HandlingStepModel::Send(request))
}

/// The error of a form without the field that names the repository.
pub open spec fn no_repository() -> DeployErrorModel {
    DeployErrorModel::Precondition("No repository was submitted"@)
}

/// The error of a form without the field that holds the token.
pub open spec fn no_submitted_token() -> DeployErrorModel {
    DeployErrorModel::Precondition("No token was submitted"@)
}

/// The error of a token for which the compute platform knows no user.
pub open spec fn invalid_token() -> DeployErrorModel {
    DeployErrorModel::Auth("Invalid Fastly API token provided"@)
}

/// The client without the user's token, for what is public.
pub open spec fn anonymous(client: ClientModel) -> ClientModel {
    ClientModel { user_access_token: None, ..client }
}

/// The name of the manifest in a repository.
pub open spec fn manifest_path() -> Seq<char> {
    "fastly.toml"@
}

/// The first step of generating a repository from the submitted template.
pub open spec fn fork_begun(h: HandlingModel) -> (HandlingModel, HandlingStepModel) {
    match h.incoming.form {
        Err(m) => errored(h, unreadable(m)),
        Ok(form) => match param_value(form, "repository"@) {
            None => errored(h, no_repository()),
            Some(nwo) => awaiting(
                h,
                HandlingStageModel::Forking(nwo),
                fork_request(h.github, nwo, after_last(nwo, '/')),
            ),
        },
    }
}

/// The first step of a status check: nothing is asked where the state does
/// not hold what the check needs.
pub open spec fn status_begun(h: HandlingModel) -> (HandlingModel, HandlingStepModel) {
    match status_inputs_of(h.state.deploy) {
        Err(e) => errored(h, e),
        Ok(inputs) => match h.fastly {
            None => errored(h, no_token()),
            Some(token) => awaiting(
                h,
                HandlingStageModel::Polling,
                status_request(token, inputs.0),
            ),
        },
    }
}

/// The first step of a deployment: the manifest of the submitted repository
/// is fetched.
pub open spec fn deploy_begun(h: HandlingModel) -> (HandlingModel, HandlingStepModel) {
    match h.incoming.form {
        Err(m) => errored(h, unreadable(m)),
        Ok(form) => match param_value(form, "repository"@) {
            None => errored(h, no_repository()),
            Some(nwo) => awaiting(
                h,
                HandlingStageModel::FetchingManifest(nwo),
                file_request(h.github, nwo, manifest_path()),
            ),
        },
    }
}

/// The first step of a login to the compute platform: the user of the
/// submitted token is asked for.
pub open spec fn token_check_begun(h: HandlingModel) -> (HandlingModel, HandlingStepModel) {
    match h.incoming.form {
        Err(m) => errored(h, unreadable(m)),
        Ok(form) => match param_value(form, "token"@) {
            None => errored(h, no_submitted_token()),
            Some(token) => awaiting(
                h,
                HandlingStageModel::CheckingToken(token),
                current_user_request(token),
            ),
        },
    }
}

/// The code that the query of a callback holds, if the query can be read
/// and holds one.
pub open spec fn callback_code(query: Result<Seq<(Seq<char>, Seq<char>)>, Seq<char>>) -> Option<
    Seq<char>,
> {
    match query {
        Ok(fields) => param_value(fields, "code"@),
        Err(_) => None,
    }
}

/// The first step of the callback of the authorization handshake: the code
/// is exchanged; a callback without code is a bad request.
pub open spec fn callback_begun(h: HandlingModel) -> (HandlingModel, HandlingStepModel) {
    match callback_code(h.incoming.query) {
        None => finished(h, plain(400, BodyModel::Text("No auth 'code' param provided\n"@))),
        Some(code) => awaiting(
            h,
            HandlingStageModel::ExchangingCode,
            access_token_request(h.github, code),
        ),
    }
}

/// The first step of a deploy page: the template is fetched without the
/// user's token.
pub open spec fn page_begun(h: HandlingModel) -> (HandlingModel, HandlingStepModel) {
    awaiting(
        h,
        HandlingStageModel::FetchingTemplate,
        repository_request(anonymous(h.github), source_of_path(h.incoming.path)),
    )
}

/// What a route does once it is known who is logged in.
pub open spec fn dispatched(h: HandlingModel) -> (HandlingModel, HandlingStepModel) {
    match h.route {
        Route::Fork => fork_begun(h),
        Route::DeployStatus => status_begun(h),
        Route::Deploy => deploy_begun(h),
        Route::AuthFastly => token_check_begun(h),
        Route::OauthGitHub => finished(h, redirect(authorize_url(h.github.client_id))),
        Route::OauthGitHubCallback => callback_begun(h),
        Route::DeployPage => page_begun(h),
        _ => finished(
            h,
            plain(404, BodyModel::Text("The page you requested could not be found\n"@)),
        ),
    }
}

/// The user of the compute platform is asked for where there is a token;
/// then the route is taken.
pub open spec fn fastly_identity(h: HandlingModel) -> (HandlingModel, HandlingStepModel) {
    match h.fastly {
        Some(token) => awaiting(h, HandlingStageModel::FastlyUser, current_user_request(token)),
        None => dispatched(h),
    }
}

/// The user of the source-control platform is asked for where there is a
/// token; then that of the compute platform.
pub open spec fn github_identity(h: HandlingModel) -> (HandlingModel, HandlingStepModel) {
    match h.github.user_access_token {
        Some(_) => awaiting(h, HandlingStageModel::GitHubUser, user_request(h.github)),
        None => fastly_identity(h),
    }
}

/// What a request leads to at once: the response for the routes that need no
/// call, else the first call.
pub open spec fn entered(h: HandlingModel) -> (HandlingModel, HandlingStepModel) {
    match h.route {
        Route::Index => match h.incoming.query {
            Err(m) => errored(h, unreadable(m)),
            Ok(query) => finished(
                h,
                plain(200, BodyModel::Index(param_value(query, "repository"@))),
            ),
        },
        Route::Style => finished(h, plain(200, BodyModel::Style)),
        Route::Background => finished(h, plain(200, BodyModel::Background)),
        Route::Robots => finished(h, plain(200, BodyModel::Robots)),
        Route::Favicon => finished(h, plain(200, BodyModel::Favicon)),
        Route::AuthReset => redirected(
            h,
            StateModel { login: no_login(), ..h.state },
            home_of(h.state.deploy.src),
        ),
        Route::DeployReset => redirected(
            h,
            StateModel { deploy: no_progress(), ..h.state },
            "/"@,
        ),
        _ => github_identity(h),
    }
}

/// The state that a request carries: that of its state cookie, or the empty
/// state.
pub open spec fn carried_state(cookies: Option<Seq<char>>) -> StateModel {
    match cookies {
        Some(header) => match cookie_value(header, state_cookie()) {
            Some(token) => state_of_token(token),
            None => empty_state(),
        },
        None => empty_state(),
    }
}

/// The handling of a request as it begins, and its first step.
pub open spec fn handling_begun(
    incoming: IncomingModel,
    client_id: Seq<char>,
    client_secret: Seq<char>,
    slug: Seq<char>,
) -> (HandlingModel, HandlingStepModel) {
    let state = carried_state(incoming.cookies);
    entered(
        HandlingModel {
            stage: HandlingStageModel::Done,
            route: route_of(incoming.method, incoming.path),
            incoming,
            state,
            github: ClientModel {
                client_id,
                client_secret,
                user_access_token: state.login.github_token,
            },
            fastly: state.login.fastly_token,
            github_user: None,
            fastly_user: None,
            slug,
            deployment: None,
            template: None,
        },
    )
}

/// What follows the reply about the user of the source-control platform.
pub open spec fn after_github_user(h: HandlingModel, reply: ReplyModel) -> (
    HandlingModel,
    HandlingStepModel,
) {
    match response_of(reply) {
        Err(e) => errored(h, e),
        Ok((status, body)) => match crate::github::user_of_response(status, body) {
            Err(e) => errored(h, e),
            Ok(user) => fastly_identity(HandlingModel { github_user: user, ..h }),
        },
    }
}

/// What follows the reply about the user of the compute platform.
pub open spec fn after_fastly_user(h: HandlingModel, reply: ReplyModel) -> (
    HandlingModel,
    HandlingStepModel,
) {
    match response_of(reply) {
        Err(e) => errored(h, e),
        Ok((status, body)) => match crate::scdn::user_of_response(status, body) {
            Err(e) => errored(h, e),
            Ok(user) => dispatched(HandlingModel { fastly_user: user, ..h }),
        },
    }
}

/// The error of a repository that could not be generated.
pub open spec fn fork_failed(e: DeployErrorModel) -> DeployErrorModel {
    DeployErrorModel::ExternalApi("Unable to fork repository: "@ + message_of(e))
}

/// What follows the reply to the request that generates a repository from
/// the template `nwo`: the repository is recorded with its template, and the
/// user goes back to the template's page.
pub open spec fn after_fork(h: HandlingModel, nwo: Seq<char>, reply: ReplyModel) -> (
    HandlingModel,
    HandlingStepModel,
) {
    match response_of(reply) {
        Err(e) => errored(h, fork_failed(e)),
        Ok((status, body)) => match fork_of_response(nwo, status, body) {
            Err(e) => errored(h, fork_failed(e)),
            Ok(repo) => redirected(
                h,
                StateModel {
                    deploy: ProgressModel {
                        dest: Some(fork_record(nwo, repo.owner.login, repo.name)),
                        ..h.state.deploy
                    },
                    ..h.state
                },
                "/"@ + nwo,
            ),
        },
    }
}

/// What follows the reply to a status check: the status page, and, once the
/// service is live, the end of the workflow, with the deployment forgotten.
pub open spec fn after_poll(h: HandlingModel, reply: ReplyModel) -> (
    HandlingModel,
    HandlingStepModel,
) {
    match response_of(reply) {
        Err(e) => errored(h, e),
        Ok((status, body)) => match active_of_response(status, body) {
            Err(e) => errored(h, e),
            Ok(is_ready) => match status_inputs_of(h.state.deploy) {
                Err(e) => errored(h, e),
                Ok(inputs) => {
                    let page = plain(
                        501,
                        BodyModel::Success(status_page(inputs.0, inputs.1, inputs.2, is_ready)),
                    );
                    if is_ready {
                        let state = StateModel { deploy: no_progress(), ..h.state };
                        finished(HandlingModel { state, ..h }, with_cookie(page, state))
                    } else {
                        finished(h, page)
                    }
                },
            },
        },
    }
}

/// The fields of a form; none where the form cannot be read.
pub open spec fn submitted_fields(form: Result<Seq<(Seq<char>, Seq<char>)>, Seq<char>>) -> Seq<
    (Seq<char>, Seq<char>),
> {
    match form {
        Ok(fields) => fields,
        Err(_) => Seq::empty(),
    }
}

/// What follows the reply with the manifest of the repository `nwo`: the
/// deployment begins.
pub open spec fn after_manifest(h: HandlingModel, nwo: Seq<char>, reply: ReplyModel) -> (
    HandlingModel,
    HandlingStepModel,
) {
    match response_of(reply) {
        Err(e) => errored(h, e),
        Ok((status, body)) => match file_of_response(nwo, manifest_path(), status, body) {
            Err(e) => errored(h, e),
            Ok(fetched) => match deploy_inputs_of(fetched) {
                Err(e) => errored(h, e),
                Ok((file, spec)) => match deployment_begun(
                    h.github,
                    h.fastly,
                    nwo,
                    file,
                    spec,
                    submitted_fields(h.incoming.form),
                    h.slug,
                ) {
                    Err(e) => errored(h, e),
                    Ok((deployment, request)) => awaiting(
                        HandlingModel { deployment: Some(deployment), ..h },
                        HandlingStageModel::Deploying,
                        request,
                    ),
                },
            },
        },
    }
}

/// What follows a reply to the deployment: its own next step; once it is
/// done, the service is recorded and the user goes to the status page.
pub open spec fn after_deployment(h: HandlingModel, reply: ReplyModel) -> (
    HandlingModel,
    HandlingStepModel,
) {
    match h.deployment {
        None => errored(h, DeployErrorModel::Precondition(unexpected_reply())),
        Some(d) => {
            let (next, step) = deploy_next(d, reply);
            let h = HandlingModel { deployment: Some(next), ..h };
            match step {
                DeployStepModel::Send(request) => (h, HandlingStepModel::Send(request)),
                DeployStepModel::Seal { secret, public_key } => (
                    h,
                    HandlingStepModel::Seal { secret, public_key },
                ),
                DeployStepModel::Done { id, domain } => redirected(
                    h,
                    StateModel {
                        deploy: ProgressModel {
                            fastly_service_id: Some(id),
                            fastly_domain: Some(domain),
                            ..h.state.deploy
                        },
                        ..h.state
                    },
                    "/deploy/status"@,
                ),
                DeployStepModel::Failed(e) => errored(h, e),
            }
        },
    }
}

/// What follows the reply about the user of a submitted token: a token with
/// a user is recorded; one without is refused.
pub open spec fn after_token_check(h: HandlingModel, token: Seq<char>, reply: ReplyModel) -> (
    HandlingModel,
    HandlingStepModel,
) {
    match response_of(reply) {
        Err(e) => errored(h, e),
        Ok((status, body)) => match crate::scdn::user_of_response(status, body) {
            Err(e) => errored(h, e),
            Ok(None) => errored(h, invalid_token()),
            Ok(Some(_)) => redirected(
                h,
                StateModel {
                    login: LoginModel { fastly_token: Some(token), ..h.state.login },
                    ..h.state
                },
                return_url(h.state.deploy.src),
            ),
        },
    }
}

/// What follows the reply to the exchange of a code: the access token is
/// recorded.
pub open spec fn after_exchange(h: HandlingModel, reply: ReplyModel) -> (
    HandlingModel,
    HandlingStepModel,
) {
    match response_of(reply) {
        Err(e) => errored(h, e),
        Ok((status, body)) => match access_token_of_response(status, body) {
            Err(e) => errored(h, e),
            Ok(token) => redirected(
                h,
                StateModel {
                    login: LoginModel { github_token: Some(token), ..h.state.login },
                    ..h.state
                },
                return_url(h.state.deploy.src),
            ),
        },
    }
}

/// The deploy page of the template in view, which thereby becomes the
/// template of the state.
pub open spec fn page_shown(
    h: HandlingModel,
    repo: RepositoryModel,
    spec: Option<crate::config::SpecModel>,
) -> (HandlingModel, HandlingStepModel) {
    let src = source_of_path(h.incoming.path);
    let state = StateModel { deploy: ProgressModel { src: Some(src), ..h.state.deploy }, ..h.state };
    finished(
        HandlingModel { state, ..h },
        with_cookie(
            plain(
                200,
                BodyModel::Deploy(
                    deploy_page(
                        repo,
                        destination_for(h.state.deploy.dest, src),
                        h.github_user,
                        h.fastly_user,
                        spec,
                    ),
                ),
            ),
            state,
        ),
    )
}

/// What follows the reply with the template of a deploy page: for a user
/// who can deploy, the template's manifest is fetched; else the page is
/// shown.
pub open spec fn after_template(h: HandlingModel, reply: ReplyModel) -> (
    HandlingModel,
    HandlingStepModel,
) {
    let src = source_of_path(h.incoming.path);
    match response_of(reply) {
        Err(e) => errored(h, e),
        Ok((status, body)) => match repository_of_response(src, status, body) {
            Err(e) => errored(h, e),
            Ok(fetched) => match template_of(h.incoming.path, fetched) {
                Err(e) => errored(h, e),
                Ok(repo) => if may_deploy(
                    h.github_user is Some,
                    h.fastly_user is Some,
                    destination_for(h.state.deploy.dest, src) is Some,
                ) {
                    awaiting(
                        HandlingModel { template: Some(repo), ..h },
                        HandlingStageModel::FetchingPageManifest,
                        file_request(anonymous(h.github), src, manifest_path()),
                    )
                } else {
                    page_shown(h, repo, None)
                },
            },
        },
    }
}

/// What follows the reply with the manifest of the template of a deploy
/// page: the page with what the manifest declares.
pub open spec fn after_page_manifest(h: HandlingModel, reply: ReplyModel) -> (
    HandlingModel,
    HandlingStepModel,
) {
    let src = source_of_path(h.incoming.path);
    match h.template {
        None => errored(h, DeployErrorModel::Precondition(unexpected_reply())),
        Some(repo) => {
            let h = HandlingModel { template: None, ..h };
            match response_of(reply) {
                Err(e) => errored(h, e),
                Ok((status, body)) => match file_of_response(src, manifest_path(), status, body) {
                    Err(e) => errored(h, e),
                    Ok(fetched) => match page_spec_of(fetched) {
                        Err(e) => errored(h, e),
                        Ok(spec) => page_shown(h, repo, Some(spec)),
                    },
                },
            }
        },
    }
}

/// The handling after a reply, and what the caller is to do next.
pub open spec fn handling_next(h: HandlingModel, reply: ReplyModel) -> (
    HandlingModel,
    HandlingStepModel,
) {
    match h.stage {
        HandlingStageModel::GitHubUser => after_github_user(h, reply),
        HandlingStageModel::FastlyUser => after_fastly_user(h, reply),
        HandlingStageModel::Forking(nwo) => after_fork(h, nwo, reply),
        HandlingStageModel::Polling => after_poll(h, reply),
        HandlingStageModel::FetchingManifest(nwo) => after_manifest(h, nwo, reply),
        HandlingStageModel::Deploying => after_deployment(h, reply),
        HandlingStageModel::CheckingToken(token) => after_token_check(h, token, reply),
        HandlingStageModel::ExchangingCode => after_exchange(h, reply),
        HandlingStageModel::FetchingTemplate => after_template(h, reply),
        HandlingStageModel::FetchingPageManifest => after_page_manifest(h, reply),
        HandlingStageModel::Done => errored(h, DeployErrorModel::Precondition(unexpected_reply())),
    }
}

impl Handling {
    fn finish(&mut self, outcome: Outcome) -> (step: HandlingStep)
        ensures
            (final(self)@, step@) == finished(old(self)@, outcome@),
    {
        self.stage = HandlingStage::Done;
        HandlingStep::Respond(outcome)
    }

    fn fail(&mut self, e: DeployError) -> (step: HandlingStep)
        ensures
            (final(self)@, step@) == errored(old(self)@, e@),
    {
        self.finish(Outcome::error(&e))
    }

    fn unexpected(&mut self) -> (step: HandlingStep)
        ensures
            (final(self)@, step@) == errored(
                old(self)@,
                DeployErrorModel::Precondition(unexpected_reply()),
            ),
    {
        self.fail(
            DeployError::Precondition(
                String::from_str("The reply does not belong to the step in progress"),
            ),
        )
    }

    fn redirect_with(&mut self, location: String) -> (step: HandlingStep)
        ensures
            (final(self)@, step@) == redirected(old(self)@, old(self)@.state, location@),
    {
        let outcome = Outcome::redirect(location).with_state(&self.state);
        self.finish(outcome)
    }

    fn await_reply(&mut self, stage: HandlingStage, request: ApiRequest) -> (step: HandlingStep)
        ensures
            (final(self)@, step@) == awaiting(old(self)@, stage@, request@),
    {
        self.stage = stage;
        HandlingStep::Send(request)
    }

    fn submitted_repository(&self) -> (r: Result<String, DeployError>)
        ensures
            match r {
                Ok(nwo) => self@.incoming.form is Ok && param_value(
                    self@.incoming.form->Ok_0,
                    "repository"@,
                ) == Some(nwo@),
                Err(e) => match self@.incoming.form {
                    Err(m) => e@ == unreadable(m),
                    Ok(form) => param_value(form, "repository"@) is None && e@ == no_repository(),
                },
            },
    {
        match &self.incoming.form {
            Err(m) => Err(DeployError::Precondition(m.clone())),
            Ok(form) => match form.get("repository") {
                Some(n) => Ok(n.clone()),
                None => Err(
                    DeployError::Precondition(String::from_str("No repository was submitted")),
                ),
            },
        }
    }

    fn begin_fork(&mut self) -> (step: HandlingStep)
        ensures
            (final(self)@, step@) == fork_begun(old(self)@),
    {
        let nwo = match self.submitted_repository() {
            Ok(n) => n,
            Err(e) => {
                return self.fail(e);
            },
        };
        let name = fork_name(nwo.as_str());
        let request = self.github.fork_repository_request(nwo.as_str(), name.as_str());
        self.await_reply(HandlingStage::Forking(nwo), request)
    }

    fn begin_status(&mut self) -> (step: HandlingStep)
        ensures
            (final(self)@, step@) == status_begun(old(self)@),
    {
        let inputs = match status_inputs(&self.state) {
            Ok(i) => i,
            Err(e) => {
                return self.fail(e);
            },
        };
        match self.fastly.check_service_deployment_request(inputs.service_id.as_str()) {
            Ok(request) => self.await_reply(HandlingStage::Polling, request),
            Err(e) => self.fail(e),
        }
    }

    fn begin_deploy(&mut self) -> (step: HandlingStep)
        ensures
            (final(self)@, step@) == deploy_begun(old(self)@),
    {
        let nwo = match self.submitted_repository() {
            Ok(n) => n,
            Err(e) => {
                return self.fail(e);
            },
        };
        let request = self.github.get_file_request(nwo.as_str(), "fastly.toml");
        self.await_reply(HandlingStage::FetchingManifest(nwo), request)
    }

    fn begin_token_check(&mut self) -> (step: HandlingStep)
        ensures
            (final(self)@, step@) == token_check_begun(old(self)@),
    {
        let submitted = match &self.incoming.form {
            Ok(form) => crate::scdn::AuthParams::from_form(form),
            Err(m) => {
                let e = DeployError::Precondition(m.clone());
                return self.fail(e);
            },
        };
        let token = match submitted {
            Some(submitted) => submitted.token,
            None => {
                return self.fail(
                    DeployError::Precondition(String::from_str("No token was submitted")),
                );
            },
        };
        let candidate = FastlyClient::from_token(token.clone());
        match candidate.fetch_user_request() {
            Some(request) => self.await_reply(HandlingStage::CheckingToken(token), request),
            None => vstd::pervasive::unreached(),
        }
    }

    fn begin_callback(&mut self) -> (step: HandlingStep)
        ensures
            (final(self)@, step@) == callback_begun(old(self)@),
    {
        let params = match &self.incoming.query {
            Ok(query) => AuthParams::from_query(query),
            Err(_) => None,
        };
        match params {
            None => self.finish(
                Outcome::plain(400, Body::Text(String::from_str("No auth 'code' param provided\n"))),
            ),
            Some(params) => {
                let request = self.github.get_access_token_from_params_request(params);
                self.await_reply(HandlingStage::ExchangingCode, request)
            },
        }
    }

    fn begin_page(&mut self) -> (step: HandlingStep)
        ensures
            (final(self)@, step@) == page_begun(old(self)@),
    {
        let src = path_source(self.incoming.path.as_str());
        let request = self.github.anonymous().fetch_repository_request(src.as_str());
        self.await_reply(HandlingStage::FetchingTemplate, request)
    }

    fn dispatch(&mut self) -> (step: HandlingStep)
        ensures
            (final(self)@, step@) == dispatched(old(self)@),
    {
        match self.route {
            Route::Fork => self.begin_fork(),
            Route::DeployStatus => self.begin_status(),
            Route::Deploy => self.begin_deploy(),
            Route::AuthFastly => self.begin_token_check(),
            Route::OauthGitHub => {
                let location = self.github.get_authorize_url();
                self.finish(Outcome::redirect(location))
            },
            Route::OauthGitHubCallback => self.begin_callback(),
            Route::DeployPage => self.begin_page(),
            _ => self.finish(
                Outcome::plain(
                    404,
                    Body::Text(String::from_str("The page you requested could not be found\n")),
                ),
            ),
        }
    }

    fn resolve_fastly(&mut self) -> (step: HandlingStep)
        ensures
            (final(self)@, step@) == fastly_identity(old(self)@),
    {
        match self.fastly.fetch_user_request() {
            Some(request) => self.await_reply(HandlingStage::FastlyUser, request),
            None => self.dispatch(),
        }
    }

    fn resolve_github(&mut self) -> (step: HandlingStep)
        ensures
            (final(self)@, step@) == github_identity(old(self)@),
    {
        match self.github.fetch_user_request() {
            Some(request) => self.await_reply(HandlingStage::GitHubUser, request),
            None => self.resolve_fastly(),
        }
    }

    fn enter(&mut self) -> (step: HandlingStep)
        ensures
            (final(self)@, step@) == entered(old(self)@),
    {
        match self.route {
            Route::Index => {
                let button_nwo = match &self.incoming.query {
                    Ok(query) => match query.get("repository") {
                        Some(nwo) => Some(nwo.clone()),
                        None => None,
                    },
                    Err(m) => {
                        let e = DeployError::Precondition(m.clone());
                        return self.fail(e);
                    },
                };
                self.finish(Outcome::plain(200, Body::Index(IndexContext { button_nwo })))
            },
            Route::Style => self.finish(Outcome::plain(200, Body::Style)),
            Route::Background => self.finish(Outcome::plain(200, Body::Background)),
            Route::Robots => self.finish(Outcome::plain(200, Body::Robots)),
            Route::Favicon => self.finish(Outcome::plain(200, Body::Favicon)),
            Route::AuthReset => {
                let location = auth_reset(&mut self.state);
                self.redirect_with(location)
            },
            Route::DeployReset => {
                let location = deploy_reset(&mut self.state);
                self.redirect_with(location)
            },
            _ => self.resolve_github(),
        }
    }

    fn on_github_user(&mut self, reply: Reply) -> (step: HandlingStep)
        ensures
            (final(self)@, step@) == after_github_user(old(self)@, reply@),
    {
        match reply.into_response() {
            Err(e) => self.fail(e),
            Ok(response) => match GitHubClient::fetch_user(&response) {
                Err(e) => self.fail(e),
                Ok(user) => {
                    self.github_user = user;
                    self.resolve_fastly()
                },
            },
        }
    }

    fn on_fastly_user(&mut self, reply: Reply) -> (step: HandlingStep)
        ensures
            (final(self)@, step@) == after_fastly_user(old(self)@, reply@),
    {
        match reply.into_response() {
            Err(e) => self.fail(e),
            Ok(response) => match FastlyClient::fetch_user(&response) {
                Err(e) => self.fail(e),
                Ok(user) => {
                    self.fastly_user = user;
                    self.dispatch()
                },
            },
        }
    }

    fn on_fork(&mut self, nwo: String, reply: Reply) -> (step: HandlingStep)
        ensures
            (final(self)@, step@) == after_fork(old(self)@, nwo@, reply@),
    {
        match reply.into_response() {
            Err(e) => self.fail(fork_failure(&e)),
            Ok(response) => match GitHubClient::fork_repository(nwo.as_str(), &response) {
                Err(e) => self.fail(fork_failure(&e)),
                Ok(repo) => {
                    let location = record_fork(&mut self.state, nwo.as_str(), &repo);
                    self.redirect_with(location)
                },
            },
        }
    }

    fn on_poll(&mut self, reply: Reply) -> (step: HandlingStep)
        ensures
            (final(self)@, step@) == after_poll(old(self)@, reply@),
    {
        match reply.into_response() {
            Err(e) => self.fail(e),
            Ok(response) => match FastlyClient::check_service_deployment(&response) {
                Err(e) => self.fail(e),
                Ok(is_ready) => match status_inputs(&self.state) {
                    Err(e) => self.fail(e),
                    Ok(inputs) => {
                        let context = conclude_status(&mut self.state, inputs, is_ready);
                        let page = Outcome::plain(501, Body::Success(context));
                        if is_ready {
                            let outcome = page.with_state(&self.state);
                            self.finish(outcome)
                        } else {
                            self.finish(page)
                        }
                    },
                },
            },
        }
    }

    fn on_manifest(&mut self, nwo: String, reply: Reply) -> (step: HandlingStep)
        ensures
            (final(self)@, step@) == after_manifest(old(self)@, nwo@, reply@),
    {
        let response = match reply.into_response() {
            Ok(r) => r,
            Err(e) => {
                return self.fail(e);
            },
        };
        let fetched = match GitHubClient::get_file(nwo.as_str(), "fastly.toml", &response) {
            Ok(f) => f,
            Err(e) => {
                return self.fail(e);
            },
        };
        let (file, spec) = match deploy_inputs(fetched) {
            Ok(i) => i,
            Err(e) => {
                return self.fail(e);
            },
        };
        match Deployment::begin(
            self.github.duplicate(),
            &self.fastly,
            nwo,
            file,
            spec,
            match &self.incoming.form {
                Ok(form) => form.duplicate(),
                Err(_) => ActionParams::none(),
            },
            self.slug.as_str(),
        ) {
            Err(e) => self.fail(e),
            Ok((deployment, request)) => {
                self.deployment = Some(deployment);
                self.await_reply(HandlingStage::Deploying, request)
            },
        }
    }

    fn on_deployment(&mut self, reply: Reply) -> (step: HandlingStep)
        ensures
            (final(self)@, step@) == after_deployment(old(self)@, reply@),
    {
        match self.deployment.take() {
            None => self.unexpected(),
            Some(deployment) => {
                let mut deployment = deployment;
                let step = deployment.advance(reply);
                self.deployment = Some(deployment);
                match step {
                    DeployStep::Send(request) => HandlingStep::Send(request),
                    DeployStep::Seal { secret, public_key } => HandlingStep::Seal {
                        secret,
                        public_key,
                    },
                    DeployStep::Done(service) => {
                        let location = record_service(&mut self.state, &service);
                        self.redirect_with(location)
                    },
                    DeployStep::Failed(e) => self.fail(e),
                }
            },
        }
    }

    fn on_token_check(&mut self, token: String, reply: Reply) -> (step: HandlingStep)
        ensures
            (final(self)@, step@) == after_token_check(old(self)@, token@, reply@),
    {
        match reply.into_response() {
            Err(e) => self.fail(e),
            Ok(response) => match FastlyClient::fetch_user(&response) {
                Err(e) => self.fail(e),
                Ok(user) => match fastly_login(&mut self.state, token, &user) {
                    Err(e) => self.fail(e),
                    Ok(location) => self.redirect_with(location),
                },
            },
        }
    }

    fn on_exchange(&mut self, reply: Reply) -> (step: HandlingStep)
        ensures
            (final(self)@, step@) == after_exchange(old(self)@, reply@),
    {
        match reply.into_response() {
            Err(e) => self.fail(e),
            Ok(response) => match GitHubClient::get_access_token_from_params(&response) {
                Err(e) => self.fail(e),
                Ok(token) => {
                    let location = github_login(&mut self.state, token);
                    self.redirect_with(location)
                },
            },
        }
    }

    fn show_page(
        &mut self,
        repo: GitHubRepository,
        spec: Option<crate::config::DeployConfigSpec>,
    ) -> (step: HandlingStep)
        ensures
            (final(self)@, step@) == page_shown(
                old(self)@,
                repo@,
                crate::templates::opt_spec(spec),
            ),
    {
        let src = path_source(self.incoming.path.as_str());
        let dest = resolve_destination(&self.state.deploy.dest, src.as_str());
        let github_user = match &self.github_user {
            Some(u) => Some(u.duplicate()),
            None => None,
        };
        let fastly_user = match &self.fastly_user {
            Some(u) => Some(u.duplicate()),
            None => None,
        };
        let context = DeployContext::new(repo, dest, github_user, fastly_user, spec);
        select_source(&mut self.state, src.as_str());
        let outcome = Outcome::plain(200, Body::Deploy(context)).with_state(&self.state);
        self.finish(outcome)
    }

    fn on_template(&mut self, reply: Reply) -> (step: HandlingStep)
        ensures
            (final(self)@, step@) == after_template(old(self)@, reply@),
    {
        let response = match reply.into_response() {
            Ok(r) => r,
            Err(e) => {
                return self.fail(e);
            },
        };
        let src = path_source(self.incoming.path.as_str());
        let fetched = match GitHubClient::fetch_repository(src.as_str(), &response) {
            Ok(f) => f,
            Err(e) => {
                return self.fail(e);
            },
        };
        let repo = match require_template(self.incoming.path.as_str(), fetched) {
            Ok(r) => r,
            Err(e) => {
                return self.fail(e);
            },
        };
        let dest = resolve_destination(&self.state.deploy.dest, src.as_str());
        if self.github_user.is_some() && self.fastly_user.is_some() && dest.is_some() {
            let request = self.github.anonymous().get_file_request(src.as_str(), "fastly.toml");
            self.template = Some(repo);
            self.await_reply(HandlingStage::FetchingPageManifest, request)
        } else {
            self.show_page(repo, None)
        }
    }

    fn on_page_manifest(&mut self, reply: Reply) -> (step: HandlingStep)
        ensures
            (final(self)@, step@) == after_page_manifest(old(self)@, reply@),
    {
        let repo = match self.template.take() {
            Some(r) => r,
            None => {
                return self.unexpected();
            },
        };
        let response = match reply.into_response() {
            Ok(r) => r,
            Err(e) => {
                return self.fail(e);
            },
        };
        let src = path_source(self.incoming.path.as_str());
        let fetched = match GitHubClient::get_file(src.as_str(), "fastly.toml", &response) {
            Ok(f) => f,
            Err(e) => {
                return self.fail(e);
            },
        };
        match page_spec(&fetched) {
            Err(e) => self.fail(e),
            Ok(spec) => self.show_page(repo, Some(spec)),
        }
    }

    /// Takes the reply to the step in progress and says what to do next.
    pub fn advance(&mut self, reply: Reply) -> (step: HandlingStep)
        ensures
            (final(self)@, step@) == handling_next(old(self)@, reply@),
    {
        match &self.stage {
            HandlingStage::GitHubUser => self.on_github_user(reply),
            HandlingStage::FastlyUser => self.on_fastly_user(reply),
            HandlingStage::Forking(nwo) => {
                let nwo = nwo.clone();
                self.on_fork(nwo, reply)
            },
            HandlingStage::Polling => self.on_poll(reply),
            HandlingStage::FetchingManifest(nwo) => {
                let nwo = nwo.clone();
                self.on_manifest(nwo, reply)
            },
            HandlingStage::Deploying => self.on_deployment(reply),
            HandlingStage::CheckingToken(token) => {
                let token = token.clone();
                self.on_token_check(token, reply)
            },
            HandlingStage::ExchangingCode => self.on_exchange(reply),
            HandlingStage::FetchingTemplate => self.on_template(reply),
            HandlingStage::FetchingPageManifest => self.on_page_manifest(reply),
            HandlingStage::Done => self.unexpected(),
        }
    }

    /// Begins the handling of a request with the application's credentials
    /// for the source-control platform and a name for a service, should the
    /// request create one. What comes back is the handling and its first
    /// step: the response itself for the routes that need no call.
    pub fn start(incoming: Incoming, client_id: String, client_secret: String, slug: String) -> (r:
        (Handling, HandlingStep))
        ensures
            (r.0@, r.1@) == handling_begun(incoming@, client_id@, client_secret@, slug@),
    {
        let token: Option<String> = match &incoming.cookies {
            Some(header) => get_cookie(header.as_str(), "__Secure-Deploy-Config"),
            None => None,
        };
        let state = match &token {
            Some(t) => ApplicationState::decode(t.as_str()),
            None => ApplicationState::default(),
        };
        let found = route(incoming.method.as_str(), incoming.path.as_str());
        let mut github = GitHubClient::from_dictionary(client_id, client_secret);
        github.user_access_token = state.login.github_token.clone();
        let fastly = FastlyClient { token: state.login.fastly_token.clone() };
        let mut handling = Handling {
            stage: HandlingStage::Done,
            route: found,
            incoming,
            state,
            github,
            fastly,
            github_user: None,
            fastly_user: None,
            slug,
            deployment: None,
            template: None,
        };
        let step = handling.enter();
        (handling, step)
    }

    /// Begins the handling of a request as `start` does, with the name that
    /// was chosen beforehand for a service, or else with a fresh random one.
    pub fn begin(
        incoming: Incoming,
        client_id: String,
        client_secret: String,
        preselected: Option<String>,
    ) -> (r: (Handling, HandlingStep))
        ensures
            match preselected {
                Some(name) => (r.0@, r.1@) == handling_begun(
                    incoming@,
                    client_id@,
                    client_secret@,
                    name@,
                ),
                None => two_word_slug(r.0@.slug) && (r.0@, r.1@) == handling_begun(
                    incoming@,
                    client_id@,
                    client_secret@,
                    r.0@.slug,
                ),
            },
    {
        let slug = choose_slug(preselected);
        Handling::start(incoming, client_id, client_secret, slug)
    }
}

/// Once the response is given nothing more is asked for: whatever is
/// handed to the handling afterwards, it answers with an error and stays as
/// it is.
pub proof fn lemma_response_ends_handling(h: HandlingModel, reply: ReplyModel)
    requires
        h.stage is Done,
    ensures
        handling_next(h, reply).0 == h,
        handling_next(h, reply).1 is Respond,
{
}

/// Every response leaves the handling done.
pub proof fn lemma_respond_is_last(h: HandlingModel, reply: ReplyModel)
    requires
        handling_next(h, reply).1 is Respond,
    ensures
        handling_next(h, reply).0.stage is Done,
{
}

/// Only the two logins write the credentials: but for the reply about a
/// submitted token and the reply to the exchange of a code, no reply changes
/// them.
pub proof fn lemma_only_logins_write_credentials(h: HandlingModel, reply: ReplyModel)
    requires
        !(h.stage is CheckingToken),
        !(h.stage is ExchangingCode),
    ensures
        handling_next(h, reply).0.state.login == h.state.login,
{
}

/// But for the reset of the credentials, no request changes them before its
/// first reply.
pub proof fn lemma_entry_keeps_credentials(h: HandlingModel)
    requires
        h.route != Route::AuthReset,
    ensures
        entered(h).0.state.login == h.state.login,
{
}

/// A status check with no service, no repository or no domain in the state
/// asks nothing of the platform: it answers with the error that names what
/// is missing.
pub proof fn lemma_status_check_needs_a_service(h: HandlingModel)
    requires
        status_inputs_of(h.state.deploy) is Err,
    ensures
        status_begun(h).1 == HandlingStepModel::Respond(
            error_outcome(status_inputs_of(h.state.deploy)->Err_0),
        ),
        status_inputs_of(h.state.deploy)->Err_0 is Precondition,
{
}

} // verus!
