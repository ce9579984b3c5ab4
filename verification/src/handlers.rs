use vstd::prelude::*;
use vstd::string::*;
use crate::config::{spec_of_toml, spec_outcome, DeployConfigSpec, SpecModel};
use crate::deploy::CreatedService;
use crate::error::{message_of, DeployError, DeployErrorModel};
use crate::github::{FileModel, GitHubFile, GitHubRepository, RepositoryModel};
use crate::manifest::{manifest_loaded, EditableManifest};
use crate::scdn::FastlyUser;
use crate::session::{
    no_login, no_progress, ApplicationState, DeploymentState, LoginState, ProgressModel,
    StateModel,
};
use crate::templates::{status_page, SuccessContext};
use crate::text::{
    after_first, after_last, before_first, chars_of, join_text, last_segment, occurrences,
    occurs_times, opt_text, same_text, split_first, text_of,
};

verus! {

/// What a request asks for.
#[derive(Clone, Copy, PartialEq, Eq, Structural, Debug)]
pub enum Route {
    Index,
    Style,
    Background,
    Robots,
    Favicon,
    AuthReset,
    DeployReset,
    Fork,
    DeployStatus,
    Deploy,
    AuthFastly,
    OauthGitHub,
    OauthGitHubCallback,
    /// The deploy page of the template that the path names.
    DeployPage,
    NotFound,
}

/// The route of a request, by its method and path. A path of two segments
/// that is no route of its own names a template.
pub open spec fn route_of(method: Seq<char>, path: Seq<char>) -> Route {
    if method == "GET"@ && path == "/"@ {
        Route::Index
    } else if method == "GET"@ && path == "/style.css"@ {
        Route::Style
    } else if method == "GET"@ && path == "/images/background.png"@ {
        Route::Background
    } else if method == "GET"@ && path == "/robots.txt"@ {
        Route::Robots
    } else if method == "GET"@ && path == "/favicon.ico"@ {
        Route::Favicon
    } else if method == "POST"@ && path == "/auth/reset"@ {
        Route::AuthReset
    } else if method == "POST"@ && path == "/deploy/reset"@ {
        Route::DeployReset
    } else if method == "POST"@ && path == "/fork"@ {
        Route::Fork
    } else if method == "GET"@ && path == "/deploy/status"@ {
        Route::DeployStatus
    } else if method == "POST"@ && path == "/deploy"@ {
        Route::Deploy
    } else if method == "POST"@ && path == "/auth/fastly"@ {
        Route::AuthFastly
    } else if method == "GET"@ && path == "/oauth/github"@ {
        Route::OauthGitHub
    } else if method == "GET"@ && path == "/oauth/github/callback"@ {
        Route::OauthGitHubCallback
    } else if method == "GET"@ && occurrences(path, '/') == 2 {
        Route::DeployPage
    } else {
        Route::NotFound
    }
}

/// Finds the route of a request.
pub fn route(method: &str, path: &str) -> (r: Route)
    ensures
        r == route_of(method@, path@),
{
    let get = same_text(method, "GET");
    let post = same_text(method, "POST");
    if get && same_text(path, "/") {
        Route::Index
    } else if get && same_text(path, "/style.css") {
        Route::Style
    } else if get && same_text(path, "/images/background.png") {
        Route::Background
    } else if get && same_text(path, "/robots.txt") {
        Route::Robots
    } else if get && same_text(path, "/favicon.ico") {
        Route::Favicon
    } else if post && same_text(path, "/auth/reset") {
        Route::AuthReset
    } else if post && same_text(path, "/deploy/reset") {
        Route::DeployReset
    } else if post && same_text(path, "/fork") {
        Route::Fork
    } else if get && same_text(path, "/deploy/status") {
        Route::DeployStatus
    } else if post && same_text(path, "/deploy") {
        Route::Deploy
    } else if post && same_text(path, "/auth/fastly") {
        Route::AuthFastly
    } else if get && same_text(path, "/oauth/github") {
        Route::OauthGitHub
    } else if get && same_text(path, "/oauth/github/callback") {
        Route::OauthGitHubCallback
    } else if get && occurs_times(path, '/', 2) {
        Route::DeployPage
    } else {
        Route::NotFound
    }
}

/// The template that the path of a deploy page names: the path without its
/// first character.
pub open spec fn source_of_path(path: Seq<char>) -> Seq<char> {
    if path.len() == 0 {
        path
    } else {
        path.skip(1)
    }
}

/// Reads the template that the path of a deploy page names.
pub fn path_source(path: &str) -> (r: String)
    ensures
        r@ == source_of_path(path@),
{
    let chars = chars_of(path);
    if chars.len() == 0 {
        String::new()
    } else {
        let r = text_of(&chars, 1, chars.len());
        r
    }
}

/// The page of the template in view, or the index where none is.
pub open spec fn home_of(src: Option<Seq<char>>) -> Seq<char> {
    match src {
        Some(s) => "/"@ + s,
        None => "/"@,
    }
}

/// The address to return to after a login: the page of the template in
/// view, or the index.
pub open spec fn return_url(src: Option<Seq<char>>) -> Seq<char> {
    match src {
        Some(s) => "/"@ + s,
        None => "/"@ + Seq::empty(),
    }
}

/// The address to return to after a login.
pub fn get_return_url(state: &ApplicationState) -> (r: String)
    ensures
        r@ == return_url(state@.deploy.src),
{
    match &state.deploy.src {
        Some(s) => join_text("/", s.as_str()),
        None => {
            let r = join_text("/", "");
            proof {
                reveal_strlit("");
            }
            r
        },
    }
}

/// Forgets the credentials; the deployment stays as it is. Gives the
/// address to go to.
pub fn auth_reset(state: &mut ApplicationState) -> (location: String)
    ensures
        final(state)@.login == no_login(),
        final(state).deploy == old(state).deploy,
        location@ == home_of(old(state)@.deploy.src),
{
    state.login = LoginState::default();
    match &state.deploy.src {
        Some(s) => join_text("/", s.as_str()),
        None => String::from_str("/"),
    }
}

/// Forgets the deployment; the credentials stay as they are. Gives the
/// address to go to.
pub fn deploy_reset(state: &mut ApplicationState) -> (location: String)
    ensures
        final(state)@.deploy == no_progress(),
        final(state).login == old(state).login,
        location@ == "/"@,
{
    state.deploy = DeploymentState::default();
    String::from_str("/")
}

/// The name of the repository that is generated from a template: the
/// template's own name, without its owner.
pub fn fork_name(nwo: &str) -> (r: String)
    ensures
        r@ == after_last(nwo@, '/'),
{
    last_segment(nwo, '/')
}

/// What is recorded of a generated repository: the template it was
/// generated from, `+`, and the repository by owner and name.
pub open spec fn fork_record(nwo: Seq<char>, owner: Seq<char>, name: Seq<char>) -> Seq<char> {
    nwo + "+"@ + owner + "/"@ + name
}

/// Records the repository that was generated from the template `nwo`. Gives
/// the address to go to: the template's page.
pub fn record_fork(state: &mut ApplicationState, nwo: &str, repo: &GitHubRepository) -> (location:
    String)
    ensures
        final(state)@ == (StateModel {
            deploy: ProgressModel {
                dest: Some(fork_record(nwo@, repo@.owner.login, repo@.name)),
                ..old(state)@.deploy
            },
            ..old(state)@
        }),
        location@ == "/"@ + nwo@,
{
    let mut dest = String::from_str(nwo);
    dest.append("+");
    dest.append(repo.owner.login.as_str());
    dest.append("/");
    dest.append(repo.name.as_str());
    state.deploy.dest = Some(dest);
    join_text("/", nwo)
}

/// The error of a repository that could not be generated.
pub fn fork_failure(error: &DeployError) -> (r: DeployError)
    ensures
        r@ == DeployErrorModel::ExternalApi("Unable to fork repository: "@ + message_of(error@)),
{
    let message = error.message();
    DeployError::ExternalApi(join_text("Unable to fork repository: ", message.as_str()))
}

/// The repository generated from the template `src`, as far as the record
/// knows one: a record made for another template counts as none.
pub open spec fn destination_for(dest: Option<Seq<char>>, src: Seq<char>) -> Option<Seq<char>> {
    match dest {
        None => None,
        Some(record) => if before_first(record, '+') == src {
            match after_first(record, '+') {
                Some(rest) => Some(before_first(rest, '+')),
                None => None,
            }
        } else {
            None
        },
    }
}

/// Finds the repository generated from the template `src` in the record.
pub fn resolve_destination(dest: &Option<String>, src: &str) -> (r: Option<String>)
    ensures
        opt_text(r) == destination_for(opt_text(*dest), src@),
{
    match dest {
        None => None,
        Some(record) => {
            let (template, rest) = split_first(record.as_str(), '+');
            if same_text(template.as_str(), src) {
                match rest {
                    Some(rest) => {
                        let (repository, _) = split_first(rest.as_str(), '+');
                        Some(repository)
                    },
                    None => None,
                }
            } else {
                None
            }
        },
    }
}

/// A record of a repository generated from one template resolves to that
/// repository on the template's own page, and to none on the page of any
/// other template.
pub proof fn lemma_destination_matches_source(
    recorded: Seq<char>,
    owner: Seq<char>,
    name: Seq<char>,
    current: Seq<char>,
)
    requires
        !recorded.contains('+'),
        !owner.contains('+'),
        !name.contains('+'),
    ensures
        current != recorded ==> destination_for(
            Some(fork_record(recorded, owner, name)),
            current,
        ) is None,
        destination_for(Some(fork_record(recorded, owner, name)), recorded) == Some(
            owner + "/"@ + name,
        ),
{
    reveal_strlit("+");
    reveal_strlit("/");
    let record = fork_record(recorded, owner, name);
    let k = recorded.len() as int;
    crate::text::lemma_first_index_is(record, '+', k);
    assert(record.take(k) =~= recorded);
    let rest = record.skip(k + 1);
    crate::text::lemma_first_index_is(rest, '+', rest.len() as int);
}

/// The stage of a user's workflow, as the deployment state shows it.
#[derive(Clone, Copy, PartialEq, Eq, Structural, Debug)]
pub enum Phase {
    /// No template is in view.
    Idle,
    /// A template is in view, and no repository was generated from it.
    SourceSelected,
    /// A repository was generated from the template in view.
    Forked,
    /// A service was created.
    Provisioned,
}

/// The stage that a deployment state shows.
pub open spec fn phase_of(d: ProgressModel) -> Phase {
    if d.fastly_service_id is Some {
        Phase::Provisioned
    } else {
        match d.src {
            None => Phase::Idle,
            Some(src) => if destination_for(d.dest, src) is Some {
                Phase::Forked
            } else {
                Phase::SourceSelected
            },
        }
    }
}

/// Finds the stage that a deployment state shows.
pub fn phase(deploy: &DeploymentState) -> (r: Phase)
    ensures
        r == phase_of(deploy@),
{
    if deploy.fastly_service_id.is_some() {
        Phase::Provisioned
    } else {
        match &deploy.src {
            None => Phase::Idle,
            Some(src) => {
                if resolve_destination(&deploy.dest, src.as_str()).is_some() {
                    Phase::Forked
                } else {
                    Phase::SourceSelected
                }
            },
        }
    }
}

/// What the status check needs of the state: the service, the repository
/// and the domain.
#[derive(Debug)]
pub struct StatusInputs {
    pub service_id: String,
    pub nwo: String,
    pub service_domain: String,
}

/// What the status check needs of the state, or the error that names what
/// is missing: the service, the repository, or the domain.
pub open spec fn status_inputs_of(d: ProgressModel) -> Result<
    (Seq<char>, Seq<char>, Seq<char>),
    DeployErrorModel,
> {
    match d.fastly_service_id {
        None => Err(DeployErrorModel::Precondition("Fastly service has not been provisioned"@)),
        Some(service_id) => match d.dest {
            None => Err(
                DeployErrorModel::Precondition("GitHub repository has not been provisioned"@),
            ),
            Some(dest) => match d.fastly_domain {
                None => Err(
                    DeployErrorModel::Precondition("Service is provisioned without domain"@),
                ),
                Some(domain) => Ok((service_id, after_last(dest, '+'), domain)),
            },
        },
    }
}

/// Takes from the state what the status check needs.
pub fn status_inputs(state: &ApplicationState) -> (r: Result<StatusInputs, DeployError>)
    ensures
        match r {
            Ok(i) => status_inputs_of(state@.deploy) == Ok::<
                (Seq<char>, Seq<char>, Seq<char>),
                DeployErrorModel,
            >((i.service_id@, i.nwo@, i.service_domain@)),
            Err(e) => status_inputs_of(state@.deploy) == Err::<
                (Seq<char>, Seq<char>, Seq<char>),
                DeployErrorModel,
            >(e@),
        },
{
    let service_id = match &state.deploy.fastly_service_id {
        Some(id) => id.clone(),
        None => {
            return Err(
                DeployError::Precondition(
                    String::from_str("Fastly service has not been provisioned"),
                ),
            );
        },
    };
    let nwo = match &state.deploy.dest {
        Some(dest) => last_segment(dest.as_str(), '+'),
        None => {
            return Err(
                DeployError::Precondition(
                    String::from_str("GitHub repository has not been provisioned"),
                ),
            );
        },
    };
    let service_domain = match &state.deploy.fastly_domain {
        Some(domain) => domain.clone(),
        None => {
            return Err(
                DeployError::Precondition(
                    String::from_str("Service is provisioned without domain"),
                ),
            );
        },
    };
    Ok(StatusInputs { service_id, nwo, service_domain })
}

/// Concludes a status check: the page to show, and, once the service is
/// live, the end of the workflow, with the deployment forgotten.
pub fn conclude_status(state: &mut ApplicationState, inputs: StatusInputs, is_ready: bool) -> (r:
    SuccessContext)
    ensures
        final(state).login == old(state).login,
        is_ready ==> final(state)@.deploy == no_progress(),
        !is_ready ==> final(state).deploy == old(state).deploy,
        r@ == status_page(inputs.service_id@, inputs.nwo@, inputs.service_domain@, is_ready),
{
    if is_ready {
        state.deploy = DeploymentState::default();
    }
    SuccessContext::new(
        inputs.service_domain.as_str(),
        inputs.nwo.as_str(),
        inputs.service_id,
        is_ready,
    )
}

/// Records the token of the compute platform, if the platform knows a user
/// for it. Gives the address to go to; with no user the token is refused and
/// the state stays as it is.
pub fn fastly_login(state: &mut ApplicationState, token: String, user: &Option<FastlyUser>) -> (r:
    Result<String, DeployError>)
    ensures
        match r {
            Ok(location) => user is Some && final(state)@ == (StateModel {
                login: crate::session::LoginModel {
                    fastly_token: Some(token@),
                    ..old(state)@.login
                },
                ..old(state)@
            }) && location@ == return_url(old(state)@.deploy.src),
            Err(e) => user is None && *final(state) == *old(state) && e@
                == DeployErrorModel::Auth("Invalid Fastly API token provided"@),
        },
{
    match user {
        None => Err(DeployError::Auth(String::from_str("Invalid Fastly API token provided"))),
        Some(_) => {
            let location = get_return_url(state);
            state.login.fastly_token = Some(token);
            Ok(location)
        },
    }
}

/// Records the access token of the source-control platform. Gives the
/// address to go to.
pub fn github_login(state: &mut ApplicationState, token: String) -> (location: String)
    ensures
        final(state)@ == (StateModel {
            login: crate::session::LoginModel {
                github_token: Some(token@),
                ..old(state)@.login
            },
            ..old(state)@
        }),
        location@ == return_url(old(state)@.deploy.src),
{
    let location = get_return_url(state);
    state.login.github_token = Some(token);
    location
}

/// The template of a deploy page, or the error of a path that names no
/// repository or one that is not a template.
pub open spec fn template_of(path: Seq<char>, repo: Option<RepositoryModel>) -> Result<
    RepositoryModel,
    DeployErrorModel,
> {
    match repo {
        None => Err(
            DeployErrorModel::ExternalApi("No repository was found at github.com"@ + path),
        ),
        Some(r) => if r.is_template {
            Ok(r)
        } else {
            Err(DeployErrorModel::NotATemplate(path))
        },
    }
}

/// Checks that the repository of a deploy page is there and is a template.
pub fn require_template(path: &str, repo: Option<GitHubRepository>) -> (r: Result<
    GitHubRepository,
    DeployError,
>)
    ensures
        match r {
            Ok(x) => repo == Some(x) && template_of(path@, Some(x@)) == Ok::<
                RepositoryModel,
                DeployErrorModel,
            >(x@),
            Err(e) => template_of(
                path@,
                match repo {
                    Some(x) => Some(x@),
                    None => None,
                },
            ) == Err::<RepositoryModel, DeployErrorModel>(e@),
        },
{
    match repo {
        None => Err(
            DeployError::ExternalApi(join_text("No repository was found at github.com", path)),
        ),
        Some(r) => {
            if r.is_template {
                Ok(r)
            } else {
                Err(DeployError::NotATemplate(String::from_str(path)))
            }
        },
    }
}

/// The specification that the deploy page shows, read from the manifest of
/// the template; an error where the template has no manifest or the manifest
/// does not parse.
pub open spec fn page_spec_of(file: Option<FileModel>) -> Result<SpecModel, DeployErrorModel> {
    match file {
        None => Err(
            DeployErrorModel::Precondition("The repository does not contain a fastly.toml file."@),
        ),
        Some(f) => match spec_of_toml(f.content) {
            Ok(s) => Ok(s),
            Err(e) => Err(
                DeployErrorModel::SpecParse("Could not parse fastly.toml: "@ + message_of(e)),
            ),
        },
    }
}

/// Reads the specification that the deploy page shows.
pub fn page_spec(file: &Option<GitHubFile>) -> (r: Result<DeployConfigSpec, DeployError>)
    ensures
        spec_outcome(r) == page_spec_of(
            match *file {
                Some(f) => Some(f@),
                None => None,
            },
        ),
{
    match file {
        None => Err(
            DeployError::Precondition(
                String::from_str("The repository does not contain a fastly.toml file."),
            ),
        ),
        Some(f) => match DeployConfigSpec::from_toml(f.content.as_str()) {
            Ok(s) => Ok(s),
            Err(e) => {
                let message = e.message();
                Err(
                    DeployError::SpecParse(
                        join_text("Could not parse fastly.toml: ", message.as_str()),
                    ),
                )
            },
        },
    }
}

/// Takes the template `src` into view.
pub fn select_source(state: &mut ApplicationState, src: &str)
    ensures
        final(state)@ == (StateModel {
            deploy: ProgressModel { src: Some(src@), ..old(state)@.deploy },
            ..old(state)@
        }),
{
    state.deploy.src = Some(String::from_str(src));
}

/// What a deployment starts from: the manifest file as read and what it
/// declares; or the error of a repository without manifest, or of a manifest
/// that is not well-formed.
pub open spec fn deploy_inputs_of(file: Option<FileModel>) -> Result<
    (FileModel, SpecModel),
    DeployErrorModel,
> {
    match file {
        None => Err(
            DeployErrorModel::Precondition(
                "The source repository does not contain a fastly.toml file, so cannot be deployed via Quick Deploy"@,
            ),
        ),
        Some(f) => match manifest_loaded(f.content) {
            Err(e) => Err(e),
            Ok(_) => match spec_of_toml(f.content) {
                Err(e) => Err(e),
                Ok(s) => Ok((f, s)),
            },
        },
    }
}

/// Reads what a deployment starts from.
pub fn deploy_inputs(file: Option<GitHubFile>) -> (r: Result<
    (GitHubFile, DeployConfigSpec),
    DeployError,
>)
    ensures
        match r {
            Ok((f, s)) => file == Some(f) && deploy_inputs_of(Some(f@)) == Ok::<
                (FileModel, SpecModel),
                DeployErrorModel,
            >((f@, s@)),
            Err(e) => deploy_inputs_of(
                match file {
                    Some(f) => Some(f@),
                    None => None,
                },
            ) == Err::<(FileModel, SpecModel), DeployErrorModel>(e@),
        },
{
    match file {
        None => Err(
            DeployError::Precondition(
                String::from_str(
                    "The source repository does not contain a fastly.toml file, so cannot be deployed via Quick Deploy",
                ),
            ),
        ),
        Some(f) => {
            match EditableManifest::load(f.content.as_str()) {
                Err(e) => {
                    return Err(e);
                },
                Ok(_) => {},
            }
            match DeployConfigSpec::from_toml(f.content.as_str()) {
                Err(e) => Err(e),
                Ok(s) => Ok((f, s)),
            }
        },
    }
}

/// Records the service that was created. Gives the address to go to: the
/// status page.
pub fn record_service(state: &mut ApplicationState, service: &CreatedService) -> (location: String)
    ensures
        final(state)@ == (StateModel {
            deploy: ProgressModel {
                fastly_service_id: Some(service.id@),
                fastly_domain: Some(service.domain@),
                ..old(state)@.deploy
            },
            ..old(state)@
        }),
        location@ == "/deploy/status"@,
{
    state.deploy.fastly_service_id = Some(service.id.clone());
    state.deploy.fastly_domain = Some(service.domain.clone());
    String::from_str("/deploy/status")
}

/// The workflow moves as the state says: nothing in view is idle; a
/// template in view without a repository generated from it is selected; a
/// created service is provisioned, whatever else is recorded; and a record
/// made for the template in view is a fork.
pub proof fn lemma_workflow_phases(d: ProgressModel, owner: Seq<char>, name: Seq<char>)
    ensures
        phase_of(no_progress()) == Phase::Idle,
        d.fastly_service_id is Some ==> phase_of(d) == Phase::Provisioned,
        d.fastly_service_id is None && d.src is None ==> phase_of(d) == Phase::Idle,
        d.fastly_service_id is None && d.src is Some && d.dest is None ==> phase_of(d)
            == Phase::SourceSelected,
        d.fastly_service_id is None && d.src is Some && !d.src->0.contains('+')
            && !owner.contains('+') && !name.contains('+') ==> phase_of(
            ProgressModel { dest: Some(fork_record(d.src->0, owner, name)), ..d },
        ) == Phase::Forked,
{
    if d.src is Some && !d.src->0.contains('+') && !owner.contains('+') && !name.contains('+') {
        lemma_destination_matches_source(d.src->0, owner, name, d.src->0);
    }
}

} // verus!
