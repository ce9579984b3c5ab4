use vstd::prelude::*;
use vstd::string::*;
use crate::config::{DeployConfigSpec, SpecModel};
use crate::error::{message_of, DeployError};
use crate::github::{GitHubNWO, GitHubRepository, GitHubUser, RepositoryModel, UserModel};
use crate::scdn::FastlyUser;
use crate::text::{join_text, opt_text};

verus! {

/// What the deploy page shows: the template, the repository generated from
/// it if there is one, who is logged in, and what can be done next.
#[derive(Debug)]
pub struct DeployContext {
    pub src: GitHubRepository,
    pub dest_nwo: Option<GitHubNWO>,
    pub github_user: Option<GitHubUser>,
    pub fastly_user: Option<FastlyUser>,
    pub can_fork: bool,
    pub can_deploy: bool,
    pub config_spec: Option<DeployConfigSpec>,
}

/// What the error page shows.
#[derive(Debug)]
pub struct ErrorContext {
    pub message: String,
}

/// What the status page shows: where the application and its workflow runs
/// are found, and whether the service is live.
#[derive(Debug)]
pub struct SuccessContext {
    pub application_url: String,
    pub actions_url: String,
    pub repo_nwo: GitHubNWO,
    pub service_id: String,
    pub is_ready: bool,
}

/// What the index page shows.
#[derive(Debug)]
pub struct IndexContext {
    pub button_nwo: Option<String>,
}

/// Whether a user can generate a repository: logged in to the source-control
/// platform, and no repository generated yet.
pub open spec fn may_fork(github_user: bool, has_destination: bool) -> bool {
    github_user && !has_destination
}

/// Whether a user can deploy: logged in to both platforms, with a generated
/// repository.
pub open spec fn may_deploy(github_user: bool, fastly_user: bool, has_destination: bool) -> bool {
    github_user && fastly_user && has_destination
}

/// The address of the deployed application.
pub open spec fn application_url(domain: Seq<char>) -> Seq<char> {
    "https://"@ + domain
}

/// The address of the workflow runs of a repository.
pub open spec fn actions_url(nwo: Seq<char>) -> Seq<char> {
    "https://github.com/"@ + nwo + "/actions"@
}

impl DeployContext {
    /// The context of the deploy page, with what can be done next worked
    /// out.
    pub fn new(
        src: GitHubRepository,
        dest_nwo: Option<String>,
        github_user: Option<GitHubUser>,
        fastly_user: Option<FastlyUser>,
        config_spec: Option<DeployConfigSpec>,
    ) -> (r: DeployContext)
        ensures
            r.src == src,
            r.dest_nwo == dest_nwo,
            r.github_user == github_user,
            r.fastly_user == fastly_user,
            r.config_spec == config_spec,
            r.can_fork == may_fork(github_user is Some, dest_nwo is Some),
            r.can_deploy == may_deploy(github_user is Some, fastly_user is Some, dest_nwo is Some),
            r@ == deploy_page(
                src@,
                opt_text(dest_nwo),
                opt_user(github_user),
                opt_fastly_user(fastly_user),
                opt_spec(config_spec),
            ),
    {
        let can_fork = github_user.is_some() && !dest_nwo.is_some();
        let can_deploy = github_user.is_some() && fastly_user.is_some() && dest_nwo.is_some();
        DeployContext { src, dest_nwo, github_user, fastly_user, can_fork, can_deploy, config_spec }
    }
}

impl ErrorContext {
    /// The context of the error page for an error: its message.
    pub fn from_error(error: &DeployError) -> (r: ErrorContext)
        ensures
            r.message@ == message_of(error@),
    {
        ErrorContext { message: error.message() }
    }
}

impl SuccessContext {
    /// The context of the status page.
    pub fn new(service_domain: &str, nwo: &str, service_id: String, is_ready: bool) -> (r:
        SuccessContext)
        ensures
            r.service_id == service_id,
            r@ == status_page(service_id@, nwo@, service_domain@, is_ready),
    {
        let mut actions = String::from_str("https://github.com/");
        actions.append(nwo);
        actions.append("/actions");
        SuccessContext {
            application_url: join_text("https://", service_domain),
            actions_url: actions,
            repo_nwo: String::from_str(nwo),
            service_id,
            is_ready,
        }
    }
}

/// A `DeployContext` over mathematical values.
pub struct DeployPageModel {
    pub src: RepositoryModel,
    pub dest_nwo: Option<Seq<char>>,
    pub github_user: Option<UserModel>,
    pub fastly_user: Option<(Seq<char>, Seq<char>)>,
    pub can_fork: bool,
    pub can_deploy: bool,
    pub config_spec: Option<SpecModel>,
}

/// A `SuccessContext` over sequences of characters.
pub struct SuccessModel {
    pub application_url: Seq<char>,
    pub actions_url: Seq<char>,
    pub repo_nwo: Seq<char>,
    pub service_id: Seq<char>,
    pub is_ready: bool,
}

/// An optional user of the source-control platform over sequences of
/// characters.
pub open spec fn opt_user(u: Option<GitHubUser>) -> Option<UserModel> {
    match u {
        Some(x) => Some(x@),
        None => None,
    }
}

/// An optional user of the compute platform as name and customer id.
pub open spec fn opt_fastly_user(u: Option<FastlyUser>) -> Option<(Seq<char>, Seq<char>)> {
    match u {
        Some(x) => Some((x.name@, x.customer_id@)),
        None => None,
    }
}

/// An optional specification over mathematical values.
pub open spec fn opt_spec(s: Option<DeployConfigSpec>) -> Option<SpecModel> {
    match s {
        Some(x) => Some(x@),
        None => None,
    }
}

impl View for DeployContext {
    type V = DeployPageModel;

    open spec fn view(&self) -> DeployPageModel {
        DeployPageModel {
            src: self.src@,
            dest_nwo: opt_text(self.dest_nwo),
            github_user: opt_user(self.github_user),
            fastly_user: opt_fastly_user(self.fastly_user),
            can_fork: self.can_fork,
            can_deploy: self.can_deploy,
            config_spec: opt_spec(self.config_spec),
        }
    }
}

impl View for SuccessContext {
    type V = SuccessModel;

    open spec fn view(&self) -> SuccessModel {
        SuccessModel {
            application_url: self.application_url@,
            actions_url: self.actions_url@,
            repo_nwo: self.repo_nwo@,
            service_id: self.service_id@,
            is_ready: self.is_ready,
        }
    }
}

/// The deploy page of a template for the given users, repository and
/// specification.
pub open spec fn deploy_page(
    src: RepositoryModel,
    dest_nwo: Option<Seq<char>>,
    github_user: Option<UserModel>,
    fastly_user: Option<(Seq<char>, Seq<char>)>,
    config_spec: Option<SpecModel>,
) -> DeployPageModel {
    DeployPageModel {
        src,
        dest_nwo,
        github_user,
        fastly_user,
        can_fork: may_fork(github_user is Some, dest_nwo is Some),
        can_deploy: may_deploy(github_user is Some, fastly_user is Some, dest_nwo is Some),
        config_spec,
    }
}

/// The status page of a service.
pub open spec fn status_page(
    service_id: Seq<char>,
    nwo: Seq<char>,
    domain: Seq<char>,
    is_ready: bool,
) -> SuccessModel {
    SuccessModel {
        application_url: application_url(domain),
        actions_url: actions_url(nwo),
        repo_nwo: nwo,
        service_id,
        is_ready,
    }
}

} // verus!
