use vstd::prelude::*;
use vstd::string::*;
use crate::config::{ActionParams, DeployConfig, DeployConfigSpec, SpecModel};
use crate::encoding::{base64_encodable, text_encodable};
use crate::error::{DeployError, DeployErrorModel};
use crate::flow::{unexpected_reply, Reply, ReplyModel};
use crate::github::{
    actions_enabled, enable_actions_request, file_written, public_key_of_response,
    public_key_request,
    secret_request, secret_stored, upsert_request, ClientModel, FileModel, GitHubClient,
    GitHubFile,
};
use crate::http::{ApiRequest, ApiRequestModel};
use crate::manifest::{manifest_loaded, manifest_text, EditableManifest, ManifestModel};
use crate::scdn::{
    creation_begun, creation_next, no_token, CreationModel, CreationStageModel, CreationStep,
    CreationStepModel, FastlyClient, ServiceCreation,
};
use crate::text::{join_text, occurrences, opt_text, replace_char, replaced};

verus! {

/// Whether a character stands in a word of the list from which phrases are
/// drawn: a small letter of the Latin alphabet or a hyphen.
pub open spec fn is_word_char(c: char) -> bool {
    0x61 <= c as u32 <= 0x7a || c == '-'
}

/// Whether a text has the shape of a phrase of `words` words: words of
/// letters and hyphens, none of them empty, with one space between each two.
pub open spec fn phrase_of(phrase: Seq<char>, words: nat) -> bool {
    if words == 0 {
        phrase.len() == 0
    } else {
        &&& phrase.len() > 0
        &&& phrase[0] != ' '
        &&& phrase.last() != ' '
        &&& forall|i: int|
            0 <= i < phrase.len() ==> is_word_char(#[trigger] phrase[i]) || phrase[i] == ' '
        &&& forall|i: int| 0 <= i < phrase.len() - 1 ==> !(#[trigger] phrase[i] == ' ' && phrase[i + 1] == ' ')
        &&& occurrences(phrase, ' ') == words - 1
    }
}

/// Calls `parity_wordlist::random_phrase`: that many words of its list,
/// picked at random and joined by single spaces. Which words come is not
/// known; every word of the list is made of small letters and hyphens and
/// is at least three characters long, so every outcome has the shape of a
/// phrase of that many words.
#[verifier::external_body]
fn random_phrase(words: usize) -> (r: String)
    ensures
        phrase_of(r@, words as nat),
{
    parity_wordlist::random_phrase(words)
}

/// The service name made of a phrase: `quick-` and the words, hyphens in
/// place of the spaces.
pub open spec fn slug_of_phrase(phrase: Seq<char>) -> Seq<char> {
    "quick-"@ + replaced(phrase, ' ', '-')
}

/// Makes the service name out of a phrase.
pub fn slug_from_phrase(phrase: &str) -> (r: String)
    ensures
        r@ == slug_of_phrase(phrase@),
{
    let words = replace_char(phrase, ' ', '-');
    join_text("quick-", words.as_str())
}

/// Whether a text is a service name made of a phrase of two words.
pub open spec fn two_word_slug(slug: Seq<char>) -> bool {
    exists|phrase: Seq<char>| phrase_of(phrase, 2) && slug == #[trigger] slug_of_phrase(phrase)
}

/// The name of the service to create: the one that was chosen beforehand, or
/// else one made of a fresh random phrase of two words.
pub fn choose_slug(preselected: Option<String>) -> (r: String)
    ensures
        match preselected {
            Some(name) => r == name,
            None => two_word_slug(r@),
        },
{
    match preselected {
        Some(name) => name,
        None => {
            let phrase = random_phrase(2);
            slug_from_phrase(phrase.as_str())
        },
    }
}

/// A service that was created: its id and its domain.
#[derive(Debug)]
pub struct CreatedService {
    pub id: String,
    pub domain: String,
}

/// Where a deployment stands: which call is awaited.
#[derive(Debug)]
pub enum DeployStage {
    /// The service with its domain, backends and dictionaries is being
    /// created.
    Provisioning,
    /// The deploy workflow of the repository is being enabled.
    EnablingActions,
    /// The repository's key for secrets is being fetched.
    FetchingKey,
    /// The caller is sealing the credential under that key.
    Sealing,
    /// The sealed credential is being stored as the deployment secret.
    StoringSecret,
    /// The manifest with the service id is being written to the repository.
    PushingManifest,
    /// All is done.
    Finished,
    /// A step failed; what was created before it stays.
    Failed(DeployError),
}

/// A `DeployStage` over mathematical values.
pub enum DeployStageModel {
    Provisioning,
    EnablingActions,
    FetchingKey,
    Sealing,
    StoringSecret,
    PushingManifest,
    Finished,
    Failed(DeployErrorModel),
}

impl View for DeployStage {
    type V = DeployStageModel;

    open spec fn view(&self) -> DeployStageModel {
        match self {
            DeployStage::Provisioning => DeployStageModel::Provisioning,
            DeployStage::EnablingActions => DeployStageModel::EnablingActions,
            DeployStage::FetchingKey => DeployStageModel::FetchingKey,
            DeployStage::Sealing => DeployStageModel::Sealing,
            DeployStage::StoringSecret => DeployStageModel::StoringSecret,
            DeployStage::PushingManifest => DeployStageModel::PushingManifest,
            DeployStage::Finished => DeployStageModel::Finished,
            DeployStage::Failed(e) => DeployStageModel::Failed(e@),
        }
    }
}

/// A deployment: the steps that turn a generated repository and what its
/// manifest declares into a live service, one after the other. Each step is
/// tried once; the first that fails ends the deployment, and nothing that
/// was created before it is undone.
#[derive(Debug)]
pub struct Deployment {
    pub stage: DeployStage,
    pub creation: ServiceCreation,
    pub github: GitHubClient,
    /// The repository that is deployed.
    pub dest: String,
    /// The manifest file as it was read, with the hash of that content.
    pub file: GitHubFile,
    pub manifest: EditableManifest,
    /// The id of the repository's key, once it is fetched.
    pub key_id: String,
}

/// A `Deployment` over mathematical values.
pub struct DeploymentModel {
    pub stage: DeployStageModel,
    pub creation: CreationModel,
    pub github: ClientModel,
    pub dest: Seq<char>,
    pub file: FileModel,
    pub manifest: ManifestModel,
    pub key_id: Seq<char>,
}

impl View for Deployment {
    type V = DeploymentModel;

    open spec fn view(&self) -> DeploymentModel {
        DeploymentModel {
            stage: self.stage@,
            creation: self.creation@,
            github: self.github@,
            dest: self.dest@,
            file: self.file@,
            manifest: self.manifest@,
            key_id: self.key_id@,
        }
    }
}

/// What the caller is to do next for a deployment.
#[derive(Debug)]
pub enum DeployStep {
    /// Send this request and hand back what comes.
    Send(ApiRequest),
    /// Seal `secret` under `public_key` and hand back the ciphertext.
    Seal { secret: String, public_key: Vec<u8> },
    /// Nothing more: the service is deployed.
    Done(CreatedService),
    /// Nothing more: the deployment failed with this error.
    Failed(DeployError),
}

/// A `DeployStep` over mathematical values.
pub enum DeployStepModel {
    Send(ApiRequestModel),
    Seal { secret: Seq<char>, public_key: Seq<u8> },
    Done { id: Seq<char>, domain: Seq<char> },
    Failed(DeployErrorModel),
}

impl View for DeployStep {
    type V = DeployStepModel;

    open spec fn view(&self) -> DeployStepModel {
        match self {
            DeployStep::Send(r) => DeployStepModel::Send(r@),
            DeployStep::Seal { secret, public_key } => DeployStepModel::Seal {
                secret: secret@,
                public_key: public_key@,
            },
            DeployStep::Done(s) => DeployStepModel::Done { id: s.id@, domain: s.domain@ },
            DeployStep::Failed(e) => DeployStepModel::Failed(e@),
        }
    }
}

/// The name under which the credential is stored in the repository.
pub open spec fn secret_name() -> Seq<char> {
    "FASTLY_API_TOKEN"@
}

/// The message for something that is too long to be carried as base64.
pub open spec fn too_long() -> DeployErrorModel {
    DeployErrorModel::Precondition("The content is too long to be sent"@)
}

/// The deployment ends in failure.
pub open spec fn deployment_fails(d: DeploymentModel, e: DeployErrorModel) -> (
    DeploymentModel,
    DeployStepModel,
) {
    (DeploymentModel { stage: DeployStageModel::Failed(e), ..d }, DeployStepModel::Failed(e))
}

/// What follows a reply while the service is being created: the creation's
/// own next step; once the service stands, its id is set in the manifest
/// and the workflow is enabled.
pub open spec fn after_provisioning(d: DeploymentModel, reply: ReplyModel) -> (
    DeploymentModel,
    DeployStepModel,
) {
    let (creation, step) = creation_next(d.creation, reply);
    match step {
        CreationStepModel::Send(request) => (
            DeploymentModel { creation, ..d },
            DeployStepModel::Send(request),
        ),
        CreationStepModel::Done { id, domain } => (
            DeploymentModel {
                stage: DeployStageModel::EnablingActions,
                creation,
                manifest: ManifestModel { service_id: Some(id), ..d.manifest },
                ..d
            },
            DeployStepModel::Send(enable_actions_request(d.github, d.dest)),
        ),
        CreationStepModel::Failed(e) => deployment_fails(DeploymentModel { creation, ..d }, e),
    }
}

/// What follows a reply that is no response, or a ciphertext where none is
/// awaited.
pub open spec fn after_no_response(d: DeploymentModel, reply: ReplyModel) -> (
    DeploymentModel,
    DeployStepModel,
) {
    match reply {
        ReplyModel::Failure(m) => deployment_fails(d, DeployErrorModel::ExternalApi(m)),
        _ => deployment_fails(d, DeployErrorModel::Precondition(unexpected_reply())),
    }
}

/// What follows the reply to the request that enables the workflow.
pub open spec fn after_actions(d: DeploymentModel, reply: ReplyModel) -> (
    DeploymentModel,
    DeployStepModel,
) {
    match reply {
        ReplyModel::Response { status, body } => match actions_enabled(status, body) {
            Err(e) => deployment_fails(d, e),
            Ok(_) => (
                DeploymentModel { stage: DeployStageModel::FetchingKey, ..d },
                DeployStepModel::Send(public_key_request(d.github, d.dest)),
            ),
        },
        _ => after_no_response(d, reply),
    }
}

/// What follows the reply to the request for the repository's key: the
/// credential is to be sealed under it.
pub open spec fn after_key(d: DeploymentModel, reply: ReplyModel) -> (
    DeploymentModel,
    DeployStepModel,
) {
    match reply {
        ReplyModel::Response { status, body } => match public_key_of_response(status, body) {
            Err(e) => deployment_fails(d, e),
            Ok((key, key_id)) => (
                DeploymentModel { stage: DeployStageModel::Sealing, key_id, ..d },
                DeployStepModel::Seal { secret: d.creation.token, public_key: key },
            ),
        },
        _ => after_no_response(d, reply),
    }
}

/// What follows the ciphertext: it is stored as the deployment secret.
pub open spec fn after_sealing(d: DeploymentModel, reply: ReplyModel) -> (
    DeploymentModel,
    DeployStepModel,
) {
    match reply {
        ReplyModel::Sealed(bytes) => if base64_encodable(bytes.len()) {
            (
                DeploymentModel { stage: DeployStageModel::StoringSecret, ..d },
                DeployStepModel::Send(
                    secret_request(d.github, d.dest, secret_name(), d.key_id, bytes),
                ),
            )
        } else {
            deployment_fails(d, too_long())
        },
        ReplyModel::Failure(m) => deployment_fails(d, DeployErrorModel::ExternalApi(m)),
        ReplyModel::Response { status, body } => deployment_fails(
            d,
            DeployErrorModel::Precondition(unexpected_reply()),
        ),
    }
}

/// What follows the reply to the request that stores the secret: the
/// manifest with the service id is written back, on condition that the file
/// still has the hash that was read.
pub open spec fn after_secret(d: DeploymentModel, reply: ReplyModel) -> (
    DeploymentModel,
    DeployStepModel,
) {
    match reply {
        ReplyModel::Response { status, body } => match secret_stored(status, body) {
            Err(e) => deployment_fails(d, e),
            Ok(_) => match manifest_text(d.manifest) {
                Err(e) => deployment_fails(d, e),
                Ok(text) => if text_encodable(text) {
                    (
                        DeploymentModel { stage: DeployStageModel::PushingManifest, ..d },
                        DeployStepModel::Send(upsert_request(d.github, d.dest, d.file, text)),
                    )
                } else {
                    deployment_fails(d, too_long())
                },
            },
        },
        _ => after_no_response(d, reply),
    }
}

/// What follows the reply to the request that writes the manifest.
pub open spec fn after_push(d: DeploymentModel, reply: ReplyModel) -> (
    DeploymentModel,
    DeployStepModel,
) {
    match reply {
        ReplyModel::Response { status, body } => match file_written(status, body) {
            Err(e) => deployment_fails(d, e),
            Ok(_) => (
                DeploymentModel { stage: DeployStageModel::Finished, ..d },
                DeployStepModel::Done { id: d.creation.service_id, domain: d.creation.domain },
            ),
        },
        _ => after_no_response(d, reply),
    }
}

/// The deployment after a reply, and what the caller is to do next.
pub open spec fn deploy_next(d: DeploymentModel, reply: ReplyModel) -> (
    DeploymentModel,
    DeployStepModel,
) {
    match d.stage {
        DeployStageModel::Provisioning => after_provisioning(d, reply),
        DeployStageModel::EnablingActions => after_actions(d, reply),
        DeployStageModel::FetchingKey => after_key(d, reply),
        DeployStageModel::Sealing => after_sealing(d, reply),
        DeployStageModel::StoringSecret => after_secret(d, reply),
        DeployStageModel::PushingManifest => after_push(d, reply),
        DeployStageModel::Finished => (
            d,
            DeployStepModel::Done { id: d.creation.service_id, domain: d.creation.domain },
        ),
        DeployStageModel::Failed(e) => (d, DeployStepModel::Failed(e)),
    }
}

/// The deployment as it begins, with its first request, the one for the
/// service; or the error with which it does not begin: the manifest is not
/// well-formed, or there is no token for the compute platform. Nothing has
/// been sent then.
pub open spec fn deployment_begun(
    github: ClientModel,
    token: Option<Seq<char>>,
    dest: Seq<char>,
    file: FileModel,
    spec: SpecModel,
    params: Seq<(Seq<char>, Seq<char>)>,
    slug: Seq<char>,
) -> Result<(DeploymentModel, ApiRequestModel), DeployErrorModel> {
    match manifest_loaded(file.content) {
        Err(e) => Err(e),
        Ok(_) => match token {
            None => Err(no_token()),
            Some(t) => Ok(
                (
                    DeploymentModel {
                        stage: DeployStageModel::Provisioning,
                        creation: creation_begun(
                            token,
                            slug,
                            spec.backends,
                            spec.dictionaries,
                            params,
                        ).0,
                        github,
                        dest,
                        file,
                        manifest: ManifestModel { source: file.content, service_id: None },
                        key_id: Seq::empty(),
                    },
                    crate::scdn::create_service_request(t, slug),
                ),
            ),
        },
    }
}

impl Deployment {
    fn fail(&mut self, error: DeployError) -> (step: DeployStep)
        ensures
            (final(self)@, step@) == deployment_fails(old(self)@, error@),
    {
        self.stage = DeployStage::Failed(error.duplicate());
        DeployStep::Failed(error)
    }

    fn no_response(&mut self, reply: Reply) -> (step: DeployStep)
        requires
            !(reply is Response),
        ensures
            (final(self)@, step@) == after_no_response(old(self)@, reply@),
    {
        match reply {
            Reply::Failure(m) => self.fail(DeployError::ExternalApi(m)),
            _ => self.fail(
                DeployError::Precondition(
                    String::from_str("The reply does not belong to the step in progress"),
                ),
            ),
        }
    }

    fn too_long(&mut self) -> (step: DeployStep)
        ensures
            (final(self)@, step@) == deployment_fails(old(self)@, too_long()),
    {
        self.fail(DeployError::Precondition(String::from_str("The content is too long to be sent")))
    }

    fn on_provisioning(&mut self, reply: Reply) -> (step: DeployStep)
        ensures
            (final(self)@, step@) == after_provisioning(old(self)@, reply@),
    {
        match self.creation.advance(reply) {
            CreationStep::Send(request) => DeployStep::Send(request),
            CreationStep::Done(service) => {
                self.manifest.set_service_id(service.id.as_str());
                self.stage = DeployStage::EnablingActions;
                DeployStep::Send(self.github.enable_actions(self.dest.as_str()))
            },
            CreationStep::Failed(e) => self.fail(e),
        }
    }

    fn on_actions(&mut self, reply: Reply) -> (step: DeployStep)
        ensures
            (final(self)@, step@) == after_actions(old(self)@, reply@),
    {
        match reply {
            Reply::Response(response) => match GitHubClient::enable_actions_result(&response) {
                Err(e) => self.fail(e),
                Ok(_) => {
                    self.stage = DeployStage::FetchingKey;
                    DeployStep::Send(
                        self.github.get_repository_public_key_request(self.dest.as_str()),
                    )
                },
            },
            other => self.no_response(other),
        }
    }

    fn on_key(&mut self, reply: Reply) -> (step: DeployStep)
        ensures
            (final(self)@, step@) == after_key(old(self)@, reply@),
    {
        match reply {
            Reply::Response(response) => match GitHubClient::get_repository_public_key(
                &response,
            ) {
                Err(e) => self.fail(e),
                Ok((public_key, key_id)) => {
                    self.key_id = key_id;
                    self.stage = DeployStage::Sealing;
                    DeployStep::Seal { secret: self.creation.token.clone(), public_key }
                },
            },
            other => self.no_response(other),
        }
    }

    fn on_sealing(&mut self, reply: Reply) -> (step: DeployStep)
        ensures
            (final(self)@, step@) == after_sealing(old(self)@, reply@),
    {
        match reply {
            Reply::Sealed(bytes) => match self.github.create_secret_request(
                self.dest.as_str(),
                "FASTLY_API_TOKEN",
                self.key_id.as_str(),
                bytes.as_slice(),
            ) {
                Some(request) => {
                    self.stage = DeployStage::StoringSecret;
                    DeployStep::Send(request)
                },
                None => self.too_long(),
            },
            Reply::Failure(m) => self.fail(DeployError::ExternalApi(m)),
            Reply::Response(_) => self.fail(
                DeployError::Precondition(
                    String::from_str("The reply does not belong to the step in progress"),
                ),
            ),
        }
    }

    fn on_secret(&mut self, reply: Reply) -> (step: DeployStep)
        ensures
            (final(self)@, step@) == after_secret(old(self)@, reply@),
    {
        match reply {
            Reply::Response(response) => match GitHubClient::create_secret(&response) {
                Err(e) => self.fail(e),
                Ok(_) => match self.manifest.render() {
                    Err(e) => self.fail(e),
                    Ok(text) => match self.github.upsert_file(
                        self.dest.as_str(),
                        &self.file,
                        text.as_str(),
                    ) {
                        Some(request) => {
                            self.stage = DeployStage::PushingManifest;
                            DeployStep::Send(request)
                        },
                        None => self.too_long(),
                    },
                },
            },
            other => self.no_response(other),
        }
    }

    fn on_push(&mut self, reply: Reply) -> (step: DeployStep)
        ensures
            (final(self)@, step@) == after_push(old(self)@, reply@),
    {
        match reply {
            Reply::Response(response) => match GitHubClient::upsert_file_result(&response) {
                Err(e) => self.fail(e),
                Ok(_) => {
                    self.stage = DeployStage::Finished;
                    DeployStep::Done(
                        CreatedService {
                            id: self.creation.service_id.clone(),
                            domain: self.creation.domain.clone(),
                        },
                    )
                },
            },
            other => self.no_response(other),
        }
    }

    /// Takes the reply to the step in progress and says what to do next.
    pub fn advance(&mut self, reply: Reply) -> (step: DeployStep)
        ensures
            (final(self)@, step@) == deploy_next(old(self)@, reply@),
    {
        match &self.stage {
            DeployStage::Provisioning => self.on_provisioning(reply),
            DeployStage::EnablingActions => self.on_actions(reply),
            DeployStage::FetchingKey => self.on_key(reply),
            DeployStage::Sealing => self.on_sealing(reply),
            DeployStage::StoringSecret => self.on_secret(reply),
            DeployStage::PushingManifest => self.on_push(reply),
            DeployStage::Finished => DeployStep::Done(
                CreatedService {
                    id: self.creation.service_id.clone(),
                    domain: self.creation.domain.clone(),
                },
            ),
            DeployStage::Failed(e) => DeployStep::Failed(e.duplicate()),
        }
    }

    /// Begins the deployment of the repository `dest`, whose manifest is
    /// `file`, as a service named `slug`. What comes back is the deployment
    /// and its first request, the one for the service; or, with nothing
    /// sent, the error of a manifest that is not well-formed or of a missing
    /// token.
    pub fn begin(
        github: GitHubClient,
        fastly: &FastlyClient,
        dest: String,
        file: GitHubFile,
        spec: DeployConfigSpec,
        params: ActionParams,
        slug: &str,
    ) -> (r: Result<(Deployment, ApiRequest), DeployError>)
        ensures
            match r {
                Ok((d, request)) => deployment_begun(
                    github@,
                    opt_text(fastly.token),
                    dest@,
                    file@,
                    spec@,
                    params@,
                    slug@,
                ) == Ok::<(DeploymentModel, ApiRequestModel), DeployErrorModel>((d@, request@)),
                Err(e) => deployment_begun(
                    github@,
                    opt_text(fastly.token),
                    dest@,
                    file@,
                    spec@,
                    params@,
                    slug@,
                ) == Err::<(DeploymentModel, ApiRequestModel), DeployErrorModel>(e@),
            },
    {
        let manifest = match EditableManifest::load(file.content.as_str()) {
            Ok(m) => m,
            Err(e) => {
                return Err(e);
            },
        };
        let (creation, step) = fastly.create_service(slug, DeployConfig { spec, params });
        match step {
            CreationStep::Send(request) => Ok(
                (
                    Deployment {
                        stage: DeployStage::Provisioning,
                        creation,
                        github,
                        dest,
                        file,
                        manifest,
                        key_id: String::new(),
                    },
                    request,
                ),
            ),
            CreationStep::Failed(e) => Err(e),
            CreationStep::Done(_) => vstd::pervasive::unreached(),
        }
    }
}

/// The place of the awaited call in the order of a deployment: the service
/// first, then its domain, then backends and dictionaries, then the workflow
/// and the secret, and the manifest last.
pub open spec fn call_rank(d: DeploymentModel) -> int {
    match d.stage {
        DeployStageModel::Provisioning => match d.creation.stage {
            CreationStageModel::Service => 0,
            CreationStageModel::Domain => 1,
            _ => 2,
        },
        DeployStageModel::EnablingActions => 3,
        DeployStageModel::FetchingKey => 3,
        DeployStageModel::Sealing => 3,
        DeployStageModel::StoringSecret => 3,
        DeployStageModel::PushingManifest => 4,
        DeployStageModel::Finished => 5,
        DeployStageModel::Failed(_) => 6,
    }
}

/// The deployment after a run of replies.
pub open spec fn state_after(d: DeploymentModel, replies: Seq<ReplyModel>) -> DeploymentModel
    decreases replies.len(),
{
    if replies.len() == 0 {
        d
    } else {
        deploy_next(state_after(d, replies.drop_last()), replies.last()).0
    }
}

/// No reply takes a deployment back: the call awaited after it never comes
/// earlier in the order than the call awaited before it.
pub proof fn lemma_step_in_order(d: DeploymentModel, reply: ReplyModel)
    ensures
        call_rank(d) <= call_rank(deploy_next(d, reply).0),
{
}

/// Along any run of a deployment the calls come in order: the service is
/// asked for before the domain, the domain before any backend or
/// dictionary, those before the workflow and the secret, and the manifest is
/// written last.
pub proof fn lemma_calls_in_order(d: DeploymentModel, replies: Seq<ReplyModel>, i: int, j: int)
    requires
        0 <= i <= j <= replies.len(),
    ensures
        call_rank(state_after(d, replies.take(i))) <= call_rank(state_after(d, replies.take(j))),
    decreases j - i,
{
    if i < j {
        lemma_calls_in_order(d, replies, i, j - 1);
        assert(replies.take(j).drop_last() =~= replies.take(j - 1));
        lemma_step_in_order(state_after(d, replies.take(j - 1)), replies.take(j).last());
    }
}

/// A deployment begins with the request for the service, and nothing else
/// is awaited then.
pub proof fn lemma_service_comes_first(
    github: ClientModel,
    token: Option<Seq<char>>,
    dest: Seq<char>,
    file: FileModel,
    spec: SpecModel,
    params: Seq<(Seq<char>, Seq<char>)>,
    slug: Seq<char>,
)
    requires
        deployment_begun(github, token, dest, file, spec, params, slug) is Ok,
    ensures
        call_rank(deployment_begun(github, token, dest, file, spec, params, slug)->Ok_0.0) == 0,
        token is Some,
        deployment_begun(github, token, dest, file, spec, params, slug)->Ok_0.1
            == crate::scdn::create_service_request(token->0, slug),
{
}

/// The first failure ends a deployment: whatever is handed to it afterwards,
/// it stays as it is, asks for nothing, and reports the same error.
pub proof fn lemma_failure_is_final(d: DeploymentModel, reply: ReplyModel)
    requires
        d.stage is Failed,
    ensures
        deploy_next(d, reply) == (d, DeployStepModel::Failed(d.stage->Failed_0)),
{
}

/// A step that reports a failure leaves the deployment failed, with that
/// error.
pub proof fn lemma_failed_step_fails(d: DeploymentModel, reply: ReplyModel)
    requires
        deploy_next(d, reply).1 is Failed,
    ensures
        deploy_next(d, reply).0.stage == DeployStageModel::Failed(
            deploy_next(d, reply).1->Failed_0,
        ),
{
}

/// Where a template declares no backend, exactly one backend is created:
/// the request after the domain is for the loopback backend, and the
/// response to it leads on past the backends.
pub proof fn lemma_one_default_backend(c: CreationModel, status: u16, body: Seq<char>)
    requires
        c.backends == crate::scdn::resolved_backends(Seq::empty()),
    ensures
        crate::scdn::enter_backend(c, 0).1 == CreationStepModel::Send(
            crate::scdn::create_backend_request(
                c.token,
                c.service_id,
                crate::scdn::loopback_backend(),
            ),
        ),
        !(crate::scdn::after_backend(
            CreationModel { stage: CreationStageModel::Backend(0), ..c },
            0,
            ReplyModel::Response { status, body },
        ).0.stage is Backend),
{
}

/// Whether `request` is the call that a deployment in this state awaits the
/// reply to.
pub open spec fn awaits(d: DeploymentModel, request: ApiRequestModel) -> bool {
    let c = d.creation;
    match d.stage {
        DeployStageModel::Provisioning => match c.stage {
            CreationStageModel::Service => request == crate::scdn::create_service_request(
                c.token,
                c.slug,
            ),
            CreationStageModel::Domain => request == crate::scdn::create_domain_request(
                c.token,
                c.service_id,
                c.slug,
            ),
            CreationStageModel::Backend(i) => 0 <= i < c.backends.len() && request
                == crate::scdn::create_backend_request(c.token, c.service_id, c.backends[i]),
            CreationStageModel::Dictionary(j) => 0 <= j < c.dictionaries.len() && request
                == crate::scdn::create_dictionary_request(
                c.token,
                c.service_id,
                c.dictionaries[j].name,
            ),
            CreationStageModel::Items(j) => 0 <= j < c.dictionaries.len()
                && crate::config::resolved_pairs(
                c.params,
                c.dictionaries[j].name,
                c.dictionaries[j].items,
            ) is Ok && request == crate::scdn::populate_request(
                c.token,
                c.service_id,
                c.dictionary_id,
                crate::config::resolved_pairs(
                    c.params,
                    c.dictionaries[j].name,
                    c.dictionaries[j].items,
                )->Ok_0,
            ),
            _ => false,
        },
        DeployStageModel::EnablingActions => request == enable_actions_request(d.github, d.dest),
        DeployStageModel::FetchingKey => request == public_key_request(d.github, d.dest),
        DeployStageModel::StoringSecret => exists|sealed: Seq<u8>|
            request == #[trigger] secret_request(d.github, d.dest, secret_name(), d.key_id, sealed),
        DeployStageModel::PushingManifest => manifest_text(d.manifest) is Ok && request
            == upsert_request(d.github, d.dest, d.file, manifest_text(d.manifest)->Ok_0),
        _ => false,
    }
}

/// Every request of a deployment is the call that its new state awaits: the
/// place of a state in the order is the place of the call that was made.
pub proof fn lemma_request_is_awaited(d: DeploymentModel, reply: ReplyModel)
    requires
        deploy_next(d, reply).1 is Send,
    ensures
        awaits(deploy_next(d, reply).0, deploy_next(d, reply).1->Send_0),
{
}

/// The request with which a deployment begins is the call that it awaits.
pub proof fn lemma_first_request_is_awaited(
    github: ClientModel,
    token: Option<Seq<char>>,
    dest: Seq<char>,
    file: FileModel,
    spec: SpecModel,
    params: Seq<(Seq<char>, Seq<char>)>,
    slug: Seq<char>,
)
    requires
        deployment_begun(github, token, dest, file, spec, params, slug) is Ok,
    ensures
        awaits(
            deployment_begun(github, token, dest, file, spec, params, slug)->Ok_0.0,
            deployment_begun(github, token, dest, file, spec, params, slug)->Ok_0.1,
        ),
{
}

/// A reply without success to any call of a deployment ends it with an
/// error of the platform, and nothing more is sent.
pub proof fn lemma_refused_reply_ends_deployment(d: DeploymentModel, status: u16, body: Seq<char>)
    requires
        !crate::http::is_success(status),
        !(d.stage is Sealing),
        !(d.stage is Finished),
        !(d.stage is Failed),
        d.stage is Provisioning ==> !(d.creation.stage is Finished) && !(d.creation.stage is Failed),
    ensures
        deploy_next(d, ReplyModel::Response { status, body }).1 is Failed,
        deploy_next(d, ReplyModel::Response { status, body }).1->Failed_0 is ExternalApi,
        deploy_next(d, ReplyModel::Response { status, body }).0.stage is Failed,
{
}

/// A name that is generated for a service is never the bare prefix: it
/// holds two words of letters and hyphens, joined by a hyphen, and no
/// space.
pub proof fn lemma_generated_slug(slug: Seq<char>)
    requires
        two_word_slug(slug),
    ensures
        slug.len() >= "quick-"@.len() + 3,
        forall|i: int| "quick-"@.len() <= i < slug.len() ==> is_word_char(#[trigger] slug[i]),
{
    let phrase = choose|phrase: Seq<char>|
        phrase_of(phrase, 2) && slug == #[trigger] slug_of_phrase(phrase);
    let words = replaced(phrase, ' ', '-');
    lemma_two_words_are_long(phrase);
    assert forall|i: int| "quick-"@.len() <= i < slug.len() implies is_word_char(
        #[trigger] slug[i],
    ) by {
        let k = i - "quick-"@.len();
        assert(slug[i] == words[k]);
        assert(is_word_char(phrase[k]) || phrase[k] == ' ');
    }
}

/// A phrase with a space that neither begins nor ends with one is at least
/// three characters long.
proof fn lemma_two_words_are_long(phrase: Seq<char>)
    requires
        phrase_of(phrase, 2),
    ensures
        phrase.len() >= 3,
{
    if phrase.len() == 1 {
        assert(phrase.drop_last().len() == 0);
        assert(occurrences(phrase, ' ') == 0) by {
            reveal_with_fuel(occurrences, 2);
        }
    } else if phrase.len() == 2 {
        assert(phrase.drop_last().drop_last().len() == 0);
        assert(phrase.drop_last().last() == phrase[0]);
        assert(occurrences(phrase, ' ') == 0) by {
            reveal_with_fuel(occurrences, 3);
        }
    }
}

} // verus!
