use vstd::prelude::*;
use vstd::string::*;
use crate::text::join_text;

verus! {

/// Why a request to this service failed.
#[derive(Debug)]
pub enum DeployError {
    /// A credential is missing or was refused; holds the message.
    Auth(String),
    /// One of the two platforms answered with a failure; holds its message as
    /// it came.
    ExternalApi(String),
    /// The service manifest is not well-formed; holds the parser's message.
    ManifestParse(String),
    /// The deployment specification is not well-formed; holds the message.
    SpecParse(String),
    /// A dictionary item has neither a submitted value nor a default; holds
    /// the item's key.
    MissingValue(String),
    /// The workflow was entered out of order; holds the message that names
    /// the missing fact.
    Precondition(String),
    /// The source repository is not a template; holds the request path.
    NotATemplate(String),
}

/// A `DeployError` with its texts as sequences of characters.
pub enum DeployErrorModel {
    Auth(Seq<char>),
    ExternalApi(Seq<char>),
    ManifestParse(Seq<char>),
    SpecParse(Seq<char>),
    MissingValue(Seq<char>),
    Precondition(Seq<char>),
    NotATemplate(Seq<char>),
}

impl View for DeployError {
    type V = DeployErrorModel;

    open spec fn view(&self) -> DeployErrorModel {
        match self {
            DeployError::Auth(m) => DeployErrorModel::Auth(m@),
            DeployError::ExternalApi(m) => DeployErrorModel::ExternalApi(m@),
            DeployError::ManifestParse(m) => DeployErrorModel::ManifestParse(m@),
            DeployError::SpecParse(m) => DeployErrorModel::SpecParse(m@),
            DeployError::MissingValue(k) => DeployErrorModel::MissingValue(k@),
            DeployError::Precondition(m) => DeployErrorModel::Precondition(m@),
            DeployError::NotATemplate(p) => DeployErrorModel::NotATemplate(p@),
        }
    }
}

/// The message shown to the user for an error.
pub open spec fn message_of(e: DeployErrorModel) -> Seq<char> {
    match e {
        DeployErrorModel::Auth(m) => m,
        DeployErrorModel::ExternalApi(m) => m,
        DeployErrorModel::ManifestParse(m) => m,
        DeployErrorModel::SpecParse(m) => m,
        DeployErrorModel::MissingValue(k) => "No value provided for dict key "@ + k,
        DeployErrorModel::Precondition(m) => m,
        DeployErrorModel::NotATemplate(p) =>
            "The chosen source is not a template repository: github.com"@ + p,
    }
}

impl DeployError {
    /// The message shown to the user.
    pub fn message(&self) -> (r: String)
        ensures
            r@ == message_of(self@),
    {
        match self {
            DeployError::Auth(m) => m.clone(),
            DeployError::ExternalApi(m) => m.clone(),
            DeployError::ManifestParse(m) => m.clone(),
            DeployError::SpecParse(m) => m.clone(),
            DeployError::MissingValue(k) => join_text("No value provided for dict key ", k.as_str()),
            DeployError::Precondition(m) => m.clone(),
            DeployError::NotATemplate(p) => join_text(
                "The chosen source is not a template repository: github.com",
                p.as_str(),
            ),
        }
    }

    /// A copy of the error.
    pub fn duplicate(&self) -> (r: DeployError)
        ensures
            r@ == self@,
    {
        match self {
            DeployError::Auth(m) => DeployError::Auth(m.clone()),
            DeployError::ExternalApi(m) => DeployError::ExternalApi(m.clone()),
            DeployError::ManifestParse(m) => DeployError::ManifestParse(m.clone()),
            DeployError::SpecParse(m) => DeployError::SpecParse(m.clone()),
            DeployError::MissingValue(k) => DeployError::MissingValue(k.clone()),
            DeployError::Precondition(m) => DeployError::Precondition(m.clone()),
            DeployError::NotATemplate(p) => DeployError::NotATemplate(p.clone()),
        }
    }
}

} // verus!
