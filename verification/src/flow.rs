use vstd::prelude::*;
use vstd::string::*;
use crate::error::{DeployError, DeployErrorModel};
use crate::http::ApiResponse;

verus! {

/// What the caller hands back after it has carried out a step.
#[derive(Debug)]
pub enum Reply {
    /// The response to the request that was sent.
    Response(ApiResponse),
    /// The request could not be sent or no response came; holds the message.
    Failure(String),
    /// The ciphertext of the secret that was to be sealed.
    Sealed(Vec<u8>),
}

/// A `Reply` with its texts as sequences of characters.
pub enum ReplyModel {
    Response { status: u16, body: Seq<char> },
    Failure(Seq<char>),
    Sealed(Seq<u8>),
}

impl View for Reply {
    type V = ReplyModel;

    open spec fn view(&self) -> ReplyModel {
        match self {
            Reply::Response(r) => ReplyModel::Response { status: r.status, body: r.body@ },
            Reply::Failure(m) => ReplyModel::Failure(m@),
            Reply::Sealed(b) => ReplyModel::Sealed(b@),
        }
    }
}

/// The message for a reply of a kind that the step in progress does not
/// take.
pub open spec fn unexpected_reply() -> Seq<char> {
    "The reply does not belong to the step in progress"@
}

/// The response that a reply holds; a request that could not be sent is an
/// error with the transport's message as it came.
pub open spec fn response_of(reply: ReplyModel) -> Result<(u16, Seq<char>), DeployErrorModel> {
    match reply {
        ReplyModel::Response { status, body } => Ok((status, body)),
        ReplyModel::Failure(m) => Err(DeployErrorModel::ExternalApi(m)),
        ReplyModel::Sealed(_) => Err(DeployErrorModel::Precondition(unexpected_reply())),
    }
}

impl Reply {
    /// Takes the response out of a reply.
    pub fn into_response(self) -> (r: Result<ApiResponse, DeployError>)
        ensures
            match r {
                Ok(response) => response_of(self@) == Ok::<(u16, Seq<char>), DeployErrorModel>(
                    (response.status, response.body@),
                ),
                Err(e) => response_of(self@) == Err::<(u16, Seq<char>), DeployErrorModel>(e@),
            },
    {
        match self {
            Reply::Response(response) => Ok(response),
            Reply::Failure(m) => Err(DeployError::ExternalApi(m)),
            Reply::Sealed(_) => Err(
                DeployError::Precondition(
                    String::from_str("The reply does not belong to the step in progress"),
                ),
            ),
        }
    }
}

} // verus!
