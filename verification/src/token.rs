//! The exchange at the token endpoint: what is sent, and the bearer token in the answer.

use crate::failure::{text_outcome_view, Failure, FailureView};
use crate::json::{json_document, parse_json, JsonTree, JsonValue};
use crate::oauth::{OAuthTokens, OAuthTokensView};
use vstd::prelude::*;

verus! {

/// The member of the answer that holds the bearer token.
pub const SECRET_TOKEN: &'static str = "secret_token";

/// What is sent to the token endpoint.
#[derive(Clone, Debug)]
pub enum TokenRequest {
    /// Asks for a token with the privileges of the account that the two tokens stand for.
    User { access_token: String, id_token: String },
    /// Asks for a token that is limited to one project.
    ProjectUser { project: String },
}

/// The mathematical content of a [`TokenRequest`].
pub ghost enum TokenRequestView {
    User { access_token: Seq<char>, id_token: Seq<char> },
    ProjectUser { project: Seq<char> },
}

impl View for TokenRequest {
    type V = TokenRequestView;

    open spec fn view(&self) -> TokenRequestView {
        match self {
            TokenRequest::User { access_token, id_token } => TokenRequestView::User {
                access_token: access_token@,
                id_token: id_token@,
            },
            TokenRequest::ProjectUser { project } => TokenRequestView::ProjectUser {
                project: project@,
            },
        }
    }
}

impl TokenRequestView {
    /// The value of the member `type` in the body of the request.
    pub open spec fn kind(self) -> Seq<char> {
        match self {
            TokenRequestView::User { .. } => "user"@,
            TokenRequestView::ProjectUser { .. } => "project_user"@,
        }
    }
}

impl TokenRequest {
    /// The request that exchanges the two tokens of a login for a bearer token.
    pub fn for_user(tokens: OAuthTokens) -> (request: TokenRequest)
        ensures
            request@ == (TokenRequestView::User {
                access_token: tokens@.access_token,
                id_token: tokens@.id_token,
            }),
    {
        TokenRequest::User { access_token: tokens.access_token, id_token: tokens.id_token }
    }

    /// The value of the member `type` in the body of the request.
    pub fn kind(&self) -> (kind: &'static str)
        ensures
            kind@ == self@.kind(),
    {
        match self {
            TokenRequest::User { .. } => "user",
            TokenRequest::ProjectUser { .. } => "project_user",
        }
    }
}

/// The bearer token of an answer: its member `secret_token`, where the answer is an
/// object that has this member and the member is a string.
pub open spec fn secret_token_of(answer: Option<JsonTree>) -> Result<Seq<char>, FailureView> {
    match answer {
        Some(tree) => match tree.member(SECRET_TOKEN@) {
            Some(JsonTree::Text(token)) => Ok(token),
            _ => Err(FailureView::TokenExtractionFailed),
        },
        None => Err(FailureView::TokenExtractionFailed),
    }
}

/// Takes the bearer token out of the answer of the token endpoint.
pub fn secret_token_in(answer: &JsonValue) -> (outcome: Result<String, Failure>)
    ensures
        text_outcome_view(outcome) == secret_token_of(Some(answer@)),
{
    match answer.member(SECRET_TOKEN) {
        Some(member) => match member.text() {
            Some(token) => Ok(token.clone()),
            None => Err(Failure::TokenExtractionFailed),
        },
        None => Err(Failure::TokenExtractionFailed),
    }
}

/// Reads the body of the answer of the token endpoint as JSON and takes the bearer token
/// out of it.
pub fn secret_token(body: &[u8]) -> (outcome: Result<String, Failure>)
    ensures
        text_outcome_view(outcome) == secret_token_of(json_document(body@)),
{
    match parse_json(body) {
        Some(answer) => secret_token_in(&answer),
        None => Err(Failure::TokenExtractionFailed),
    }
}

} // verus!
