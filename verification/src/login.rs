//! The login over plain HTTP: the authorize request that opens a session, the login form,
//! the redirect that carries the OAuth tokens, and their exchange for a bearer token.
//!
//! The exchange sends nothing itself. It says which request comes next and reads the
//! answer that the caller hands back.

use crate::endpoints::{AUTHORIZE_URL, CONSOLE_URL, LOGIN_CHECK_URL, LOGIN_URL, TOKENS_URL};
use crate::failure::{text_outcome_view, Failure, FailureView};
use crate::form::{csrf_token, token_of_page};
use crate::http::{field, Fields, HttpReply, HttpReplyView, HttpRequest, HttpRequestView};
use crate::json::json_document;
use crate::oauth::{
    form_pairs,
    location_fragment,
    pairs_map,
    tokens_from_location,
    tokens_in_location,
    tokens_outcome_view,
    OAuthTokens,
    OAuthTokensView,
};
use crate::redirect::{lemma_long_chain_is_cut, RedirectPolicyView};
use crate::text::{has_prefix, same_text, starts_with};
use crate::token::{secret_token, secret_token_of, TokenRequest, TokenRequestView};
use vstd::prelude::*;
use vstd::utf8::encode_utf8;

verus! {

/// The credentials of an account.
#[derive(Clone, Debug)]
pub struct Credentials {
    pub username: String,
    pub password: String,
}

/// The mathematical content of [`Credentials`].
pub ghost struct CredentialsView {
    pub username: Seq<char>,
    pub password: Seq<char>,
}

impl View for Credentials {
    type V = CredentialsView;

    open spec fn view(&self) -> CredentialsView {
        CredentialsView { username: self.username@, password: self.password@ }
    }
}

/// The query of the authorize request: the implicit flow, for the console as the client.
pub open spec fn authorize_query() -> Seq<(Seq<char>, Seq<char>)> {
    seq![
        ("response_type"@, "id_token token"@),
        ("client_id"@, "cloud_421"@),
        ("state"@, "spaghetti"@),
        ("nonce"@, "potato"@),
        ("redirect_uri"@, "https://console.hetzner.cloud/"@),
        ("scope"@, "openid"@),
    ]
}

/// The request that opens a session: it leads an unauthenticated client to the login page.
pub fn authorize_request() -> (request: HttpRequest)
    ensures
        request@ == (HttpRequestView::Get { url: AUTHORIZE_URL@, query: authorize_query() }),
{
    let mut query: Fields = Vec::new();
    query.push(field("response_type", "id_token token"));
    query.push(field("client_id", "cloud_421"));
    query.push(field("state", "spaghetti"));
    query.push(field("nonce", "potato"));
    query.push(field("redirect_uri", "https://console.hetzner.cloud/"));
    query.push(field("scope", "openid"));
    assert(query.deep_view() =~= authorize_query());
    HttpRequest::Get { url: AUTHORIZE_URL.to_owned(), query }
}

/// The fields of the login form.
pub open spec fn login_fields(credentials: CredentialsView, csrf_token: Seq<char>) -> Seq<
    (Seq<char>, Seq<char>),
> {
    seq![
        ("_username"@, credentials.username),
        ("_password"@, credentials.password),
        ("_csrf_token"@, csrf_token),
    ]
}

/// The request that submits the login form.
pub fn login_request(credentials: &Credentials, csrf_token: &str) -> (request: HttpRequest)
    ensures
        request@ == (HttpRequestView::PostForm {
            url: LOGIN_CHECK_URL@,
            fields: login_fields(credentials@, csrf_token@),
        }),
{
    let mut fields: Fields = Vec::new();
    fields.push(field("_username", credentials.username.as_str()));
    fields.push(field("_password", credentials.password.as_str()));
    fields.push(field("_csrf_token", csrf_token));
    assert(fields.deep_view() =~= login_fields(credentials@, csrf_token@));
    HttpRequest::PostForm { url: LOGIN_CHECK_URL.to_owned(), fields }
}

/// The request that exchanges the two tokens for a bearer token.
pub fn token_request(tokens: OAuthTokens) -> (request: HttpRequest)
    ensures
        request@ == (HttpRequestView::PostJson {
            url: TOKENS_URL@,
            body: TokenRequestView::User {
                access_token: tokens@.access_token,
                id_token: tokens@.id_token,
            },
        }),
{
    HttpRequest::PostJson { url: TOKENS_URL.to_owned(), body: TokenRequest::for_user(tokens) }
}

/// What the answer to the authorize request yields. Unless the client stands on the login
/// page, the session is not what the exchange needs. An answer from the address of the
/// login page that is a redirect, which the client left unfollowed, is no login page
/// either. On the login page the anti-forgery token is looked for.
pub open spec fn login_page_outcome(reply: HttpReplyView) -> Result<Seq<char>, FailureView> {
    if reply.url != LOGIN_URL@ {
        Err(FailureView::UnexpectedPage { expected: LOGIN_URL@, observed: reply.url })
    } else if reply.is_redirect() {
        Err(FailureView::RedirectPending { at: reply.url, target: reply.location })
    } else {
        token_of_page(reply.body)
    }
}

/// Reads the answer to the authorize request: the anti-forgery token of the login form.
pub fn read_login_page(reply: &HttpReply) -> (outcome: Result<String, Failure>)
    ensures
        text_outcome_view(outcome) == login_page_outcome(reply@),
{
    if !same_text(reply.url.as_str(), LOGIN_URL) {
        return Err(
            Failure::UnexpectedPage {
                expected: LOGIN_URL.to_owned(),
                observed: reply.url.clone(),
            },
        );
    }
    if reply.is_redirect() {
        return Err(
            Failure::RedirectPending { at: reply.url.clone(), target: reply.location.clone() },
        );
    }
    csrf_token(reply.body.as_str())
}

/// What the answer to the login form yields. The login page again means that the
/// credentials were rejected. Else the answer has to be the redirect into the console,
/// which the client did not follow and whose target carries the two tokens.
pub open spec fn login_check_outcome(reply: HttpReplyView) -> Result<
    OAuthTokensView,
    FailureView,
> {
    if reply.url == LOGIN_URL@ {
        Err(FailureView::InvalidCredentials)
    } else {
        match reply.location {
            Some(location) => if has_prefix(location, CONSOLE_URL@) {
                tokens_in_location(location)
            } else {
                Err(
                    FailureView::UnexpectedRedirect {
                        expected: CONSOLE_URL@,
                        observed: Some(location),
                    },
                )
            },
            None => Err(
                FailureView::UnexpectedRedirect { expected: CONSOLE_URL@, observed: None },
            ),
        }
    }
}

/// Reads the answer to the login form: the two tokens in the target of the redirect.
pub fn read_login_check(reply: &HttpReply) -> (outcome: Result<OAuthTokens, Failure>)
    ensures
        tokens_outcome_view(outcome) == login_check_outcome(reply@),
{
    if same_text(reply.url.as_str(), LOGIN_URL) {
        return Err(Failure::InvalidCredentials);
    }
    match &reply.location {
        Some(location) => {
            if starts_with(location.as_str(), CONSOLE_URL) {
                tokens_from_location(location.as_str())
            } else {
                Err(
                    Failure::UnexpectedRedirect {
                        expected: CONSOLE_URL.to_owned(),
                        observed: Some(location.clone()),
                    },
                )
            }
        },
        None => Err(
            Failure::UnexpectedRedirect { expected: CONSOLE_URL.to_owned(), observed: None },
        ),
    }
}

/// What the answer of the token endpoint yields: the bearer token in its body.
pub open spec fn token_outcome(reply: HttpReplyView) -> Result<Seq<char>, FailureView> {
    secret_token_of(json_document(encode_utf8(reply.body)))
}

/// Reads the answer of the token endpoint: the bearer token.
pub fn read_token(reply: &HttpReply) -> (outcome: Result<String, Failure>)
    ensures
        text_outcome_view(outcome) == token_outcome(reply@),
{
    secret_token(reply.body.as_str().as_bytes())
}

/// Which answer the exchange waits for.
#[derive(Clone, Copy, Debug, PartialEq, Eq, Structural)]
pub enum Stage {
    /// The answer to the authorize request.
    LoginPage,
    /// The answer to the login form.
    LoginCheck,
    /// The answer of the token endpoint.
    TokenExchange,
}

/// What the exchange does next.
#[derive(Debug)]
pub enum Step {
    /// Send `request` in the session and hand the answer back for `stage`.
    Send { request: HttpRequest, stage: Stage },
    /// The exchange is over.
    Done(Result<String, Failure>),
}

/// The mathematical content of a [`Step`].
pub ghost enum StepView {
    Send { request: HttpRequestView, stage: Stage },
    Done(Result<Seq<char>, FailureView>),
}

impl View for Step {
    type V = StepView;

    open spec fn view(&self) -> StepView {
        match self {
            Step::Send { request, stage } => StepView::Send { request: request@, stage: *stage },
            Step::Done(outcome) => StepView::Done(text_outcome_view(*outcome)),
        }
    }
}

/// The first step of an exchange: the authorize request.
pub fn begin() -> (step: Step)
    ensures
        step@ == (StepView::Send {
            request: HttpRequestView::Get { url: AUTHORIZE_URL@, query: authorize_query() },
            stage: Stage::LoginPage,
        }),
{
    Step::Send { request: authorize_request(), stage: Stage::LoginPage }
}

/// The step that follows the answer `reply` at `stage`. A failure ends the exchange; so
/// does the bearer token.
pub open spec fn next(stage: Stage, credentials: CredentialsView, reply: HttpReplyView) -> StepView {
    match stage {
        Stage::LoginPage => match login_page_outcome(reply) {
            Ok(csrf_token) => StepView::Send {
                request: HttpRequestView::PostForm {
                    url: LOGIN_CHECK_URL@,
                    fields: login_fields(credentials, csrf_token),
                },
                stage: Stage::LoginCheck,
            },
            Err(failure) => StepView::Done(Err(failure)),
        },
        Stage::LoginCheck => match login_check_outcome(reply) {
            Ok(tokens) => StepView::Send {
                request: HttpRequestView::PostJson {
                    url: TOKENS_URL@,
                    body: TokenRequestView::User {
                        access_token: tokens.access_token,
                        id_token: tokens.id_token,
                    },
                },
                stage: Stage::TokenExchange,
            },
            Err(failure) => StepView::Done(Err(failure)),
        },
        Stage::TokenExchange => StepView::Done(token_outcome(reply)),
    }
}

/// Reads the answer that came in at `stage` and decides what follows.
pub fn advance(stage: Stage, credentials: &Credentials, reply: &HttpReply) -> (step: Step)
    ensures
        step@ == next(stage, credentials@, reply@),
{
    match stage {
        Stage::LoginPage => match read_login_page(reply) {
            Ok(csrf_token) => Step::Send {
                request: login_request(credentials, csrf_token.as_str()),
                stage: Stage::LoginCheck,
            },
            Err(failure) => Step::Done(Err(failure)),
        },
        Stage::LoginCheck => match read_login_check(reply) {
            Ok(tokens) => Step::Send {
                request: token_request(tokens),
                stage: Stage::TokenExchange,
            },
            Err(failure) => Step::Done(Err(failure)),
        },
        Stage::TokenExchange => Step::Done(read_token(reply)),
    }
}

/// The login page in answer to the login form ends the exchange: the credentials are
/// invalid, whatever else the answer holds.
pub proof fn lemma_rejected_login(credentials: CredentialsView, reply: HttpReplyView)
    requires
        reply.url == LOGIN_URL@,
    ensures
        next(Stage::LoginCheck, credentials, reply) == StepView::Done(
            Err(FailureView::InvalidCredentials),
        ),
{
}

/// A redirect into the console whose fragment holds both tokens takes the exchange on to
/// the token endpoint, with these two tokens; the bearer token in the answer of the
/// endpoint then ends it.
pub proof fn lemma_accepted_login(
    credentials: CredentialsView,
    reply: HttpReplyView,
    location: Seq<char>,
    fragment: Seq<char>,
    answer: HttpReplyView,
)
    requires
        reply.url != LOGIN_URL@,
        reply.location == Some(location),
        has_prefix(location, CONSOLE_URL@),
        location_fragment(location) == Some(Some(fragment)),
        pairs_map(form_pairs(fragment)).contains_key("access_token"@),
        pairs_map(form_pairs(fragment)).contains_key("id_token"@),
    ensures
        next(Stage::LoginCheck, credentials, reply) == (StepView::Send {
            request: HttpRequestView::PostJson {
                url: TOKENS_URL@,
                body: TokenRequestView::User {
                    access_token: pairs_map(form_pairs(fragment))["access_token"@],
                    id_token: pairs_map(form_pairs(fragment))["id_token"@],
                },
            },
            stage: Stage::TokenExchange,
        }),
        next(Stage::TokenExchange, credentials, answer) == StepView::Done(
            secret_token_of(json_document(encode_utf8(answer.body))),
        ),
{
}

/// A chain of redirects that is longer than the policy of the session allows opens no
/// session: the client stops at a redirect, and the answer at which it stopped is refused,
/// wherever it stopped.
pub proof fn lemma_long_chain_is_refused(
    policy: RedirectPolicyView,
    start: Seq<char>,
    targets: Seq<Seq<char>>,
    reply: HttpReplyView,
)
    requires
        targets.len() > policy.max_redirects,
        reply.url == policy.landing(start, targets).url,
        reply.location == policy.landing(start, targets).pending,
        reply.is_redirect() == policy.landing(start, targets).pending is Some,
    ensures
        policy.landing(start, targets).followed <= policy.max_redirects,
        login_page_outcome(reply) == Err::<Seq<char>, FailureView>(
            if reply.url != LOGIN_URL@ {
                FailureView::UnexpectedPage { expected: LOGIN_URL@, observed: reply.url }
            } else {
                FailureView::RedirectPending {
                    at: LOGIN_URL@,
                    target: policy.landing(start, targets).pending,
                }
            },
        ),
        policy.landing(start, targets).pending is Some,
{
    lemma_long_chain_is_cut(policy, start, targets);
}

} // verus!
