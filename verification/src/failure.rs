//! The ways in which a credential exchange or a project lookup ends without a result.

use vstd::prelude::*;
use vstd::string::StringExecFns;

verus! {

/// A key that the OAuth fragment of the console redirect has to carry.
#[derive(Clone, Copy, Debug, PartialEq, Eq, Structural)]
pub enum OAuthField {
    AccessToken,
    IdToken,
}

impl OAuthField {
    /// The key as it is spelled in the fragment.
    pub open spec fn key(self) -> Seq<char> {
        match self {
            OAuthField::AccessToken => "access_token"@,
            OAuthField::IdToken => "id_token"@,
        }
    }

    /// The key as it is spelled in the fragment.
    pub fn name(self) -> (name: &'static str)
        ensures
            name@ == self.key(),
    {
        match self {
            OAuthField::AccessToken => "access_token",
            OAuthField::IdToken => "id_token",
        }
    }
}

/// Why an operation gave no token and no identifier. Every failure ends the operation.
#[derive(Debug)]
#[allow(inconsistent_fields)]
pub enum Failure {
    /// A request that should have ended on the login page ended at `observed`.
    UnexpectedPage { expected: String, observed: String },
    /// The client stopped at `at` on a redirect that it did not follow, where a page was
    /// expected. `target` is where the redirect leads, if the answer says so.
    RedirectPending { at: String, target: Option<String> },
    /// The login form holds no anti-forgery token.
    TokenNotFound,
    /// The identity provider sent the login page again.
    InvalidCredentials,
    /// After the login the provider did not redirect to `expected`.
    UnexpectedRedirect { expected: String, observed: Option<String> },
    /// The redirect target cannot be read as a URL.
    InvalidLocation { location: String },
    /// The fragment of the redirect target lacks a required key.
    MissingOAuthField(OAuthField),
    /// No bearer token can be read from the answer.
    TokenExtractionFailed,
    /// The browser session holds no cookie with the tokens.
    CookieNotFound,
    /// The page that follows a login did not show up in time.
    LoginTimeout,
    /// No project of the listing has this name.
    ProjectNotFound(String),
    /// A page of the listing could not be fetched or read.
    PageFetchFailed { reason: String },
}

/// The mathematical content of a [`Failure`].
#[allow(inconsistent_fields)]
pub ghost enum FailureView {
    UnexpectedPage { expected: Seq<char>, observed: Seq<char> },
    RedirectPending { at: Seq<char>, target: Option<Seq<char>> },
    TokenNotFound,
    InvalidCredentials,
    UnexpectedRedirect { expected: Seq<char>, observed: Option<Seq<char>> },
    InvalidLocation { location: Seq<char> },
    MissingOAuthField(OAuthField),
    TokenExtractionFailed,
    CookieNotFound,
    LoginTimeout,
    ProjectNotFound(Seq<char>),
    PageFetchFailed { reason: Seq<char> },
}

impl View for Failure {
    type V = FailureView;

    open spec fn view(&self) -> FailureView {
        match self {
            Failure::UnexpectedPage { expected, observed } => FailureView::UnexpectedPage {
                expected: expected@,
                observed: observed@,
            },
            Failure::RedirectPending { at, target } => FailureView::RedirectPending {
                at: at@,
                target: target.deep_view(),
            },
            Failure::TokenNotFound => FailureView::TokenNotFound,
            Failure::InvalidCredentials => FailureView::InvalidCredentials,
            Failure::UnexpectedRedirect { expected, observed } => FailureView::UnexpectedRedirect {
                expected: expected@,
                observed: observed.deep_view(),
            },
            Failure::InvalidLocation { location } => FailureView::InvalidLocation {
                location: location@,
            },
            Failure::MissingOAuthField(field) => FailureView::MissingOAuthField(*field),
            Failure::TokenExtractionFailed => FailureView::TokenExtractionFailed,
            Failure::CookieNotFound => FailureView::CookieNotFound,
            Failure::LoginTimeout => FailureView::LoginTimeout,
            Failure::ProjectNotFound(name) => FailureView::ProjectNotFound(name@),
            Failure::PageFetchFailed { reason } => FailureView::PageFetchFailed { reason: reason@ },
        }
    }
}

/// The content of an outcome: the value as it is, or the content of the failure.
pub open spec fn outcome_view<T>(outcome: Result<T, Failure>) -> Result<T, FailureView> {
    match outcome {
        Ok(value) => Ok(value),
        Err(failure) => Err(failure@),
    }
}

/// The content of an outcome that is a piece of text.
pub open spec fn text_outcome_view(outcome: Result<String, Failure>) -> Result<
    Seq<char>,
    FailureView,
> {
    match outcome {
        Ok(text) => Ok(text@),
        Err(failure) => Err(failure@),
    }
}

impl FailureView {
    /// The one line that describes the failure to an operator.
    pub open spec fn text(self) -> Seq<char> {
        match self {
            FailureView::UnexpectedPage { expected, observed } => "expected "@ + expected + ", got "@
                + observed,
            FailureView::RedirectPending { at, target } => match target {
                Some(location) => "redirect from "@ + at + " to "@ + location
                    + " was not followed"@,
                None => "redirect from "@ + at + " was not followed"@,
            },
            FailureView::TokenNotFound => "CSRF token not found"@,
            FailureView::InvalidCredentials => "login failed, check username/password"@,
            FailureView::UnexpectedRedirect { expected, observed } => match observed {
                Some(location) => "expected redirect to "@ + expected + ", got "@ + location,
                None => "expected redirect to "@ + expected + ", got no Location header"@,
            },
            FailureView::InvalidLocation { location } => "cannot read redirect target "@ + location,
            FailureView::MissingOAuthField(field) => field.key() + " missing"@,
            FailureView::TokenExtractionFailed => "token missing from the answer"@,
            FailureView::CookieNotFound => "tokens cookie not found"@,
            FailureView::LoginTimeout => "timed out waiting for the login to complete"@,
            FailureView::ProjectNotFound(name) => "project "@ + name + " not found"@,
            FailureView::PageFetchFailed { reason } => "cannot fetch the project listing: "@
                + reason,
        }
    }
}

impl Failure {
    /// The one line that describes the failure to an operator.
    pub fn message(&self) -> (line: String)
        ensures
            line@ == self@.text(),
    {
        match self {
            Failure::UnexpectedPage { expected, observed } => String::from_str("expected ").concat(
                expected.as_str(),
            ).concat(", got ").concat(observed.as_str()),
            Failure::RedirectPending { at, target } => {
                let start = String::from_str("redirect from ").concat(at.as_str());
                match target {
                    Some(location) => start.concat(" to ").concat(location.as_str()).concat(
                        " was not followed",
                    ),
                    None => start.concat(" was not followed"),
                }
            },
            Failure::TokenNotFound => String::from_str("CSRF token not found"),
            Failure::InvalidCredentials => String::from_str("login failed, check username/password"),
            Failure::UnexpectedRedirect { expected, observed } => {
                let start = String::from_str("expected redirect to ").concat(expected.as_str());
                match observed {
                    Some(location) => start.concat(", got ").concat(location.as_str()),
                    None => start.concat(", got no Location header"),
                }
            },
            Failure::InvalidLocation { location } => String::from_str(
                "cannot read redirect target ",
            ).concat(location.as_str()),
            Failure::MissingOAuthField(field) => String::from_str(field.name()).concat(" missing"),
            Failure::TokenExtractionFailed => String::from_str("token missing from the answer"),
            Failure::CookieNotFound => String::from_str("tokens cookie not found"),
            Failure::LoginTimeout => String::from_str("timed out waiting for the login to complete"),
            Failure::ProjectNotFound(name) => String::from_str("project ").concat(
                name.as_str(),
            ).concat(" not found"),
            Failure::PageFetchFailed { reason } => String::from_str(
                "cannot fetch the project listing: ",
            ).concat(reason.as_str()),
        }
    }
}

} // verus!
