//! Requests and answers as plain values: what the exchange asks a client to send, and what
//! it reads of the answer.

use crate::token::{TokenRequest, TokenRequestView};
use vstd::prelude::*;

verus! {

/// Named values, as they stand in a query or in a form.
pub type Fields = Vec<(String, String)>;

/// A request for a client to send.
#[derive(Clone, Debug)]
pub enum HttpRequest {
    /// `GET` of `url` with the query `query`.
    Get { url: String, query: Fields },
    /// `GET` of `url` with the query `query`, authorized by `bearer` as a bearer token.
    GetAuthorized { url: String, query: Fields, bearer: String },
    /// `POST` to `url` of `fields` as a form.
    PostForm { url: String, fields: Fields },
    /// `POST` to `url` of `body` as JSON.
    PostJson { url: String, body: TokenRequest },
}

/// The mathematical content of an [`HttpRequest`].
pub ghost enum HttpRequestView {
    Get { url: Seq<char>, query: Seq<(Seq<char>, Seq<char>)> },
    GetAuthorized { url: Seq<char>, query: Seq<(Seq<char>, Seq<char>)>, bearer: Seq<char> },
    PostForm { url: Seq<char>, fields: Seq<(Seq<char>, Seq<char>)> },
    PostJson { url: Seq<char>, body: TokenRequestView },
}

impl View for HttpRequest {
    type V = HttpRequestView;

    open spec fn view(&self) -> HttpRequestView {
        match self {
            HttpRequest::Get { url, query } => HttpRequestView::Get {
                url: url@,
                query: query.deep_view(),
            },
            HttpRequest::GetAuthorized { url, query, bearer } => HttpRequestView::GetAuthorized {
                url: url@,
                query: query.deep_view(),
                bearer: bearer@,
            },
            HttpRequest::PostForm { url, fields } => HttpRequestView::PostForm {
                url: url@,
                fields: fields.deep_view(),
            },
            HttpRequest::PostJson { url, body } => HttpRequestView::PostJson {
                url: url@,
                body: body@,
            },
        }
    }
}

/// What the exchange reads of an answer: the address of the request that was answered,
/// after the redirects that the client followed; the status; the `Location` header, if it
/// is there and is text; and the body as text.
#[derive(Clone, Debug)]
pub struct HttpReply {
    pub url: String,
    pub status: u16,
    pub location: Option<String>,
    pub body: String,
}

/// The mathematical content of an [`HttpReply`].
pub ghost struct HttpReplyView {
    pub url: Seq<char>,
    pub status: u16,
    pub location: Option<Seq<char>>,
    pub body: Seq<char>,
}

impl View for HttpReply {
    type V = HttpReplyView;

    open spec fn view(&self) -> HttpReplyView {
        HttpReplyView {
            url: self.url@,
            status: self.status,
            location: self.location.deep_view(),
            body: self.body@,
        }
    }
}

impl HttpReplyView {
    /// Whether the answer is a redirect that the client did not follow.
    pub open spec fn is_redirect(self) -> bool {
        300 <= self.status < 400
    }
}

impl HttpReply {
    /// Whether the answer is a redirect that the client did not follow.
    pub fn is_redirect(&self) -> (redirect: bool)
        ensures
            redirect == self@.is_redirect(),
    {
        300 <= self.status && self.status < 400
    }
}

/// A named value.
pub fn field(name: &str, value: &str) -> (pair: (String, String))
    ensures
        pair.deep_view() == (name@, value@),
{
    (name.to_owned(), value.to_owned())
}

} // verus!
