//! The cookie in which the console keeps its tokens: finding it among the cookies of a
//! browser session, and reading the bearer token out of its value.

use crate::failure::{text_outcome_view, Failure, FailureView};
use crate::first::{first_index, is_first, lemma_first_index};
use crate::json::{json_document, parse_json, JsonTree, JsonValue};
use crate::text::same_text;
use vstd::prelude::*;
use vstd::utf8::encode_utf8;

verus! {

/// The name of the cookie that holds the tokens.
pub const TOKENS_COOKIE: &'static str = "tokens";

/// The domain for which the console sets that cookie.
pub const CONSOLE_DOMAIN: &'static str = "console.hetzner.cloud";

/// The member that holds the bearer token in an entry of the cookie's content.
pub const TOKEN_MEMBER: &'static str = "token";

/// A cookie of a browser session.
#[derive(Clone, Debug)]
pub struct Cookie {
    pub name: String,
    pub domain: String,
    pub value: String,
}

/// The condition on an index of `cookies`: the cookie there has exactly this name and
/// exactly this domain.
pub open spec fn is_cookie(cookies: Seq<Cookie>, name: Seq<char>, domain: Seq<char>) -> spec_fn(
    int,
) -> bool {
    |i: int| cookies[i].name@ == name && cookies[i].domain@ == domain
}

/// The value of the first cookie with exactly this name and exactly this domain.
pub open spec fn cookie_value(cookies: Seq<Cookie>, name: Seq<char>, domain: Seq<char>) -> Option<
    Seq<char>,
> {
    match first_index(cookies.len() as int, is_cookie(cookies, name, domain)) {
        Some(i) => Some(cookies[i].value@),
        None => None,
    }
}

/// Looks a cookie up by its exact name and its exact domain.
pub fn find_cookie<'a>(cookies: &'a Vec<Cookie>, name: &str, domain: &str) -> (found: Option<
    &'a Cookie,
>)
    ensures
        found is Some <==> cookie_value(cookies@, name@, domain@) is Some,
        found matches Some(cookie) ==> cookie.name@ == name@ && cookie.domain@ == domain@ && Some(
            cookie.value@,
        ) == cookie_value(cookies@, name@, domain@),
{
    let mut i: usize = 0;
    while i < cookies.len()
        invariant
            i <= cookies.len(),
            forall|j: int| 0 <= j < i ==> !#[trigger] is_cookie(cookies@, name@, domain@)(j),
        decreases cookies.len() - i,
    {
        if same_text(cookies[i].name.as_str(), name) && same_text(
            cookies[i].domain.as_str(),
            domain,
        ) {
            proof {
                lemma_first_index(cookies@.len() as int, is_cookie(cookies@, name@, domain@));
                assert(is_first(
                    cookies@.len() as int,
                    is_cookie(cookies@, name@, domain@),
                    i as int,
                ));
            }
            return Some(&cookies[i]);
        }
        i += 1;
    }
    proof {
        lemma_first_index(cookies@.len() as int, is_cookie(cookies@, name@, domain@));
    }
    None
}

/// The value of the cookie `tokens` of the console, or the failure that reports its absence.
pub open spec fn tokens_cookie_of(cookies: Seq<Cookie>) -> Result<Seq<char>, FailureView> {
    match cookie_value(cookies, TOKENS_COOKIE@, CONSOLE_DOMAIN@) {
        Some(value) => Ok(value),
        None => Err(FailureView::CookieNotFound),
    }
}

/// Picks the value of the cookie `tokens` of the console out of the cookies of a session.
pub fn tokens_cookie(cookies: &Vec<Cookie>) -> (outcome: Result<String, Failure>)
    ensures
        text_outcome_view(outcome) == tokens_cookie_of(cookies@),
{
    match find_cookie(cookies, TOKENS_COOKIE, CONSOLE_DOMAIN) {
        Some(cookie) => Ok(cookie.value.clone()),
        None => Err(Failure::CookieNotFound),
    }
}

/// The number that a hexadecimal digit stands for.
pub open spec fn hex_value(digit: u8) -> Option<u8> {
    if 0x30 <= digit <= 0x39 {
        Some((digit - 0x30) as u8)
    } else if 0x41 <= digit <= 0x46 {
        Some((digit - 0x41 + 10) as u8)
    } else if 0x61 <= digit <= 0x66 {
        Some((digit - 0x61 + 10) as u8)
    } else {
        None
    }
}

/// Puts `front` before what was decoded of the rest, if the rest could be decoded.
pub open spec fn prepend(front: Seq<u8>, rest: Option<Seq<u8>>) -> Option<Seq<u8>> {
    match rest {
        Some(rest) => Some(front + rest),
        None => None,
    }
}

/// The bytes that form-encoded bytes stand for: `+` stands for a space, `%` and two
/// hexadecimal digits for the byte with that number, and every other byte for itself. A `%`
/// that no two hexadecimal digits follow makes the input malformed.
pub open spec fn form_decoded(input: Seq<u8>) -> Option<Seq<u8>>
    decreases input.len(),
{
    if input.len() == 0 {
        Some(Seq::empty())
    } else if input[0] == 0x25 {
        if input.len() >= 3 && hex_value(input[1]) is Some && hex_value(input[2]) is Some {
            prepend(
                seq![(16 * hex_value(input[1]).unwrap() + hex_value(input[2]).unwrap()) as u8],
                form_decoded(input.skip(3)),
            )
        } else {
            None
        }
    } else if input[0] == 0x2b {
        prepend(seq![0x20u8], form_decoded(input.skip(1)))
    } else {
        prepend(seq![input[0]], form_decoded(input.skip(1)))
    }
}

/// The number that a hexadecimal digit stands for.
pub fn hex_digit(digit: u8) -> (value: Option<u8>)
    ensures
        value == hex_value(digit),
        value matches Some(v) ==> v < 16,
{
    if 0x30 <= digit && digit <= 0x39 {
        Some(digit - 0x30)
    } else if 0x41 <= digit && digit <= 0x46 {
        Some(digit - 0x41 + 10)
    } else if 0x61 <= digit && digit <= 0x66 {
        Some(digit - 0x61 + 10)
    } else {
        None
    }
}

/// Decodes form-encoded bytes.
pub fn form_decode(input: &[u8]) -> (decoded: Option<Vec<u8>>)
    ensures
        decoded is Some <==> form_decoded(input@) is Some,
        decoded matches Some(bytes) ==> form_decoded(input@) == Some(bytes@),
{
    let mut out: Vec<u8> = Vec::new();
    let mut i: usize = 0;
    proof {
        assert(input@.skip(0) =~= input@);
        if let Some(all) = form_decoded(input@) {
            assert(out@ + all =~= all);
        }
    }
    while i < input.len()
        invariant
            i <= input.len(),
            form_decoded(input@) == prepend(out@, form_decoded(input@.skip(i as int))),
        decreases input.len() - i,
    {
        let ghost rest = input@.skip(i as int);
        let ghost before = out@;
        let byte = input[i];
        assert(rest[0] == byte);
        if byte == 0x25 {
            if input.len() - i < 3 {
                return None;
            }
            assert(rest[1] == input@[i + 1] && rest[2] == input@[i + 2]);
            let high = hex_digit(input[i + 1]);
            let low = hex_digit(input[i + 2]);
            match (high, low) {
                (Some(high), Some(low)) => {
                    out.push(16 * high + low);
                    i += 3;
                    proof {
                        assert(rest.skip(3) =~= input@.skip(i as int));
                        let tail = form_decoded(input@.skip(i as int));
                        if let Some(tail) = tail {
                            assert(before + (seq![(16 * high + low) as u8] + tail) =~= out@
                                + tail);
                        }
                    }
                },
                _ => {
                    return None;
                },
            }
        } else {
            let plain: u8 = if byte == 0x2b {
                0x20
            } else {
                byte
            };
            out.push(plain);
            i += 1;
            proof {
                assert(rest.skip(1) =~= input@.skip(i as int));
                let tail = form_decoded(input@.skip(i as int));
                if let Some(tail) = tail {
                    assert(before + (seq![plain] + tail) =~= out@ + tail);
                }
            }
        }
    }
    proof {
        assert(out@ + Seq::<u8>::empty() =~= out@);
    }
    Some(out)
}

/// The bearer token in the content of the cookie: the member `token` of the first entry
/// of the mapping, where the content is a mapping, its first entry an object that has
/// this member, and the member a string.
///
/// The first entry is the first that the JSON reader hands out. As `serde_json` is built
/// for this library it keeps the members of an object ordered by their keys, so that is
/// the entry with the least key, which need not be the first in the text of the cookie.
pub open spec fn cookie_token_of(content: Option<JsonTree>) -> Result<Seq<char>, FailureView> {
    match content {
        Some(tree) => match tree.first_member() {
            Some(entry) => match entry.member(TOKEN_MEMBER@) {
                Some(JsonTree::Text(token)) => Ok(token),
                _ => Err(FailureView::TokenExtractionFailed),
            },
            None => Err(FailureView::TokenExtractionFailed),
        },
        None => Err(FailureView::TokenExtractionFailed),
    }
}

/// Takes the bearer token out of the content of the cookie.
pub fn cookie_token_in(content: &JsonValue) -> (outcome: Result<String, Failure>)
    ensures
        text_outcome_view(outcome) == cookie_token_of(Some(content@)),
{
    let entry = match content.first_member() {
        Some(entry) => entry,
        None => {
            return Err(Failure::TokenExtractionFailed);
        },
    };
    match entry.member(TOKEN_MEMBER) {
        Some(member) => match member.text() {
            Some(token) => Ok(token.clone()),
            None => Err(Failure::TokenExtractionFailed),
        },
        None => Err(Failure::TokenExtractionFailed),
    }
}

/// What the value of the cookie yields: the token in the JSON that the decoded value
/// holds. A value that is not well encoded yields no token, and so does one whose decoded
/// bytes are no JSON document.
pub open spec fn token_of_cookie_value(value: Seq<u8>) -> Result<Seq<char>, FailureView> {
    match form_decoded(value) {
        Some(bytes) => cookie_token_of(json_document(bytes)),
        None => Err(FailureView::TokenExtractionFailed),
    }
}

/// Reads the bearer token from the value of the cookie `tokens`: decodes the value, reads
/// the result as JSON, and takes the member `token` of its first entry.
pub fn cookie_token(value: &str) -> (outcome: Result<String, Failure>)
    ensures
        text_outcome_view(outcome) == token_of_cookie_value(encode_utf8(value@)),
        form_decoded(encode_utf8(value@)) is None ==> outcome is Err,
        form_decoded(encode_utf8(value@)) matches Some(bytes) && json_document(bytes) is None
            ==> outcome is Err,
        outcome matches Err(failure) ==> failure@ == FailureView::TokenExtractionFailed,
{
    let decoded = match form_decode(value.as_bytes()) {
        Some(decoded) => decoded,
        None => {
            return Err(Failure::TokenExtractionFailed);
        },
    };
    match parse_json(decoded.as_slice()) {
        Some(content) => cookie_token_in(&content),
        None => Err(Failure::TokenExtractionFailed),
    }
}

} // verus!
