use hcloud_projects::failure::{Failure, OAuthField};
use hcloud_projects::http::{HttpReply, HttpRequest};
use hcloud_projects::login::{
    advance, authorize_request, begin, login_request, read_login_check, read_login_page,
    read_token, token_request, Credentials, Stage, Step,
};
use hcloud_projects::oauth::OAuthTokens;
use hcloud_projects::token::TokenRequest;

const LOGIN_URL: &str = "https://accounts.hetzner.com/login";

fn credentials() -> Credentials {
    Credentials { username: "user@example.com".to_string(), password: "s3cret".to_string() }
}

fn reply(url: &str, status: u16, location: Option<&str>, body: &str) -> HttpReply {
    HttpReply {
        url: url.to_string(),
        status,
        location: location.map(str::to_string),
        body: body.to_string(),
    }
}

fn pair(name: &str, value: &str) -> (String, String) {
    (name.to_string(), value.to_string())
}

fn login_page(token: &str) -> String {
    format!("<form><input type=\"hidden\" name=\"_csrf_token\" value=\"{}\"></form>", token)
}

#[test]
fn the_authorize_request_asks_for_the_implicit_flow() {
    match authorize_request() {
        HttpRequest::Get { url, query } => {
            assert_eq!(url, "https://accounts.hetzner.com/oauth/authorize");
            assert_eq!(
                query,
                vec![
                    pair("response_type", "id_token token"),
                    pair("client_id", "cloud_421"),
                    pair("state", "spaghetti"),
                    pair("nonce", "potato"),
                    pair("redirect_uri", "https://console.hetzner.cloud/"),
                    pair("scope", "openid"),
                ]
            );
        }
        other => panic!("expected a GET, got {:?}", other),
    }
}

#[test]
fn the_login_request_submits_the_three_fields() {
    match login_request(&credentials(), "tok") {
        HttpRequest::PostForm { url, fields } => {
            assert_eq!(url, "https://accounts.hetzner.com/login_check");
            assert_eq!(
                fields,
                vec![
                    pair("_username", "user@example.com"),
                    pair("_password", "s3cret"),
                    pair("_csrf_token", "tok"),
                ]
            );
        }
        other => panic!("expected a form, got {:?}", other),
    }
}

#[test]
fn the_token_request_carries_both_tokens() {
    let tokens = OAuthTokens { access_token: "A".to_string(), id_token: "B".to_string() };
    match token_request(tokens) {
        HttpRequest::PostJson { url, body } => {
            assert_eq!(url, "https://api.hetzner.cloud/v1/_tokens");
            assert_eq!(body.kind(), "user");
            match body {
                TokenRequest::User { access_token, id_token } => {
                    assert_eq!(access_token, "A");
                    assert_eq!(id_token, "B");
                }
                other => panic!("expected a user request, got {:?}", other),
            }
        }
        other => panic!("expected JSON, got {:?}", other),
    }
}

#[test]
fn the_login_page_yields_its_token() {
    let page = reply(LOGIN_URL, 200, None, &login_page("tok-1"));
    assert_eq!(read_login_page(&page).expect("a token"), "tok-1");
}

#[test]
fn another_page_than_the_login_page_is_unexpected() {
    let page = reply("https://accounts.hetzner.com/login?x=1", 200, None, &login_page("tok-1"));
    match read_login_page(&page) {
        Err(Failure::UnexpectedPage { expected, observed }) => {
            assert_eq!(expected, LOGIN_URL);
            assert_eq!(observed, "https://accounts.hetzner.com/login?x=1");
        }
        other => panic!("expected UnexpectedPage, got {:?}", other),
    }
}

#[test]
fn a_redirect_left_unfollowed_at_the_login_address_is_no_login_page() {
    let page = reply(LOGIN_URL, 302, Some("https://accounts.hetzner.com/elsewhere"), "");
    match read_login_page(&page) {
        Err(Failure::RedirectPending { at, target }) => {
            assert_eq!(at, LOGIN_URL);
            assert_eq!(target.as_deref(), Some("https://accounts.hetzner.com/elsewhere"));
        }
        other => panic!("expected RedirectPending, got {:?}", other),
    }
    let page = reply(LOGIN_URL, 399, None, &login_page("tok"));
    assert!(matches!(
        read_login_page(&page),
        Err(Failure::RedirectPending { target: None, .. })
    ));
    // The bounds of a redirect: 299 and 400 are none.
    assert_eq!(read_login_page(&reply(LOGIN_URL, 299, None, &login_page("t"))).expect("a token"), "t");
    assert_eq!(read_login_page(&reply(LOGIN_URL, 400, None, &login_page("t"))).expect("a token"), "t");
}

#[test]
fn a_page_that_is_not_readable_has_no_token() {
    let field = login_page("tok");
    // One character more than a page may have.
    let padding = " ".repeat(1_048_576 + 1 - field.chars().count());
    let page = reply(LOGIN_URL, 200, None, &format!("{}{}", field, padding));
    assert!(matches!(read_login_page(&page), Err(Failure::TokenNotFound)));
}

#[test]
fn a_login_page_without_the_field_has_no_token() {
    let page = reply(LOGIN_URL, 200, None, "<form></form>");
    assert!(matches!(read_login_page(&page), Err(Failure::TokenNotFound)));
}

#[test]
fn the_login_page_again_means_invalid_credentials() {
    let answer = reply(LOGIN_URL, 200, None, &login_page("tok-2"));
    assert!(matches!(read_login_check(&answer), Err(Failure::InvalidCredentials)));
    // Whatever else the answer holds.
    let answer = reply(
        LOGIN_URL,
        302,
        Some("https://console.hetzner.cloud/#access_token=A&id_token=B"),
        "",
    );
    assert!(matches!(read_login_check(&answer), Err(Failure::InvalidCredentials)));
}

#[test]
fn the_redirect_into_the_console_yields_both_tokens() {
    let answer = reply(
        "https://accounts.hetzner.com/oauth/authorize",
        302,
        Some("https://console.hetzner.cloud/#access_token=A&id_token=B"),
        "",
    );
    let tokens = read_login_check(&answer).expect("both tokens");
    assert_eq!(tokens.access_token, "A");
    assert_eq!(tokens.id_token, "B");
}

#[test]
fn a_redirect_elsewhere_is_unexpected() {
    let answer = reply(
        "https://accounts.hetzner.com/oauth/authorize",
        302,
        Some("https://example.com/#access_token=A&id_token=B"),
        "",
    );
    match read_login_check(&answer) {
        Err(Failure::UnexpectedRedirect { expected, observed }) => {
            assert_eq!(expected, "https://console.hetzner.cloud");
            assert_eq!(observed.as_deref(), Some("https://example.com/#access_token=A&id_token=B"));
        }
        other => panic!("expected UnexpectedRedirect, got {:?}", other),
    }
}

#[test]
fn an_answer_without_a_location_is_unexpected() {
    let answer = reply("https://accounts.hetzner.com/oauth/authorize", 200, None, "");
    match read_login_check(&answer) {
        Err(Failure::UnexpectedRedirect { observed, .. }) => assert_eq!(observed, None),
        other => panic!("expected UnexpectedRedirect, got {:?}", other),
    }
}

#[test]
fn a_redirect_without_a_token_names_the_missing_one() {
    let answer = reply(
        "https://accounts.hetzner.com/oauth/authorize",
        302,
        Some("https://console.hetzner.cloud/#access_token=A"),
        "",
    );
    assert!(matches!(
        read_login_check(&answer),
        Err(Failure::MissingOAuthField(OAuthField::IdToken))
    ));
}

#[test]
fn the_bearer_token_is_read_from_the_answer_of_the_endpoint() {
    let answer = reply("https://api.hetzner.cloud/v1/_tokens", 201, None, "{\"secret_token\":\"bearer-1\"}");
    assert_eq!(read_token(&answer).expect("a token"), "bearer-1");
}

#[test]
fn an_exchange_runs_from_the_authorize_request_to_the_bearer_token() {
    let credentials = credentials();
    let stage = match begin() {
        Step::Send { request: HttpRequest::Get { url, .. }, stage } => {
            assert_eq!(url, "https://accounts.hetzner.com/oauth/authorize");
            stage
        }
        other => panic!("expected the authorize request, got {:?}", other),
    };
    assert_eq!(stage, Stage::LoginPage);

    let page = reply(LOGIN_URL, 200, None, &login_page("tok-9"));
    let stage = match advance(stage, &credentials, &page) {
        Step::Send { request: HttpRequest::PostForm { url, fields }, stage } => {
            assert_eq!(url, "https://accounts.hetzner.com/login_check");
            assert_eq!(fields[2], pair("_csrf_token", "tok-9"));
            stage
        }
        other => panic!("expected the login form, got {:?}", other),
    };
    assert_eq!(stage, Stage::LoginCheck);

    let redirect = reply(
        "https://accounts.hetzner.com/oauth/authorize",
        302,
        Some("https://console.hetzner.cloud/#access_token=A&id_token=B"),
        "",
    );
    let stage = match advance(stage, &credentials, &redirect) {
        Step::Send { request: HttpRequest::PostJson { url, body }, stage } => {
            assert_eq!(url, "https://api.hetzner.cloud/v1/_tokens");
            assert!(matches!(
                body,
                TokenRequest::User { ref access_token, ref id_token }
                    if access_token == "A" && id_token == "B"
            ));
            stage
        }
        other => panic!("expected the token request, got {:?}", other),
    };
    assert_eq!(stage, Stage::TokenExchange);

    let answer = reply("https://api.hetzner.cloud/v1/_tokens", 201, None, "{\"secret_token\":\"bearer-7\"}");
    match advance(stage, &credentials, &answer) {
        Step::Done(Ok(token)) => {
            assert_eq!(token, "bearer-7");
            assert!(!token.is_empty());
        }
        other => panic!("expected the bearer token, got {:?}", other),
    }
}

#[test]
fn an_exchange_ends_when_the_credentials_are_rejected() {
    let answer = reply(LOGIN_URL, 200, None, &login_page("tok-2"));
    assert!(matches!(
        advance(Stage::LoginCheck, &credentials(), &answer),
        Step::Done(Err(Failure::InvalidCredentials))
    ));
}

#[test]
fn an_exchange_ends_when_the_session_does_not_open() {
    let answer = reply("https://console.hetzner.cloud/", 200, None, "");
    assert!(matches!(
        advance(Stage::LoginPage, &credentials(), &answer),
        Step::Done(Err(Failure::UnexpectedPage { .. }))
    ));
}

#[test]
fn an_exchange_ends_when_the_endpoint_answers_without_a_token() {
    let answer = reply("https://api.hetzner.cloud/v1/_tokens", 400, None, "{\"error\":{}}");
    assert!(matches!(
        advance(Stage::TokenExchange, &credentials(), &answer),
        Step::Done(Err(Failure::TokenExtractionFailed))
    ));
}
