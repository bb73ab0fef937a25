use hcloud_projects::failure::Failure;
use hcloud_projects::json::{parse_json, JsonValue};
use hcloud_projects::token::{secret_token, secret_token_in, TokenRequest};

#[test]
fn an_object_is_read_with_its_members() {
    let doc = parse_json(b"{\"secret_token\": \"abc\", \"n\": 12, \"list\": [true, null]}")
        .expect("a document");
    assert_eq!(doc.member("secret_token").and_then(|v| v.text()).map(String::as_str), Some("abc"));
    assert!(matches!(doc.member("n"), Some(JsonValue::Number(n)) if n == "12"));
    match doc.member("list") {
        Some(JsonValue::Array(items)) => {
            assert_eq!(items.len(), 2);
            assert!(matches!(items[0], JsonValue::Bool(true)));
            assert!(matches!(items[1], JsonValue::Null));
        }
        other => panic!("expected an array, got {:?}", other),
    }
    assert!(doc.member("absent").is_none());
    assert!(doc.member("Secret_Token").is_none());
}

#[test]
fn text_that_is_not_json_is_no_document() {
    assert!(parse_json(b"{not json").is_none());
    assert!(parse_json(b"").is_none());
    assert!(parse_json(b"{} trailing").is_none());
    assert!(parse_json(b"\"\xff\"").is_none());
}

#[test]
fn only_an_object_has_members() {
    let doc = parse_json(b"[{\"a\": 1}]").expect("a document");
    assert!(doc.member("a").is_none());
    assert!(doc.first_member().is_none());
    let doc = parse_json(b"\"a\"").expect("a document");
    assert!(doc.member("a").is_none());
    assert_eq!(doc.text().map(String::as_str), Some("a"));
    let doc = parse_json(b"{}").expect("a document");
    assert!(doc.first_member().is_none());
    assert!(doc.text().is_none());
}

#[test]
fn the_first_member_of_an_object_is_handed_out() {
    let doc = parse_json(b"{\"a\": \"x\", \"b\": \"y\"}").expect("a document");
    assert_eq!(doc.first_member().and_then(|v| v.text()).map(String::as_str), Some("x"));
}

#[test]
fn the_members_of_an_object_come_in_the_order_of_their_keys() {
    let doc = parse_json(b"{\"b\": \"x\", \"a\": \"y\", \"c\": \"z\"}").expect("a document");
    match &doc {
        JsonValue::Object(members) => {
            let keys: Vec<&str> = members.iter().map(|(key, _)| key.as_str()).collect();
            assert_eq!(keys, vec!["a", "b", "c"]);
        }
        other => panic!("expected an object, got {:?}", other),
    }
    assert_eq!(doc.first_member().and_then(|v| v.text()).map(String::as_str), Some("y"));
}

#[test]
fn escapes_in_strings_are_resolved() {
    let doc = parse_json(b"\"a\\n\\u00e9\\\"\"").expect("a document");
    assert_eq!(doc.text().map(String::as_str), Some("a\n\u{e9}\""));
}

#[test]
fn the_bearer_token_is_the_member_secret_token() {
    assert_eq!(secret_token(b"{\"secret_token\":\"bearer\",\"x\":1}").expect("a token"), "bearer");
    let doc = parse_json(b"{\"secret_token\":\"t\"}").expect("a document");
    assert_eq!(secret_token_in(&doc).expect("a token"), "t");
}

#[test]
fn an_empty_secret_token_is_handed_out_as_it_is() {
    assert_eq!(secret_token(b"{\"secret_token\":\"\"}").expect("a token"), "");
}

#[test]
fn an_answer_without_a_string_token_yields_none() {
    for body in [
        &b"{}"[..],
        b"{\"secret_token\":null}",
        b"{\"secret_token\":5}",
        b"{\"secret_token\":[\"x\"]}",
        b"{\"token\":\"x\"}",
        b"[\"secret_token\"]",
        b"\"secret_token\"",
        b"not json",
        b"",
    ] {
        assert!(matches!(secret_token(body), Err(Failure::TokenExtractionFailed)));
    }
}

#[test]
fn the_kind_of_a_token_request_is_spelled_as_the_endpoint_expects() {
    let user = TokenRequest::User { access_token: "A".to_string(), id_token: "B".to_string() };
    assert_eq!(user.kind(), "user");
    let project = TokenRequest::ProjectUser { project: "42".to_string() };
    assert_eq!(project.kind(), "project_user");
}
