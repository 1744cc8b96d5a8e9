use base64::Engine as _;
use hmac::Mac as _;
use webhook_relay::handler::{handle_inbound, response_token, InboundBody, InboundRequest};

fn expected_token(secret: &str, token: &str) -> String {
    let mut mac = hmac::Hmac::<sha2::Sha256>::new_from_slice(secret.as_bytes()).unwrap();
    mac.update(token.as_bytes());
    let tag = mac.finalize().into_bytes();
    format!(
        "sha256={}",
        base64::engine::general_purpose::STANDARD.encode(tag)
    )
}

fn inbound(method: &str, query: Option<&str>, body: InboundBody) -> InboundRequest {
    InboundRequest {
        method: method.to_string(),
        uri: match query {
            Some(q) => format!("/webhook?{q}"),
            None => "/webhook".to_string(),
        },
        headers: vec![("host".to_string(), "example.test".to_string())],
        query: query.map(|q| q.to_string()),
        body,
    }
}

#[test]
fn handshake_answers_with_the_signed_token() {
    let req = inbound("GET", Some("crc_token=abc123"), InboundBody::Received(Vec::new()));
    let (resp, delivery) = handle_inbound(&req, "sec");
    assert_eq!(resp.status, 200);
    assert!(resp.json_content_type);
    assert_eq!(
        resp.body,
        format!("{{\"response_token\":\"{}\"}}", expected_token("sec", "abc123"))
    );
    assert!(delivery.is_none());
}

#[test]
fn handshake_is_deterministic_across_invocations() {
    let first = response_token("sec", "abc123");
    let second = response_token("sec", "abc123");
    assert_eq!(first, second);
    assert_eq!(first, expected_token("sec", "abc123"));
    // A different secret or token signs differently.
    assert_ne!(response_token("sec2", "abc123"), first);
    assert_ne!(response_token("sec", "abc124"), first);
}

#[test]
fn handshake_uses_the_last_crc_token_and_decodes_it() {
    // Duplicate keys: the later pair wins, as a map built from the pairs would hold.
    let req = inbound(
        "GET",
        Some("crc_token=first&other=x&crc_token=a%20b"),
        InboundBody::Received(Vec::new()),
    );
    let (resp, _) = handle_inbound(&req, "sec");
    assert_eq!(resp.status, 200);
    assert_eq!(
        resp.body,
        format!("{{\"response_token\":\"{}\"}}", expected_token("sec", "a b"))
    );
}

#[test]
fn get_without_challenge_token_is_rejected() {
    for query in [None, Some(""), Some("foo=bar"), Some("crc=abc")] {
        let req = inbound("GET", query, InboundBody::Received(Vec::new()));
        let (resp, delivery) = handle_inbound(&req, "sec");
        assert_eq!(resp.status, 400, "query {query:?}");
        assert!(!resp.json_content_type);
        assert_eq!(resp.body, "Missing crc_token parameter");
        assert!(delivery.is_none());
    }
}

#[test]
fn deliveries_are_accepted_whatever_the_body_holds() {
    let bodies: [&[u8]; 4] = [
        b"",
        b"{\"event\":\"created\"}",
        b"not json at all {{{",
        &[0u8, 159, 146, 150, 255],
    ];
    for body in bodies {
        let req = inbound("POST", None, InboundBody::Received(body.to_vec()));
        let (resp, delivery) = handle_inbound(&req, "sec");
        assert_eq!(resp.status, 200);
        assert!(!resp.json_content_type);
        assert_eq!(resp.body, "");
        let delivery = delivery.expect("a delivery must be published");
        assert_eq!(delivery.method, "POST");
        assert_eq!(delivery.uri, "/webhook");
        assert_eq!(
            delivery.headers,
            vec![("host".to_string(), "example.test".to_string())]
        );
        // The body travels base64-encoded verbatim: decoding gives it back.
        let decoded = base64::engine::general_purpose::STANDARD
            .decode(&delivery.body_base64)
            .unwrap();
        assert_eq!(decoded, body);
        assert_eq!(
            delivery.body_base64,
            base64::engine::general_purpose::STANDARD.encode(body)
        );
    }
}

#[test]
fn failed_body_read_is_rejected_without_a_delivery() {
    let req = inbound(
        "POST",
        None,
        InboundBody::ReadFailed("unexpected end of file".to_string()),
    );
    let (resp, delivery) = handle_inbound(&req, "sec");
    assert_eq!(resp.status, 400);
    assert_eq!(resp.body, "Error reading body: unexpected end of file");
    assert!(delivery.is_none());
}

#[test]
fn other_methods_are_not_allowed_and_publish_nothing() {
    for method in ["PUT", "DELETE", "PATCH", "HEAD", "OPTIONS", "TRACE"] {
        let req = inbound(
            method,
            Some("crc_token=abc123"),
            InboundBody::Received(b"x".to_vec()),
        );
        let (resp, delivery) = handle_inbound(&req, "sec");
        assert_eq!(resp.status, 405, "{method}");
        assert_eq!(resp.body, "");
        assert!(delivery.is_none(), "{method} must publish nothing");
    }
}

#[test]
fn method_matching_for_the_webhook_endpoint_is_exact() {
    // The provider speaks canonical upper-case methods; "get" is not GET here.
    let req = inbound("get", Some("crc_token=abc123"), InboundBody::Received(Vec::new()));
    let (resp, delivery) = handle_inbound(&req, "sec");
    assert_eq!(resp.status, 405);
    assert!(delivery.is_none());
}
