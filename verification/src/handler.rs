use vstd::prelude::*;

use crate::crypto::{base64_encode, base64_std_of, hmac_sha256, hmac_sha256_of};
use crate::query::{last_value, parse_query, query_pairs_of, spec_last_value};
use crate::strutil::{clone_pairs, clone_string, str_eq};

verus! {

// ---------------------------------------------------------------------------
// Data model
// ---------------------------------------------------------------------------

/// One webhook delivery as relayed to the UI: the inbound request's method,
/// target, headers, and its body, base64-encoded.  Published once, never
/// persisted.
pub struct WebhookDelivery {
    pub method: String,
    pub uri: String,
    pub headers: Vec<(String, String)>,
    pub body_base64: String,
}

/// The answer the handler gives to one inbound request.
pub struct HandlerResponse {
    pub status: u16,
    pub json_content_type: bool,
    pub body: String,
}

/// The body of an inbound request, or the error that kept it from being
/// read.
pub enum InboundBody {
    Received(Vec<u8>),
    ReadFailed(String),
}

/// One inbound HTTP request as seen over the tunnel: method and target, the
/// request headers, the raw query string if the target carried one, and the
/// body.
pub struct InboundRequest {
    pub method: String,
    pub uri: String,
    pub headers: Vec<(String, String)>,
    pub query: Option<String>,
    pub body: InboundBody,
}

// ---------------------------------------------------------------------------
// The handshake answer
// ---------------------------------------------------------------------------

/// The challenge token an inbound request carries, if any: the value of the
/// last `crc_token` parameter of its query string.
pub open spec fn spec_challenge_token(query: Option<Seq<char>>) -> Option<Seq<char>> {
    match query {
        Some(q) => spec_last_value(query_pairs_of(q), "crc_token"@),
        None => None,
    }
}

/// The handshake answer for a secret and a challenge token: the tag of the
/// token under the secret, base64-encoded, behind its scheme prefix.
pub open spec fn response_token_of(secret: Seq<char>, token: Seq<char>) -> Seq<char> {
    "sha256="@ + base64_std_of(hmac_sha256_of(secret, token))
}

/// The JSON document the handshake answer travels in.
pub open spec fn crc_body_of(secret: Seq<char>, token: Seq<char>) -> Seq<char> {
    "{\"response_token\":\""@ + response_token_of(secret, token) + "\"}"@
}

/// The handshake answer is a function of the secret and the token alone:
/// recomputing it for the same pair always gives the same token.
pub proof fn lemma_response_token_deterministic(
    s1: Seq<char>,
    t1: Seq<char>,
    s2: Seq<char>,
    t2: Seq<char>,
)
    requires
        s1 == s2,
        t1 == t2,
    ensures
        response_token_of(s1, t1) == response_token_of(s2, t2),
{
}

/// Compute the handshake answer for a secret and a challenge token.
pub fn response_token(secret: &str, token: &str) -> (r: String)
    ensures
        r@ == response_token_of(secret@, token@),
{
    let tag = hmac_sha256(secret, token);
    let b64 = base64_encode(&tag);
    String::from_str("sha256=").concat(b64.as_str())
}

/// Build the JSON document around a handshake answer.
fn crc_body(secret: &str, token: &str) -> (r: String)
    ensures
        r@ == crc_body_of(secret@, token@),
{
    let tok = response_token(secret, token);
    let r = String::from_str("{\"response_token\":\"").concat(tok.as_str()).concat("\"}");
    proof {
        assert(r@ =~= crc_body_of(secret@, token@));
    }
    r
}

// ---------------------------------------------------------------------------
// Handling one inbound request
// ---------------------------------------------------------------------------

/// An empty response body.
fn empty_body() -> (r: String)
    ensures
        r@ == Seq::<char>::empty(),
{
    let r = String::from_str("");
    proof {
        reveal_strlit("");
        assert(r@ =~= Seq::<char>::empty());
    }
    r
}

/// Answer one inbound request over the tunnel and say what, if anything, is
/// relayed to the UI.
///
/// A GET carrying a challenge token is answered 200 with the JSON handshake
/// document; a GET without one is answered 400.  A POST whose body was read
/// is always answered 200 with an empty body — whatever the body holds — and
/// yields the one delivery to publish, its body base64-encoded verbatim; a
/// POST whose body could not be read is answered 400 and yields nothing.
/// Any other method is answered 405 and yields nothing.
pub fn handle_inbound(req: &InboundRequest, consumer_secret: &str) -> (r: (
    HandlerResponse,
    Option<WebhookDelivery>,
))
    requires
        req.body matches InboundBody::Received(b) ==> b@.len() <= 0x3000000000000000,
    ensures
        req.method@ == "GET"@ ==> {
            &&& r.1 is None
            &&& (spec_challenge_token(spec_query_of(req)) matches Some(t) ==> r.0.status == 200
                && r.0.json_content_type && r.0.body@ == crc_body_of(consumer_secret@, t))
            &&& (spec_challenge_token(spec_query_of(req)) is None ==> r.0.status == 400
                && !r.0.json_content_type && r.0.body@ == "Missing crc_token parameter"@)
        },
        req.method@ != "GET"@ && req.method@ == "POST"@ ==> {
            &&& (req.body matches InboundBody::Received(b) ==> {
                &&& r.0.status == 200
                &&& !r.0.json_content_type
                &&& r.0.body@ == Seq::<char>::empty()
                &&& (r.1 matches Some(d) && d.method@ == req.method@ && d.uri@ == req.uri@
                    && d.headers.deep_view() == req.headers.deep_view() && d.body_base64@
                    == base64_std_of(b@))
            })
            &&& (req.body matches InboundBody::ReadFailed(e) ==> r.0.status == 400
                && !r.0.json_content_type && r.0.body@ == "Error reading body: "@ + e@ && r.1
                is None)
        },
        req.method@ != "GET"@ && req.method@ != "POST"@ ==> r.0.status == 405
            && !r.0.json_content_type && r.0.body@ == Seq::<char>::empty() && r.1 is None,
{
    if str_eq(req.method.as_str(), "GET") {
        let token = match &req.query {
            Some(q) => {
                let pairs = parse_query(q.as_str());
                last_value(&pairs, "crc_token")
            },
            None => None,
        };
        match token {
            Some(t) => {
                let body = crc_body(consumer_secret, t.as_str());
                (HandlerResponse { status: 200, json_content_type: true, body }, None)
            },
            None => {
                let body = String::from_str("Missing crc_token parameter");
                (HandlerResponse { status: 400, json_content_type: false, body }, None)
            },
        }
    } else if str_eq(req.method.as_str(), "POST") {
        match &req.body {
            InboundBody::Received(b) => {
                let delivery = WebhookDelivery {
                    method: clone_string(&req.method),
                    uri: clone_string(&req.uri),
                    headers: clone_pairs(&req.headers),
                    body_base64: base64_encode(b),
                };
                (
                    HandlerResponse { status: 200, json_content_type: false, body: empty_body() },
                    Some(delivery),
                )
            },
            InboundBody::ReadFailed(e) => {
                let body = String::from_str("Error reading body: ").concat(e.as_str());
                (HandlerResponse { status: 400, json_content_type: false, body }, None)
            },
        }
    } else {
        (HandlerResponse { status: 405, json_content_type: false, body: empty_body() }, None)
    }
}

/// The query string of an inbound request, viewed.
pub open spec fn spec_query_of(req: &InboundRequest) -> Option<Seq<char>> {
    match req.query {
        Some(q) => Some(q@),
        None => None,
    }
}

} // verus!
