use vstd::prelude::*;

use crate::strutil::{clone_pairs, dec_rep, seq_eq_ci, str_eq, str_eq_ci, u16_dec_str};

verus! {

// ---------------------------------------------------------------------------
// Data model
// ---------------------------------------------------------------------------

/// The fixed set of HTTP verbs the executor forwards.
#[derive(Clone, Copy, PartialEq, Eq, Structural, Debug)]
pub enum Method {
    Get,
    Post,
    Put,
    Delete,
    Patch,
    Head,
    Options,
}

/// A request as submitted by the caller: verb by name, target URL, ordered
/// header pairs, and an optional already-serialized JSON body.
pub struct RequestSpec {
    pub method: String,
    pub url: String,
    pub headers: Vec<(String, String)>,
    pub body: Option<String>,
}

/// A validated request, ready to be put on the wire by the caller.
/// `tracing` records whether the caller opted in to trace propagation.
pub struct OutboundRequest {
    pub method: Method,
    pub url: String,
    pub headers: Vec<(String, String)>,
    pub body: Option<String>,
    pub tracing: bool,
}

/// The normalized outcome of one executed request.  `status == 0` in a
/// failure marks a transport-level failure that never produced a response.
#[derive(Debug)]
#[allow(inconsistent_fields)]
pub enum RequestResult {
    Success { status: u16, body: String, headers: Vec<(String, String)> },
    Failure {
        status: u16,
        message: String,
        body: Option<String>,
        headers: Option<Vec<(String, String)>>,
    },
}

// ---------------------------------------------------------------------------
// Status classification
// ---------------------------------------------------------------------------

/// True exactly for the HTTP status codes that count as success.
pub open spec fn is_success_status(s: u16) -> bool {
    200 <= s < 300
}

/// Executable test for the success range of an HTTP status code.
pub fn status_is_success(s: u16) -> (r: bool)
    ensures
        r == is_success_status(s),
{
    200 <= s && s < 300
}

// ---------------------------------------------------------------------------
// Method parsing
// ---------------------------------------------------------------------------

/// Which verb, if any, a method string names (ASCII case does not matter).
pub open spec fn spec_method_of(s: Seq<char>) -> Option<Method> {
    if seq_eq_ci(s, "GET"@) {
        Some(Method::Get)
    } else if seq_eq_ci(s, "POST"@) {
        Some(Method::Post)
    } else if seq_eq_ci(s, "PUT"@) {
        Some(Method::Put)
    } else if seq_eq_ci(s, "DELETE"@) {
        Some(Method::Delete)
    } else if seq_eq_ci(s, "PATCH"@) {
        Some(Method::Patch)
    } else if seq_eq_ci(s, "HEAD"@) {
        Some(Method::Head)
    } else if seq_eq_ci(s, "OPTIONS"@) {
        Some(Method::Options)
    } else {
        None
    }
}

/// The canonical upper-case name of a verb.
pub open spec fn method_name(m: Method) -> Seq<char> {
    match m {
        Method::Get => "GET"@,
        Method::Post => "POST"@,
        Method::Put => "PUT"@,
        Method::Delete => "DELETE"@,
        Method::Patch => "PATCH"@,
        Method::Head => "HEAD"@,
        Method::Options => "OPTIONS"@,
    }
}

/// Only these verbs ever carry a request body out.
pub open spec fn method_allows_body(m: Method) -> bool {
    m == Method::Post || m == Method::Put || m == Method::Patch
}

/// Parse a method string into a verb, accepting any ASCII casing.
pub fn parse_method(s: &str) -> (r: Option<Method>)
    ensures
        r == spec_method_of(s@),
{
    if str_eq_ci(s, "GET") {
        Some(Method::Get)
    } else if str_eq_ci(s, "POST") {
        Some(Method::Post)
    } else if str_eq_ci(s, "PUT") {
        Some(Method::Put)
    } else if str_eq_ci(s, "DELETE") {
        Some(Method::Delete)
    } else if str_eq_ci(s, "PATCH") {
        Some(Method::Patch)
    } else if str_eq_ci(s, "HEAD") {
        Some(Method::Head)
    } else if str_eq_ci(s, "OPTIONS") {
        Some(Method::Options)
    } else {
        None
    }
}

/// The canonical name of a verb, for putting the request on the wire.
pub fn method_as_str(m: Method) -> (r: &'static str)
    ensures
        r@ == method_name(m),
{
    match m {
        Method::Get => "GET",
        Method::Post => "POST",
        Method::Put => "PUT",
        Method::Delete => "DELETE",
        Method::Patch => "PATCH",
        Method::Head => "HEAD",
        Method::Options => "OPTIONS",
    }
}

/// Executable test for whether a verb carries a body.
pub fn allows_body(m: Method) -> (r: bool)
    ensures
        r == method_allows_body(m),
{
    match m {
        Method::Post => true,
        Method::Put => true,
        Method::Patch => true,
        _ => false,
    }
}

// ---------------------------------------------------------------------------
// Trace opt-in and redaction
// ---------------------------------------------------------------------------

/// A header pair that opts in to trace propagation: the flag header with the
/// exact value "1", key matched without regard to ASCII case.
pub open spec fn is_tracing_opt_in(k: Seq<char>, v: Seq<char>) -> bool {
    seq_eq_ci(k, "x-b3-flags"@) && v == "1"@
}

/// Whether some request header opts in to trace propagation.
pub open spec fn spec_tracing_requested(hs: Seq<(Seq<char>, Seq<char>)>) -> bool {
    exists|i: int| 0 <= i < hs.len() && is_tracing_opt_in(hs[i].0, hs[i].1)
}

/// The response header that carries the internal trace identifier.
pub open spec fn trace_header_key() -> Seq<char> {
    "x-transaction-id"@
}

/// Response headers with every trace-identifier entry removed, order kept.
pub open spec fn spec_redact(hs: Seq<(Seq<char>, Seq<char>)>) -> Seq<(Seq<char>, Seq<char>)>
    decreases hs.len(),
{
    if hs.len() == 0 {
        Seq::empty()
    } else {
        let rest = spec_redact(hs.drop_last());
        if hs.last().0 == trace_header_key() {
            rest
        } else {
            rest.push(hs.last())
        }
    }
}

/// The headers a result carries: untouched when tracing was requested,
/// redacted otherwise.  Redaction does not depend on the status code.
pub open spec fn spec_result_headers(hs: Seq<(Seq<char>, Seq<char>)>, tracing: bool) -> Seq<
    (Seq<char>, Seq<char>),
> {
    if tracing {
        hs
    } else {
        spec_redact(hs)
    }
}

proof fn lemma_redact_props(hs: Seq<(Seq<char>, Seq<char>)>)
    ensures
        forall|i: int|
            0 <= i < spec_redact(hs).len() ==> #[trigger] spec_redact(hs)[i].0
                != trace_header_key(),
        (forall|i: int| 0 <= i < hs.len() ==> hs[i].0 != trace_header_key()) ==> spec_redact(hs)
            == hs,
    decreases hs.len(),
{
    if hs.len() > 0 {
        lemma_redact_props(hs.drop_last());
        assert(forall|i: int| 0 <= i < hs.len() - 1 ==> hs.drop_last()[i] == hs[i]);
        let rest = spec_redact(hs.drop_last());
        if hs.last().0 != trace_header_key() {
            assert forall|i: int| 0 <= i < spec_redact(hs).len() implies #[trigger] spec_redact(
                hs,
            )[i].0 != trace_header_key() by {
                if i < rest.len() {
                    assert(spec_redact(hs)[i] == spec_redact(hs.drop_last())[i]);
                } else {
                    assert(spec_redact(hs)[i] == hs.last());
                }
            }
        }
        if forall|i: int| 0 <= i < hs.len() ==> hs[i].0 != trace_header_key() {
            assert(hs[hs.len() - 1].0 != trace_header_key());
            assert(forall|i: int|
                0 <= i < hs.drop_last().len() ==> hs.drop_last()[i].0 != trace_header_key());
            assert(rest == hs.drop_last());
            assert(hs.drop_last().push(hs.last()) =~= hs);
        }
    }
}

/// Redaction never leaves a trace-identifier entry behind, never touches a
/// mapping free of that entry, and does nothing when tracing was requested —
/// all of it independent of how the response classified.
pub proof fn lemma_redaction(hs: Seq<(Seq<char>, Seq<char>)>, tracing: bool)
    ensures
        tracing ==> spec_result_headers(hs, tracing) == hs,
        !tracing ==> forall|i: int|
            0 <= i < spec_result_headers(hs, tracing).len() ==> #[trigger] spec_result_headers(
                hs,
                tracing,
            )[i].0 != trace_header_key(),
        (forall|i: int| 0 <= i < hs.len() ==> hs[i].0 != trace_header_key()) ==> spec_result_headers(
            hs,
            tracing,
        ) == hs,
{
    lemma_redact_props(hs);
}

/// Whether the caller opted in to trace propagation, read off the request
/// headers.
pub fn tracing_requested(hs: &Vec<(String, String)>) -> (r: bool)
    ensures
        r == spec_tracing_requested(hs.deep_view()),
{
    let mut i: usize = 0;
    while i < hs.len()
        invariant
            0 <= i <= hs.len(),
            forall|j: int| 0 <= j < i ==> !is_tracing_opt_in(hs.deep_view()[j].0, hs.deep_view()[j].1),
        decreases hs.len() - i,
    {
        if str_eq_ci(hs[i].0.as_str(), "x-b3-flags") && str_eq(hs[i].1.as_str(), "1") {
            proof {
                assert(is_tracing_opt_in(hs.deep_view()[i as int].0, hs.deep_view()[i as int].1));
            }
            return true;
        }
        i += 1;
    }
    false
}

/// Build the header mapping a result carries, applying redaction unless the
/// caller opted in to tracing.
pub fn redact_headers(hs: &Vec<(String, String)>, tracing: bool) -> (r: Vec<(String, String)>)
    ensures
        r.deep_view() == spec_result_headers(hs.deep_view(), tracing),
{
    if tracing {
        return clone_pairs(hs);
    }
    let mut out: Vec<(String, String)> = Vec::new();
    let mut i: usize = 0;
    while i < hs.len()
        invariant
            0 <= i <= hs.len(),
            out.deep_view() == spec_redact(hs.deep_view().take(i as int)),
        decreases hs.len() - i,
    {
        proof {
            assert(hs.deep_view().take(i + 1).drop_last() =~= hs.deep_view().take(i as int));
            assert(hs.deep_view().take(i + 1).last() == hs.deep_view()[i as int]);
        }
        if !str_eq(hs[i].0.as_str(), "x-transaction-id") {
            let k = String::from_str(hs[i].0.as_str());
            let v = String::from_str(hs[i].1.as_str());
            out.push((k, v));
            proof {
                assert(out.deep_view() =~= spec_redact(hs.deep_view().take(i + 1)));
            }
        }
        i += 1;
    }
    proof {
        assert(hs.deep_view().take(hs.len() as int) =~= hs.deep_view());
    }
    out
}

// ---------------------------------------------------------------------------
// Validation of a submitted request
// ---------------------------------------------------------------------------

/// Validate a submitted request and shape what goes on the wire.
///
/// Exactly the seven verbs are accepted, in any ASCII casing; anything else
/// is rejected without a network call, as a transport-class failure with
/// status 0.  Headers pass through verbatim.  A body is attached exactly
/// when one was supplied and the verb is POST, PUT or PATCH.
pub fn build_outbound(req: RequestSpec) -> (r: Result<OutboundRequest, RequestResult>)
    ensures
        (r is Ok) == (spec_method_of(req.method@) is Some),
        r matches Ok(out) ==> {
            &&& Some(out.method) == spec_method_of(req.method@)
            &&& out.url@ == req.url@
            &&& out.headers.deep_view() == req.headers.deep_view()
            &&& (out.body is Some) == (req.body is Some && method_allows_body(out.method))
            &&& (out.body matches Some(b) ==> req.body matches Some(rb) && b@ == rb@)
            &&& out.tracing == spec_tracing_requested(req.headers.deep_view())
        },
        r matches Err(f) ==> (f matches RequestResult::Failure { status, message, body, headers }
            && status == 0 && message@ == "Unsupported HTTP method: "@ + req.method@
            && body is None && headers is None),
{
    let RequestSpec { method, url, headers, body } = req;
    match parse_method(method.as_str()) {
        Some(m) => {
            let tracing = tracing_requested(&headers);
            let out_body = if body.is_some() && allows_body(m) {
                body
            } else {
                None
            };
            Ok(OutboundRequest { method: m, url, headers, body: out_body, tracing })
        },
        None => {
            let msg = String::from_str("Unsupported HTTP method: ").concat(method.as_str());
            Err(RequestResult::Failure { status: 0, message: msg, body: None, headers: None })
        },
    }
}

// ---------------------------------------------------------------------------
// Normalizing the outcome
// ---------------------------------------------------------------------------

/// The failure that stands for an error before any response arrived:
/// status 0, no body, no headers.
pub fn transport_failure(err: String) -> (r: RequestResult)
    ensures
        r matches RequestResult::Failure { status, message, body, headers } && status == 0
            && message@ == "Request failed: "@ + err@ && body is None && headers is None,
{
    let msg = String::from_str("Request failed: ").concat(err.as_str());
    RequestResult::Failure { status: 0, message: msg, body: None, headers: None }
}

/// Normalize a response that reached the wire.
///
/// `body` is the outcome of reading the response body: the raw text, or the
/// error message of a failed read.  The returned headers are redacted unless
/// the caller opted in to tracing, on every path.  A read body classifies by
/// status: [200,300) is success, anything else a failure carrying the body;
/// a failed read is a failure under the status already received, no body.
pub fn finish_response(
    tracing: bool,
    status: u16,
    headers: &Vec<(String, String)>,
    body: Result<String, String>,
) -> (r: RequestResult)
    ensures
        (r is Success) == (body is Ok && is_success_status(status)),
        body matches Ok(t) ==> (is_success_status(status) ==> (r
            matches RequestResult::Success { status: st, body: b, headers: hs } && st == status
            && b@ == t@ && hs.deep_view() == spec_result_headers(headers.deep_view(), tracing))),
        body matches Ok(t) ==> (!is_success_status(status) ==> (r
            matches RequestResult::Failure { status: st, message, body: fb, headers: fh } && st
            == status && message@ == "API request failed with status "@ + dec_rep(status as int)
            && (fb matches Some(x) && x@ == t@) && (fh matches Some(h) && h.deep_view()
            == spec_result_headers(headers.deep_view(), tracing)))),
        body matches Err(e) ==> (r matches RequestResult::Failure {
            status: st,
            message,
            body: fb,
            headers: fh,
        } && st == status && message@ == "Failed to read response body text: "@ + e@ && fb is None
            && (fh matches Some(h) && h.deep_view() == spec_result_headers(
            headers.deep_view(),
            tracing,
        ))),
{
    let kept = redact_headers(headers, tracing);
    match body {
        Ok(text) => {
            if status_is_success(status) {
                RequestResult::Success { status, body: text, headers: kept }
            } else {
                let msg = String::from_str("API request failed with status ").concat(
                    u16_dec_str(status).as_str(),
                );
                RequestResult::Failure {
                    status,
                    message: msg,
                    body: Some(text),
                    headers: Some(kept),
                }
            }
        },
        Err(e) => {
            let msg = String::from_str("Failed to read response body text: ").concat(e.as_str());
            RequestResult::Failure { status, message: msg, body: None, headers: Some(kept) }
        },
    }
}

} // verus!
