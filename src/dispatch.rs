use vstd::prelude::*;
use crate::context::{pairs_view, HtmxRes};
use crate::registry::{resolve_spec, Registry};
use crate::form::{form_pairs_of, FormArgs};
use crate::response::{Failure, HtmxResponse, HtmxResult};

verus! {

/// How the body of a reply is labelled.
#[derive(PartialEq, Eq, Structural, Clone, Copy, Debug)]
pub enum ContentKind {
    Html,
    Json,
    Text,
}

/// The protocol response a dispatch ends with.
pub struct Reply {
    pub status: u16,
    pub headers: Vec<(String, String)>,
    pub kind: ContentKind,
    pub body: String,
}

/// The label and body text that a response envelope is sent with.
pub open spec fn envelope_body(r: HtmxResponse) -> (ContentKind, Seq<char>) {
    match r {
        HtmxResponse::Html(s) => (ContentKind::Html, s@),
        HtmxResponse::Json(s) => (ContentKind::Json, s@),
        HtmxResponse::Empty => (ContentKind::Html, Seq::<char>::empty()),
    }
}

/// The label and body text that a handler's outcome is sent with: a guard
/// exit is sent as the response it carries, a diagnostic as plain text.
pub open spec fn outcome_body(o: HtmxResult) -> (ContentKind, Seq<char>) {
    match o {
        Ok(r) => envelope_body(r),
        Err(Failure::Respond(r)) => envelope_body(r),
        Err(Failure::Diagnostic(d)) => (ContentKind::Text, d@),
    }
}

fn envelope_reply(status: u16, headers: Vec<(String, String)>, r: HtmxResponse) -> (out: Reply)
    ensures
        out.status == status,
        out.headers == headers,
        (out.kind, out.body@) == envelope_body(r),
{
    match r {
        HtmxResponse::Html(s) => Reply { status, headers, kind: ContentKind::Html, body: s },
        HtmxResponse::Json(s) => Reply { status, headers, kind: ContentKind::Json, body: s },
        HtmxResponse::Empty => Reply { status, headers, kind: ContentKind::Html, body: String::new() },
    }
}

/// Turns the context a handler left behind and its outcome into the reply:
/// the context's status and headers, and the body the outcome carries.
pub fn respond(res: HtmxRes, outcome: HtmxResult) -> (out: Reply)
    ensures
        out.status == res.status_view(),
        pairs_view(out.headers@) == res.headers_view(),
        (out.kind, out.body@) == outcome_body(outcome),
{
    let status = res.status_code;
    let headers = res.headers;
    match outcome {
        Ok(r) => envelope_reply(status, headers, r),
        Err(Failure::Respond(r)) => envelope_reply(status, headers, r),
        Err(Failure::Diagnostic(d)) => Reply { status, headers, kind: ContentKind::Text, body: d },
    }
}

/// The reply for a path that no record matches.
pub fn not_found() -> (out: Reply)
    ensures
        out.status == 404,
        out.headers@.len() == 0,
        out.kind == ContentKind::Text,
        out.body@ == "404 Not Found"@,
{
    Reply { status: 404, headers: Vec::new(), kind: ContentKind::Text, body: "404 Not Found".to_owned() }
}

/// The first step of a dispatch: the record to run for `path`, or, when no
/// record has exactly that path, the not-found reply.
pub fn route_request<E>(registry: &Registry<E>, path: &str) -> (r: Result<usize, Reply>)
    ensures
        match r {
            Ok(i) => resolve_spec(registry.paths(), path@) == Some(i as int) && i
                < registry.records@.len(),
            Err(reply) => resolve_spec(registry.paths(), path@) is None && reply.status == 404
                && reply.headers@.len() == 0 && reply.kind == ContentKind::Text && reply.body@
                == "404 Not Found"@,
        },
{
    match registry.resolve(path) {
        Some(i) => Ok(i),
        None => Err(not_found()),
    }
}

/// A handler's failure to decode its arguments, reported to the client.
pub fn bad_request(description: String) -> (out: Reply)
    ensures
        out.status == 400,
        out.headers@.len() == 0,
        out.kind == ContentKind::Text,
        out.body == description,
{
    Reply { status: 400, headers: Vec::new(), kind: ContentKind::Text, body: description }
}

/// The steps of a dispatch before the handler runs: the record for `path`
/// and the arguments bound from `body`, or the reply that ends the request:
/// not found when no record has exactly that path (the body is then not
/// decoded), a bad request when the body is not form data.
pub fn prepare_request<E>(registry: &Registry<E>, path: &str, body: &[u8]) -> (r: Result<
    (usize, FormArgs),
    Reply,
>)
    ensures
        match r {
            Ok((i, args)) => resolve_spec(registry.paths(), path@) == Some(i as int) && i
                < registry.records@.len() && form_pairs_of(body@) == Some(args.pairs_view()),
            Err(reply) => match resolve_spec(registry.paths(), path@) {
                None => reply.status == 404 && reply.kind == ContentKind::Text && reply.body@
                    == "404 Not Found"@,
                Some(_) => form_pairs_of(body@) is None && reply.status == 400 && reply.kind
                    == ContentKind::Text,
            },
        },
{
    let i = match route_request(registry, path) {
        Ok(i) => i,
        Err(reply) => return Err(reply),
    };
    match FormArgs::decode(body) {
        Ok(args) => Ok((i, args)),
        Err(e) => Err(bad_request(e.description)),
    }
}

/// Whatever a handler body ends with, the outcome that reaches the reply is
/// a response envelope or a diagnostic, never anything else: a normal
/// result and a guard exit with the same envelope are sent alike.
pub proof fn lemma_outcome_is_envelope(r: HtmxResponse)
    ensures
        outcome_body(Ok(r)) == outcome_body(Err(Failure::Respond(r))),
        outcome_body(Ok(r)).0 != ContentKind::Text,
{
}

} // verus!
