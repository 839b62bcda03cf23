use vstd::prelude::*;

verus! {

/// Everything a handler may produce.
pub enum HtmxResponse {
    Html(String),
    Json(String),
    Empty,
}

/// Why a handler stopped before producing its normal response.
pub enum Failure {
    /// Stop early and send this response (a guard, a redirect).
    Respond(HtmxResponse),
    /// Something went wrong; its description is sent as plain text.
    Diagnostic(String),
}

/// What a handler returns.
pub type HtmxResult = Result<HtmxResponse, Failure>;

impl HtmxResponse {
    /// Rendered markup becomes an HTML response.
    pub fn html(markup: String) -> (r: HtmxResponse)
        ensures
            r == HtmxResponse::Html(markup),
    {
        HtmxResponse::Html(markup)
    }

    /// A short label naming the variant.
    pub fn describe(&self) -> (r: String)
        ensures
            r@ == match self {
                HtmxResponse::Html(_) => "HtmxResponse::String()"@,
                HtmxResponse::Json(_) => "HtmxResponse::Json()"@,
                HtmxResponse::Empty => "HtmxResponse::Empty()"@,
            },
    {
        match self {
            HtmxResponse::Html(_) => "HtmxResponse::String()".to_owned(),
            HtmxResponse::Json(_) => "HtmxResponse::Json()".to_owned(),
            HtmxResponse::Empty => "HtmxResponse::Empty()".to_owned(),
        }
    }
}

/// Wraps a handler's plain result as a successful outcome.
pub fn proceed(response: HtmxResponse) -> (r: HtmxResult)
    ensures
        r == Ok::<HtmxResponse, Failure>(response),
{
    Ok(response)
}

/// A guard exit: stop the handler and send `response`.
pub fn respond_early(response: HtmxResponse) -> (r: HtmxResult)
    ensures
        r == Err::<HtmxResponse, Failure>(Failure::Respond(response)),
{
    Err(Failure::Respond(response))
}

} // verus!
