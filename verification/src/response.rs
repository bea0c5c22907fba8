use vstd::prelude::*;
use vstd::string::StringExecFns;

use crate::errors::{ApiError, ApiErrorView, CommunicationError, CommunicationErrorView, Error,
    ErrorView};

verus! {

/// What the remote service's structured error decodes to from a given body
/// text: `Some` exactly when the body is a JSON object carrying a string
/// `message` field, with the optional `code`, `type` and `link` string
/// fields passed through. The decoding is serde_json's work, so the result
/// carries a name here rather than a definition.
pub uninterp spec fn api_error_of(body: Seq<char>) -> Option<ApiErrorView>;

/// Relies on serde_json::from_str::<serde_json::Value> and on
/// serde_json::Value::{get, as_str}: decodes `body` as a JSON object and
/// reads its `message` string field, passing the `code`, `type` and `link`
/// string fields through when present. The outcome depends on the body
/// text alone; `api_error_of` names it. The failure detail is diagnostic
/// text and is not pinned down.
#[verifier::external_body]
fn decode_api_error(body: &str) -> (r: Result<ApiError, String>)
    ensures
        r is Ok <==> api_error_of(body@) is Some,
        r matches Ok(e) ==> (api_error_of(body@) matches Some(v) && e@ == v),
{
    let value: serde_json::Value = match serde_json::from_str(body) {
        Ok(v) => v,
        Err(e) => return Err(e.to_string()),
    };
    let message = match value.get("message").and_then(serde_json::Value::as_str) {
        Some(m) => m.to_string(),
        None => return Err("body is not a structured API error".to_string()),
    };
    let code = value.get("code").and_then(serde_json::Value::as_str).map(str::to_string);
    let error_type = value.get("type").and_then(serde_json::Value::as_str).map(str::to_string);
    let link = value.get("link").and_then(serde_json::Value::as_str).map(str::to_string);
    Ok(ApiError { message, code, error_type, link })
}

/// Relies on serde_json::from_str: decodes `body` as a value of the
/// caller's output type. Nothing is promised of the outcome: it depends on
/// the output type's Deserialize implementation.
#[verifier::external_body]
fn decode_body<Output: serde::de::DeserializeOwned>(body: &str) -> (r: Result<Output, String>) {
    match serde_json::from_str::<Output>(body) {
        Ok(v) => Ok(v),
        Err(e) => Err(e.to_string()),
    }
}

/// Turns the outcome of decoding a success-status body into the final
/// result: a decoded value is returned unchanged, and a decode failure
/// becomes a `ParseError` carrying the failure detail.
pub fn finish_success<Output>(decoded: Result<Output, String>) -> (r: Result<Output, Error>)
    ensures
        decoded matches Ok(o) ==> (r matches Ok(v) && v == o),
        decoded matches Err(d) ==> (r matches Err(e) && e@ == ErrorView::ParseError(d@)),
{
    match decoded {
        Ok(o) => Ok(o),
        Err(d) => Err(Error::ParseError(d)),
    }
}

/// Classifies a response whose status differs from the expected one, given
/// the outcome of decoding its body as a structured API error. A decoded
/// error is surfaced as `ApiError`: the server told us what went wrong.
/// Otherwise a status in the error range (at least 400) becomes a
/// `CommunicationError` carrying that status and the request URL and no
/// message, and a status below 400 becomes a `ParseError` carrying the
/// decode failure detail: an expectation mismatch outside the error range
/// is a parsing problem, not a communication one.
pub fn classify_mismatch(status_code: u16, decoded: Result<ApiError, String>, url: String) -> (e:
    Error)
    ensures
        decoded matches Ok(a) ==> e@ == ErrorView::ApiError(a@),
        (decoded is Err && status_code >= 400) ==> e@ == ErrorView::CommunicationError(
            (CommunicationErrorView { status_code, message: None, url: url@ }),
        ),
        decoded matches Err(d) ==> (status_code < 400 ==> e@ == ErrorView::ParseError(d@)),
{
    match decoded {
        Ok(a) => Error::ApiError(a),
        Err(d) => {
            if status_code >= 400 {
                Error::CommunicationError(CommunicationError { status_code, message: None, url })
            } else {
                Error::ParseError(d)
            }
        },
    }
}

/// Decides the outcome of one HTTP exchange, in this order: a response
/// whose status equals the expected one is decoded as the output type, and
/// a decode failure there is a `ParseError`; on any other status the body
/// is decoded as a structured API error and classified as
/// `classify_mismatch` says. A malformed error body is never silently
/// swallowed. Callers must substitute the literal text `null` for an empty
/// body beforehand (see `normalize_body`), so that endpoints answering
/// success with no content decode as the unit output type.
pub fn parse_response<Output: serde::de::DeserializeOwned>(
    status_code: u16,
    expected_status_code: u16,
    body: &str,
    url: String,
) -> (r: Result<Output, Error>)
    ensures
        status_code == expected_status_code ==> (r is Ok || (r matches Err(e)
            && e@ is ParseError)),
        status_code != expected_status_code ==> r is Err,
        status_code != expected_status_code ==> (api_error_of(body@) matches Some(a) ==> (
        r matches Err(e) && e@ == ErrorView::ApiError(a))),
        (status_code != expected_status_code && api_error_of(body@) is None && status_code >= 400)
            ==> (r matches Err(e) && e@ == ErrorView::CommunicationError(
            (CommunicationErrorView { status_code, message: None, url: url@ }),
        )),
        (status_code != expected_status_code && api_error_of(body@) is None && status_code < 400)
            ==> (r matches Err(e) && e@ is ParseError),
{
    if status_code == expected_status_code {
        finish_success(decode_body::<Output>(body))
    } else {
        Err(classify_mismatch(status_code, decode_api_error(body), url))
    }
}

/// Replaces an empty response body with the literal JSON text `null`, so
/// that endpoints answering success with no content still decode as the
/// unit output type; a non-empty body passes through unchanged.
pub fn normalize_body(body: String) -> (r: String)
    ensures
        body@.len() == 0 ==> r@ == "null"@,
        body@.len() > 0 ==> r@ == body@,
{
    if body.as_str().is_empty() {
        String::from_str("null")
    } else {
        body
    }
}

} // verus!
