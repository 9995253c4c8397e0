use vstd::prelude::*;

use crate::params::opt_view;
use crate::text::{decimal_string, decimal_text};

verus! {

/// Error type of the HTTP client.
#[verifier::external_type_specification]
#[verifier::external_body]
pub struct ExHttpError(reqwest::Error);

/// Error type of the JSON decoder.
#[verifier::external_type_specification]
#[verifier::external_body]
pub struct ExJsonError(serde_json::Error);

/// The on-chain call that performs a swap.
pub struct SwapTranactionData {
    pub from: String,
    pub to: String,
    pub data: String,
    pub value: String,
    pub gas_price: String,
    pub gas: u128,
}

/// One metadata entry of a structured API error: which parameter or
/// condition triggered it.
pub struct HttpExceptionMeta {
    pub type_field: String,
    pub value: String,
}

/// The structured error body that the API sends with status 400.
pub struct SwapRequestError {
    /// Short error label.
    pub error: String,
    /// Longer description.
    pub description: String,
    /// HTTP status code reported in the body.
    pub status_code: u16,
    /// Identifier of the request, for diagnosis.
    pub request_id: String,
    pub meta: Option<Vec<HttpExceptionMeta>>,
}

/// Failures of a swap or quote call.
pub enum SwapError {
    /// The transport failed, or a legacy success body could not be read.
    Network(reqwest::Error),
    /// A v6 success body did not have the expected shape.
    JsonParse(serde_json::Error),
    /// The API answered 400 with a structured error.
    SwapRequest { description: String, error: String, status_code: u16, request_id: String },
    /// Any other failure, described in text.
    Other(String),
}

/// What to do with a response, decided by its status code alone.
#[derive(Debug, PartialEq, Eq)]
pub enum ResponseRoute {
    /// Status 400: read the body as a structured error.
    StructuredError,
    /// Any other 4xx or 5xx status: fail without reading the body.
    HttpFailure,
    /// Anything else: decode the body as the success shape.
    Success,
}

/// Client error status (4xx).
pub open spec fn is_client_error(status: u16) -> bool {
    400 <= status < 500
}

/// Server error status (5xx).
pub open spec fn is_server_error(status: u16) -> bool {
    500 <= status < 600
}

/// Chooses how a response with `status` is handled: 400 alone carries the
/// structured error body.
pub fn route_response(status: u16) -> (r: ResponseRoute)
    ensures
        status == 400 ==> r == ResponseRoute::StructuredError,
        status != 400 && (is_client_error(status) || is_server_error(status)) ==> r
            == ResponseRoute::HttpFailure,
        !is_client_error(status) && !is_server_error(status) ==> r == ResponseRoute::Success,
{
    if status == 400 {
        ResponseRoute::StructuredError
    } else if (400 <= status && status < 500) || (500 <= status && status < 600) {
        ResponseRoute::HttpFailure
    } else {
        ResponseRoute::Success
    }
}

/// The text that precedes a failure to read a structured error body.
pub open spec fn error_body_prefix() -> Seq<char> {
    "Error parsing error response: "@
}

/// The text that precedes the status of an error response.
pub open spec fn http_failure_prefix() -> Seq<char> {
    "Server responded with error: "@
}

/// The text that separates the parse failure from the raw body.
pub open spec fn error_body_separator() -> Seq<char> {
    "; body: "@
}

/// Turns the outcome of reading a 400 body into the error to report: the
/// decoded fields verbatim, or the reason the body could not be decoded
/// together with the raw body.
pub fn error_from_body(body: &str, parsed: Result<SwapRequestError, String>) -> (r: SwapError)
    ensures
        match parsed {
            Ok(e) => r == (SwapError::SwapRequest {
                description: e.description,
                error: e.error,
                status_code: e.status_code,
                request_id: e.request_id,
            }),
            Err(m) => r matches SwapError::Other(t) && t@ == error_body_prefix() + m@
                + error_body_separator() + body@,
        },
{
    match parsed {
        Ok(e) => SwapError::SwapRequest {
            description: e.description,
            error: e.error,
            status_code: e.status_code,
            request_id: e.request_id,
        },
        Err(m) => SwapError::Other(
            String::from_str("Error parsing error response: ").concat(m.as_str()).concat(
                "; body: ",
            ).concat(body),
        ),
    }
}

/// Registered reason phrase of a status code, if it has one.
pub uninterp spec fn reason_phrase(code: u16) -> Option<Seq<char>>;

/// Relies on `StatusCode::from_u16` and `StatusCode::canonical_reason` of the
/// http crate (re-exported by reqwest): a code in 100..=999 is accepted, and
/// its reason phrase depends on the code alone.
#[verifier::external_body]
fn canonical_reason(code: u16) -> (r: Option<String>)
    requires
        100 <= code < 1000,
    ensures
        opt_view(r) == reason_phrase(code),
{
    match reqwest::StatusCode::from_u16(code) {
        Ok(c) => c.canonical_reason().map(String::from),
        Err(_) => None,
    }
}

/// A status code as text: the number, a space, and its reason phrase.
pub open spec fn status_display(status: u16) -> Seq<char> {
    let reason = if 100 <= status < 1000 {
        match reason_phrase(status) {
            Some(p) => p,
            None => "<unknown status code>"@,
        }
    } else {
        "<unknown status code>"@
    };
    decimal_text(status as nat) + " "@ + reason
}

/// Writes a status code with its reason phrase, as in `404 Not Found`.
pub fn status_text(status: u16) -> (r: String)
    ensures
        r@ == status_display(status),
{
    let reason = if 100 <= status && status < 1000 {
        match canonical_reason(status) {
            Some(p) => p,
            None => String::from_str("<unknown status code>"),
        }
    } else {
        String::from_str("<unknown status code>")
    };
    decimal_string(status as u128).concat(" ").concat(reason.as_str())
}

/// The error for a 4xx or 5xx status other than 400; the body is not read.
pub fn http_failure(status: u16) -> (r: SwapError)
    ensures
        r matches SwapError::Other(t) && t@ == http_failure_prefix() + status_display(status),
{
    let t = status_text(status);
    SwapError::Other(String::from_str("Server responded with error: ").concat(t.as_str()))
}

/// The result of a legacy call, whose success body is decoded by the HTTP
/// client: a decoding failure is reported as a network error.
pub fn legacy_outcome<T>(decoded: Result<T, reqwest::Error>) -> (r: Result<T, SwapError>)
    ensures
        match decoded {
            Ok(v) => r == Ok::<T, SwapError>(v),
            Err(e) => r matches Err(SwapError::Network(x)) && x == e,
        },
{
    match decoded {
        Ok(v) => Ok(v),
        Err(e) => Err(SwapError::Network(e)),
    }
}

/// The result of a v6 call, whose success body is read as text and then
/// decoded: a decoding failure is reported as a JSON error.
pub fn v6_outcome<T>(decoded: Result<T, serde_json::Error>) -> (r: Result<T, SwapError>)
    ensures
        match decoded {
            Ok(v) => r == Ok::<T, SwapError>(v),
            Err(e) => r matches Err(SwapError::JsonParse(x)) && x == e,
        },
{
    match decoded {
        Ok(v) => Ok(v),
        Err(e) => Err(SwapError::JsonParse(e)),
    }
}

} // verus!
