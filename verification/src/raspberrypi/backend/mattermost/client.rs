//! The Mattermost HTTP client's rules: the base address of the API, the
//! authorization header built from the API token, which status codes are
//! errors, and the errors a request ends in.
use vstd::prelude::*;
use vstd::string::*;

verus! {

/// An error reported by the API itself.
#[derive(Debug, Clone)]
pub struct ApiError {
    pub error_code: i64,
    pub message: String,
}

/// How a request failed.
#[derive(Debug, Clone)]
pub enum Error {
    /// The request could not be sent.
    Http(String),
    /// The error response could not be read.
    Responce(String),
    /// A response body was not the JSON expected.
    Json(String),
    /// The API answered with an error.
    Api(ApiError),
}

/// A byte that an HTTP header value may hold: any byte from 32 up, except
/// DEL (127), and the tab.
pub open spec fn header_byte_allowed(b: u8) -> bool {
    (b >= 32 && b != 127) || b == 9
}

/// Whether every byte of the UTF-8 encoding of `s` may stand in a header
/// value.
pub open spec fn header_text_allowed(s: Seq<char>) -> bool {
    let bytes = vstd::utf8::encode_utf8(s);
    forall|i: int| 0 <= i < bytes.len() ==> header_byte_allowed(#[trigger] bytes[i])
}

/// Calls `reqwest::header::HeaderValue::from_str` (the `http` crate's header
/// value) and tells whether it accepted `value`. Its source accepts a text
/// exactly when every byte of it is 32 or above but not 127, or is a tab.
#[verifier::external_body]
fn header_value_accepted(value: &str) -> (accepted: bool)
    ensures
        accepted == header_text_allowed(value@),
{
    reqwest::header::HeaderValue::from_str(value).is_ok()
}

/// How often a failed request is retried (with exponential backoff).
pub const MAX_RETRIES: u32 = 5;

/// The settings the HTTP client is built with. No `Debug`: the authorization
/// holds the API token.
#[derive(Clone)]
pub struct ClientSettings {
    /// The address every request path is appended to.
    pub api_base_url: String,
    /// The value of the `Authorization` header.
    pub authorization: String,
    /// Whether the `Authorization` header is marked sensitive, so that it is
    /// left out of debug output and logs.
    pub authorization_sensitive: bool,
    /// The value of the `Content-Type` and `Accept` headers.
    pub media_type: String,
}

/// The `Authorization` value for an API token.
pub open spec fn authorization_for(api_key: Seq<char>) -> Seq<char> {
    "Token "@ + api_key
}

/// The client settings for a server address and an API token: requests go
/// to the address followed by `api/`, authorized with `Token <api_key>`, as
/// JSON; the authorization header is marked sensitive. `None` where that
/// authorization cannot be a header value.
pub fn client_settings(api_base_url: &str, api_key: &str) -> (r: Option<ClientSettings>)
    ensures
        r is Some <==> header_text_allowed(authorization_for(api_key@)),
        r matches Some(settings) ==> {
            &&& settings.api_base_url@ == api_base_url@ + "api/"@
            &&& settings.authorization@ == authorization_for(api_key@)
            &&& settings.authorization_sensitive
            &&& settings.media_type@ == "application/json"@
        },
{
    let mut authorization = String::from_str("Token ");
    authorization.append(api_key);
    if !header_value_accepted(authorization.as_str()) {
        return None;
    }
    let mut base = String::from_str(api_base_url);
    base.append("api/");
    Some(
        ClientSettings {
            api_base_url: base,
            authorization,
            authorization_sensitive: true,
            media_type: String::from_str("application/json"),
        },
    )
}

/// The full address of a request: the base address followed by the path.
pub fn request_url(api_base_url: &str, path: &str) -> (r: String)
    ensures
        r@ == api_base_url@ + path@,
{
    let mut r = String::from_str(api_base_url);
    r.append(path);
    r
}

/// Whether a response status is an error: any status above 399.
pub fn is_error_status(status: u16) -> (r: bool)
    ensures
        r == (status > 399),
{
    399 < status
}

/// `prefix` followed by `detail`.
fn with_detail(prefix: &str, detail: &str) -> (r: String)
    ensures
        r@ == prefix@ + detail@,
{
    let mut r = String::from_str(prefix);
    r.append(detail);
    r
}

impl Error {
    /// The request could not be sent, for the reason `detail`.
    pub fn sending(detail: &str) -> (r: Error)
        ensures
            r matches Error::Http(m) && m@ == "error sending request: "@ + detail@,
    {
        Error::Http(with_detail("error sending request: ", detail))
    }

    /// The body of an error response could not be read (or was no UTF-8
    /// text), for the reason `detail`.
    pub fn unreadable_error_body(detail: &str) -> (r: Error)
        ensures
            r matches Error::Responce(m) && m@ == "error getting bytes from error response: "@
                + detail@,
    {
        Error::Responce(with_detail("error getting bytes from error response: ", detail))
    }

    /// The body of an error response was no API error, for the reason
    /// `detail`.
    pub fn unparsable_error_body(detail: &str) -> (r: Error)
        ensures
            r matches Error::Json(m) && m@ == "error parsing error response: "@ + detail@,
    {
        Error::Json(with_detail("error parsing error response: ", detail))
    }

    /// The body of a successful response was not the record expected, for the
    /// reason `detail`.
    pub fn unparsable_body(detail: &str) -> (r: Error)
        ensures
            r matches Error::Json(m) && m@ == "error parsing responce "@ + detail@,
    {
        Error::Json(with_detail("error parsing responce ", detail))
    }
}

/// What became of the body of an error response (a status above 399).
#[derive(Debug, Clone)]
pub enum ErrorBody {
    /// The body could not be read, for the reason given.
    Unreadable(String),
    /// The body was no UTF-8 text, for the reason given.
    NotText(String),
    /// The body was text but no API error, for the reason given.
    Unparsable(String),
    /// The body was this API error.
    Parsed(ApiError),
}

/// The error a request ends in when the server answers with an error status:
/// an unreadable body or one that is no text is a `Responce` error, a text
/// that is no API error is a `Json` error, and an API error is passed on.
pub fn error_response(body: ErrorBody) -> (r: Error)
    ensures
        match body {
            ErrorBody::Unreadable(d) => r matches Error::Responce(m) && m@
                == "error getting bytes from error response: "@ + d@,
            ErrorBody::NotText(d) => r matches Error::Responce(m) && m@
                == "error getting bytes from error response: "@ + d@,
            ErrorBody::Unparsable(d) => r matches Error::Json(m) && m@
                == "error parsing error response: "@ + d@,
            ErrorBody::Parsed(e) => r == Error::Api(e),
        },
{
    match body {
        ErrorBody::Unreadable(d) => Error::unreadable_error_body(d.as_str()),
        ErrorBody::NotText(d) => Error::unreadable_error_body(d.as_str()),
        ErrorBody::Unparsable(d) => Error::unparsable_error_body(d.as_str()),
        ErrorBody::Parsed(e) => Error::Api(e),
    }
}

/// The authorization is the API token verbatim after `Token `.
pub proof fn lemma_authorization_is_token(api_key: Seq<char>)
    ensures
        authorization_for(api_key).len() == api_key.len() + 6,
        authorization_for(api_key).subrange(0, 6) == "Token "@,
        authorization_for(api_key).subrange(6, api_key.len() + 6int) == api_key,
{
    reveal_strlit("Token ");
    assert(authorization_for(api_key).subrange(0, 6) =~= "Token "@);
    assert(authorization_for(api_key).subrange(6, api_key.len() + 6int) =~= api_key);
}

} // verus!
