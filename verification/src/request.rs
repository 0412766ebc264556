//! Request planning: validating the target URL and deciding what the one
//! dispatched request carries. The network round trip itself stays
//! outside the library; it receives a finished `RequestPlan`.

use crate::body::{json_body, RequestBody};
use crate::errors::HttpError;
use vstd::prelude::*;
use vstd::string::*;

verus! {

/// The two request methods the client offers.
#[derive(Debug, Clone, Copy, PartialEq, Eq, Structural)]
pub enum Method {
    Get,
    Post,
}

/// A URL that passed absolute-URL validation, kept in its normalized
/// serialization.
#[derive(Debug, Clone)]
pub struct ParsedUrl {
    pub text: String,
}

/// What URL validation yields for an argument: `None` when it is not an
/// absolute URL, and otherwise its normalized serialization.
pub uninterp spec fn url_normal(s: Seq<char>) -> Option<Seq<char>>;

/// Relies on `url::Url::parse`: accepts exactly the well-formed absolute
/// URLs, and `Url::as_str` gives the parsed URL's normalized
/// serialization; both depend on the argument alone.
#[verifier::external_body]
fn parse_url_raw(s: &str) -> (r: Option<String>)
    ensures
        match r {
            Some(t) => url_normal(s@) == Some(t@),
            None => url_normal(s@) is None,
        },
{
    match url::Url::parse(s) {
        Ok(u) => Some(String::from(u.as_str())),
        Err(_) => None,
    }
}

/// Validates the URL argument before any network activity: succeeds with
/// the normalized URL exactly when the argument is an absolute URL, and
/// otherwise reports it as invalid.
pub fn parse_url(s: &str) -> (r: Result<ParsedUrl, HttpError>)
    ensures
        match url_normal(s@) {
            Some(t) => r matches Ok(u) && u.text@ == t,
            None => r matches Err(HttpError::InvalidUrl(a)) && a@ == s@,
        },
{
    match parse_url_raw(s) {
        Some(t) => Ok(ParsedUrl { text: t }),
        None => Err(HttpError::InvalidUrl(String::from_str(s))),
    }
}

/// Everything the transport needs for the one round trip: the method, the
/// validated URL, and for POST the serialized JSON body.
#[derive(Debug)]
pub struct RequestPlan {
    pub method: Method,
    pub url: String,
    pub body: Option<String>,
}

/// Plans the one request of an invocation. A GET carries no body,
/// whatever was supplied; a POST carries the body mapping serialized as a
/// JSON object.
pub fn plan_request(method: Method, url: &ParsedUrl, body: &RequestBody) -> (r: RequestPlan)
    ensures
        r.method == method,
        r.url@ == url.text@,
        match method {
            Method::Get => r.body is None,
            Method::Post => r.body matches Some(s) && s@ == json_body(body@),
        },
{
    match method {
        Method::Get => RequestPlan { method, url: url.text.clone(), body: None },
        Method::Post => RequestPlan { method, url: url.text.clone(), body: Some(body.to_json()) },
    }
}

} // verus!
