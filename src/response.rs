use vstd::prelude::*;
use vstd::string::*;

use crate::error::{joined, FetchError, FetchErrorView};
use crate::headers::{headers_view, Header};
use crate::json::{json_text_of, to_json_text, OpaqueJsonArray};

verus! {

/// A response to hand to the transport.
pub struct Response {
    pub status: u16,
    pub headers: Vec<Header>,
    pub body: String,
}

pub const STATUS_OK: u16 = 200;

pub const STATUS_INTERNAL_ERROR: u16 = 500;

/// The single header every response carries: any origin may read it.
pub open spec fn cors_view() -> Seq<(Seq<char>, Seq<u8>)> {
    seq![("access-control-allow-origin"@, seq![42u8])]
}

pub fn cors_allow_all() -> (r: Vec<Header>)
    ensures
        headers_view(r@) == cors_view(),
{
    let mut star: Vec<u8> = Vec::new();
    star.push(42u8);
    assert(star@ =~= seq![42u8]);
    let h = Header { name: String::from_str("access-control-allow-origin"), value: star };
    let mut r: Vec<Header> = Vec::new();
    r.push(h);
    assert(headers_view(r@) =~= cors_view());
    r
}

/// An upstream status kept where it is a valid HTTP status code
/// (`100..=999`), and 500 otherwise.
pub open spec fn relayed_status(code: u16) -> u16 {
    if 100 <= code <= 999 { code } else { STATUS_INTERNAL_ERROR }
}

pub fn relay_status(code: u16) -> (r: u16)
    ensures
        r == relayed_status(code),
{
    if 100 <= code && code <= 999 { code } else { STATUS_INTERNAL_ERROR }
}

pub open spec fn error_status(e: FetchErrorView) -> u16 {
    match e {
        FetchErrorView::Upstream { status, .. } => relayed_status(status),
        _ => STATUS_INTERNAL_ERROR,
    }
}

/// The plain-text body that reports an error: the upstream's own body, or a
/// diagnostic that carries the underlying detail.
pub open spec fn error_text(e: FetchErrorView) -> Seq<char> {
    match e {
        FetchErrorView::Upstream { body, .. } => body,
        FetchErrorView::Network { detail } => "Failed to make request to github: "@ + detail,
        FetchErrorView::BodyUnreadable { detail } => "Failed to read response: "@ + detail,
        FetchErrorView::Decode { body, detail } => "Failed to read response \""@ + body + "\": "@ + detail,
        FetchErrorView::LinkText { detail } => "Failed to parse link header: "@ + detail,
        FetchErrorView::LinkHeader { link, detail } => "Failed to parse link map \""@ + link + "\": "@ + detail,
    }
}

/// Status and body for a successful fetch: the bare JSON array, or a 500
/// where it cannot be written.
pub open spec fn success_status(values: Seq<serde_json::Value>) -> u16 {
    if json_text_of(values) is Ok { STATUS_OK } else { STATUS_INTERNAL_ERROR }
}

pub open spec fn success_text(values: Seq<serde_json::Value>) -> Seq<char> {
    match json_text_of(values) {
        Ok(t) => t,
        Err(d) => "Failed to serialize response: "@ + d,
    }
}

pub open spec fn result_status(result: Result<Seq<serde_json::Value>, FetchErrorView>) -> u16 {
    match result {
        Ok(v) => success_status(v),
        Err(e) => error_status(e),
    }
}

pub open spec fn result_text(result: Result<Seq<serde_json::Value>, FetchErrorView>) -> Seq<char> {
    match result {
        Ok(v) => success_text(v),
        Err(e) => error_text(e),
    }
}

pub open spec fn result_view(result: Result<OpaqueJsonArray, FetchError>) -> Result<Seq<serde_json::Value>, FetchErrorView> {
    match result {
        Ok(a) => Ok(a@),
        Err(e) => Err(e@),
    }
}

/// The response for a fetched array.
pub fn serialize_for_response(array: &OpaqueJsonArray) -> (r: Response)
    ensures
        r.status == success_status(array@),
        r.body@ == success_text(array@),
        headers_view(r.headers@) == cors_view(),
{
    match to_json_text(array) {
        Ok(text) => Response { status: STATUS_OK, headers: cors_allow_all(), body: text },
        Err(d) => Response {
            status: STATUS_INTERNAL_ERROR,
            headers: cors_allow_all(),
            body: joined("Failed to serialize response: ", d.as_str()),
        },
    }
}

fn join3(a: &str, b: &str, c: &str, d: &str) -> (r: String)
    ensures
        r@ == a@ + b@ + c@ + d@,
{
    let mut r = joined(a, b);
    r.append(c);
    r.append(d);
    r
}

/// The response that reports a failed fetch.
pub fn error_response(e: &FetchError) -> (r: Response)
    ensures
        r.status == error_status(e@),
        r.body@ == error_text(e@),
        headers_view(r.headers@) == cors_view(),
{
    let (status, body) = match e {
        FetchError::Upstream { status, body } => (relay_status(*status), body.clone()),
        FetchError::Network { detail } => (STATUS_INTERNAL_ERROR, joined("Failed to make request to github: ", detail.as_str())),
        FetchError::BodyUnreadable { detail } => (STATUS_INTERNAL_ERROR, joined("Failed to read response: ", detail.as_str())),
        FetchError::Decode { body, detail } => (STATUS_INTERNAL_ERROR, join3("Failed to read response \"", body.as_str(), "\": ", detail.as_str())),
        FetchError::LinkText { detail } => (STATUS_INTERNAL_ERROR, joined("Failed to parse link header: ", detail.as_str())),
        FetchError::LinkHeader { link, detail } => (STATUS_INTERNAL_ERROR, join3("Failed to parse link map \"", link.as_str(), "\": ", detail.as_str())),
    };
    Response { status, headers: cors_allow_all(), body }
}

/// The response for the outcome of a fetch.
pub fn assemble(result: &Result<OpaqueJsonArray, FetchError>) -> (r: Response)
    ensures
        r.status == result_status(result_view(*result)),
        r.body@ == result_text(result_view(*result)),
        headers_view(r.headers@) == cors_view(),
{
    match result {
        Ok(a) => serialize_for_response(a),
        Err(e) => error_response(e),
    }
}

} // verus!
