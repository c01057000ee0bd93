//! Requests to jpdb.io: addresses, the description of a request that the
//! transport is to send, and the encoding of form fields.

use crate::text::opt_text;
use vstd::prelude::*;
use vstd::string::StringExecFns;

verus! {

pub const DOMAIN: &'static str = "jpdb.io";

pub const URL_PREFIX: &'static str = "https://";

/// Media type of a form-encoded request body.
pub const FORM_CONTENT_TYPE: &'static str = "application/x-www-form-urlencoded";

/// The absolute address of the path `rel` on the site.
pub open spec fn abs_url_text(rel: Seq<char>) -> Seq<char> {
    URL_PREFIX@ + DOMAIN@ + rel
}

/// Path and query of the search for `word`.
pub open spec fn search_path_text(word: Seq<char>) -> Seq<char> {
    "/search?q="@ + word + "&lang=english#a"@
}

/// Builds the absolute address of the path `rel` on the site.
pub fn abs_url(rel: &str) -> (url: String)
    ensures
        url@ == abs_url_text(rel@),
{
    let mut url = String::from_str(URL_PREFIX);
    url.append(DOMAIN);
    url.append(rel);
    url
}

/// Builds the path and query of the search for `word`.
pub fn search_path(word: &str) -> (path: String)
    ensures
        path@ == search_path_text(word@),
{
    let mut path = String::from_str("/search?q=");
    path.append(word);
    path.append("&lang=english#a");
    path
}

#[derive(Debug, Clone, Copy, PartialEq, Eq, Structural)]
pub enum Method {
    Get,
    Post,
}

/// A request for the transport to send, in plain values.
#[derive(Debug)]
pub struct HttpRequest {
    pub method: Method,
    /// Absolute address.
    pub url: String,
    pub body: Option<String>,
    pub content_type: Option<String>,
}

/// Mathematical value of an `HttpRequest`.
pub struct HttpRequestView {
    pub method: Method,
    pub url: Seq<char>,
    pub body: Option<Seq<char>>,
    pub content_type: Option<Seq<char>>,
}

impl View for HttpRequest {
    type V = HttpRequestView;

    open spec fn view(&self) -> HttpRequestView {
        HttpRequestView {
            method: self.method,
            url: self.url@,
            body: opt_text(self.body),
            content_type: opt_text(self.content_type),
        }
    }
}

/// The form fields could not be encoded.
#[derive(Debug, Clone, Copy, PartialEq, Eq, Structural)]
pub struct EncodingFailed;

/// `serde_urlencoded::ser::Error`, handed on unopened.
#[verifier::external_type_specification]
#[verifier::external_body]
pub struct ExUrlencodedError(serde_urlencoded::ser::Error);

/// The `application/x-www-form-urlencoded` text that `serde_urlencoded`
/// writes for a list of name-value pairs, or `None` where it reports an
/// error.
pub uninterp spec fn form_urlencoded(fields: Seq<(Seq<char>, Seq<char>)>) -> Option<Seq<char>>;

/// Calls `serde_urlencoded::to_string` on the list of pairs.
///
/// The contract says only that the outcome, text or error, is fixed by the
/// names and values of the fields in their order; `form_urlencoded` is the
/// name of that outcome.
#[verifier::external_body]
fn urlencode(fields: &Vec<(String, String)>) -> (r: Result<String, serde_urlencoded::ser::Error>)
    ensures
        r matches Ok(text) ==> form_urlencoded(fields.deep_view()) == Some(text@),
        r is Err ==> form_urlencoded(fields.deep_view()) is None,
{
    serde_urlencoded::to_string(fields)
}

/// The GET request for the path `rel`.
pub open spec fn get_request_view(rel: Seq<char>) -> HttpRequestView {
    HttpRequestView { method: Method::Get, url: abs_url_text(rel), body: None, content_type: None }
}

/// The POST request for the path `rel` that carries `body` as a form.
pub open spec fn post_request_view(rel: Seq<char>, body: Seq<char>) -> HttpRequestView {
    HttpRequestView {
        method: Method::Post,
        url: abs_url_text(rel),
        body: Some(body),
        content_type: Some(FORM_CONTENT_TYPE@),
    }
}

/// Describes the GET request for the path `rel_url` on the site.
pub fn get_request(rel_url: &str) -> (req: HttpRequest)
    ensures
        req@ == get_request_view(rel_url@),
{
    HttpRequest { method: Method::Get, url: abs_url(rel_url), body: None, content_type: None }
}

/// Describes the POST request for the path `rel_url` on the site whose body
/// is the already encoded form `body`.
pub fn post_request(rel_url: &str, body: String) -> (req: HttpRequest)
    ensures
        req@ == post_request_view(rel_url@, body@),
{
    HttpRequest {
        method: Method::Post,
        url: abs_url(rel_url),
        body: Some(body),
        content_type: Some(String::from_str(FORM_CONTENT_TYPE)),
    }
}

/// Describes the POST request for the path `rel_url` on the site that
/// carries the fields of `payload`, form-encoded in their order.
pub fn form_request(rel_url: &str, payload: &Vec<(String, String)>) -> (r: Result<
    HttpRequest,
    EncodingFailed,
>)
    ensures
        match form_urlencoded(payload.deep_view()) {
            Some(body) => r matches Ok(req) && req@ == post_request_view(rel_url@, body),
            None => r is Err,
        },
{
    match urlencode(payload) {
        Ok(body) => Ok(post_request(rel_url, body)),
        Err(_) => Err(EncodingFailed),
    }
}

} // verus!
