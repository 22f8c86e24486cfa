//! The web client's view of the API: where each request goes, and how a
//! response status is judged.
use crate::ids::{uuid_text, uuid_to_string};
use crate::text::{decimal, u16_text, usize_text};
use vstd::prelude::*;

verus! {

/// Path of the document collection (create with POST, list with GET).
pub const DOCUMENTS_ENDPOINT: &'static str = "/pb/documents";

/// Path of the search (POST).
pub const SEARCH_ENDPOINT: &'static str = "/pb/search";

/// Path of the statistics (GET).
pub const STATS_ENDPOINT: &'static str = "/pb/stats";

/// An error of a request made by the web client.
pub enum ApiError {
    /// The request could not be sent.
    Network(String),
    /// The server answered with a status outside 200..=299.
    Http(u16, String),
    /// The body could not be read as the expected JSON.
    Parse(String),
}

/// The text of an API error.
pub open spec fn api_error_text(e: ApiError) -> Seq<char> {
    match e {
        ApiError::Network(m) => "Network error: "@ + m@,
        ApiError::Http(status, m) => "HTTP error: "@ + decimal(status as nat) + seq![' '] + m@,
        ApiError::Parse(m) => "Parse error: "@ + m@,
    }
}

impl ApiError {
    /// The error's message, as the web client shows it.
    pub fn message(&self) -> (r: String)
        ensures
            r@ == api_error_text(*self),
    {
        let mut r = String::new();
        match self {
            ApiError::Network(m) => {
                r.append("Network error: ");
                r.append(m.as_str());
            },
            ApiError::Http(status, m) => {
                r.append("HTTP error: ");
                let s = u16_text(*status);
                r.append(s.as_str());
                r.append(" ");
                proof {
                    reveal_strlit(" ");
                }
                r.append(m.as_str());
            },
            ApiError::Parse(m) => {
                r.append("Parse error: ");
                r.append(m.as_str());
            },
        }
        r
    }
}

/// A successful response has a status in `200..=299`.
pub open spec fn status_ok(status: u16) -> bool {
    200 <= status <= 299
}

/// Judges a response's status before its body is decoded: a status outside
/// `200..=299` is an HTTP error carrying the status and its text.
pub fn check_response(status: u16, status_text: String) -> (r: Result<(), ApiError>)
    ensures
        status_ok(status) ==> r is Ok,
        !status_ok(status) ==> (r matches Err(ApiError::Http(s, t)) && s == status && t@
            == status_text@),
{
    if 200 <= status && status <= 299 {
        Ok(())
    } else {
        Err(ApiError::Http(status, status_text))
    }
}

/// A client of the API at a base URL.
pub struct ApiClient {
    base_url: String,
}

impl ApiClient {
    /// The base URL every endpoint is appended to.
    pub closed spec fn base(&self) -> Seq<char> {
        self.base_url@
    }

    pub fn new(base_url: String) -> (r: Self)
        ensures
            r.base() == base_url@,
    {
        ApiClient { base_url }
    }

    /// A client of the API served by the same origin (empty base URL).
    pub fn default() -> (r: Self)
        ensures
            r.base() == Seq::<char>::empty(),
    {
        Self::new(String::new())
    }

    /// The URL of an endpoint: the base URL followed by the endpoint.
    pub fn url(&self, endpoint: &str) -> (r: String)
        ensures
            r@ == self.base() + endpoint@,
    {
        let mut r = self.base_url.clone();
        r.append(endpoint);
        r
    }
}

/// The endpoint listing a page of documents.
pub open spec fn list_endpoint_text(limit: usize, offset: usize) -> Seq<char> {
    "/pb/documents?limit="@ + decimal(limit as nat) + "&offset="@ + decimal(offset as nat)
}

/// `/pb/documents?limit={limit}&offset={offset}`.
pub fn list_documents_endpoint(limit: usize, offset: usize) -> (r: String)
    ensures
        r@ == list_endpoint_text(limit, offset),
{
    let mut r = String::new();
    r.append("/pb/documents?limit=");
    let l = usize_text(limit);
    r.append(l.as_str());
    r.append("&offset=");
    let o = usize_text(offset);
    r.append(o.as_str());
    r
}

/// `/pb/documents/{id}`, the endpoint of one document.
pub fn document_endpoint(id: u128) -> (r: String)
    ensures
        r@ == "/pb/documents/"@ + uuid_text(id),
{
    let mut r = String::new();
    r.append("/pb/documents/");
    let t = uuid_to_string(id);
    r.append(t.as_str());
    r
}

} // verus!
