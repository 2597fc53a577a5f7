//! Descriptions of HTTP requests. The transport turns them into traffic.

use vstd::prelude::*;
use vstd::string::*;

verus! {

/// One header of a request.
#[derive(Debug, Clone, PartialEq, Eq)]
pub struct HttpHeader {
    pub name: String,
    pub value: String,
    /// The value is a secret and must not be logged.
    pub sensitive: bool,
}

/// Model of `HttpHeader`.
pub struct HttpHeaderView {
    pub name: Seq<char>,
    pub value: Seq<char>,
    pub sensitive: bool,
}

impl View for HttpHeader {
    type V = HttpHeaderView;

    open spec fn view(&self) -> HttpHeaderView {
        HttpHeaderView { name: self.name@, value: self.value@, sensitive: self.sensitive }
    }
}

/// A header that is no secret.
pub open spec fn plain_header(name: Seq<char>, value: Seq<char>) -> HttpHeaderView {
    HttpHeaderView { name, value, sensitive: false }
}

/// A header whose value is a secret.
pub open spec fn secret_header(name: Seq<char>, value: Seq<char>) -> HttpHeaderView {
    HttpHeaderView { name, value, sensitive: true }
}

/// The views of a list of headers.
pub open spec fn header_views(headers: Seq<HttpHeader>) -> Seq<HttpHeaderView> {
    Seq::new(headers.len(), |i: int| headers[i]@)
}

impl HttpHeader {
    /// A header that is no secret.
    pub fn plain(name: &str, value: &str) -> (header: HttpHeader)
        ensures
            header@ == plain_header(name@, value@),
    {
        HttpHeader {
            name: String::from_str(name),
            value: String::from_str(value),
            sensitive: false,
        }
    }

    /// A header whose value is a secret.
    pub fn secret(name: &str, value: &str) -> (header: HttpHeader)
        ensures
            header@ == secret_header(name@, value@),
    {
        HttpHeader {
            name: String::from_str(name),
            value: String::from_str(value),
            sensitive: true,
        }
    }
}

/// The two methods that the client uses.
#[derive(Debug, Clone, Copy, PartialEq, Eq, Hash, Structural)]
pub enum HttpMethod {
    Get,
    Post,
}

/// One request of the plain request/response interface.
#[derive(Debug, Clone, PartialEq, Eq)]
pub struct RestRequest {
    pub method: HttpMethod,
    pub url: String,
    /// The JSON text that is sent, where the request has a body.
    pub body: Option<String>,
}

/// Model of `RestRequest`.
pub struct RestRequestView {
    pub method: HttpMethod,
    pub url: Seq<char>,
    pub body: Option<Seq<char>>,
}

impl View for RestRequest {
    type V = RestRequestView;

    open spec fn view(&self) -> RestRequestView {
        RestRequestView {
            method: self.method,
            url: self.url@,
            body: match self.body {
                Some(b) => Some(b@),
                None => None,
            },
        }
    }
}

/// A request without a body.
pub open spec fn get_request(url: Seq<char>) -> RestRequestView {
    RestRequestView { method: HttpMethod::Get, url, body: None }
}

/// A request with a body.
pub open spec fn post_request(url: Seq<char>, body: Seq<char>) -> RestRequestView {
    RestRequestView { method: HttpMethod::Post, url, body: Some(body) }
}

impl RestRequest {
    /// A request without a body.
    pub fn get(url: String) -> (request: RestRequest)
        ensures
            request@ == get_request(url@),
    {
        RestRequest { method: HttpMethod::Get, url, body: None }
    }

    /// A request with a body.
    pub fn post(url: String, body: String) -> (request: RestRequest)
        ensures
            request@ == post_request(url@, body@),
    {
        RestRequest { method: HttpMethod::Post, url, body: Some(body) }
    }
}

} // verus!
