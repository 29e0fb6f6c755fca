//! The outbound request: built once from the configuration, and copied for
//! each attempt by whoever sends it.

use vstd::prelude::*;
use vstd::string::StringExecFns;
use crate::config::Config;

verus! {

/// An HTTP request method.
#[derive(Debug, Clone, Copy, PartialEq, Eq, Structural)]
pub enum Method {
    Get,
    Post,
    Put,
    Delete,
    Head,
    Patch,
    Options,
    Connect,
    Trace,
}

impl Method {
    /// Whether requests can be built with this method: GET, POST, PUT,
    /// DELETE, HEAD and PATCH.
    pub open spec fn is_supported(self) -> bool {
        self is Get || self is Post || self is Put || self is Delete || self is Head || self is Patch
    }

    /// The method as it is written in a request.
    pub open spec fn token(self) -> Seq<char> {
        match self {
            Method::Get => "GET"@,
            Method::Post => "POST"@,
            Method::Put => "PUT"@,
            Method::Delete => "DELETE"@,
            Method::Head => "HEAD"@,
            Method::Patch => "PATCH"@,
            Method::Options => "OPTIONS"@,
            Method::Connect => "CONNECT"@,
            Method::Trace => "TRACE"@,
        }
    }

    /// The method as it is written in a request.
    pub fn as_str(self) -> (text: &'static str)
        ensures
            text@ == self.token(),
    {
        match self {
            Method::Get => "GET",
            Method::Post => "POST",
            Method::Put => "PUT",
            Method::Delete => "DELETE",
            Method::Head => "HEAD",
            Method::Patch => "PATCH",
            Method::Options => "OPTIONS",
            Method::Connect => "CONNECT",
            Method::Trace => "TRACE",
        }
    }
}

/// The value of a header: text, where it is made of visible ASCII
/// characters, else the bytes as they are.
#[derive(Debug, Clone, PartialEq, Eq)]
pub enum HeaderValue {
    Text(String),
    Binary(Vec<u8>),
}

/// A header value with its text as a sequence of characters.
pub enum HeaderValueView {
    Text(Seq<char>),
    Binary(Seq<u8>),
}

impl View for HeaderValue {
    type V = HeaderValueView;

    open spec fn view(&self) -> HeaderValueView {
        match self {
            HeaderValue::Text(text) => HeaderValueView::Text(text@),
            HeaderValue::Binary(bytes) => HeaderValueView::Binary(bytes@),
        }
    }
}

/// One header. The case of ASCII letters makes no difference between
/// header names.
#[derive(Debug, Clone, PartialEq, Eq)]
pub struct Header {
    pub name: String,
    pub value: HeaderValue,
}

/// A header with its texts as sequences of characters.
pub struct HeaderView {
    pub name: Seq<char>,
    pub value: HeaderValueView,
}

impl View for Header {
    type V = HeaderView;

    open spec fn view(&self) -> HeaderView {
        HeaderView { name: self.name@, value: self.value@ }
    }
}

/// The headers of a list, each as its view.
pub open spec fn headers_view(headers: Seq<Header>) -> Seq<HeaderView> {
    Seq::new(headers.len(), |i: int| headers[i]@)
}

/// The name of the header that names the client.
pub open spec fn user_agent_name() -> Seq<char> {
    "user-agent"@
}

/// How this client names itself.
pub open spec fn user_agent() -> Seq<char> {
    "rs-crtsh/1.0"@
}

/// The headers that every request carries: the one that names the client.
pub open spec fn default_header_views() -> Seq<HeaderView> {
    seq![HeaderView { name: user_agent_name(), value: HeaderValueView::Text(user_agent()) }]
}

/// The headers that every request carries: the one that names the client.
pub fn default_headers() -> (headers: Vec<Header>)
    ensures
        headers_view(headers@) == default_header_views(),
{
    let mut headers: Vec<Header> = Vec::new();
    headers.push(
        Header { name: String::from_str("user-agent"), value: HeaderValue::Text(String::from_str("rs-crtsh/1.0")) },
    );
    headers
}

/// A request, ready to be sent. It is never changed after it was built:
/// each attempt sends a copy.
#[derive(Debug, Clone, PartialEq, Eq)]
pub struct OutboundRequest {
    pub method: Method,
    pub url: String,
    pub headers: Vec<Header>,
}

/// A request with its texts as sequences of characters.
pub struct OutboundRequestView {
    pub method: Method,
    pub url: Seq<char>,
    pub headers: Seq<HeaderView>,
}

impl View for OutboundRequest {
    type V = OutboundRequestView;

    open spec fn view(&self) -> OutboundRequestView {
        OutboundRequestView { method: self.method, url: self.url@, headers: headers_view(self.headers@) }
    }
}

/// What the sender of the requests is set up with.
#[derive(Debug, Clone, PartialEq, Eq)]
pub struct ClientSettings {
    /// The time allowed for one attempt, in seconds.
    pub timeout_secs: u64,
    /// How the client names itself.
    pub user_agent: String,
}

/// All that a run needs before the first attempt.
#[derive(Debug, Clone, PartialEq, Eq)]
pub struct RequestContext {
    pub client: ClientSettings,
    pub request: OutboundRequest,
    pub default_headers: Vec<Header>,
}

/// Why no request was built.
#[derive(Debug, Clone, Copy, PartialEq, Eq, Structural)]
pub enum RequestBuildError {
    /// Requests are not built with this method.
    UnsupportedMethod,
}

impl RequestBuildError {
    /// The error in words.
    pub fn message(&self) -> (text: String)
        ensures
            text@ == "Unknown HTTP method"@,
    {
        String::from_str("Unknown HTTP method")
    }
}

/// The request for `method` and `url`, with the default headers.
pub open spec fn request_for(method: Method, url: Seq<char>) -> OutboundRequestView {
    OutboundRequestView { method, url, headers: default_header_views() }
}

/// Builds the request for `method` and `url`, with the default headers.
/// Only GET, POST, PUT, DELETE, HEAD and PATCH are supported.
pub fn create_request_builder(method: &Method, url: &str) -> (built: Result<OutboundRequest, RequestBuildError>)
    ensures
        method.is_supported() ==> built is Ok && built->Ok_0@ == request_for(*method, url@),
        !method.is_supported() ==> built == Err::<OutboundRequest, RequestBuildError>(
            RequestBuildError::UnsupportedMethod,
        ),
{
    match method {
        Method::Get | Method::Post | Method::Put | Method::Delete | Method::Head | Method::Patch => Ok(
            OutboundRequest { method: *method, url: String::from_str(url), headers: default_headers() },
        ),
        _ => Err(RequestBuildError::UnsupportedMethod),
    }
}

/// Builds the request of a run: a GET of the configured URL.
pub fn build_request(config: &Config) -> (built: Result<OutboundRequest, RequestBuildError>)
    ensures
        built is Ok,
        built->Ok_0@ == request_for(Method::Get, config.url@),
{
    create_request_builder(&Method::Get, config.url.as_str())
}

/// Sets up the sender: the configured timeout, the client's name, and the
/// default headers.
pub fn create_http_client(config: &Config) -> (made: (ClientSettings, Vec<Header>))
    ensures
        made.0.timeout_secs == config.timeout,
        made.0.user_agent@ == user_agent(),
        headers_view(made.1@) == default_header_views(),
{
    (ClientSettings { timeout_secs: config.timeout, user_agent: String::from_str("rs-crtsh/1.0") }, default_headers())
}

/// Prepares a run: the sender's settings and the request.
pub fn create_request_context(config: &Config) -> (made: Result<RequestContext, RequestBuildError>)
    ensures
        made is Ok,
        made->Ok_0.client.timeout_secs == config.timeout,
        made->Ok_0.client.user_agent@ == user_agent(),
        made->Ok_0.request@ == request_for(Method::Get, config.url@),
        headers_view(made->Ok_0.default_headers@) == default_header_views(),
{
    let (client, default_headers) = create_http_client(config);
    match build_request(config) {
        Ok(request) => Ok(RequestContext { client, request, default_headers }),
        Err(e) => Err(e),
    }
}

} // verus!
