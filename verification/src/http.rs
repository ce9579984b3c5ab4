use vstd::prelude::*;
use vstd::string::*;
use crate::text::opt_text;

verus! {

/// The method of a request.
#[derive(Clone, Copy, PartialEq, Eq, Structural, Debug)]
pub enum Method {
    Get,
    Post,
    Put,
    Patch,
}

/// The named backend that a request is sent to.
#[derive(Clone, Copy, PartialEq, Eq, Structural, Debug)]
pub enum Host {
    /// `github.com`, for the authorization handshake.
    GitHub,
    /// `api.github.com`.
    GitHubApi,
    /// `api.fastly.com`.
    FastlyApi,
}

impl Host {
    /// The backend's name.
    pub fn name(&self) -> (r: &'static str)
        ensures
            r@ == host_name(*self),
    {
        match self {
            Host::GitHub => "github.com",
            Host::GitHubApi => "api.github.com",
            Host::FastlyApi => "api.fastly.com",
        }
    }
}

/// The name of a backend.
pub open spec fn host_name(host: Host) -> Seq<char> {
    match host {
        Host::GitHub => "github.com"@,
        Host::GitHubApi => "api.github.com"@,
        Host::FastlyApi => "api.fastly.com"@,
    }
}

/// One header of a request.
#[derive(Debug)]
pub struct Header {
    pub name: String,
    pub value: String,
}

/// A request to one of the two platforms, as plain data: what is to be sent,
/// not the sending.
#[derive(Debug)]
pub struct ApiRequest {
    pub method: Method,
    pub url: String,
    pub host: Host,
    pub headers: Vec<Header>,
    /// Whether the request bypasses the cache.
    pub pass: bool,
    /// For how many seconds the response may be cached.
    pub ttl: Option<u32>,
    /// The JSON text of the body, if the request has one.
    pub body: Option<String>,
}

/// An `ApiRequest` with its texts as sequences of characters.
pub struct ApiRequestModel {
    pub method: Method,
    pub url: Seq<char>,
    pub host: Host,
    pub headers: Seq<(Seq<char>, Seq<char>)>,
    pub pass: bool,
    pub ttl: Option<u32>,
    pub body: Option<Seq<char>>,
}

/// The names and values of a list of headers.
pub open spec fn headers_model(headers: Seq<Header>) -> Seq<(Seq<char>, Seq<char>)> {
    Seq::new(headers.len(), |i: int| (headers[i].name@, headers[i].value@))
}

impl View for ApiRequest {
    type V = ApiRequestModel;

    open spec fn view(&self) -> ApiRequestModel {
        ApiRequestModel {
            method: self.method,
            url: self.url@,
            host: self.host,
            headers: headers_model(self.headers@),
            pass: self.pass,
            ttl: self.ttl,
            body: opt_text(self.body),
        }
    }
}

/// A request with nothing but its method, address and backend.
pub open spec fn bare_request(method: Method, url: Seq<char>, host: Host) -> ApiRequestModel {
    ApiRequestModel {
        method,
        url,
        host,
        headers: Seq::empty(),
        pass: false,
        ttl: None,
        body: None,
    }
}

impl ApiRequestModel {
    /// The request with one more header at the end.
    pub open spec fn header(self, name: Seq<char>, value: Seq<char>) -> ApiRequestModel {
        ApiRequestModel { headers: self.headers.push((name, value)), ..self }
    }

    /// The request marked to bypass the cache.
    pub open spec fn passing(self) -> ApiRequestModel {
        ApiRequestModel { pass: true, ..self }
    }

    /// The request with a caching time.
    pub open spec fn cached_for(self, seconds: u32) -> ApiRequestModel {
        ApiRequestModel { ttl: Some(seconds), ..self }
    }

    /// The request with a JSON body.
    pub open spec fn json(self, body: Seq<char>) -> ApiRequestModel {
        ApiRequestModel { body: Some(body), ..self }
    }
}

impl ApiRequest {
    /// A request with nothing but its method, address and backend.
    pub fn new(method: Method, url: String, host: Host) -> (r: ApiRequest)
        ensures
            r@ == bare_request(method, url@, host),
    {
        let r = ApiRequest {
            method,
            url,
            host,
            headers: Vec::new(),
            pass: false,
            ttl: None,
            body: None,
        };
        assert(r@.headers =~= Seq::empty());
        r
    }

    /// Adds a header at the end.
    pub fn with_header(self, name: &str, value: &str) -> (r: ApiRequest)
        ensures
            r@ == self@.header(name@, value@),
    {
        let mut r = self;
        r.headers.push(Header { name: String::from_str(name), value: String::from_str(value) });
        assert(r@.headers =~= self@.headers.push((name@, value@)));
        r
    }

    /// Marks the request to bypass the cache, or not.
    pub fn with_pass(self, pass: bool) -> (r: ApiRequest)
        ensures
            r@ == (ApiRequestModel { pass, ..self@ }),
    {
        let mut r = self;
        r.pass = pass;
        r
    }

    /// Lets the response be cached for `seconds`.
    pub fn with_ttl(self, seconds: u32) -> (r: ApiRequest)
        ensures
            r@ == self@.cached_for(seconds),
    {
        let mut r = self;
        r.ttl = Some(seconds);
        r
    }

    /// Sets the JSON text of the body.
    pub fn with_body_json(self, body: String) -> (r: ApiRequest)
        ensures
            r@ == self@.json(body@),
    {
        let mut r = self;
        r.body = Some(body);
        r
    }
}

/// What came back for a request: the status code and the body as text.
#[derive(Debug)]
pub struct ApiResponse {
    pub status: u16,
    pub body: String,
}

/// Whether a status reports success.
pub open spec fn is_success(status: u16) -> bool {
    200 <= status < 300
}

impl ApiResponse {
    /// Whether the response reports success.
    pub fn is_success(&self) -> (r: bool)
        ensures
            r == is_success(self.status),
    {
        200 <= self.status && self.status < 300
    }
}

} // verus!
