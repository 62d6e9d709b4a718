//! What is handed to the transport and what comes back from it.
//!
//! The crate performs no I/O. It describes each exchange as a [`Request`],
//! leaves sending it to the caller, and receives the outcome as a [`Reply`].
//! [`Request::resolve`] turns that outcome into the single result type that
//! every bridge operation reports.

use crate::error::{ApiError, ApiErrorView};
use crate::json::{Json, JsonView};
use crate::normalize::{normalize, normalized, outcome_view};
use vstd::prelude::*;

verus! {

/// URL scheme of the bridge's local, unencrypted API.
pub const SCHEME: &'static str = "http";

/// Separator between the scheme and the host of a URL.
pub const SCHEME_SEPARATOR: &'static str = "://";

/// Name of the header that announces the body's format.
pub const CONTENT_TYPE_HEADER: &'static str = "Content-Type";

/// Value of the content type header on every request.
pub const CONTENT_TYPE_JSON: &'static str = "application/json";

/// Seconds after which a request is given up.
pub const REQUEST_TIMEOUT_SECS: u64 = 5;

/// Simultaneous connections allowed to the bridge.
pub const MAX_CONNECTIONS_PER_HOST: u64 = 1;

/// Lowest status that counts as success.
pub const STATUS_OK_MIN: i64 = 200;

/// Lowest status above the success range.
pub const STATUS_OK_END: i64 = 300;

/// The fixed parameters every connection to the bridge is made with.
#[derive(Debug, Clone, Copy, PartialEq, Eq)]
pub struct TransportPolicy {
    /// Whether requests may travel over a mobile network.
    pub allows_cellular_access: bool,
    /// Seconds after which a request is given up.
    pub request_timeout_secs: u64,
    /// Simultaneous connections allowed to the bridge.
    pub max_connections_per_host: u64,
    /// Whether cached responses are ignored.
    pub bypass_cache: bool,
}

impl TransportPolicy {
    /// The policy for talking to a bridge on the local network: no mobile
    /// network, a five second timeout, one connection, no cache.
    pub fn bridge() -> (r: TransportPolicy)
        ensures
            r == (TransportPolicy {
                allows_cellular_access: false,
                request_timeout_secs: 5,
                max_connections_per_host: 1,
                bypass_cache: true,
            }),
    {
        TransportPolicy {
            allows_cellular_access: false,
            request_timeout_secs: REQUEST_TIMEOUT_SECS,
            max_connections_per_host: MAX_CONNECTIONS_PER_HOST,
            bypass_cache: true,
        }
    }
}

/// The HTTP methods the bridge API uses.
#[derive(Debug, Clone, Copy, PartialEq, Eq)]
pub enum Method {
    Get,
    Post,
    Put,
}

/// The method's name on the wire.
pub open spec fn method_name(method: Method) -> Seq<char> {
    match method {
        Method::Get => "GET"@,
        Method::Post => "POST"@,
        Method::Put => "PUT"@,
    }
}

impl Method {
    /// The method's name on the wire.
    pub fn name(&self) -> (r: &'static str)
        ensures
            r@ == method_name(*self),
    {
        match self {
            Method::Get => "GET",
            Method::Post => "POST",
            Method::Put => "PUT",
        }
    }
}

/// The absolute URL of `path` on `host`.
pub open spec fn url_of(host: Seq<char>, path: Seq<char>) -> Seq<char> {
    SCHEME@ + SCHEME_SEPARATOR@ + host + path
}

/// Whether `status` lies in 200..=299.
pub open spec fn is_success(status: int) -> bool {
    200 <= status < 300
}

/// One call to the bridge, ready to be sent.
#[derive(Debug, PartialEq, Eq)]
pub struct Request {
    pub method: Method,
    pub host: String,
    pub path: String,
    /// The JSON document to send, when the call has one.
    pub body: Option<Json>,
}

/// Mathematical model of a [`Request`].
pub struct RequestView {
    pub method: Method,
    pub host: Seq<char>,
    pub path: Seq<char>,
    pub body: Option<JsonView>,
}

/// The model of an optional body.
pub open spec fn body_view(body: Option<Json>) -> Option<JsonView> {
    match body {
        Some(document) => Some(document@),
        None => None,
    }
}

impl View for Request {
    type V = RequestView;

    open spec fn view(&self) -> RequestView {
        RequestView {
            method: self.method,
            host: self.host@,
            path: self.path@,
            body: body_view(self.body),
        }
    }
}

/// The body of a response, as far as it could be decoded.
#[derive(Debug, PartialEq, Eq)]
pub enum Payload {
    /// The body was valid JSON.
    Decoded(Json),
    /// The body was not valid JSON; `reason` says why.
    Undecodable { reason: String },
}

/// What the transport delivers for one request.
#[derive(Debug, PartialEq, Eq)]
pub enum Reply {
    /// No response arrived: the connection failed, timed out or was
    /// cancelled.
    Failed { message: String },
    /// A response arrived.
    Answered { status: i64, payload: Payload },
}

/// What a reply to a request for `url` resolves to.
///
/// A failed exchange is a transport error. A status outside 200..=299 is a
/// status error carrying that status, whatever the body holds. Otherwise an
/// undecodable body is malformed and a decoded one is normalised.
pub open spec fn resolved(url: Seq<char>, reply: Reply) -> Result<JsonView, ApiErrorView> {
    match reply {
        Reply::Failed { message } => Err(ApiErrorView::Transport { message: message@ }),
        Reply::Answered { status, payload } => if !is_success(status as int) {
            Err(ApiErrorView::HttpStatus { code: status as int, url })
        } else {
            match payload {
                Payload::Undecodable { reason } => Err(
                    ApiErrorView::MalformedResponse { reason: reason@ },
                ),
                Payload::Decoded(body) => normalized(body@, url),
            }
        },
    }
}

/// Accepts a status in 200..=299 and reports any other as an error that
/// carries it.
pub fn check_status(status: i64, url: &str) -> (r: Result<(), ApiError>)
    ensures
        match r {
            Ok(_) => is_success(status as int),
            Err(error) => !is_success(status as int) && error@ == (ApiErrorView::HttpStatus {
                code: status as int,
                url: url@,
            }),
        },
{
    if status < STATUS_OK_MIN || status >= STATUS_OK_END {
        Err(ApiError::HttpStatus { code: status, url: String::from_str(url) })
    } else {
        Ok(())
    }
}

impl Request {
    /// The absolute URL the request goes to.
    pub fn url(&self) -> (r: String)
        ensures
            r@ == url_of(self.host@, self.path@),
    {
        let mut url = String::from_str(SCHEME);
        url.append(SCHEME_SEPARATOR);
        url.append(self.host.as_str());
        url.append(self.path.as_str());
        url
    }

    /// The content type announced with the request.
    pub fn content_type(&self) -> (r: &'static str)
        ensures
            r@ == CONTENT_TYPE_JSON@,
    {
        CONTENT_TYPE_JSON
    }

    /// Turns the transport's reply to this request into the call's result.
    /// The request is used up: a call completes once.
    pub fn resolve(self, reply: Reply) -> (r: Result<Json, ApiError>)
        ensures
            outcome_view(r) == resolved(url_of(self.host@, self.path@), reply),
    {
        let url = self.url();
        match reply {
            Reply::Failed { message } => Err(ApiError::Transport { message }),
            Reply::Answered { status, payload } => {
                match check_status(status, url.as_str()) {
                    Err(error) => {
                        return Err(error);
                    },
                    Ok(_) => {},
                }
                match payload {
                    Payload::Undecodable { reason } => Err(ApiError::MalformedResponse { reason }),
                    Payload::Decoded(body) => normalize(body, url.as_str()),
                }
            },
        }
    }
}

} // verus!
