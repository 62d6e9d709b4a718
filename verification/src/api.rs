//! The session with one bridge: who it is, who we are to it, and the calls
//! that can be made on its behalf.

use crate::error::{ApiError, ApiErrorView};
use crate::json::{lemma_items_view, lemma_members_view, members_view};
use crate::json::{Json, JsonView, Member};
use crate::normalize::SUCCESS_KEY;
use crate::transport::{body_view, resolved, url_of, Method, Payload, Reply, Request, RequestView};
use vstd::prelude::*;

verus! {

/// Root of the bridge API, and the path that pairing posts to.
pub const API_ROOT: &'static str = "/api";

/// Separator between the API root and the username in an authenticated path.
pub const PATH_SEPARATOR: &'static str = "/";

/// Key of the application identifier in the pairing request.
pub const DEVICE_TYPE_KEY: &'static str = "devicetype";

/// Application identifier sent when pairing.
pub const DEVICE_TYPE: &'static str = "test";

/// Key of the credential in the bridge's answer to a pairing request.
pub const USERNAME_KEY: &'static str = "username";

/// Reason reported when the answer to a pairing request grants no username.
pub const INVALID_PAIRING_RESPONSE: &'static str = "pairing response grants no username";

/// The state of a connection to one bridge.
///
/// The username is absent until pairing succeeds and never absent again
/// afterwards. Fields change only through the methods of this type.
#[derive(Debug, Clone, PartialEq, Eq)]
pub struct Session {
    host: Option<String>,
    username: Option<String>,
    open: bool,
}

/// Mathematical model of a [`Session`].
pub struct SessionView {
    /// Network name or address of the bridge, when configured.
    pub host: Option<Seq<char>>,
    /// Credential the bridge issued, once paired.
    pub username: Option<Seq<char>>,
    /// Whether the transport has not been shut down yet.
    pub open: bool,
}

/// The model of an optional string.
pub open spec fn text_view(text: Option<String>) -> Option<Seq<char>> {
    match text {
        Some(s) => Some(s@),
        None => None,
    }
}

impl View for Session {
    type V = SessionView;

    closed spec fn view(&self) -> SessionView {
        SessionView {
            host: text_view(self.host),
            username: text_view(self.username),
            open: self.open,
        }
    }
}

/// `path` below the part of the API that belongs to `username`.
pub open spec fn authenticated(username: Seq<char>, path: Seq<char>) -> Seq<char> {
    API_ROOT@ + PATH_SEPARATOR@ + username + path
}

/// The body of a pairing request.
pub open spec fn pairing_body() -> JsonView {
    JsonView::Object(seq![(DEVICE_TYPE_KEY@, JsonView::Str(DEVICE_TYPE@))])
}

/// The username that the body of an answer to a pairing request grants: the
/// string under `"username"` in the object under `"success"` in the first
/// element of the array. A body of any other shape grants none.
pub open spec fn pairing_grant(body: JsonView) -> Option<Seq<char>> {
    match body {
        JsonView::Array(items) => if items.len() > 0 {
            match items[0].get(SUCCESS_KEY@) {
                Some(granted) => match granted.get(USERNAME_KEY@) {
                    Some(JsonView::Str(name)) => Some(name),
                    _ => None,
                },
                None => None,
            }
        } else {
            None
        },
        _ => None,
    }
}

/// The body that a reply carries, when one arrived and could be decoded.
pub open spec fn decoded_body(reply: Reply) -> Option<JsonView> {
    match reply {
        Reply::Answered { payload: Payload::Decoded(body), .. } => Some(body@),
        _ => None,
    }
}

/// What the reply to the pairing request `url` amounts to: the error it
/// resolves to when it resolves to one, else the username its body grants,
/// else a malformed-response error.
pub open spec fn paired(url: Seq<char>, reply: Reply) -> Result<Seq<char>, ApiErrorView> {
    match resolved(url, reply) {
        Err(error) => Err(error),
        Ok(_) => match decoded_body(reply) {
            Some(body) => match pairing_grant(body) {
                Some(name) => Ok(name),
                None => Err(ApiErrorView::MalformedResponse { reason: INVALID_PAIRING_RESPONSE@ }),
            },
            None => Err(ApiErrorView::MalformedResponse { reason: INVALID_PAIRING_RESPONSE@ }),
        },
    }
}

/// Reads the username that the body of an answer to a pairing request grants.
pub fn read_pairing_grant(body: &Json) -> (r: Option<String>)
    ensures
        match r {
            Some(name) => pairing_grant(body@) == Some(name@),
            None => pairing_grant(body@) is None,
        },
{
    match body {
        Json::Array(items) => {
            proof {
                lemma_items_view(items@);
            }
            if items.len() > 0 {
                match items[0].get(SUCCESS_KEY) {
                    Some(granted) => match granted.get(USERNAME_KEY) {
                        Some(value) => match value.as_str() {
                            Some(name) => Some(name.clone()),
                            None => None,
                        },
                        None => None,
                    },
                    None => None,
                }
            } else {
                None
            }
        },
        _ => None,
    }
}

impl Session {
    /// A session with the bridge at `host`, already paired when `username`
    /// is given.
    pub fn new(host: Option<String>, username: Option<String>) -> (r: Session)
        ensures
            r@ == (SessionView { host: text_view(host), username: text_view(username), open: true }),
    {
        Session { host, username, open: true }
    }

    /// Network name or address of the bridge.
    pub fn host(&self) -> (r: Option<&String>)
        ensures
            match r {
                Some(host) => self@.host == Some(host@),
                None => self@.host is None,
            },
    {
        self.host.as_ref()
    }

    /// Credential the bridge issued.
    pub fn username(&self) -> (r: Option<&String>)
        ensures
            match r {
                Some(name) => self@.username == Some(name@),
                None => self@.username is None,
            },
    {
        self.username.as_ref()
    }

    /// Whether pairing has completed.
    pub fn is_authenticated(&self) -> (r: bool)
        ensures
            r == (self@.username is Some),
    {
        self.username.is_some()
    }

    /// Whether the transport has not been shut down yet.
    pub fn is_open(&self) -> (r: bool)
        ensures
            r == self@.open,
    {
        self.open
    }

    /// Builds the call `method path` against the bridge, with `body` as its
    /// JSON document.
    pub fn request(&self, method: Method, path: &str, body: Option<Json>) -> (r: Request)
        requires
            self@.host is Some,
        ensures
            r@ == (RequestView {
                method,
                host: self@.host->0,
                path: path@,
                body: body_view(body),
            }),
    {
        let host = match &self.host {
            Some(host) => host.clone(),
            None => String::new(),
        };
        Request { method, host, path: String::from_str(path), body }
    }

    /// `path` below the part of the API that belongs to this session's
    /// username.
    pub fn authenticated_path(&self, path: &str) -> (r: String)
        requires
            self@.username is Some,
        ensures
            r@ == authenticated(self@.username->0, path@),
    {
        let mut full = String::from_str(API_ROOT);
        full.append(PATH_SEPARATOR);
        match &self.username {
            Some(name) => {
                full.append(name.as_str());
            },
            None => {},
        }
        full.append(path);
        full
    }

    /// Builds the call `method path` below this session's username.
    pub fn authenticated_request(&self, method: Method, path: &str, body: Option<Json>) -> (r:
        Request)
        requires
            self@.host is Some,
            self@.username is Some,
        ensures
            r@ == (RequestView {
                method,
                host: self@.host->0,
                path: authenticated(self@.username->0, path@),
                body: body_view(body),
            }),
    {
        let full = self.authenticated_path(path);
        self.request(method, full.as_str(), body)
    }

    /// Builds the pairing call: a post of the application identifier to the
    /// API root.
    pub fn connect(&self) -> (r: Request)
        requires
            self@.host is Some,
        ensures
            r@ == (RequestView {
                method: Method::Post,
                host: self@.host->0,
                path: API_ROOT@,
                body: Some(pairing_body()),
            }),
    {
        let mut members: Vec<Member> = Vec::new();
        members.push(Member::new(DEVICE_TYPE_KEY, Json::Str(String::from_str(DEVICE_TYPE))));
        proof {
            lemma_members_view(members@);
            assert(members_view(members@) =~= seq![(DEVICE_TYPE_KEY@, JsonView::Str(DEVICE_TYPE@))]);
        }
        self.request(Method::Post, API_ROOT, Some(Json::Object(members)))
    }

    /// Takes in the transport's reply to the pairing call `request`.
    ///
    /// When the reply resolves to an error, that error is handed on. When it
    /// does not, the username is read from the body as it came: a body that
    /// grants one authenticates the session with it, and any other body is a
    /// malformed-response error. Whenever the result is an error the session
    /// is left as it was.
    pub fn pair(&mut self, request: Request, reply: Reply) -> (r: Result<(), ApiError>)
        ensures
            final(self)@.host == old(self)@.host,
            final(self)@.open == old(self)@.open,
            old(self)@.username is Some ==> final(self)@.username is Some,
            match paired(url_of(request.host@, request.path@), reply) {
                Ok(name) => r is Ok && final(self)@.username == Some(name),
                Err(failure) => {
                    &&& r matches Err(error)
                    &&& error@ == failure
                    &&& final(self)@.username == old(self)@.username
                },
            },
    {
        let granted: Option<String> = match &reply {
            Reply::Answered { payload: Payload::Decoded(body), .. } => read_pairing_grant(body),
            _ => None,
        };
        match request.resolve(reply) {
            Err(failure) => {
                return Err(failure);
            },
            Ok(_) => {},
        }
        match granted {
            Some(name) => {
                self.username = Some(name);
                Ok(())
            },
            None => Err(
                ApiError::MalformedResponse { reason: String::from_str(INVALID_PAIRING_RESPONSE) },
            ),
        }
    }

    /// Shuts the session down. The caller invalidates the transport, which
    /// answers every exchange still in flight with a failed reply.
    pub fn destroy(&mut self)
        ensures
            final(self)@ == (SessionView { open: false, ..old(self)@ }),
    {
        self.open = false;
    }
}

} // verus!
