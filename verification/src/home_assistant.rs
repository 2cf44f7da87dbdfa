//! What is asked of the hub and what it answers, as plain values: the caller
//! sends the requests.

use vstd::prelude::*;
use crate::retry::Backoff;

verus! {

/// An entity of the hub: its attributes and its state.
#[derive(Debug)]
pub struct Entity<T, S> {
    pub attributes: T,
    pub state: S,
}

/// The hub's answer to an event that was sent to it.
#[derive(Debug)]
pub struct EventResult {
    pub message: String,
}

/// How a request is made.
#[derive(Clone, Copy, Debug, PartialEq, Eq, Structural)]
pub enum Method {
    Get,
    Post,
}

/// A request to the hub: the method and the URL.
#[derive(Debug)]
pub struct Request {
    pub method: Method,
    pub url: String,
}

/// The URL that `Url::join` of the `url` crate resolves a reference to
/// against a base URL, all three as text; none where the base is no URL or
/// the reference cannot be resolved against it.
pub uninterp spec fn joined_url(base: Seq<char>, reference: Seq<char>) -> Option<Seq<char>>;

/// Calls `Url::parse` on the base and `Url::join` on what it gives, and takes
/// the result as text. Trusted: the outcome is the one that `joined_url`
/// names for the two texts.
#[verifier::external_body]
pub(crate) fn join_url(base: &str, reference: &str) -> (url: Option<String>)
    ensures
        match url {
            Some(u) => joined_url(base@, reference@) == Some(u@),
            None => joined_url(base@, reference@) is None,
        },
{
    let base = reqwest::Url::parse(base).ok()?;
    Some(String::from(base.join(reference).ok()?))
}

/// Whether a character may stand in the value of a header: any but the
/// control characters, of which the tabulator alone is let through.
pub open spec fn is_header_char(c: char) -> bool {
    (c as u32 >= 32 && c as u32 != 127) || c == '\t'
}

/// Whether a text can be the value of a header.
pub open spec fn is_header_text(text: Seq<char>) -> bool {
    forall|i: int| 0 <= i < text.len() ==> is_header_char(#[trigger] text[i])
}

/// Calls `HeaderValue::from_str` of the `http` crate and tells whether it
/// accepted the text. Trusted: it does so exactly where every byte of the
/// text is at least 32 and not 127, or is a tabulator, which is to say where
/// every character is.
#[verifier::external_body]
pub(crate) fn accepts_header_value(text: &str) -> (accepted: bool)
    ensures
        accepted == is_header_text(text@),
{
    reqwest::header::HeaderValue::from_str(text).is_ok()
}

/// The value of the `Authorization` header for a token: `Bearer`, a space
/// and the token.
pub(crate) fn bearer(token: &str) -> (value: String)
    ensures
        value@ == "Bearer "@ + token@,
{
    path_of("Bearer ", token)
}

/// The text `prefix` followed by `name`.
pub(crate) fn path_of(prefix: &str, name: &str) -> (path: String)
    ensures
        path@ == prefix@ + name@,
{
    let mut path = String::from_str(prefix);
    path.append(name);
    path
}

/// The request that a joined URL makes: none where there is no URL.
pub fn request_to(method: Method, url: Option<String>) -> (request: Option<Request>)
    ensures
        match url {
            Some(u) => request matches Some(r) && r.method == method && r.url@ == u@,
            None => request is None,
        },
{
    match url {
        Some(url) => Some(Request { method, url }),
        None => None,
    }
}

/// What a request with this method for this path on this base is to be.
pub open spec fn requests(
    request: Option<Request>,
    method: Method,
    base: Seq<char>,
    path: Seq<char>,
) -> bool {
    match joined_url(base, path) {
        Some(url) => request matches Some(r) && r.method == method && r.url@ == url,
        None => request is None,
    }
}

/// The hub as this library sees it: its base URL, the token that opens it,
/// and whether requests that fail for a passing reason are made again.
#[derive(Debug)]
pub struct HomeAssistant {
    base: String,
    token: String,
    retry: bool,
}

impl HomeAssistant {
    pub closed spec fn base(&self) -> Seq<char> {
        self.base@
    }

    pub closed spec fn token(&self) -> Seq<char> {
        self.token@
    }

    pub closed spec fn retries(&self) -> bool {
        self.retry
    }

    /// The hub at this base URL; none where the token cannot be sent in a
    /// header.
    pub fn new(base: &str, token: &str, retry: bool) -> (hub: Option<HomeAssistant>)
        ensures
            hub is Some <==> is_header_text("Bearer "@ + token@),
            hub matches Some(h) ==> h.base() == base@ && h.token() == token@ && h.retries()
                == retry,
    {
        let value = bearer(token);
        if accepts_header_value(value.as_str()) {
            Some(
                HomeAssistant {
                    base: String::from_str(base),
                    token: String::from_str(token),
                    retry,
                },
            )
        } else {
            None
        }
    }

    /// How failed requests are made again, where they are: with base 2,
    /// after one to ten seconds, for two minutes at most.
    pub fn retry_policy(&self) -> (policy: Option<Backoff>)
        ensures
            policy is Some <==> self.retries(),
            policy matches Some(p) ==> p@.wf() && p@.base == 2 && p@.min_secs == 1 && p@.max_secs
                == 10 && p@.budget_secs == 120,
    {
        if self.retry {
            Some(Backoff::standard())
        } else {
            None
        }
    }

    /// The value of the `Authorization` header that goes with every request:
    /// `Bearer`, a space and the token.
    pub fn authorization(&self) -> (value: String)
        ensures
            value@ == "Bearer "@ + self.token(),
    {
        bearer(self.token.as_str())
    }

    /// The request for an entity's state and attributes: a `GET` of
    /// `/api/states/` and the entity's name, on the hub's base.
    pub fn get_entity(&self, entity: &str) -> (request: Option<Request>)
        ensures
            requests(request, Method::Get, self.base(), "/api/states/"@ + entity@),
    {
        let path = path_of("/api/states/", entity);
        request_to(Method::Get, join_url(self.base.as_str(), path.as_str()))
    }

    /// The request for a camera's current picture: a `GET` of
    /// `/api/camera_proxy/camera.` and the camera's name, on the hub's base.
    pub fn get_camera_image(&self, camera: &str) -> (request: Option<Request>)
        ensures
            requests(request, Method::Get, self.base(), "/api/camera_proxy/camera."@ + camera@),
    {
        let path = path_of("/api/camera_proxy/camera.", camera);
        request_to(Method::Get, join_url(self.base.as_str(), path.as_str()))
    }

    /// The request that fires a named event on the hub: a `POST` to
    /// `/api/events/` and the event's name, on the hub's base.
    pub fn send_event(&self, event: &str) -> (request: Option<Request>)
        ensures
            requests(request, Method::Post, self.base(), "/api/events/"@ + event@),
    {
        let path = path_of("/api/events/", event);
        request_to(Method::Post, join_url(self.base.as_str(), path.as_str()))
    }
}

} // verus!
