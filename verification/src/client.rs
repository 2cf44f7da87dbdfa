//! The hub's three requests without retry: the sun, a camera's picture, an
//! event.

use vstd::prelude::*;
use crate::home_assistant::{
    accepts_header_value, bearer, is_header_text, join_url, path_of, request_to, requests, Method,
    Request,
};

verus! {

/// The hub by its base URL and the token that opens it.
#[derive(Debug)]
pub struct Client {
    base: String,
    token: String,
}

impl Client {
    pub closed spec fn base(&self) -> Seq<char> {
        self.base@
    }

    pub closed spec fn token(&self) -> Seq<char> {
        self.token@
    }

    /// The hub at this base URL; none where the token cannot be sent in a
    /// header.
    pub fn new(base: &str, token: &str) -> (client: Option<Client>)
        ensures
            client is Some <==> is_header_text("Bearer "@ + token@),
            client matches Some(c) ==> c.base() == base@ && c.token() == token@,
    {
        let value = bearer(token);
        if accepts_header_value(value.as_str()) {
            Some(Client { base: String::from_str(base), token: String::from_str(token) })
        } else {
            None
        }
    }

    /// The value of the `Authorization` header that goes with every request:
    /// `Bearer`, a space and the token.
    pub fn authorization(&self) -> (value: String)
        ensures
            value@ == "Bearer "@ + self.token(),
    {
        bearer(self.token.as_str())
    }

    /// The request for the sun's state and attributes: a `GET` of
    /// `/api/states/sun.sun` on the hub's base.
    pub fn get_sun(&self) -> (request: Option<Request>)
        ensures
            requests(request, Method::Get, self.base(), "/api/states/sun.sun"@),
    {
        request_to(Method::Get, join_url(self.base.as_str(), "/api/states/sun.sun"))
    }

    /// The request for a camera's current picture: a `GET` of
    /// `/api/camera_proxy/camera.` and the camera's name, on the hub's base.
    pub fn get_image(&self, camera: &str) -> (request: Option<Request>)
        ensures
            requests(request, Method::Get, self.base(), "/api/camera_proxy/camera."@ + camera@),
    {
        let path = path_of("/api/camera_proxy/camera.", camera);
        request_to(Method::Get, join_url(self.base.as_str(), path.as_str()))
    }

    /// The request that fires a named event on the hub: a `POST` to
    /// `/api/events/` and the event's name, on the hub's base.
    pub fn post_event(&self, event: &str) -> (request: Option<Request>)
        ensures
            requests(request, Method::Post, self.base(), "/api/events/"@ + event@),
    {
        let path = path_of("/api/events/", event);
        request_to(Method::Post, join_url(self.base.as_str(), path.as_str()))
    }
}

} // verus!
