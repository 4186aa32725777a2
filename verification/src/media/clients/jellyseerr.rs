//! Request tracking: the server's health and new requests.
use vstd::prelude::*;

use crate::http::{bare_request, HttpReply, HttpRequest, Method, RequestView};
use crate::json::Json;
use crate::media::clients::{map_reply, read_settings, reply_content, settings_pair, Service};
use crate::text::{cat2, opt_str, owned, strip_trailing, without_trailing};
use crate::tool::{answer, ToolError};

verus! {

/// Where the request tracker is and the API key it takes.
#[derive(Debug, PartialEq, Eq)]
pub struct JellyseerrClient {
    base_url: String,
    api_key: String,
}

impl JellyseerrClient {
    /// The base URL, without trailing slashes.
    pub closed spec fn base(&self) -> Seq<char> {
        self.base_url@
    }

    /// The API key.
    pub closed spec fn secret(&self) -> Seq<char> {
        self.api_key@
    }

    /// A client out of the values of `JELLYSEERR_URL` and `JELLYSEERR_API_KEY`.
    pub fn from_env(url: Option<&str>, api_key: Option<&str>) -> (r: Result<JellyseerrClient, ToolError>)
        ensures
            match settings_pair("JELLYSEERR_URL"@, opt_str(url), "JELLYSEERR_API_KEY"@, opt_str(api_key)) {
                Ok(p) => r matches Ok(c) && c.base() == p.0 && c.secret() == p.1,
                Err(e) => r matches Err(f) && f@ == e,
            },
    {
        match read_settings("JELLYSEERR_URL", url, "JELLYSEERR_API_KEY", api_key) {
            Ok(p) => Ok(JellyseerrClient { base_url: p.0, api_key: p.1 }),
            Err(e) => Err(e),
        }
    }

    /// A client out of its parts; trailing slashes of the base URL are dropped.
    pub fn new(base_url: &str, api_key: &str) -> (r: JellyseerrClient)
        ensures
            r.base() == without_trailing(base_url@, '/'),
            r.secret() == api_key@,
    {
        JellyseerrClient { base_url: owned(strip_trailing(base_url, '/')), api_key: owned(api_key) }
    }

    /// A request for `path` that carries the API key.
    pub open spec fn call_view(&self, method: Method, path: Seq<char>) -> RequestView {
        bare_request(method, self.base() + path).header("Accept"@, "application/json"@).header(
            "X-Api-Key"@,
            self.secret(),
        )
    }

    fn call(&self, method: Method, path: &str) -> (r: HttpRequest)
        ensures
            r@ == self.call_view(method, path@),
    {
        HttpRequest::new(method, cat2(self.base_url.as_str(), path)).header(
            "Accept",
            "application/json",
        ).header("X-Api-Key", self.api_key.as_str())
    }

    /// The server's health.
    pub fn status(&self) -> (r: HttpRequest)
        ensures
            r@ == self.call_view(Method::Get, "/api/v1/status"@),
    {
        self.call(Method::Get, "/api/v1/status")
    }

    /// A request to track.
    pub fn create_request(&self, body: Json) -> (r: HttpRequest)
        ensures
            r@ == self.call_view(Method::Post, "/api/v1/request"@).json(body@),
    {
        self.call(Method::Post, "/api/v1/request").json(body)
    }

    /// Reads the reply to one of these requests.
    pub fn reply(reply: &HttpReply) -> (r: Result<Json, ToolError>)
        ensures
            answer(r) == reply_content(Service::MediaRequests, reply@),
    {
        map_reply(Service::MediaRequests, reply)
    }
}

} // verus!
