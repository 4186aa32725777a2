//! The download client: its health and its queue.
use vstd::prelude::*;

use crate::http::{bare_request, HttpReply, HttpRequest, Method, RequestView};
use crate::json::Json;
use crate::media::clients::{map_reply, read_settings, reply_content, settings_pair, Service};
use crate::text::{cat2, opt_str, owned, strip_trailing, without_trailing};
use crate::tool::{answer, ToolError};

verus! {

/// Where the download client is and the credential it takes.
#[derive(Debug, PartialEq, Eq)]
pub struct QtorClient {
    base_url: String,
    creds: String,
}

impl QtorClient {
    /// The base URL, without trailing slashes.
    pub closed spec fn base(&self) -> Seq<char> {
        self.base_url@
    }

    /// The credential.
    pub closed spec fn secret(&self) -> Seq<char> {
        self.creds@
    }

    /// A client out of the values of `QTOR_URL` and `QTOR_CREDS`.
    pub fn from_env(url: Option<&str>, creds: Option<&str>) -> (r: Result<QtorClient, ToolError>)
        ensures
            match settings_pair("QTOR_URL"@, opt_str(url), "QTOR_CREDS"@, opt_str(creds)) {
                Ok(p) => r matches Ok(c) && c.base() == p.0 && c.secret() == p.1,
                Err(e) => r matches Err(f) && f@ == e,
            },
    {
        match read_settings("QTOR_URL", url, "QTOR_CREDS", creds) {
            Ok(p) => Ok(QtorClient { base_url: p.0, creds: p.1 }),
            Err(e) => Err(e),
        }
    }

    /// A client out of its parts; trailing slashes of the base URL are dropped.
    pub fn new(base_url: &str, creds: &str) -> (r: QtorClient)
        ensures
            r.base() == without_trailing(base_url@, '/'),
            r.secret() == creds@,
    {
        QtorClient { base_url: owned(strip_trailing(base_url, '/')), creds: owned(creds) }
    }

    /// A request for `path` that carries the credential.
    pub open spec fn call_view(&self, method: Method, path: Seq<char>) -> RequestView {
        bare_request(method, self.base() + path).header("Authorization"@, self.secret())
    }

    fn call(&self, method: Method, path: &str) -> (r: HttpRequest)
        ensures
            r@ == self.call_view(method, path@),
    {
        HttpRequest::new(method, cat2(self.base_url.as_str(), path)).header("Authorization", self.creds.as_str())
    }

    /// Health and version.
    pub fn status(&self) -> (r: HttpRequest)
        ensures
            r@ == self.call_view(Method::Get, "/api/status"@),
    {
        self.call(Method::Get, "/api/status")
    }

    /// The current download queue.
    pub fn queue(&self) -> (r: HttpRequest)
        ensures
            r@ == self.call_view(Method::Get, "/api/queue"@),
    {
        self.call(Method::Get, "/api/queue")
    }

    /// Reads the reply to one of these requests.
    pub fn reply(reply: &HttpReply) -> (r: Result<Json, ToolError>)
        ensures
            answer(r) == reply_content(Service::DownloadClient, reply@),
    {
        map_reply(Service::DownloadClient, reply)
    }
}

} // verus!
