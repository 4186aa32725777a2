//! Sonarr: the series library and title lookups.
use vstd::prelude::*;

use crate::http::{bare_request, HttpReply, HttpRequest, Method, RequestView};
use crate::json::Json;
use crate::media::clients::{map_reply, read_settings, reply_content, settings_pair, Service};
use crate::text::{cat2, dec, fmt_int, opt_str, owned, strip_trailing, without_trailing};
use crate::tool::{answer, ToolError};

verus! {

/// Where Sonarr is and the API key it takes.
#[derive(Debug, PartialEq, Eq)]
pub struct SonarrClient {
    base_url: String,
    api_key: String,
}

impl SonarrClient {
    /// The base URL, without trailing slashes.
    pub closed spec fn base(&self) -> Seq<char> {
        self.base_url@
    }

    /// The API key.
    pub closed spec fn secret(&self) -> Seq<char> {
        self.api_key@
    }

    /// A client out of the values of `SONARR_URL` and `SONARR_API_KEY`.
    pub fn from_env(url: Option<&str>, api_key: Option<&str>) -> (r: Result<SonarrClient, ToolError>)
        ensures
            match settings_pair("SONARR_URL"@, opt_str(url), "SONARR_API_KEY"@, opt_str(api_key)) {
                Ok(p) => r matches Ok(c) && c.base() == p.0 && c.secret() == p.1,
                Err(e) => r matches Err(f) && f@ == e,
            },
    {
        match read_settings("SONARR_URL", url, "SONARR_API_KEY", api_key) {
            Ok(p) => Ok(SonarrClient { base_url: p.0, api_key: p.1 }),
            Err(e) => Err(e),
        }
    }

    /// A client out of its parts; trailing slashes of the base URL are dropped.
    pub fn new(base_url: &str, api_key: &str) -> (r: SonarrClient)
        ensures
            r.base() == without_trailing(base_url@, '/'),
            r.secret() == api_key@,
    {
        SonarrClient { base_url: owned(strip_trailing(base_url, '/')), api_key: owned(api_key) }
    }

    /// A request for `path` that carries the API key.
    pub open spec fn call_view(&self, method: Method, path: Seq<char>) -> RequestView {
        bare_request(method, self.base() + path).header("X-Api-Key"@, self.secret())
    }

    fn call(&self, method: Method, path: &str) -> (r: HttpRequest)
        ensures
            r@ == self.call_view(method, path@),
    {
        HttpRequest::new(method, cat2(self.base_url.as_str(), path)).header("X-Api-Key", self.api_key.as_str())
    }

    /// Candidate series for a title.
    pub fn lookup_series(&self, term: &str) -> (r: HttpRequest)
        ensures
            r@ == self.call_view(Method::Get, "/api/v3/series/lookup"@).param("term"@, term@),
    {
        self.call(Method::Get, "/api/v3/series/lookup").param("term", term)
    }

    /// The current library.
    pub fn library(&self) -> (r: HttpRequest)
        ensures
            r@ == self.call_view(Method::Get, "/api/v3/series"@),
    {
        self.call(Method::Get, "/api/v3/series")
    }

    /// Adds a series to the library.
    pub fn add_series(&self, body: Json) -> (r: HttpRequest)
        ensures
            r@ == self.call_view(Method::Post, "/api/v3/series"@).json(body@),
    {
        self.call(Method::Post, "/api/v3/series").json(body)
    }

    /// Replaces the series resource with the given id.
    pub fn update_series(&self, id: i64, body: Json) -> (r: HttpRequest)
        ensures
            r@ == self.call_view(Method::Put, "/api/v3/series/"@ + dec(id as int)).json(body@),
    {
        let number = fmt_int(id as i128);
        let path = cat2("/api/v3/series/", number.as_str());
        self.call(Method::Put, path.as_str()).json(body)
    }

    /// Removes the series with the given id from the library and its files from disk.
    pub fn delete_series(&self, id: i64) -> (r: HttpRequest)
        ensures
            r@ == self.call_view(Method::Delete, "/api/v3/series/"@ + dec(id as int)).param(
                "deleteFiles"@,
                "true"@,
            ).param("addImportExclusion"@, "false"@),
    {
        let number = fmt_int(id as i128);
        let path = cat2("/api/v3/series/", number.as_str());
        self.call(Method::Delete, path.as_str()).param("deleteFiles", "true").param(
            "addImportExclusion",
            "false",
        )
    }

    /// Reads the reply to one of these requests.
    pub fn reply(reply: &HttpReply) -> (r: Result<Json, ToolError>)
        ensures
            answer(r) == reply_content(Service::Sonarr, reply@),
    {
        map_reply(Service::Sonarr, reply)
    }
}

} // verus!
