//! TMDb: title resolution.
use vstd::prelude::*;

use crate::http::{bare_request, HttpReply, HttpRequest, Method, RequestView};
use crate::json::Json;
use crate::media::clients::{
    map_reply, reply_content, setting, setting_view, url_setting, url_setting_view, Service,
};
use crate::text::{cat2, opt_str, owned, strip_trailing, without_trailing};
use crate::tool::{answer, ErrorView, ToolError};

verus! {

/// Where TMDb is and the API key it takes.
#[derive(Debug, PartialEq, Eq)]
pub struct TmdbClient {
    base_url: String,
    api_key: String,
}

impl TmdbClient {
    /// The base URL, without trailing slashes.
    pub closed spec fn base(&self) -> Seq<char> {
        self.base_url@
    }

    /// The API key.
    pub closed spec fn secret(&self) -> Seq<char> {
        self.api_key@
    }

    /// A client out of the values of `TMDB_API_KEY` and, where it is set, `TMDB_API_URL`.
    pub fn from_env(api_key: Option<&str>, url: Option<&str>) -> (r: Result<TmdbClient, ToolError>)
        ensures
            match setting_view(opt_str(api_key)) {
                None => r matches Err(f) && f@ == ErrorView::NotConfigured("TMDB_API_KEY not set"@),
                Some(key) => r matches Ok(c) && c.secret() == key && c.base() == (
                match url_setting_view(opt_str(url)) {
                    Some(base) => base,
                    None => "https://api.themoviedb.org/3"@,
                }),
            },
    {
        let key = match setting(api_key) {
            None => {
                return Err(ToolError::not_configured("TMDB_API_KEY not set"));
            },
            Some(k) => k,
        };
        let base_url = match url_setting(url) {
            Some(base) => base,
            None => owned("https://api.themoviedb.org/3"),
        };
        Ok(TmdbClient { base_url, api_key: key })
    }

    /// A client out of its parts; trailing slashes of the base URL are dropped.
    pub fn new(base_url: &str, api_key: &str) -> (r: TmdbClient)
        ensures
            r.base() == without_trailing(base_url@, '/'),
            r.secret() == api_key@,
    {
        TmdbClient { base_url: owned(strip_trailing(base_url, '/')), api_key: owned(api_key) }
    }

    /// A combined search over films, series and people.
    pub open spec fn search_view(&self, query: Seq<char>) -> RequestView {
        bare_request(Method::Get, self.base() + "/search/multi"@).param("query"@, query).param(
            "api_key"@,
            self.secret(),
        )
    }

    /// A combined search over films, series and people.
    pub fn search_multi(&self, query: &str) -> (r: HttpRequest)
        ensures
            r@ == self.search_view(query@),
    {
        HttpRequest::new(Method::Get, cat2(self.base_url.as_str(), "/search/multi")).param(
            "query",
            query,
        ).param("api_key", self.api_key.as_str())
    }

    /// Reads the reply to one of these requests.
    pub fn reply(reply: &HttpReply) -> (r: Result<Json, ToolError>)
        ensures
            answer(r) == reply_content(Service::Tmdb, reply@),
    {
        map_reply(Service::Tmdb, reply)
    }
}

} // verus!
