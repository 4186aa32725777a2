//! The media domain: finding, requesting, organizing, recommending and watching.
use vstd::prelude::*;

use crate::json::{no_fields, Fields, Json, JsonView};
use crate::media::clients::setting_view;
use crate::media::clients::jellyseerr::JellyseerrClient;
use crate::media::clients::plex::PlexClient;
use crate::media::clients::prowlarr::ProwlarrClient;
use crate::media::clients::qtor::QtorClient;
use crate::media::clients::radarr::RadarrClient;
use crate::media::clients::sonarr::SonarrClient;
use crate::media::clients::tmdb::TmdbClient;
use crate::media::taste_memory::switch_view;
use crate::registry::{with_tool, InfoView, ToolInfo, ToolRegistry};
use crate::schema::{describe, optional_object, optional_object_view};
use crate::text::opt_str;
use crate::tool::ToolError;

pub mod account_map;
pub mod clients;
pub mod now_playing;
pub mod organize;
pub mod recommend;
pub mod request;
pub mod search;
pub mod surface;
pub mod taste_memory;

verus! {

/// Which services are configured. No service is asked.
#[derive(Debug, Clone, Copy, PartialEq, Eq, Structural)]
pub struct MediaDomainStatus {
    pub radarr: bool,
    pub sonarr: bool,
    pub prowlarr: bool,
    pub qtor: bool,
    pub plex: bool,
    pub jellyseerr: bool,
    pub tmdb: bool,
}

/// One where something holds, and zero where it does not.
pub open spec fn one_if(b: bool) -> int {
    if b {
        1
    } else {
        0
    }
}

/// How many services are configured.
pub open spec fn configured_count(s: MediaDomainStatus) -> int {
    one_if(s.radarr) + one_if(s.sonarr) + one_if(s.prowlarr) + one_if(s.qtor) + one_if(s.plex)
        + one_if(s.jellyseerr) + one_if(s.tmdb)
}

/// The answer that says which services are configured, and how many of how many.
pub open spec fn status_view(s: MediaDomainStatus) -> JsonView {
    JsonView::Object(
        no_fields().push(("radarr"@, JsonView::Bool(s.radarr))).push(
            ("sonarr"@, JsonView::Bool(s.sonarr)),
        ).push(("prowlarr"@, JsonView::Bool(s.prowlarr))).push(
            ("qtor"@, JsonView::Bool(s.qtor)),
        ).push(("plex"@, JsonView::Bool(s.plex))).push(
            ("<media-service>"@, JsonView::Bool(s.jellyseerr)),
        ).push(("tmdb"@, JsonView::Bool(s.tmdb))).push(
            ("configured_count"@, JsonView::Int(configured_count(s))),
        ).push(("total_services"@, JsonView::Int(7))),
    )
}

fn count(b: bool) -> (r: u64)
    ensures
        r == one_if(b),
{
    if b {
        1
    } else {
        0
    }
}

impl MediaDomainStatus {
    /// Takes a service for configured where its client could be built.
    pub fn from_env(
        radarr: &Result<RadarrClient, ToolError>,
        sonarr: &Result<SonarrClient, ToolError>,
        prowlarr: &Result<ProwlarrClient, ToolError>,
        qtor: &Result<QtorClient, ToolError>,
        plex: &Result<PlexClient, ToolError>,
        jellyseerr: &Result<JellyseerrClient, ToolError>,
        tmdb: &Result<TmdbClient, ToolError>,
    ) -> (r: MediaDomainStatus)
        ensures
            r.radarr == (radarr is Ok),
            r.sonarr == (sonarr is Ok),
            r.prowlarr == (prowlarr is Ok),
            r.qtor == (qtor is Ok),
            r.plex == (plex is Ok),
            r.jellyseerr == (jellyseerr is Ok),
            r.tmdb == (tmdb is Ok),
    {
        MediaDomainStatus {
            radarr: radarr.is_ok(),
            sonarr: sonarr.is_ok(),
            prowlarr: prowlarr.is_ok(),
            qtor: qtor.is_ok(),
            plex: plex.is_ok(),
            jellyseerr: jellyseerr.is_ok(),
            tmdb: tmdb.is_ok(),
        }
    }

    /// Says which services are configured as [`status_view`] says.
    pub fn execute(&self) -> (r: Json)
        ensures
            r@ == status_view(*self),
    {
        let configured: u64 = count(self.radarr) + count(self.sonarr) + count(self.prowlarr)
            + count(self.qtor) + count(self.plex) + count(self.jellyseerr) + count(self.tmdb);
        let mut f = Fields::new();
        f.put("radarr", Json::Bool(self.radarr));
        f.put("sonarr", Json::Bool(self.sonarr));
        f.put("prowlarr", Json::Bool(self.prowlarr));
        f.put("qtor", Json::Bool(self.qtor));
        f.put("plex", Json::Bool(self.plex));
        f.put("<media-service>", Json::Bool(self.jellyseerr));
        f.put("tmdb", Json::Bool(self.tmdb));
        f.put("configured_count", Json::uint(configured));
        f.put("total_services", Json::uint(7));
        f.object()
    }
}

// ── registration ────────────────────────────────────────────────────────────

/// What the domain status tool says about itself.
pub open spec fn domain_status_info() -> InfoView {
    InfoView {
        name: "media_domain_status"@,
        description: "Report which media-stack services (Radarr, Sonarr, Prowlarr, qtor, Plex, <media-service>, TMDb) are configured in this environment. Configuration presence only -- does not contact any service."@,
        parameters: optional_object_view(no_fields()),
    }
}

impl MediaDomainStatus {
    /// What this tool says about itself.
    pub fn info() -> (r: ToolInfo)
        ensures
            r@ == domain_status_info(),
    {
        let parameters = optional_object(Fields::new());
        describe(
            "media_domain_status",
            "Report which media-stack services (Radarr, Sonarr, Prowlarr, qtor, Plex, <media-service>, TMDb) are configured in this environment. Configuration presence only -- does not contact any service.",
            parameters,
        )
    }
}

/// The tools of the whole domain, added to those there are.
pub open spec fn domain_tools(tools: Seq<InfoView>, taste_memory: bool) -> Seq<InfoView> {
    let base = with_tool(tools, domain_status_info());
    let searching = with_tool(with_tool(base, search::search_info()), search::status_info());
    let requesting = with_tool(searching, request::request_info());
    let organizing = with_tool(
        with_tool(with_tool(requesting, organize::organize_info()), organize::delete_info()),
        organize::cleanup_info(),
    );
    let recommending = with_tool(
        with_tool(
            with_tool(organizing, recommend::recommend_info()),
            recommend::on_deck_info(),
        ),
        recommend::recently_added_info(),
    );
    with_tool(
        taste_memory::registered(recommending, taste_memory),
        now_playing::now_playing_info(),
    )
}

/// Offers the tools of the whole domain. `taste_memory` is the value of
/// `MEDIA_TASTE_MEMORY_ENABLED`.
pub fn register(registry: &mut ToolRegistry, taste_memory: Option<&str>)
    ensures
        final(registry)@ == domain_tools(
            old(registry)@,
            switch_view(setting_view(opt_str(taste_memory))) == Some(true),
        ),
{
    registry.register_or_replace(MediaDomainStatus::info());
    search::register(registry);
    request::register(registry);
    organize::register(registry);
    recommend::register(registry);
    taste_memory::register(registry, taste_memory);
    now_playing::register(registry);
}

} // verus!
