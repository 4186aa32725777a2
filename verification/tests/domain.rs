//! The media domain as a whole: its tools, its account map and what must not be cached.
use terminus::json::Json;
use terminus::media::account_map::{account_for_principal, lookup, lookup_in, plex_token_account};
use terminus::media::clients::jellyseerr::JellyseerrClient;
use terminus::media::clients::plex::PlexClient;
use terminus::media::clients::prowlarr::ProwlarrClient;
use terminus::media::clients::qtor::QtorClient;
use terminus::media::clients::radarr::RadarrClient;
use terminus::media::clients::sonarr::SonarrClient;
use terminus::media::clients::tmdb::TmdbClient;
use terminus::media::{register, MediaDomainStatus};
use terminus::registry::{ToolInfo, ToolRegistry};
use terminus::tool::CallerContext;
use terminus::tool_cache::is_never_cached;

#[test]
fn register_adds_media_domain_status_tool() {
    let mut reg = ToolRegistry::new();
    register(&mut reg, None);
    assert!(reg.contains("media_domain_status"));
}

#[test]
fn every_tool_of_the_domain_is_offered_once() {
    let mut reg = ToolRegistry::new();
    register(&mut reg, None);
    let names: Vec<&str> = reg.list().iter().map(|t| t.name.as_str()).collect();
    assert_eq!(
        names,
        vec![
            "media_domain_status",
            "media_search",
            "media_status",
            "media_request",
            "media_organize",
            "media_delete",
            "media_cleanup",
            "media_recommend",
            "media_on_deck",
            "media_recently_added",
            "media_now_playing",
        ]
    );
    // A second registration replaces, and never offers a tool twice.
    register(&mut reg, Some("on"));
    let names: Vec<&str> = reg.list().iter().map(|t| t.name.as_str()).collect();
    assert_eq!(names.len(), 12);
    assert!(reg.contains("media_taste_feedback"));
}

fn status_of(
    radarr: (Option<&str>, Option<&str>),
    tmdb: (Option<&str>, Option<&str>),
) -> Json {
    MediaDomainStatus::from_env(
        &RadarrClient::from_env(radarr.0, radarr.1),
        &SonarrClient::from_env(None, None),
        &ProwlarrClient::from_env(None, None),
        &QtorClient::from_env(None, None),
        &PlexClient::from_env(None, None),
        &JellyseerrClient::from_env(None, None),
        &TmdbClient::from_env(tmdb.0, tmdb.1),
    )
    .execute()
}

#[test]
fn status_reports_all_unconfigured_without_panicking() {
    let parsed = status_of((None, None), (None, None));
    assert_eq!(parsed.bool_at("radarr"), Some(false));
    assert_eq!(parsed.int_at("configured_count"), Some(0));
    assert_eq!(parsed.int_at("total_services"), Some(7));
}

#[test]
fn status_reports_configured_services_independently() {
    let parsed = status_of((Some("http://radarr.test:7878"), Some("k")), (Some("k2"), None));
    assert_eq!(parsed.bool_at("radarr"), Some(true));
    assert_eq!(parsed.bool_at("tmdb"), Some(true));
    assert_eq!(parsed.bool_at("plex"), Some(false));
    assert_eq!(parsed.int_at("configured_count"), Some(2));
}

#[test]
fn status_counts_every_service() {
    let all = MediaDomainStatus {
        radarr: true,
        sonarr: true,
        prowlarr: true,
        qtor: true,
        plex: true,
        jellyseerr: true,
        tmdb: true,
    };
    assert_eq!(all.execute().int_at("configured_count"), Some(7));
    assert_eq!(
        all.execute().render(),
        "{\"<media-service>\":true,\"configured_count\":7,\"plex\":true,\"prowlarr\":true,\
         \"qtor\":true,\"radarr\":true,\"sonarr\":true,\"tmdb\":true,\"total_services\":7}"
    );
}

#[test]
fn mod_tool_metadata_is_valid() {
    let tool = MediaDomainStatus::info();
    assert_eq!(tool.name, "media_domain_status");
    assert!(!tool.description.is_empty());
    assert_eq!(tool.parameters.str_at("type"), Some("object"));
}

#[test]
fn maps_a_named_principal_to_its_account() {
    let raw = r#"{"principal-a":"11","principal-b":"22"}"#;
    assert_eq!(lookup(Some(raw), "principal-a").as_deref(), Some("11"));
    assert_eq!(lookup(Some(raw), "principal-b").as_deref(), Some("22"));
}

#[test]
fn an_unnamed_principal_is_unmapped_not_defaulted() {
    let raw = r#"{"principal-a":"11"}"#;
    assert_eq!(lookup(Some(raw), "guest-principal"), None);
}

#[test]
fn unset_or_blank_map_is_unmapped() {
    assert_eq!(lookup(None, "principal-a"), None);
    assert_eq!(lookup(Some("   "), "principal-a"), None);
}

#[test]
fn malformed_map_fails_closed_for_everyone() {
    assert_eq!(lookup(Some("principal-a=11"), "principal-a"), None);
    assert_eq!(lookup(Some(r#"["principal-a"]"#), "principal-a"), None);
    assert_eq!(lookup(Some(r#""principal-a""#), "principal-a"), None);
    assert_eq!(lookup(Some(r#"{"principal-a":11}"#), "principal-a"), None);
    assert_eq!(lookup(Some(r#"{"principal-a":""}"#), "principal-a"), None);
    assert_eq!(lookup(Some(r#"{"principal-a":"  "}"#), "principal-a"), None);
}

#[test]
fn account_names_are_trimmed() {
    assert_eq!(account_for_principal(Some(r#"{"a":" 11 "}"#), "a").as_deref(), Some("11"));
    assert_eq!(plex_token_account(Some("  acct-1 ")).as_deref(), Some("acct-1"));
    assert_eq!(plex_token_account(Some("   ")), None);
    assert_eq!(plex_token_account(None), None);
}

#[test]
fn a_map_in_hand_is_read_as_one_in_text() {
    let map = Json::parse(r#"{"a":" 11 ","b":"7"}"#).unwrap();
    assert_eq!(lookup_in(&map, "a").as_deref(), Some("11"));
    assert_eq!(lookup_in(&map, "b").as_deref(), Some("7"));
    assert_eq!(lookup_in(&map, "c"), None);
}

#[test]
fn one_mistake_in_a_map_takes_every_account_away() {
    for text in [
        r#"{"principal-a":11,"principal-b":"22"}"#,
        r#"{"principal-a":"  ","principal-b":"22"}"#,
        r#"{"principal-a":null,"principal-b":"22"}"#,
        r#"{"principal-b":"22","principal-a":["11"]}"#,
    ] {
        assert_eq!(lookup(Some(text), "principal-b"), None, "{text}");
        assert_eq!(lookup(Some(text), "principal-a"), None, "{text}");
        assert_eq!(lookup_in(&Json::parse(text).unwrap(), "principal-b"), None, "{text}");
    }
    assert_eq!(
        lookup(Some(r#"{"principal-a":"11","principal-b":"22"}"#), "principal-b").as_deref(),
        Some("22")
    );
    assert_eq!(lookup_in(&Json::text("22"), "principal-b"), None);
}

#[test]
fn an_unbelieved_caller_stands_below_the_default() {
    let refused = CallerContext::unidentified();
    assert!(!refused.is_identified());
    assert!(!refused.may_infer_from_calendar() && !refused.may_infer_from_routine());
    assert_eq!(refused.media_account(), None);
    assert!(CallerContext::default().is_identified());
    assert!(CallerContext::untrusted().is_identified());
    assert!(CallerContext::minted(true, false, Some("11")).is_identified());
}

#[test]
fn a_tool_replaces_one_of_its_name_in_place() {
    let tool = |name: &str, description: &str| ToolInfo {
        name: name.to_string(),
        description: description.to_string(),
        parameters: Json::Null,
    };
    let mut reg = ToolRegistry::new();
    reg.register_or_replace(tool("a", "first"));
    reg.register_or_replace(tool("b", "second"));
    reg.register_or_replace(tool("a", "third"));
    assert_eq!(reg.list().len(), 2);
    assert_eq!(reg.list().iter().filter(|t| t.name == "a").count(), 1);
    assert!(reg.list().iter().any(|t| t.name == "a" && t.description == "third"));
    assert!(!reg.contains("c"));
}

#[test]
fn the_live_tool_is_never_served_from_cache() {
    assert!(is_never_cached(terminus::media::now_playing::TOOL_NAME));
    assert!(is_never_cached("media_now_playing"));
    assert!(is_never_cached("weather_alerts"));
    assert!(is_never_cached("severe_outlook"));
    assert!(is_never_cached("storm_warnings"));
    assert!(!is_never_cached("media_recommend"));
}

#[test]
fn the_gateway_mints_the_mapped_account_and_only_for_a_mapped_principal() {
    let raw = Some(r#"{"principal-operator":"acct-operator"}"#);
    let minted = |principal: &str| {
        CallerContext::minted(false, false, account_for_principal(raw, principal).as_deref())
    };
    assert_eq!(minted("principal-operator").media_account(), Some("acct-operator"));
    assert_eq!(minted("guest-principal").media_account(), None);
    assert_eq!(CallerContext::default().media_account(), None);
}
