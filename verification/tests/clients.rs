//! The service clients: what they send, and how they take what comes back.
use terminus::http::{Failure, HttpReply, HttpRequest, Method};
use terminus::json::Json;
use terminus::media::clients::jellyseerr::JellyseerrClient;
use terminus::media::clients::plex::{map_live_reply, PlexClient, PlexSessionsError};
use terminus::media::clients::prowlarr::ProwlarrClient;
use terminus::media::clients::qtor::QtorClient;
use terminus::media::clients::radarr::RadarrClient;
use terminus::media::clients::sonarr::SonarrClient;
use terminus::media::clients::tmdb::TmdbClient;
use terminus::media::clients::{
    body_excerpt, map_library, map_removal, map_reply, setting, url_setting, Service,
};
use terminus::tool::ToolError;

const BASE: &str = "http://service.test";

fn j(text: &str) -> Json {
    Json::parse(text).expect("valid JSON")
}

/// A server's answer.
fn answered(status: u16, body: &str) -> HttpReply {
    HttpReply::Answered { status, body: Ok(body.to_string()) }
}

/// A connection that nobody took.
fn refused() -> HttpReply {
    HttpReply::Failed(Failure {
        text: "error sending request for url (http://127.0.0.1:1/)".to_string(),
        timeout: false,
        connect: true,
        request: true,
    })
}

/// Holds a request to its method and path.
fn assert_sent(request: &HttpRequest, method: Method, path: &str) {
    assert_eq!(request.method, method);
    assert_eq!(request.url, format!("{BASE}{path}"));
}

/// Whether a request carries a parameter.
fn has_param(request: &HttpRequest, name: &str, value: &str) -> bool {
    request.query.iter().any(|(n, v)| n == name && v == value)
}

/// The title of the first item of a listing.
fn first_title(listing: &Json) -> Option<&str> {
    listing.as_array()?.first()?.str_at("title")
}

// ── Radarr ──────────────────────────────────────────────────────────────────

#[test]
fn radarr_from_env_missing_url_is_not_configured() {
    let result = RadarrClient::from_env(None, None);
    assert!(matches!(result, Err(ToolError::NotConfigured(_))));
}

#[test]
fn radarr_from_env_missing_key_is_not_configured() {
    let result = RadarrClient::from_env(Some("http://radarr.test:7878"), None);
    assert!(matches!(result, Err(ToolError::NotConfigured(_))));
}

#[test]
fn radarr_from_env_builds_when_both_set() {
    let client = RadarrClient::from_env(Some("http://radarr.test:7878/"), Some("abc123")).expect("should construct");
    assert_eq!(client, RadarrClient::new("http://radarr.test:7878", "abc123"));
}

#[test]
fn lookup_movie_parses_mocked_200() {
    let client = RadarrClient::new(BASE, "testkey");
    let request = client.lookup_movie("dune");
    assert_sent(&request, Method::Get, "/api/v3/movie/lookup");
    assert!(has_param(&request, "term", "dune"));
    let result = RadarrClient::reply(&answered(200, r#"[{ "title": "Dune", "tmdbId": 438631 }]"#)).unwrap();
    assert_eq!(first_title(&result), Some("Dune"));
}

#[test]
fn radarr_library_parses_mocked_200() {
    let client = RadarrClient::new(BASE, "testkey");
    let request = client.library();
    assert_sent(&request, Method::Get, "/api/v3/movie");
    let result = RadarrClient::reply(&answered(200, r#"[{ "title": "Arrival", "hasFile": true }]"#)).unwrap();
    assert_eq!(first_title(&result), Some("Arrival"));
}

#[test]
fn add_movie_posts_body_and_parses_mocked_201() {
    let text = r#"{ "tmdbId": 438631, "title": "Dune", "qualityProfileId": 1,
        "rootFolderPath": "/movies", "monitored": true, "addOptions": { "searchForMovie": true } }"#;
    let client = RadarrClient::new(BASE, "testkey");
    let request = client.add_movie(j(text));
    assert_sent(&request, Method::Post, "/api/v3/movie");
    assert_eq!(request.body, Some(j(text)));
    let result = RadarrClient::reply(&answered(201, r#"{ "id": 7, "title": "Dune" }"#)).unwrap();
    assert_eq!(result.int_at("id"), Some(7));
}

#[test]
fn add_movie_server_error_maps_to_http() {
    let client = RadarrClient::new(BASE, "testkey");
    assert_sent(&client.add_movie(j("{}")), Method::Post, "/api/v3/movie");
    let result = RadarrClient::reply(&answered(500, r#""#));
    assert!(matches!(result, Err(ToolError::Http(_))));
}

#[test]
fn radarr_not_found_maps_to_not_found_error() {
    let client = RadarrClient::new(BASE, "testkey");
    assert_sent(&client.lookup_movie("nothing"), Method::Get, "/api/v3/movie/lookup");
    let result = RadarrClient::reply(&answered(404, r#""#));
    assert!(matches!(result, Err(ToolError::NotFound(_))));
}

#[test]
fn radarr_server_error_maps_to_http_unavailable() {
    let client = RadarrClient::new(BASE, "testkey");
    assert_sent(&client.lookup_movie("x"), Method::Get, "/api/v3/movie/lookup");
    let result = RadarrClient::reply(&answered(500, r#""#));
    assert!(matches!(result, Err(ToolError::Http(_))));
}

#[test]
fn client_error_maps_to_http_api_error() {
    let client = RadarrClient::new(BASE, "testkey");
    assert_sent(&client.lookup_movie("x"), Method::Get, "/api/v3/movie/lookup");
    let result = RadarrClient::reply(&answered(401, r#"Unauthorized"#));
    match result {
        Err(ToolError::Http(msg)) => assert!(msg.contains("401")),
        other => panic!("expected another error, got {other:?}"),
    }
}

#[test]
fn update_movie_puts_body_and_parses_mocked_200() {
    let client = RadarrClient::new(BASE, "testkey");
    let request = client.update_movie(7, j(r#"{ "id": 7, "monitored": false }"#));
    assert_sent(&request, Method::Put, "/api/v3/movie/7");
    let result = RadarrClient::reply(&answered(200, r#"{ "id": 7, "monitored": false }"#)).unwrap();
    assert_eq!(result.int_at("id"), Some(7));
}

#[test]
fn delete_movie_present_returns_true() {
    let request = RadarrClient::new(BASE, "testkey").delete_movie(7);
    assert_sent(&request, Method::Delete, "/api/v3/movie/7");
    assert!(has_param(&request, "deleteFiles", "true"));
    assert_eq!(map_removal(Service::Radarr, &answered(200, "")), Ok(true));
}

#[test]
fn delete_movie_not_present_returns_false_not_error() {
    let request = RadarrClient::new(BASE, "testkey").delete_movie(999);
    assert_sent(&request, Method::Delete, "/api/v3/movie/999");
    let deleted = map_removal(Service::Radarr, &answered(404, "")).unwrap();
    assert!(!deleted, "a 404 from Radarr must map to Ok(false), not an error");
}

#[test]
fn delete_movie_server_error_maps_to_http() {
    let request = RadarrClient::new(BASE, "testkey").delete_movie(7);
    assert_sent(&request, Method::Delete, "/api/v3/movie/7");
    let result = map_removal(Service::Radarr, &answered(500, ""));
    assert!(matches!(result, Err(ToolError::Http(_))));
}

#[test]
fn unreachable_server_maps_to_http_error_not_panic() {
    let result = RadarrClient::reply(&refused());
    assert!(matches!(result, Err(ToolError::Http(_))));
}

#[test]
fn every_request_carries_the_key() {
    let key = ("X-Api-Key".to_string(), "testkey".to_string());
    let radarr = RadarrClient::new(BASE, "testkey");
    assert!(radarr.library().headers.contains(&key));
    assert!(radarr.delete_movie(-3).headers.contains(&key));
    assert_sent(&radarr.delete_movie(-3), Method::Delete, "/api/v3/movie/-3");
    let sonarr = SonarrClient::new(BASE, "testkey");
    assert!(sonarr.update_series(4, j("{}")).headers.contains(&key));
    assert_sent(&sonarr.update_series(4, j("{}")), Method::Put, "/api/v3/series/4");
    assert_sent(&sonarr.delete_series(4), Method::Delete, "/api/v3/series/4");
    assert_sent(&sonarr.add_series(j("{}")), Method::Post, "/api/v3/series");
}

// ── Sonarr ──────────────────────────────────────────────────────────────────

#[test]
fn sonarr_from_env_missing_url_is_not_configured() {
    let result = SonarrClient::from_env(None, None);
    assert!(matches!(result, Err(ToolError::NotConfigured(_))));
}

#[test]
fn sonarr_from_env_missing_key_is_not_configured() {
    let result = SonarrClient::from_env(Some("http://sonarr.test:8989"), None);
    assert!(matches!(result, Err(ToolError::NotConfigured(_))));
}

#[test]
fn sonarr_from_env_builds_when_both_set() {
    let client = SonarrClient::from_env(Some("http://sonarr.test:8989/"), Some("abc123")).expect("should construct");
    assert_eq!(client, SonarrClient::new("http://sonarr.test:8989", "abc123"));
}

#[test]
fn lookup_series_parses_mocked_200() {
    let client = SonarrClient::new(BASE, "testkey");
    let request = client.lookup_series("foundation");
    assert_sent(&request, Method::Get, "/api/v3/series/lookup");
    assert!(has_param(&request, "term", "foundation"));
    let result = SonarrClient::reply(&answered(200, r#"[{ "title": "Foundation", "tvdbId": 358903 }]"#)).unwrap();
    assert_eq!(first_title(&result), Some("Foundation"));
}

#[test]
fn sonarr_library_parses_mocked_200() {
    let client = SonarrClient::new(BASE, "testkey");
    let request = client.library();
    assert_sent(&request, Method::Get, "/api/v3/series");
    let result = SonarrClient::reply(&answered(200, r#"[{ "title": "Severance", "monitored": true }]"#)).unwrap();
    assert_eq!(first_title(&result), Some("Severance"));
}

#[test]
fn sonarr_not_found_maps_to_not_found_error() {
    let client = SonarrClient::new(BASE, "testkey");
    assert_sent(&client.lookup_series("nothing"), Method::Get, "/api/v3/series/lookup");
    let result = SonarrClient::reply(&answered(404, r#""#));
    assert!(matches!(result, Err(ToolError::NotFound(_))));
}

#[test]
fn sonarr_server_error_maps_to_http_unavailable() {
    let client = SonarrClient::new(BASE, "testkey");
    assert_sent(&client.library(), Method::Get, "/api/v3/series");
    let result = SonarrClient::reply(&answered(503, r#""#));
    assert!(matches!(result, Err(ToolError::Http(_))));
}

// ── media requests ──────────────────────────────────────────────────────────

#[test]
fn jellyseerr_from_env_missing_key_is_not_configured() {
    let result = JellyseerrClient::from_env(Some("http://requests.test:5055"), None);
    assert!(matches!(result, Err(ToolError::NotConfigured(_))));
}

#[test]
fn jellyseerr_status_parses_mocked_200() {
    let client = JellyseerrClient::new(BASE, "testkey");
    let request = client.status();
    assert_sent(&request, Method::Get, "/api/v1/status");
    let result = JellyseerrClient::reply(&answered(200, r#"{ "version": "1.9.2" }"#)).unwrap();
    assert_eq!(result.str_at("version"), Some("1.9.2"));
}

#[test]
fn create_request_posts_and_parses_mocked_201() {
    let client = JellyseerrClient::new(BASE, "testkey");
    let request = client.create_request(j(r#"{ "mediaType": "movie", "mediaId": 438631 }"#));
    assert_sent(&request, Method::Post, "/api/v1/request");
    let result = JellyseerrClient::reply(&answered(201, r#"{ "id": 42, "status": 1 }"#)).unwrap();
    assert_eq!(result.int_at("id"), Some(42));
}

#[test]
fn jellyseerr_server_error_maps_to_http_unavailable() {
    let client = JellyseerrClient::new(BASE, "testkey");
    assert_sent(&client.status(), Method::Get, "/api/v1/status");
    let result = JellyseerrClient::reply(&answered(500, r#""#));
    assert!(matches!(result, Err(ToolError::Http(_))));
}

// ── download client ─────────────────────────────────────────────────────────

#[test]
fn from_env_missing_creds_is_not_configured() {
    let result = QtorClient::from_env(Some("http://qtor.test:8080"), None);
    assert!(matches!(result, Err(ToolError::NotConfigured(_))));
}

#[test]
fn qtor_from_env_builds_when_both_set() {
    let client = QtorClient::from_env(Some("http://qtor.test:8080/"), Some("Bearer abc")).expect("should construct");
    assert_eq!(client, QtorClient::new("http://qtor.test:8080", "Bearer abc"));
}

#[test]
fn qtor_status_parses_mocked_200() {
    let client = QtorClient::new(BASE, "Bearer testtoken");
    let request = client.status();
    assert_sent(&request, Method::Get, "/api/status");
    let result = QtorClient::reply(&answered(200, r#"{ "version": "4.6.0" }"#)).unwrap();
    assert_eq!(result.str_at("version"), Some("4.6.0"));
}

#[test]
fn queue_maps_not_found() {
    let client = QtorClient::new(BASE, "Bearer testtoken");
    assert_sent(&client.queue(), Method::Get, "/api/queue");
    let result = QtorClient::reply(&answered(404, r#""#));
    assert!(matches!(result, Err(ToolError::NotFound(_))));
}

#[test]
fn qtor_server_error_maps_to_http_unavailable() {
    let client = QtorClient::new(BASE, "Bearer testtoken");
    assert_sent(&client.status(), Method::Get, "/api/status");
    let result = QtorClient::reply(&answered(500, r#""#));
    assert!(matches!(result, Err(ToolError::Http(_))));
}

// ── TMDb ────────────────────────────────────────────────────────────────────

#[test]
fn tmdb_from_env_missing_key_is_not_configured() {
    let result = TmdbClient::from_env(None, None);
    assert!(matches!(result, Err(ToolError::NotConfigured(_))));
}

#[test]
fn from_env_defaults_base_url_when_unset() {
    let client = TmdbClient::from_env(Some("abc123"), None).expect("should construct");
    assert_eq!(client, TmdbClient::new("https://api.themoviedb.org/3", "abc123"));
}

#[test]
fn search_multi_parses_mocked_200() {
    let client = TmdbClient::new(BASE, "testkey");
    let request = client.search_multi("dune");
    assert_sent(&request, Method::Get, "/search/multi");
    assert!(has_param(&request, "query", "dune"));
    let reply = answered(200, r#"{ "results": [{ "title": "Dune", "id": 438631 }] }"#);
    let result = TmdbClient::reply(&reply).unwrap();
    assert_eq!(first_title(result.get("results").unwrap()), Some("Dune"));
}

#[test]
fn unauthorized_key_maps_to_http_api_error() {
    let client = TmdbClient::new(BASE, "testkey");
    assert_sent(&client.search_multi("x"), Method::Get, "/search/multi");
    let result = TmdbClient::reply(&answered(401, r#"{ "status_message": "Invalid API key" }"#));
    match result {
        Err(ToolError::Http(msg)) => assert!(msg.contains("401")),
        other => panic!("expected another error, got {other:?}"),
    }
}

#[test]
fn tmdb_server_error_maps_to_http_unavailable() {
    let client = TmdbClient::new(BASE, "testkey");
    assert_sent(&client.search_multi("x"), Method::Get, "/search/multi");
    let result = TmdbClient::reply(&answered(500, r#""#));
    assert!(matches!(result, Err(ToolError::Http(_))));
}

// ── Prowlarr ────────────────────────────────────────────────────────────────

#[test]
fn prowlarr_from_env_missing_url_is_not_configured() {
    let result = ProwlarrClient::from_env(None, None);
    assert!(matches!(result, Err(ToolError::NotConfigured(_))));
}

#[test]
fn prowlarr_from_env_builds_when_both_set() {
    let client = ProwlarrClient::from_env(Some("http://prowlarr.test:9696/"), Some("abc123")).expect("should construct");
    assert_eq!(client, ProwlarrClient::new("http://prowlarr.test:9696", "abc123"));
}

#[test]
fn search_parses_mocked_200() {
    let client = ProwlarrClient::new(BASE, "testkey");
    let request = client.search("dune");
    assert_sent(&request, Method::Get, "/api/v1/search");
    assert!(has_param(&request, "query", "dune"));
    let result = ProwlarrClient::reply(&answered(200, r#"[{ "title": "Dune.2021.2160p" }]"#)).unwrap();
    assert_eq!(first_title(&result), Some("Dune.2021.2160p"));
}

#[test]
fn indexers_maps_server_error() {
    let client = ProwlarrClient::new(BASE, "testkey");
    assert_sent(&client.indexers(), Method::Get, "/api/v1/indexer");
    let result = ProwlarrClient::reply(&answered(502, r#""#));
    assert!(matches!(result, Err(ToolError::Http(_))));
}

#[test]
fn unauthorized_maps_to_http_api_error() {
    let client = ProwlarrClient::new(BASE, "testkey");
    assert_sent(&client.search("x"), Method::Get, "/api/v1/search");
    let result = ProwlarrClient::reply(&answered(401, r#""#));
    assert!(matches!(result, Err(ToolError::Http(_))));
}

// ── Plex ────────────────────────────────────────────────────────────────────

#[test]
fn from_env_missing_token_is_not_configured() {
    let result = PlexClient::from_env(Some("http://plex.test:32400"), None);
    assert!(matches!(result, Err(ToolError::NotConfigured(_))));
}

#[test]
fn plex_from_env_builds_when_both_set() {
    let client = PlexClient::from_env(Some("http://plex.test:32400/"), Some("abc123")).expect("should construct");
    assert_eq!(client, PlexClient::new("http://plex.test:32400", "abc123"));
}

/// The first entry of a container's list.
fn first_metadata(raw: &Json) -> Option<&Json> {
    raw.get("MediaContainer")?.array_at("Metadata")?.first()
}

#[test]
fn library_sections_parses_mocked_200() {
    let client = PlexClient::new(BASE, "testtoken");
    let request = client.library_sections();
    assert_sent(&request, Method::Get, "/library/sections");
    let result = PlexClient::reply(&answered(200, r#"{ "MediaContainer": { "size": 2 } }"#)).unwrap();
    assert_eq!(result.get("MediaContainer").unwrap().int_at("size"), Some(2));
}

#[test]
fn history_maps_server_error_to_unavailable() {
    let client = PlexClient::new(BASE, "testtoken");
    assert_sent(&client.history(), Method::Get, "/status/sessions/history/all");
    let result = PlexClient::reply(&answered(503, r#""#));
    assert!(matches!(result, Err(ToolError::Http(_))));
}

#[test]
fn on_deck_parses_mocked_200() {
    let client = PlexClient::new(BASE, "testtoken");
    let request = client.on_deck();
    assert_sent(&request, Method::Get, "/library/onDeck");
    let result = PlexClient::reply(&answered(200, r#"{ "MediaContainer": { "Metadata": [{ "title": "Foundation", "viewOffset": 120000 }] } }"#)).unwrap();
    assert_eq!(first_metadata(&result).unwrap().str_at("title"), Some("Foundation"));
}

#[test]
fn recently_added_parses_mocked_200() {
    let client = PlexClient::new(BASE, "testtoken");
    let request = client.recently_added();
    assert_sent(&request, Method::Get, "/library/recentlyAdded");
    let result = PlexClient::reply(&answered(200, r#"{ "MediaContainer": { "Metadata": [{ "title": "New Arrival" }] } }"#)).unwrap();
    assert_eq!(first_metadata(&result).unwrap().str_at("title"), Some("New Arrival"));
}

#[test]
fn on_deck_maps_server_error_to_unavailable() {
    let client = PlexClient::new(BASE, "testtoken");
    assert_sent(&client.on_deck(), Method::Get, "/library/onDeck");
    let result = PlexClient::reply(&answered(503, r#""#));
    assert!(matches!(result, Err(ToolError::Http(_))));
}

#[test]
fn unauthorized_maps_to_http_api_error_not_panic() {
    let client = PlexClient::new(BASE, "testtoken");
    assert_sent(&client.library_sections(), Method::Get, "/library/sections");
    let result = PlexClient::reply(&answered(401, r#""#));
    assert!(matches!(result, Err(ToolError::Http(_))));
}

#[test]
fn sessions_zero_is_ok_not_an_error() {
    let client = PlexClient::new(BASE, "testtoken");
    assert_sent(&client.sessions(), Method::Get, "/status/sessions");
    let raw = map_live_reply(&answered(200, r#"{ "MediaContainer": { "size": 0 } }"#))
        .expect("zero sessions is an answer, not a failure");
    assert_eq!(raw.get("MediaContainer").unwrap().int_at("size"), Some(0));
}

#[test]
fn sessions_401_is_token_rejected_not_unreachable() {
    let body = "<html><head><title>Unauthorized</title></head><body></body></html>";
    let err = map_live_reply(&answered(401, body)).unwrap_err();
    assert_eq!(err.kind(), "unauthorized");
    assert!(matches!(err, PlexSessionsError::TokenRejected(_)));
}

#[test]
fn sessions_5xx_is_unreachable_not_token_rejected() {
    let err = map_live_reply(&answered(503, "")).unwrap_err();
    assert_eq!(err.kind(), "unreachable");
}

#[test]
fn sessions_connection_refused_is_unreachable() {
    let err = map_live_reply(&refused()).unwrap_err();
    assert_eq!(err.kind(), "unreachable");
    assert!(!err.detail().contains("127.0.0.1"));
}

#[test]
fn sessions_non_json_200_is_malformed_not_zero_sessions() {
    let err = map_live_reply(&answered(200, "<html></html>")).unwrap_err();
    assert_eq!(err.kind(), "malformed");
}

#[test]
fn identity_parses_mocked_200() {
    let client = PlexClient::new(BASE, "testtoken");
    assert_sent(&client.identity(), Method::Get, "/identity");
    let reply = answered(
        200,
        r#"{ "MediaContainer": { "machineIdentifier": "MACHINE_ID_PLACEHOLDER",
             "version": "1.42.0.0" } }"#,
    );
    let raw = map_live_reply(&reply).unwrap();
    assert_eq!(raw.get("MediaContainer").unwrap().str_at("version"), Some("1.42.0.0"));
}

#[test]
fn sessions_error_kinds_are_all_distinct() {
    let kinds = [
        PlexSessionsError::Unreachable("a".into()).kind(),
        PlexSessionsError::TokenRejected("b".into()).kind(),
        PlexSessionsError::Malformed("c".into()).kind(),
    ];
    let unique: std::collections::HashSet<_> = kinds.iter().collect();
    assert_eq!(unique.len(), 3, "the three failure kinds must never collapse");
}

// ── what all clients share ──────────────────────────────────────────────────

#[test]
fn settings_are_trimmed_and_blank_ones_are_unset() {
    assert_eq!(setting(Some("  key ")), Some("key".to_string()));
    assert_eq!(setting(Some("   ")), None);
    assert_eq!(setting(None), None);
    assert_eq!(url_setting(Some(" http://a.test/// ")), Some("http://a.test".to_string()));
    assert_eq!(url_setting(Some("")), None);
}

#[test]
fn a_body_that_is_no_json_is_an_http_error() {
    let result = map_reply(Service::Tmdb, &answered(200, "not json"));
    assert!(matches!(result, Err(ToolError::Http(_))));
}

#[test]
fn a_status_is_named_in_full() {
    match map_reply(Service::Radarr, &answered(418, "short and stout")) {
        Err(ToolError::Http(msg)) => {
            assert!(msg.contains("418 I'm a teapot"));
            assert!(msg.contains("short and stout"));
        }
        other => panic!("expected an HTTP error, got {other:?}"),
    }
}

#[test]
fn an_excerpt_is_at_most_two_hundred_characters() {
    let long: String = "\u{e9}".repeat(450);
    let body = Ok(long);
    assert_eq!(body_excerpt(&body), "\u{e9}".repeat(200));
    assert_eq!(body_excerpt(&Err("connection reset".to_string())), "");
}

#[test]
fn an_unreadable_listing_counts_as_empty() {
    assert!(map_library(Service::Radarr, &answered(500, "")).is_empty());
    assert!(map_library(Service::Radarr, &answered(200, "{}")).is_empty());
    assert_eq!(map_library(Service::Radarr, &answered(200, "[1, 2]")).len(), 2);
}
