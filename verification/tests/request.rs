//! Requests: how they are tiered, and what is asked of a service on their behalf.
use terminus::http::{HttpReply, HttpRequest, Method};
use terminus::json::Json;
use terminus::media::clients::jellyseerr::JellyseerrClient;
use terminus::media::clients::radarr::RadarrClient;
use terminus::media::clients::sonarr::SonarrClient;
use terminus::media::request::{
    already_present, build_response, classify_request, estimate_size_bytes, item_count_of, plan,
    quality_profile_id, root_folder_path, size_for_hint, AddSettings, MediaRequest, MutationTier,
    RequestKind, GB, OVERSIZED_THRESHOLD_BYTES,
};
use terminus::tool::{Step, ToolError};

fn j(text: &str) -> Json {
    Json::parse(text).expect("valid JSON")
}

/// Sizes as they are written: gigabytes with one decimal.
fn gigabytes(bytes: u64) -> String {
    format!("{:.1}", bytes as f64 / 1_073_741_824.0)
}

fn tool_with(radarr: bool, sonarr: bool) -> MediaRequest {
    MediaRequest {
        radarr: if radarr { Some(RadarrClient::new("http://radarr.test", "k")) } else { None },
        sonarr: if sonarr { Some(SonarrClient::new("http://sonarr.test", "k")) } else { None },
        jellyseerr: None,
    }
}

/// A server that answers a listing and an addition, and remembers what it was asked.
struct Server {
    library: &'static str,
    added: (u16, &'static str),
    seen: Vec<HttpRequest>,
}

impl Server {
    fn new(library: &'static str, added: (u16, &'static str)) -> Server {
        Server { library, added, seen: Vec::new() }
    }

    fn send(&mut self, request: HttpRequest) -> HttpReply {
        let (status, body) = if request.method == Method::Post {
            self.added
        } else {
            (200, self.library)
        };
        self.seen.push(request);
        HttpReply::Answered { status, body: Ok(body.to_string()) }
    }

    fn additions(&self) -> usize {
        self.seen.iter().filter(|r| r.method == Method::Post).count()
    }
}

/// Runs a request to its end.
fn run(
    tool: &MediaRequest,
    args: &str,
    settings: &AddSettings,
    server: &mut Server,
) -> Result<Json, ToolError> {
    let args = j(args);
    let size = gigabytes(plan(&args).map(|p| p.size).unwrap_or(0));
    let mut replies = Vec::new();
    loop {
        match tool.execute(&args, settings, &size, &replies) {
            Step::Done(answer, _) => return Ok(answer),
            Step::Failed(e, _) => return Err(e),
            Step::Send(request) => replies.push(server.send(request)),
        }
    }
}

fn settings(profile: &str, folder: &str) -> AddSettings {
    AddSettings {
        quality_profile: Some(profile.to_string()),
        root_folder: Some(folder.to_string()),
    }
}

fn no_settings() -> AddSettings {
    AddSettings { quality_profile: None, root_folder: None }
}

fn structured(answer: &Json) -> &Json {
    answer.get("structured").expect("structured part")
}

fn summary(answer: &Json) -> &str {
    answer.str_at("summary").expect("summary")
}

// ── tiers ───────────────────────────────────────────────────────────────────

#[test]
fn specific_unambiguous_single_light_movie_is_light() {
    let tier = classify_request(RequestKind::Movie, false, 1, 4 * GB);
    assert_eq!(tier, MutationTier::Light);
}

#[test]
fn specific_unambiguous_single_season_is_light() {
    let tier = classify_request(RequestKind::Season, false, 1, 4 * GB);
    assert_eq!(tier, MutationTier::Light);
}

#[test]
fn ambiguous_is_confirm_even_if_single_small_item() {
    let tier = classify_request(RequestKind::Movie, true, 1, 1 * GB);
    assert_eq!(tier, MutationTier::Confirm);
}

#[test]
fn bulk_multi_item_is_confirm() {
    let tier = classify_request(RequestKind::Season, false, 3, 1 * GB);
    assert_eq!(tier, MutationTier::Confirm);
}

#[test]
fn whole_series_is_always_confirm_even_as_a_single_request() {
    let tier = classify_request(RequestKind::Series, false, 1, 1 * GB);
    assert_eq!(tier, MutationTier::Confirm);
}

#[test]
fn oversized_single_item_is_confirm_a_4k_remux() {
    let tier = classify_request(RequestKind::Movie, false, 1, 40 * GB);
    assert_eq!(tier, MutationTier::Confirm);
}

#[test]
fn exactly_at_threshold_is_still_light() {
    let tier = classify_request(RequestKind::Movie, false, 1, OVERSIZED_THRESHOLD_BYTES);
    assert_eq!(tier, MutationTier::Light);
}

#[test]
fn one_byte_over_threshold_is_confirm() {
    let tier = classify_request(RequestKind::Movie, false, 1, OVERSIZED_THRESHOLD_BYTES + 1);
    assert_eq!(tier, MutationTier::Confirm);
}

#[test]
fn bulk_ambiguous_or_oversized_never_classify_as_light() {
    assert_ne!(classify_request(RequestKind::Season, false, 5, 1 * GB), MutationTier::Light);
    assert_ne!(classify_request(RequestKind::Movie, true, 1, 1 * GB), MutationTier::Light);
    assert_ne!(classify_request(RequestKind::Series, false, 1, 1 * GB), MutationTier::Light);
    assert_ne!(classify_request(RequestKind::Movie, false, 1, 100 * GB), MutationTier::Light);
}

#[test]
fn a_larger_request_never_needs_less_confirmation() {
    let small = classify_request(RequestKind::Movie, false, 1, 21 * GB);
    let large = classify_request(RequestKind::Movie, false, 2, 22 * GB);
    assert_eq!(small, MutationTier::Confirm);
    assert_eq!(large, MutationTier::Confirm);
}

// ── sizes ───────────────────────────────────────────────────────────────────

#[test]
fn estimate_prefers_explicit_bytes() {
    assert_eq!(estimate_size_bytes(Some(123), Some("2160p remux")), 123);
}

#[test]
fn estimate_flags_remux_and_4k_as_oversized() {
    assert!(estimate_size_bytes(None, Some("2160p REMUX")) > OVERSIZED_THRESHOLD_BYTES);
    assert!(estimate_size_bytes(None, Some("4K")) > OVERSIZED_THRESHOLD_BYTES);
}

#[test]
fn estimate_1080p_is_under_threshold() {
    assert!(estimate_size_bytes(None, Some("1080p")) < OVERSIZED_THRESHOLD_BYTES);
}

#[test]
fn estimate_default_with_no_hint_is_under_threshold() {
    assert!(estimate_size_bytes(None, None) < OVERSIZED_THRESHOLD_BYTES);
}

#[test]
fn a_hint_is_read_in_lower_case() {
    assert_eq!(estimate_size_bytes(None, Some("REMUX")), size_for_hint("remux"));
    assert_ne!(size_for_hint("REMUX"), size_for_hint("remux"));
}

#[test]
fn a_count_of_items_stays_large_where_it_is_too_large() {
    assert_eq!(item_count_of(&j("{}")), 1);
    assert_eq!(item_count_of(&j(r#"{"item_count": 3}"#)), 3);
    assert_eq!(item_count_of(&j(r#"{"item_count": 0}"#)), 1);
    assert_eq!(item_count_of(&j(r#"{"item_count": 4294967295}"#)), u32::MAX);
    assert_eq!(item_count_of(&j(r#"{"item_count": 4294967296}"#)), u32::MAX);
    assert_eq!(item_count_of(&j(r#"{"item_count": 4294967297}"#)), u32::MAX);
}

// ── answers ─────────────────────────────────────────────────────────────────

#[test]
fn confirm_tier_unexecuted_response_surfaces_size_and_quality() {
    let out = build_response(
        "Dune",
        Some("2021"),
        "movie",
        None,
        Some("2160p remux"),
        40 * GB,
        &gigabytes(40 * GB),
        MutationTier::Confirm,
        false,
        false,
        None,
    );
    assert_eq!(structured(&out).bool_at("executed"), Some(false));
    assert_eq!(structured(&out).str_at("tier"), Some("confirm"));
    assert_eq!(structured(&out).str_at("quality_hint"), Some("2160p remux"));
    let bytes = structured(&out).get("estimated_size_bytes").unwrap().as_u64().unwrap();
    assert!(bytes > OVERSIZED_THRESHOLD_BYTES);
    assert!(summary(&out).contains("confirm"));
    assert!(summary(&out).contains("GB"));
}

#[test]
fn light_tier_executed_response_says_grabbed() {
    let out = build_response(
        "Arrival",
        Some("2016"),
        "movie",
        None,
        Some("1080p"),
        4 * GB,
        &gigabytes(4 * GB),
        MutationTier::Light,
        true,
        false,
        None,
    );
    assert_eq!(structured(&out).bool_at("executed"), Some(true));
    assert!(summary(&out).to_lowercase().contains("grabbed"));
}

#[test]
fn already_present_response_never_claims_executed() {
    let out = build_response(
        "Arrival",
        None,
        "movie",
        None,
        None,
        4 * GB,
        &gigabytes(4 * GB),
        MutationTier::Light,
        false,
        true,
        None,
    );
    assert_eq!(structured(&out).bool_at("executed"), Some(false));
    assert_eq!(structured(&out).bool_at("already_present"), Some(true));
    assert!(summary(&out).to_lowercase().contains("already"));
}

// ── whole requests ──────────────────────────────────────────────────────────

#[test]
fn light_tier_movie_request_drives_the_add() {
    let mut server = Server::new("[]", (201, r#"{ "id": 1, "title": "Dune" }"#));
    let tool = tool_with(true, false);
    let args = r#"{ "title": "Dune", "media_type": "movie", "year": "2021", "tmdb_id": 438631,
        "quality_hint": "1080p" }"#;
    let parsed = run(&tool, args, &settings("1", "/movies"), &mut server).unwrap();

    assert_eq!(server.additions(), 1);
    assert_eq!(server.seen[0].url, "http://radarr.test/api/v3/movie");
    assert_eq!(server.seen[1].url, "http://radarr.test/api/v3/movie");
    let body = server.seen[1].body.as_ref().unwrap();
    assert_eq!(body.int_at("tmdbId"), Some(438631));
    assert_eq!(body.int_at("qualityProfileId"), Some(1));
    assert_eq!(body.str_at("rootFolderPath"), Some("/movies"));
    assert_eq!(structured(&parsed).bool_at("executed"), Some(true));
    assert_eq!(structured(&parsed).str_at("tier"), Some("light"));
}

#[test]
fn unconfirmed_bulk_request_does_not_drive_the_add() {
    let mut server = Server::new("[]", (201, r#"{ "id": 1 }"#));
    let tool = tool_with(false, true);
    let args = r#"{ "title": "Foundation", "media_type": "series", "season": 1, "item_count": 3 }"#;
    let parsed = run(&tool, args, &no_settings(), &mut server).unwrap();
    assert_eq!(structured(&parsed).bool_at("executed"), Some(false));
    assert_eq!(structured(&parsed).str_at("tier"), Some("confirm"));
    assert_eq!(server.additions(), 0, "unconfirmed bulk request must not POST /api/v3/series");
}

#[test]
fn a_request_for_very_many_items_waits_to_be_confirmed() {
    let mut server = Server::new("[]", (201, r#"{ "id": 1 }"#));
    let args = r#"{ "title": "Dune", "media_type": "movie", "tmdb_id": 1, "quality_hint": "1080p",
        "item_count": 4294967297 }"#;
    let parsed = run(&tool_with(false, false), args, &no_settings(), &mut server).unwrap();
    assert_eq!(structured(&parsed).bool_at("executed"), Some(false));
    assert_eq!(structured(&parsed).str_at("tier"), Some("confirm"));
    assert!(server.seen.is_empty());
}

#[test]
fn confirmed_bulk_request_drives_the_add() {
    let mut server = Server::new("[]", (201, r#"{ "id": 1, "title": "Foundation" }"#));
    let tool = tool_with(false, true);
    let args = r#"{ "title": "Foundation", "media_type": "series", "tvdb_id": 358903,
        "item_count": 3, "confirm": true }"#;
    let parsed = run(&tool, args, &settings("1", "/tv"), &mut server).unwrap();
    assert_eq!(server.additions(), 1);
    assert_eq!(server.seen[1].url, "http://sonarr.test/api/v3/series");
    assert_eq!(structured(&parsed).bool_at("executed"), Some(true));
}

#[test]
fn ambiguous_request_never_executes_without_confirm() {
    let mut server = Server::new("[]", (201, r#"{ "id": 1 }"#));
    let tool = tool_with(true, false);
    let args = r#"{ "title": "Dune", "media_type": "movie", "tmdb_id": 1, "is_ambiguous": true }"#;
    let parsed = run(&tool, args, &no_settings(), &mut server).unwrap();
    assert_eq!(structured(&parsed).bool_at("executed"), Some(false));
    assert_eq!(server.additions(), 0);
}

#[test]
fn whole_series_never_executes_without_confirm() {
    let mut server = Server::new("[]", (201, r#"{ "id": 1 }"#));
    let tool = tool_with(false, true);
    let args = r#"{ "title": "Foundation", "media_type": "series", "tvdb_id": 358903 }"#;
    let parsed = run(&tool, args, &no_settings(), &mut server).unwrap();
    assert_eq!(structured(&parsed).bool_at("executed"), Some(false));
    assert_eq!(structured(&parsed).str_at("tier"), Some("confirm"));
    assert_eq!(server.additions(), 0);
}

#[test]
fn oversized_single_movie_never_executes_without_confirm() {
    let mut server = Server::new("[]", (201, r#"{ "id": 1 }"#));
    let tool = tool_with(true, false);
    let args = r#"{ "title": "Dune", "media_type": "movie", "tmdb_id": 1,
        "quality_hint": "2160p remux" }"#;
    let parsed = run(&tool, args, &no_settings(), &mut server).unwrap();
    assert_eq!(structured(&parsed).bool_at("executed"), Some(false));
    assert_eq!(server.additions(), 0);
}

#[test]
fn already_in_library_does_not_duplicate() {
    let mut server =
        Server::new(r#"[{ "title": "Dune", "hasFile": true }]"#, (201, r#"{ "id": 1 }"#));
    let tool = tool_with(true, false);
    let args = r#"{ "title": "Dune", "media_type": "movie", "tmdb_id": 438631 }"#;
    let parsed = run(&tool, args, &no_settings(), &mut server).unwrap();
    assert_eq!(structured(&parsed).bool_at("already_present"), Some(true));
    assert_eq!(structured(&parsed).bool_at("executed"), Some(false));
    assert_eq!(server.additions(), 0, "must not request a duplicate already in the library");
}

#[test]
fn arr_rejection_surfaces_real_failure_not_false_success() {
    let mut server = Server::new("[]", (400, "Quality profile does not exist"));
    let tool = tool_with(true, false);
    let args = r#"{ "title": "Dune", "media_type": "movie", "tmdb_id": 1 }"#;
    let result = run(&tool, args, &settings("1", "/movies"), &mut server);
    assert!(
        matches!(result, Err(ToolError::Http(_))),
        "arr rejection must propagate as a real error, not fake success"
    );
}

#[test]
fn missing_radarr_client_is_not_configured() {
    let mut server = Server::new("[]", (201, "{}"));
    let args = r#"{ "title": "Dune", "media_type": "movie", "tmdb_id": 1 }"#;
    let result = run(&tool_with(false, false), args, &no_settings(), &mut server);
    assert!(matches!(result, Err(ToolError::NotConfigured(_))));
}

#[test]
fn missing_sonarr_client_is_not_configured() {
    let mut server = Server::new("[]", (201, "{}"));
    let args = r#"{ "title": "Foundation", "media_type": "series", "season": 1 }"#;
    let result = run(&tool_with(false, false), args, &no_settings(), &mut server);
    assert!(matches!(result, Err(ToolError::NotConfigured(_))));
}

#[test]
fn empty_title_is_invalid_argument() {
    let mut server = Server::new("[]", (201, "{}"));
    let args = r#"{ "title": "  ", "media_type": "movie" }"#;
    let result = run(&tool_with(false, false), args, &no_settings(), &mut server);
    assert!(matches!(result, Err(ToolError::InvalidArgument(_))));
}

#[test]
fn invalid_media_type_is_invalid_argument() {
    let mut server = Server::new("[]", (201, "{}"));
    let args = r#"{ "title": "Dune", "media_type": "album" }"#;
    let result = run(&tool_with(false, false), args, &no_settings(), &mut server);
    assert!(matches!(result, Err(ToolError::InvalidArgument(_))));
}

#[test]
fn light_tier_movie_missing_tmdb_id_is_invalid_argument() {
    let mut server = Server::new("[]", (201, "{}"));
    let args = r#"{ "title": "Dune", "media_type": "movie" }"#;
    let result = run(&tool_with(true, false), args, &settings("1", "/movies"), &mut server);
    assert!(matches!(result, Err(ToolError::InvalidArgument(_))));
}

#[test]
fn request_tool_metadata_is_valid() {
    let tool = MediaRequest::info();
    assert_eq!(tool.name, "media_request");
    assert!(!tool.description.is_empty());
    assert_eq!(tool.parameters.str_at("type"), Some("object"));
}

// ── settings and tracking ───────────────────────────────────────────────────

#[test]
fn profiles_and_folders_must_be_set_and_well_formed() {
    assert_eq!(quality_profile_id("RADARR_QUALITY_PROFILE_ID", Some(" 4 ")), Ok(4));
    assert!(matches!(
        quality_profile_id("RADARR_QUALITY_PROFILE_ID", Some("four")),
        Err(ToolError::NotConfigured(_))
    ));
    assert!(matches!(
        quality_profile_id("RADARR_QUALITY_PROFILE_ID", None),
        Err(ToolError::NotConfigured(_))
    ));
    assert_eq!(
        root_folder_path("RADARR_ROOT_FOLDER_PATH", Some("/movies")),
        Ok("/movies".to_string())
    );
    assert!(matches!(
        root_folder_path("RADARR_ROOT_FOLDER_PATH", Some("  ")),
        Err(ToolError::NotConfigured(_))
    ));
}

#[test]
fn a_title_is_present_whatever_its_case() {
    let library = vec![j(r#"{"title": "DUNE"}"#), j(r#"{"title": 4}"#)];
    assert!(already_present(&library, "dune"));
    assert!(!already_present(&library, "dune two"));
}

#[test]
fn a_title_is_present_within_a_longer_one() {
    let library = vec![j(r#"{"name": "Dune: Part Two"}"#)];
    assert!(already_present(&library, " Dune "));
    assert!(already_present(&library, "PART TWO"));
    assert!(!already_present(&library, "Dune: Part Two (2024)"));
    assert!(!already_present(&library, "  "));
    assert!(!already_present(&Vec::new(), "Dune"));
}

#[test]
fn an_addition_is_tracked_where_tracking_is_configured() {
    let tool = MediaRequest {
        radarr: Some(RadarrClient::new("http://radarr.test", "k")),
        sonarr: None,
        jellyseerr: Some(JellyseerrClient::new("http://requests.test", "k")),
    };
    let args = j(r#"{ "title": "Dune", "media_type": "movie", "tmdb_id": 438631 }"#);
    let said = |status: u16, body: &str| HttpReply::Answered { status, body: Ok(body.to_string()) };
    let set = settings("1", "/movies");
    let mut replies = vec![said(200, "[]"), said(201, r#"{"id": 1}"#)];
    match tool.execute(&args, &set, "4.0", &replies) {
        Step::Send(tracking) => {
            assert_eq!(tracking.url, "http://requests.test/api/v1/request");
            assert_eq!(tracking.body.as_ref().unwrap().int_at("mediaId"), Some(438631));
        }
        other => panic!("expected a tracking request, got {other:?}"),
    }
    // What tracking replies does not matter.
    replies.push(said(500, ""));
    match tool.execute(&args, &set, "4.0", &replies) {
        Step::Done(answer, Some(audit)) => {
            assert_eq!(structured(&answer).bool_at("executed"), Some(true));
            assert_eq!(audit.tool, "media_request");
            assert!(audit.success);
        }
        other => panic!("expected an answer and a record, got {other:?}"),
    }
}

#[test]
fn an_unconfirmed_request_sends_nothing_whatever_was_heard() {
    let tool = tool_with(false, true);
    let args = j(r#"{ "title": "Foundation", "media_type": "series", "tvdb_id": 358903 }"#);
    for n in 0..4 {
        let replies: Vec<HttpReply> = (0..n)
            .map(|_| HttpReply::Answered { status: 200, body: Ok("[]".to_string()) })
            .collect();
        match tool.execute(&args, &settings("1", "/tv"), "40.0", &replies) {
            Step::Done(answer, None) => {
                assert_eq!(structured(&answer).bool_at("executed"), Some(false))
            }
            other => panic!("expected an answer, got {other:?}"),
        }
    }
}
