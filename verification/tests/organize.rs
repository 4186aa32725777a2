//! Changing, deleting and cleaning up what the libraries hold.
use terminus::http::{HttpReply, HttpRequest, Method};
use terminus::json::Json;
use terminus::media::clients::radarr::RadarrClient;
use terminus::media::clients::sonarr::SonarrClient;
use terminus::media::organize::{
    cleanup_confirmed, cleanup_partition, delete_confirmed, find_by_id, organize_kind, title_of,
    CleanupAction, CleanupCandidate, MediaCleanup, MediaDelete, MediaOrganize, OrganizeAction,
};
use terminus::media::request::RequestKind;
use terminus::tool::{Step, ToolError};

fn j(text: &str) -> Json {
    Json::parse(text).expect("valid JSON")
}

fn radarr() -> Option<RadarrClient> {
    Some(RadarrClient::new("http://radarr.test", "k"))
}

fn sonarr() -> Option<SonarrClient> {
    Some(SonarrClient::new("http://sonarr.test", "k"))
}

/// A server with one listing that accepts every change, and remembers what it was asked.
struct Server {
    library: &'static str,
    seen: Vec<HttpRequest>,
}

impl Server {
    fn new(library: &'static str) -> Server {
        Server { library, seen: Vec::new() }
    }

    fn send(&mut self, request: HttpRequest) -> HttpReply {
        let body = if request.method == Method::Get { self.library } else { "{}" };
        self.seen.push(request);
        HttpReply::Answered { status: 200, body: Ok(body.to_string()) }
    }

    fn hits(&self, method: Method, url: &str) -> usize {
        self.seen.iter().filter(|r| r.method == method && r.url == url).count()
    }
}

fn run_organize(tool: &MediaOrganize, args: &str, server: &mut Server) -> Result<Json, ToolError> {
    let mut replies = Vec::new();
    loop {
        match tool.execute(&j(args), &replies) {
            Step::Done(answer, _) => return Ok(answer),
            Step::Failed(e, _) => return Err(e),
            Step::Send(request) => replies.push(server.send(request)),
        }
    }
}

fn run_delete(tool: &MediaDelete, args: &str, server: &mut Server) -> Result<Json, ToolError> {
    let mut replies = Vec::new();
    loop {
        match tool.execute(&j(args), &replies) {
            Step::Done(answer, _) => return Ok(answer),
            Step::Failed(e, _) => return Err(e),
            Step::Send(request) => replies.push(server.send(request)),
        }
    }
}

fn run_cleanup(
    tool: &MediaCleanup,
    args: &str,
    candidates: Vec<CleanupCandidate>,
    server: &mut Server,
) -> Result<Json, ToolError> {
    let decoded = Ok(candidates);
    let mut replies = Vec::new();
    loop {
        match tool.execute(&j(args), &decoded, &replies) {
            CleanupAction::Done(answer, _) => return Ok(answer),
            CleanupAction::Failed(e) => return Err(e),
            CleanupAction::Send(request) => replies.push(server.send(request)),
        }
    }
}

fn candidate(id: i64, title: &str, watched_by_all_users: bool) -> CleanupCandidate {
    CleanupCandidate { id, title: title.to_string(), watched_by_all_users }
}

fn structured(answer: &Json) -> &Json {
    answer.get("structured").expect("structured part")
}

/// The texts of a list in the structured part.
fn titles<'a>(answer: &'a Json, key: &str) -> Vec<&'a str> {
    let list = structured(answer).array_at(key).expect("a list");
    list.iter().map(|v| v.as_str().expect("a title")).collect()
}

// ── confirmations ───────────────────────────────────────────────────────────

#[test]
fn delete_confirmed_requires_exact_title_match() {
    assert!(delete_confirmed("Dune", Some("Dune")));
    assert!(delete_confirmed("Dune", Some("  Dune  ")));
    assert!(!delete_confirmed("Dune", Some("dune")), "must be case-sensitive");
    assert!(!delete_confirmed("Dune", Some("Dune Part Two")));
    assert!(!delete_confirmed("Dune", None));
    assert!(!delete_confirmed("Dune", Some("")));
}

#[test]
fn delete_confirmed_bare_true_string_does_not_match_a_real_title() {
    assert!(!delete_confirmed("Dune", Some("true")));
}

#[test]
fn cleanup_partition_splits_on_watched_by_all_users() {
    let candidates = vec![candidate(1, "A", true), candidate(2, "B", false)];
    let (eligible, flagged) = cleanup_partition(&candidates);
    assert_eq!(eligible.len(), 1);
    assert_eq!(eligible[0].title, "A");
    assert_eq!(flagged.len(), 1);
    assert_eq!(flagged[0].title, "B");
}

#[test]
fn cleanup_confirmed_requires_exact_set_match() {
    let a = || "A".to_string();
    let b = || "B".to_string();
    let eligible = vec![a(), b()];
    assert!(cleanup_confirmed(&eligible, Some(&[b(), a()])), "order-independent");
    assert!(!cleanup_confirmed(&eligible, Some(&[a()])), "partial confirm must not match");
    assert!(
        !cleanup_confirmed(&eligible, Some(&[a(), b(), "C".to_string()])),
        "superset must not match"
    );
    assert!(!cleanup_confirmed(&eligible, None));
    assert!(!cleanup_confirmed(&eligible, Some(&[])));
}

#[test]
fn cleanup_confirmed_empty_eligible_never_confirms() {
    assert!(!cleanup_confirmed(&[], Some(&["A".to_string()])));
}

// ── organizing ──────────────────────────────────────────────────────────────

#[test]
fn organize_light_tier_movie_monitor_executes() {
    let mut server = Server::new(r#"[{ "id": 7, "title": "Dune", "monitored": true }]"#);
    let tool = MediaOrganize { radarr: radarr(), sonarr: None };
    let args = r#"{ "id": 7, "media_type": "movie", "action": "monitor", "monitored": false }"#;
    let parsed = run_organize(&tool, args, &mut server).unwrap();
    assert_eq!(server.hits(Method::Put, "http://radarr.test/api/v3/movie/7"), 1);
    let body = server.seen[1].body.as_ref().unwrap();
    assert_eq!(body.bool_at("monitored"), Some(false));
    assert_eq!(body.str_at("title"), Some("Dune"));
    assert_eq!(structured(&parsed).bool_at("executed"), Some(true));
    assert_eq!(structured(&parsed).str_at("tier"), Some("light"));
}

#[test]
fn organize_whole_series_is_confirm_tier_and_does_not_execute() {
    let mut server = Server::new("[]");
    let tool = MediaOrganize { radarr: None, sonarr: sonarr() };
    let args = r#"{ "id": 9, "media_type": "series", "action": "monitor", "monitored": false }"#;
    let parsed = run_organize(&tool, args, &mut server).unwrap();
    assert_eq!(structured(&parsed).bool_at("executed"), Some(false));
    assert_eq!(structured(&parsed).str_at("tier"), Some("confirm"));
    assert!(server.seen.is_empty());
}

#[test]
fn organize_confirmed_series_executes() {
    let mut server = Server::new(r#"[{ "id": 9, "title": "Foundation", "monitored": true }]"#);
    let tool = MediaOrganize { radarr: None, sonarr: sonarr() };
    let args = r#"{ "id": 9, "media_type": "series", "action": "monitor", "monitored": false,
        "confirm": true }"#;
    let parsed = run_organize(&tool, args, &mut server).unwrap();
    assert_eq!(server.hits(Method::Put, "http://sonarr.test/api/v3/series/9"), 1);
    assert_eq!(structured(&parsed).bool_at("executed"), Some(true));
}

#[test]
fn organize_missing_radarr_client_is_not_configured() {
    let tool = MediaOrganize { radarr: None, sonarr: None };
    let args = r#"{ "id": 1, "media_type": "movie", "action": "monitor", "monitored": true }"#;
    let result = run_organize(&tool, args, &mut Server::new("[]"));
    assert!(matches!(result, Err(ToolError::NotConfigured(_))));
}

#[test]
fn organize_invalid_action_is_invalid_argument() {
    let tool = MediaOrganize { radarr: None, sonarr: None };
    let args = r#"{ "id": 1, "media_type": "movie", "action": "delete" }"#;
    let result = run_organize(&tool, args, &mut Server::new("[]"));
    assert!(matches!(result, Err(ToolError::InvalidArgument(_))));
}

#[test]
fn organize_item_not_found_returns_error() {
    let mut server = Server::new("[]");
    let tool = MediaOrganize { radarr: radarr(), sonarr: None };
    let args = r#"{ "id": 999, "media_type": "movie", "action": "monitor", "monitored": false }"#;
    let result = run_organize(&tool, args, &mut server);
    assert!(matches!(result, Err(ToolError::NotFound(_))));
}

#[test]
fn a_body_is_the_item_with_one_field_changed() {
    let existing = j(r#"{ "id": 7, "title": "Dune", "tags": [1] }"#);
    let tagged = MediaOrganize::build_body(
        &existing,
        OrganizeAction::Tag,
        &j(r#"{ "tag_ids": [2, 3] }"#),
    )
    .unwrap();
    assert_eq!(tagged.get("tags"), Some(&j("[2, 3]")));
    assert_eq!(tagged.int_at("id"), Some(7));
    let made = MediaOrganize::build_body(
        &Json::Null,
        OrganizeAction::Monitor,
        &j(r#"{ "monitored": true }"#),
    );
    assert_eq!(made.unwrap(), j(r#"{ "monitored": true }"#));
    let result = MediaOrganize::build_body(&existing, OrganizeAction::Monitor, &j("{}"));
    assert!(matches!(result, Err(ToolError::InvalidArgument(_))));
}

#[test]
fn a_kind_follows_from_type_and_season() {
    assert_eq!(organize_kind("movie", None), RequestKind::Movie);
    assert_eq!(organize_kind("series", Some(2)), RequestKind::Season);
    assert_eq!(organize_kind("series", None), RequestKind::Series);
    assert!(matches!(OrganizeAction::parse("tag"), Ok(OrganizeAction::Tag)));
    assert!(OrganizeAction::parse("Tag").is_err());
}

#[test]
fn an_item_is_found_by_its_id() {
    let library = vec![j(r#"{ "id": 1, "title": "A" }"#), j(r#"{ "id": 2 }"#)];
    assert_eq!(find_by_id(&library, 2), Some(&library[1]));
    assert_eq!(find_by_id(&library, 3), None);
    assert_eq!(title_of(&library[0]), "A");
}

// ── deleting ────────────────────────────────────────────────────────────────

const DUNE: &str = r#"[{ "id": 7, "title": "Dune" }]"#;

#[test]
fn delete_bare_confirm_true_does_not_delete() {
    let mut server = Server::new(DUNE);
    let tool = MediaDelete { radarr: radarr(), sonarr: None };
    let args = r#"{ "id": 7, "media_type": "movie", "confirm": true }"#;
    let parsed = run_delete(&tool, args, &mut server).unwrap();
    assert_eq!(structured(&parsed).bool_at("executed"), Some(false));
    assert_eq!(structured(&parsed).bool_at("requires_confirmation"), Some(true));
    assert_eq!(
        server.hits(Method::Delete, "http://radarr.test/api/v3/movie/7"),
        0,
        "a bare confirm:true must never trigger a delete"
    );
}

#[test]
fn delete_light_ack_does_not_delete() {
    let mut server = Server::new(DUNE);
    let tool = MediaDelete { radarr: radarr(), sonarr: None };
    let args = r#"{ "id": 7, "media_type": "movie", "confirm_delete": "yes" }"#;
    let parsed = run_delete(&tool, args, &mut server).unwrap();
    assert_eq!(structured(&parsed).bool_at("executed"), Some(false));
    assert_eq!(server.hits(Method::Delete, "http://radarr.test/api/v3/movie/7"), 0);
}

#[test]
fn delete_exact_typed_confirm_deletes() {
    let mut server = Server::new(DUNE);
    let tool = MediaDelete { radarr: radarr(), sonarr: None };
    let args = r#"{ "id": 7, "media_type": "movie", "confirm_delete": "Dune" }"#;
    let parsed = run_delete(&tool, args, &mut server).unwrap();
    assert_eq!(server.hits(Method::Delete, "http://radarr.test/api/v3/movie/7"), 1);
    assert_eq!(structured(&parsed).bool_at("executed"), Some(true));
}

#[test]
fn delete_not_present_is_a_clean_no_op() {
    let mut server = Server::new("[]");
    let tool = MediaDelete { radarr: radarr(), sonarr: None };
    let args = r#"{ "id": 999, "media_type": "movie" }"#;
    let parsed = run_delete(&tool, args, &mut server).unwrap();
    assert_eq!(structured(&parsed).bool_at("already_absent"), Some(true));
    assert_eq!(structured(&parsed).bool_at("executed"), Some(false));
    assert_eq!(server.hits(Method::Delete, "http://radarr.test/api/v3/movie/999"), 0);
    assert!(parsed.str_at("summary").unwrap().to_lowercase().contains("not in the library"));
}

#[test]
fn delete_series_exact_typed_confirm_deletes() {
    let mut server = Server::new(r#"[{ "id": 9, "title": "Foundation" }]"#);
    let tool = MediaDelete { radarr: None, sonarr: sonarr() };
    let args = r#"{ "id": 9, "media_type": "series", "confirm_delete": "Foundation" }"#;
    let parsed = run_delete(&tool, args, &mut server).unwrap();
    assert_eq!(server.hits(Method::Delete, "http://sonarr.test/api/v3/series/9"), 1);
    assert_eq!(structured(&parsed).bool_at("executed"), Some(true));
}

#[test]
fn delete_missing_sonarr_client_is_not_configured() {
    let tool = MediaDelete { radarr: None, sonarr: None };
    let args = r#"{ "id": 1, "media_type": "series" }"#;
    let result = run_delete(&tool, args, &mut Server::new("[]"));
    assert!(matches!(result, Err(ToolError::NotConfigured(_))));
}

// ── cleaning up ─────────────────────────────────────────────────────────────

fn watched() -> Vec<CleanupCandidate> {
    vec![candidate(1, "Arrival", true), candidate(2, "Dune", true)]
}

fn mixed() -> Vec<CleanupCandidate> {
    vec![candidate(1, "Shared Watch", true), candidate(2, "Solo Watch", false)]
}

const MOVIE_1: &str = "http://radarr.test/api/v3/movie/1";
const MOVIE_2: &str = "http://radarr.test/api/v3/movie/2";

#[test]
fn cleanup_unconfirmed_enumerates_and_deletes_nothing() {
    let mut server = Server::new("[]");
    let tool = MediaCleanup { radarr: radarr(), sonarr: None };
    let parsed = run_cleanup(&tool, r#"{ "media_type": "movie", "candidates": [] }"#, watched(), &mut server).unwrap();
    assert_eq!(structured(&parsed).bool_at("executed"), Some(false));
    let eligible = titles(&parsed, "eligible");
    assert_eq!(eligible.len(), 2);
    assert!(eligible.contains(&"Arrival"));
    assert!(eligible.contains(&"Dune"));
    assert!(server.seen.is_empty(), "unconfirmed bulk cleanup must not delete anything");
}

#[test]
fn cleanup_confirmed_deletes_exactly_the_enumerated_set() {
    let mut server = Server::new("[]");
    let tool = MediaCleanup { radarr: radarr(), sonarr: None };
    let args = r#"{ "media_type": "movie", "candidates": [], "confirm_delete": ["Dune", "Arrival"] }"#;
    let parsed = run_cleanup(&tool, args, watched(), &mut server).unwrap();
    assert_eq!(server.hits(Method::Delete, MOVIE_1), 1);
    assert_eq!(server.hits(Method::Delete, MOVIE_2), 1);
    assert_eq!(structured(&parsed).bool_at("executed"), Some(true));
    assert_eq!(titles(&parsed, "deleted").len(), 2);
}

#[test]
fn cleanup_flags_items_not_watched_by_all_users_and_never_removes_them() {
    let mut server = Server::new("[]");
    let tool = MediaCleanup { radarr: radarr(), sonarr: None };
    let parsed = run_cleanup(&tool, r#"{ "media_type": "movie", "candidates": [] }"#, mixed(), &mut server).unwrap();
    assert_eq!(titles(&parsed, "eligible"), vec!["Shared Watch"]);
    assert_eq!(titles(&parsed, "flagged"), vec!["Solo Watch"]);

    let args = r#"{ "media_type": "movie", "candidates": [], "confirm_delete": ["Shared Watch", "Solo Watch"] }"#;
    let parsed2 = run_cleanup(&tool, args, mixed(), &mut server).unwrap();
    assert_eq!(
        structured(&parsed2).bool_at("executed"),
        Some(false),
        "confirm set must match eligible exactly, not a superset"
    );
    assert_eq!(server.hits(Method::Delete, MOVIE_1), 0);
    assert_eq!(server.hits(Method::Delete, MOVIE_2), 0);

    let args = r#"{ "media_type": "movie", "candidates": [], "confirm_delete": ["Shared Watch"] }"#;
    let parsed3 = run_cleanup(&tool, args, mixed(), &mut server).unwrap();
    assert_eq!(structured(&parsed3).bool_at("executed"), Some(true));
    assert_eq!(server.hits(Method::Delete, MOVIE_1), 1);
    assert_eq!(
        server.hits(Method::Delete, MOVIE_2),
        0,
        "flagged item must never be removed, even on a confirmed bulk cleanup"
    );
}

#[test]
fn cleanup_defaults_watched_by_all_users_to_false_when_omitted() {
    let tool = MediaCleanup { radarr: None, sonarr: None };
    let omitted = vec![CleanupCandidate::given(1, "Unknown Status".to_string(), None)];
    let args =
        r#"{ "media_type": "movie", "candidates": [ { "id": 1, "title": "Unknown Status" } ] }"#;
    let parsed = run_cleanup(&tool, args, omitted, &mut Server::new("[]")).unwrap();
    assert_eq!(titles(&parsed, "eligible").len(), 0);
    assert_eq!(titles(&parsed, "flagged").len(), 1);
    assert!(CleanupCandidate::given(1, "Known".to_string(), Some(true)).watched_by_all_users);
    assert!(!CleanupCandidate::given(1, "Known".to_string(), Some(false)).watched_by_all_users);
}

#[test]
fn cleanup_is_not_confirmed_by_a_list_that_holds_more_than_titles() {
    let mut server = Server::new("[]");
    let tool = MediaCleanup { radarr: radarr(), sonarr: None };
    for confirmation in [r#"["Arrival", 5]"#, r#"["Arrival", null]"#, r#"[5]"#, r#""Arrival""#] {
        let args = format!(
            r#"{{ "media_type": "movie", "candidates": [], "confirm_delete": {confirmation} }}"#
        );
        let candidates = vec![candidate(1, "Arrival", true)];
        let parsed = run_cleanup(&tool, &args, candidates, &mut server).unwrap();
        assert_eq!(structured(&parsed).bool_at("executed"), Some(false), "{confirmation}");
        assert_eq!(
            structured(&parsed).bool_at("requires_confirmation"),
            Some(true),
            "{confirmation}"
        );
    }
    assert!(server.seen.is_empty());
}

#[test]
fn cleanup_invalid_media_type_is_invalid_argument() {
    let tool = MediaCleanup { radarr: None, sonarr: None };
    let result =
        run_cleanup(&tool, r#"{ "media_type": "album", "candidates": [] }"#, Vec::new(), &mut Server::new("[]"));
    assert!(matches!(result, Err(ToolError::InvalidArgument(_))));
}

#[test]
fn cleanup_undecodable_candidates_are_an_invalid_argument() {
    let tool = MediaCleanup { radarr: None, sonarr: None };
    let decoded = Err("missing field `id`".to_string());
    let args = j(r#"{ "media_type": "movie", "candidates": [{}] }"#);
    match tool.execute(&args, &decoded, &Vec::new()) {
        CleanupAction::Failed(ToolError::InvalidArgument(m)) => {
            assert!(m.contains("missing field `id`"))
        }
        other => panic!("expected a failure, got {other:?}"),
    }
}

#[test]
fn cleanup_empty_candidates_returns_clean_response() {
    let mut server = Server::new("[]");
    let tool = MediaCleanup { radarr: radarr(), sonarr: None };
    let args = r#"{ "media_type": "movie", "candidates": [] }"#;
    let parsed = run_cleanup(&tool, args, Vec::new(), &mut server).unwrap();
    assert_eq!(structured(&parsed).bool_at("executed"), Some(false));
    assert_eq!(structured(&parsed).array_at("eligible").map(|a| a.len()).unwrap_or(0), 0);
    assert!(server.seen.is_empty(), "empty cleanup must never delete anything");
}

#[test]
fn cleanup_sorts_what_became_of_each_item() {
    let tool = MediaCleanup { radarr: radarr(), sonarr: None };
    let decoded = Ok(vec![
        candidate(1, "Gone", true),
        candidate(4, "Kept", false),
        candidate(2, "Never there", true),
        candidate(3, "Stuck", true),
    ]);
    let args = j(r#"{ "media_type": "movie", "candidates": [],
        "confirm_delete": ["Stuck", "Never there", "Gone"] }"#);
    let reply = |status: u16| HttpReply::Answered { status, body: Ok(String::new()) };
    let mut replies = Vec::new();
    for (status, id) in [(200, 1), (404, 2), (500, 3)] {
        match tool.execute(&args, &decoded, &replies) {
            CleanupAction::Send(request) => {
                assert_eq!(request.url, format!("http://radarr.test/api/v3/movie/{id}"))
            }
            other => panic!("expected a removal, got {other:?}"),
        }
        replies.push(reply(status));
    }
    match tool.execute(&args, &decoded, &replies) {
        CleanupAction::Done(answer, audits) => {
            assert_eq!(titles(&answer, "deleted"), vec!["Gone"]);
            assert_eq!(titles(&answer, "already_absent"), vec!["Never there"]);
            assert_eq!(titles(&answer, "failed"), vec!["Stuck"]);
            assert_eq!(titles(&answer, "flagged"), vec!["Kept"]);
            let written: Vec<bool> = audits.iter().map(|a| a.success).collect();
            assert_eq!(written, vec![true, false]);
        }
        other => panic!("expected an answer, got {other:?}"),
    }
}

#[test]
fn cleanup_without_the_service_removes_nothing() {
    let tool = MediaCleanup { radarr: None, sonarr: sonarr() };
    let args = r#"{ "media_type": "movie", "candidates": [], "confirm_delete": ["Dune"] }"#;
    let parsed =
        run_cleanup(&tool, args, vec![candidate(2, "Dune", true)], &mut Server::new("[]")).unwrap();
    assert_eq!(titles(&parsed, "failed"), vec!["Dune"]);
    assert!(titles(&parsed, "deleted").is_empty());
}

#[test]
fn organize_tool_metadata_is_valid() {
    let o = MediaOrganize::info();
    assert_eq!(o.name, "media_organize");
    assert!(!o.description.is_empty());
    let d = MediaDelete::info();
    assert_eq!(d.name, "media_delete");
    assert!(!d.description.is_empty());
    let c = MediaCleanup::info();
    assert_eq!(c.name, "media_cleanup");
    assert!(!c.description.is_empty());
}
