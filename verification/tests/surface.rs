//! What a phrase asks for, and how a pending change is put to the user.
use terminus::json::Json;
use terminus::media::request::{
    classify_request, plan, AddSettings, MediaRequest, MutationTier, RequestKind,
};
use terminus::media::surface::{
    chain_for, narrate_cleanup_confirmation, narrate_delete_confirmation,
    narrate_request_confirmation, narrated_size, resolve_intent, route, search_status_request_chain,
    MediaIntent,
};
use terminus::registry::ToolRegistry;
use terminus::tool::Step;

fn j(text: &str) -> Json {
    Json::parse(text).expect("valid JSON")
}

/// Narrates a request with its size written in whole gigabytes.
fn narrate(structured: &Json) -> Option<String> {
    let size = match narrated_size(structured) {
        Some(bytes) => format!("{:.0}", bytes as f64 / 1_073_741_824.0),
        None => String::new(),
    };
    narrate_request_confirmation(structured, &size)
}

#[test]
fn put_something_on_routes_to_recommend() {
    assert_eq!(resolve_intent("put something on"), MediaIntent::Tool("media_recommend"));
    assert_eq!(resolve_intent("Surprise me tonight"), MediaIntent::Tool("media_recommend"));
}

#[test]
fn grab_that_show_routes_to_search_status_request_chain() {
    assert_eq!(
        resolve_intent("grab that show I was watching"),
        MediaIntent::Chain(&["media_search", "media_status", "media_request"])
    );
}

#[test]
fn is_x_on_plex_routes_to_status() {
    assert_eq!(resolve_intent("is Dune on Plex?"), MediaIntent::Tool("media_status"));
    assert_eq!(resolve_intent("do I already have Arrival"), MediaIntent::Tool("media_status"));
}

#[test]
fn clean_up_watched_routes_to_cleanup() {
    assert_eq!(resolve_intent("clean up what I've watched"), MediaIntent::Tool("media_cleanup"));
}

#[test]
fn delete_it_routes_to_delete_not_cleanup() {
    assert_eq!(resolve_intent("delete that movie"), MediaIntent::Tool("media_delete"));
}

#[test]
fn what_should_i_watch_routes_to_recommend() {
    assert_eq!(resolve_intent("what should I watch tonight?"), MediaIntent::Tool("media_recommend"));
}

#[test]
fn on_deck_routes_to_on_deck() {
    assert_eq!(resolve_intent("what's on deck?"), MediaIntent::Tool("media_on_deck"));
}

#[test]
fn recently_added_routes_correctly() {
    assert_eq!(resolve_intent("what's new on Plex"), MediaIntent::Tool("media_recently_added"));
}

#[test]
fn matching_is_case_insensitive() {
    assert_eq!(
        resolve_intent("GRAB THAT SHOW"),
        MediaIntent::Chain(&["media_search", "media_status", "media_request"])
    );
}

#[test]
fn empty_phrase_is_a_clarifying_question() {
    assert!(matches!(resolve_intent(""), MediaIntent::Clarify(_)));
    assert!(matches!(resolve_intent("   "), MediaIntent::Clarify(_)));
}

#[test]
fn under_specified_media_mention_is_a_question_not_a_wrong_action() {
    let intent = resolve_intent("something about my movies");
    assert!(matches!(intent, MediaIntent::Clarify(_)));
}

#[test]
fn completely_unrelated_phrase_is_a_clarifying_question_not_a_tool() {
    let intent = resolve_intent("what's the weather like");
    assert!(matches!(intent, MediaIntent::Clarify(_)));
}

#[test]
fn clarify_question_is_non_empty_and_a_question() {
    for phrase in ["", "something about media", "gibberish xyz"] {
        if let MediaIntent::Clarify(q) = resolve_intent(phrase) {
            assert!(!q.is_empty());
            assert!(q.contains('?'), "clarifying prompt should read as a question: {q}");
        }
    }
}

#[test]
fn routing_a_lower_case_phrase_is_what_resolving_any_case_does() {
    assert_eq!(route("delete that movie"), resolve_intent("  DELETE that Movie "));
    // Routing itself looks for lower-case words only.
    assert!(matches!(route("DELETE THAT MOVIE"), MediaIntent::Clarify(_)));
}

#[test]
fn chain_for_tool_is_single_element() {
    assert_eq!(chain_for(MediaIntent::Tool("media_status")), vec!["media_status"]);
}

#[test]
fn chain_for_chain_preserves_order() {
    let steps = chain_for(MediaIntent::Chain(&["media_search", "media_status", "media_request"]));
    assert_eq!(steps, vec!["media_search", "media_status", "media_request"]);
}

#[test]
fn chain_for_clarify_is_empty() {
    assert!(chain_for(MediaIntent::Clarify("?")).is_empty());
}

#[test]
fn search_status_request_chain_constant_matches_grab_routing() {
    assert_eq!(
        search_status_request_chain().steps.to_vec(),
        chain_for(resolve_intent("grab that movie"))
    );
}

#[test]
fn narrates_confirm_tier_request_with_specifics() {
    let structured = j(
        r#"{"title": "Dune", "year": "2021", "media_type": "movie", "quality_hint": "2160p remux",
            "estimated_size_bytes": 64424509440, "tier": "confirm", "executed": false}"#,
    );
    let prompt = narrate(&structured).expect("must narrate a confirm-tier payload");
    assert!(prompt.contains("Dune"));
    assert!(prompt.contains("2021"));
    assert!(prompt.contains("60GB"));
    assert!(prompt.contains("2160p remux"));
    assert!(prompt.contains('?'), "must read as an in-voice question: {prompt}");
}

#[test]
fn no_narration_when_already_executed() {
    let structured = j(r#"{"title": "Arrival", "tier": "light", "executed": true}"#);
    assert!(narrate(&structured).is_none());
}

#[test]
fn no_narration_when_not_confirm_tier() {
    let structured = j(r#"{"title": "Arrival", "tier": "light", "executed": false}"#);
    assert!(narrate(&structured).is_none());
}

#[test]
fn narration_handles_missing_size_gracefully() {
    let structured = j(r#"{"title": "Foundation", "tier": "confirm", "executed": false}"#);
    let prompt = narrate(&structured).unwrap();
    assert!(prompt.contains("Foundation"));
    assert!(!prompt.contains("GB"));
}

#[test]
fn narrates_delete_confirmation_with_exact_title() {
    let structured = j(
        r#"{"id": 5, "media_type": "movie", "title": "Dune",
            "executed": false, "requires_confirmation": true}"#,
    );
    let prompt = narrate_delete_confirmation(&structured).expect("must narrate a pending delete");
    assert!(prompt.contains("Dune"));
    assert!(prompt.to_lowercase().contains("permanently"));
}

#[test]
fn no_delete_narration_once_executed() {
    let structured = j(r#"{"id": 5, "title": "Dune", "executed": true}"#);
    assert!(narrate_delete_confirmation(&structured).is_none());
}

#[test]
fn no_delete_narration_for_already_absent_no_op() {
    let structured =
        j(r#"{"id": 5, "title": "Dune", "executed": false, "already_absent": true}"#);
    assert!(narrate_delete_confirmation(&structured).is_none());
}

#[test]
fn narrates_cleanup_confirmation_listing_titles() {
    let structured = j(
        r#"{"media_type": "movie", "executed": false, "requires_confirmation": true,
            "eligible": ["Old Movie 1", "Old Movie 2"], "flagged": ["Shared Family Favorite"]}"#,
    );
    let prompt =
        narrate_cleanup_confirmation(&structured).expect("must narrate a pending cleanup");
    assert!(prompt.contains("Old Movie 1"));
    assert!(prompt.contains("Old Movie 2"));
    assert!(prompt.contains('2'));
    assert!(prompt.to_lowercase().contains("other item") || prompt.contains('1'));
    assert!(prompt.contains('?'));
}

#[test]
fn cleanup_narration_counts_what_is_left_alone() {
    let one = j(
        r#"{"executed": false, "requires_confirmation": true,
            "eligible": ["Old"], "flagged": ["Kept"]}"#,
    );
    let prompt = narrate_cleanup_confirmation(&one).unwrap();
    assert!(prompt.ends_with(
        " 1 other item not watched by everyone, so I'm leaving it alone. Want me to go ahead?"
    ));
    let two = j(
        r#"{"executed": false, "requires_confirmation": true,
            "eligible": ["Old"], "flagged": ["Kept", "Also kept"]}"#,
    );
    let prompt = narrate_cleanup_confirmation(&two).unwrap();
    assert!(prompt.ends_with(
        " 2 other items not watched by everyone, so I'm leaving them alone. Want me to go ahead?"
    ));
}

#[test]
fn no_cleanup_narration_when_nothing_eligible() {
    let structured = j(
        r#"{"media_type": "movie", "executed": false,
            "eligible": [], "flagged": ["Shared Family Favorite"]}"#,
    );
    assert!(narrate_cleanup_confirmation(&structured).is_none());
}

#[test]
fn no_cleanup_narration_once_executed() {
    let structured = j(
        r#"{"media_type": "movie", "executed": true,
            "deleted": ["Old Movie 1"], "already_absent": [], "failed": [], "flagged": []}"#,
    );
    assert!(narrate_cleanup_confirmation(&structured).is_none());
}

#[test]
fn chained_confirm_tier_request_still_returns_confirmation_not_executed() {
    assert_eq!(
        chain_for(resolve_intent("grab that show")),
        search_status_request_chain().steps.to_vec()
    );

    let mut registry = ToolRegistry::new();
    terminus::media::request::register(&mut registry);
    assert!(registry.contains("media_request"));

    let args = j(r#"{"title": "Foundation", "media_type": "series", "tvdb_id": 358903}"#);
    let planned = plan(&args).expect("a well-formed request must plan");
    let tool = MediaRequest { radarr: None, sonarr: None, jellyseerr: None };
    let size = format!("{:.1}", planned.size as f64 / 1_073_741_824.0);
    let unset = AddSettings { quality_profile: None, root_folder: None };
    let parsed = match tool.execute(&args, &unset, &size, &Vec::new()) {
        Step::Done(answer, _) => answer,
        other => panic!("an unconfirmed whole series must be answered at once: {other:?}"),
    };
    let structured = parsed.get("structured").expect("structured part");
    assert_eq!(structured.bool_at("executed"), Some(false));
    assert_eq!(structured.str_at("tier"), Some("confirm"));

    let prompt = narrate(structured).expect("must narrate the pending confirm");
    assert!(prompt.contains("Foundation"));
    assert!(prompt.contains('?'));
}

#[test]
fn classify_request_confirm_tier_never_downgrades_to_light_for_chain_reasons() {
    assert_eq!(
        classify_request(RequestKind::Series, false, 1, 1024 * 1024 * 1024),
        MutationTier::Confirm
    );
}
