//! Recommendations, continue-watching and what is new: whose history is read, and what it yields.
use terminus::http::{HttpReply, HttpRequest};
use terminus::json::Json;
use terminus::media::clients::plex::PlexClient;
use terminus::media::clients::radarr::RadarrClient;
use terminus::media::clients::sonarr::SonarrClient;
use terminus::media::recommend::{
    build_taste_profile, extract_candidates, extract_tags, filter_to_account, item_account_id,
    resolve_history_scope, score_recommendations, suggest, HistoryScope, LibraryCandidate,
    MediaOnDeck, MediaRecentlyAdded, MediaRecommend, Rating, RecommendReplies, RecommendStep,
    Recommendation, Suggestion, TasteEntry, TasteProfile,
};
use terminus::tool::{CallerContext, Step, ToolError};

const OPERATOR_ACCOUNT: &str = "acct-operator";
const OTHER_MEMBER_ACCOUNT: &str = "acct-other";

fn j(text: &str) -> Json {
    Json::parse(text).expect("valid JSON")
}

fn caller_for(account: &str) -> CallerContext {
    CallerContext::minted(false, false, Some(account))
}

fn guest() -> CallerContext {
    CallerContext::untrusted()
}

fn plex() -> Option<PlexClient> {
    Some(PlexClient::new("http://plex.test", "t"))
}

fn radarr() -> Option<RadarrClient> {
    Some(RadarrClient::new("http://radarr.test", "k"))
}

fn answered(status: u16, body: &str) -> HttpReply {
    HttpReply::Answered { status, body: Ok(body.to_string()) }
}

/// The weight of a watch that so many others came after.
fn weight(rank: usize) -> f64 {
    1.0 / (1.0 + rank as f64 * 0.25)
}

fn total(ranks: &Vec<usize>) -> f64 {
    ranks.iter().fold(0.0, |sum, r| sum + weight(*r))
}

fn score(s: &Suggestion) -> f64 {
    let genres = s.genre_recencies.iter().fold(0.0, |sum, r| sum + total(r));
    s.director_recencies.iter().fold(genres, |sum, r| sum + total(r) * 1.5)
}

fn shown(value: f64) -> String {
    format!("{:?}", (value * 1000.0).round() / 1000.0)
}

fn scored(suggestions: Vec<Suggestion>) -> Vec<Recommendation> {
    suggestions
        .into_iter()
        .map(|s| {
            let value = score(&s);
            s.scored(value.to_bits(), shown(value))
        })
        .collect()
}

/// Runs the tool. `reply` answers the requests that are sent.
fn run(
    tool: &MediaRecommend,
    args: &str,
    caller: &CallerContext,
    reply: &mut dyn FnMut(HttpRequest) -> HttpReply,
) -> Result<Json, ToolError> {
    let args = j(args);
    let mut replies = None;
    let mut ratings = Vec::new();
    loop {
        match tool.run(&args, caller, &replies, &ratings) {
            RecommendStep::Done(answer) => return Ok(answer),
            RecommendStep::Failed(e) => return Err(e),
            RecommendStep::Ask(requests) => {
                replies = Some(RecommendReplies {
                    history: requests.history.map(|r| reply(r)),
                    radarr: requests.radarr.map(|r| reply(r)),
                    sonarr: requests.sonarr.map(|r| reply(r)),
                });
            }
            RecommendStep::Rate(suggestions) => {
                ratings = suggestions
                    .iter()
                    .map(|s| Rating { score: score(s).to_bits(), shown: shown(score(s)) })
                    .collect();
            }
        }
    }
}

fn structured(answer: &Json) -> &Json {
    answer.get("structured").expect("structured part")
}

fn recommendations(answer: &Json) -> &Vec<Json> {
    structured(answer).array_at("recommendations").expect("recommendations")
}

fn library(title: &str, media_type: &str, genres: &[&str], directors: &[&str]) -> LibraryCandidate {
    LibraryCandidate {
        title: title.to_string(),
        media_type: media_type.to_string(),
        genres: genres.iter().map(|g| g.to_string()).collect(),
        directors: directors.iter().map(|d| d.to_string()).collect(),
    }
}

fn entry(title: Option<&str>, genres: &[&str], directors: &[&str]) -> TasteEntry {
    TasteEntry {
        title: title.map(|t| t.to_string()),
        genres: genres.iter().map(|g| g.to_string()).collect(),
        directors: directors.iter().map(|d| d.to_string()).collect(),
    }
}

// ── one call ────────────────────────────────────────────────────────────────

#[test]
fn stateless_module_makes_no_memory_calls() {
    let tool = MediaRecommend {
        plex: plex(),
        radarr: radarr(),
        sonarr: Some(SonarrClient::new("http://sonarr.test", "k")),
    };
    let plan = MediaRecommend::plan(&j("{}"), &caller_for(OPERATOR_ACCOUNT)).unwrap();
    let requests = tool.requests(&plan);
    let asked = |r: Option<HttpRequest>| r.expect("a request").url;
    assert_eq!(asked(requests.history), "http://plex.test/status/sessions/history/all");
    assert_eq!(asked(requests.radarr), "http://radarr.test/api/v3/movie");
    assert_eq!(asked(requests.sonarr), "http://sonarr.test/api/v3/series");
}

#[test]
fn media_recommend_works_fully_with_only_plex_and_arr_clients() {
    let tool = MediaRecommend { plex: plex(), radarr: radarr(), sonarr: None };
    let parsed = run(&tool, "{}", &caller_for(OPERATOR_ACCOUNT), &mut |r| {
        if r.url.starts_with("http://plex.test") {
            answered(
                200,
                r#"{ "MediaContainer": { "Metadata": [
                    { "title": "Dune", "Genre": [{"tag": "Science Fiction"}], "viewedAt": 2000,
                      "accountID": "acct-operator" },
                    { "title": "Blade Runner 2049", "Genre": [{"tag": "Science Fiction"}],
                      "viewedAt": 1000, "accountID": "acct-operator" } ] } }"#,
            )
        } else {
            answered(
                200,
                r#"[ { "title": "Arrival", "genres": ["Science Fiction"] },
                     { "title": "The Great British Bake Off Movie", "genres": ["Comedy"] } ]"#,
            )
        }
    })
    .unwrap();
    assert_eq!(structured(&parsed).bool_at("thin_signal"), Some(false));
    let recs = recommendations(&parsed);
    assert!(!recs.is_empty());
    assert_eq!(recs[0].str_at("title"), Some("Arrival"));
    assert!(recs[0].str_at("rationale").unwrap().contains("Dune"));
    // Two watches of the genre: 1 for the latest, 0.8 for the one before.
    assert_eq!(recs[0].get("score"), Some(&Json::Float("1.8".to_string())));
}

// ── profiles and suggestions ────────────────────────────────────────────────

#[test]
fn build_taste_profile_weights_recent_watches_more() {
    let history = j(r#"[
        { "title": "Old Movie", "Genre": [{"tag": "Drama"}], "viewedAt": 100 },
        { "title": "New Movie", "Genre": [{"tag": "Comedy"}], "viewedAt": 999999 } ]"#);
    let profile = build_taste_profile(history.as_array().unwrap());
    let comedy = total(&profile.recencies("Comedy", false));
    let drama = total(&profile.recencies("Drama", false));
    assert_eq!(comedy, 1.0);
    assert_eq!(drama, 0.8);
    assert!(comedy > drama);
}

#[test]
fn build_taste_profile_tracks_watched_titles() {
    let history = j(r#"[{ "title": "Dune", "Genre": [] }]"#);
    let profile = build_taste_profile(history.as_array().unwrap());
    assert!(profile.has_watched("dune"));
}

#[test]
fn score_recommendations_excludes_already_watched() {
    let profile =
        TasteProfile { entries: vec![entry(Some("arrival"), &["Science Fiction"], &[])] };
    let candidates = vec![
        library("Arrival", "movie", &["Science Fiction"], &[]),
        library("Dune", "movie", &["Science Fiction"], &[]),
    ];
    let recs = score_recommendations(&scored(suggest(&profile, &candidates)), 10);
    assert_eq!(recs.len(), 1);
    assert_eq!(recs[0].title, "Dune");
}

#[test]
fn score_recommendations_ranks_genre_overlap_above_no_overlap() {
    let profile = TasteProfile { entries: vec![entry(None, &["Science Fiction"], &[])] };
    let candidates = vec![
        library("Cooking Show", "tv", &["Food"], &[]),
        library("Dune", "movie", &["Science Fiction"], &[]),
    ];
    let recs = score_recommendations(&scored(suggest(&profile, &candidates)), 10);
    assert_eq!(recs[0].title, "Dune");
    assert!(f64::from_bits(recs[0].score) > f64::from_bits(recs[1].score));
}

#[test]
fn score_recommendations_director_match_outweighs_genre_only() {
    let profile = TasteProfile {
        entries: vec![entry(None, &["Science Fiction"], &["Denis Villeneuve"])],
    };
    let candidates = vec![
        library("Generic Sci-Fi", "movie", &["Science Fiction"], &[]),
        library("Dune", "movie", &["Science Fiction"], &["Denis Villeneuve"]),
    ];
    let recs = score_recommendations(&scored(suggest(&profile, &candidates)), 10);
    assert_eq!(recs[0].title, "Dune");
    assert_eq!(f64::from_bits(recs[0].score), 2.5);
}

#[test]
fn no_more_are_recommended_than_asked_for() {
    let profile = TasteProfile { entries: vec![] };
    let candidates = vec![
        library("A", "movie", &[], &[]),
        library("B", "movie", &[], &[]),
        library("C", "movie", &[], &[]),
    ];
    let recs = score_recommendations(&scored(suggest(&profile, &candidates)), 2);
    let titles: Vec<&str> = recs.iter().map(|r| r.title.as_str()).collect();
    assert_eq!(titles, vec!["A", "B"]);
}

#[test]
fn a_profile_is_newest_first_whatever_the_order_of_the_history() {
    let history = j(r#"[
        { "title": "B", "viewedAt": 20 }, { "title": "C" }, { "title": "A", "viewedAt": 30 },
        { "title": "D" } ]"#);
    let profile = build_taste_profile(history.as_array().unwrap());
    let titles: Vec<&str> =
        profile.entries.iter().filter_map(|e| e.title.as_deref()).collect();
    assert_eq!(titles, vec!["A", "B", "C", "D"]);
}

#[test]
fn two_orders_of_one_history_give_one_profile() {
    let a = j(r#"{ "title": "A", "viewedAt": 30, "Genre": [{ "tag": "Drama" }] }"#);
    let b = j(r#"{ "title": "B", "viewedAt": 20, "Genre": [{ "tag": "Drama" }] }"#);
    let c = j(r#"{ "title": "C", "viewedAt": 10, "Director": [{ "tag": "Someone" }] }"#);
    let orders = [[&a, &b, &c], [&a, &c, &b], [&b, &a, &c], [&b, &c, &a], [&c, &a, &b], [&c, &b, &a]];
    let profiles: Vec<_> = orders
        .iter()
        .map(|order| build_taste_profile(&order.iter().map(|item| item.copy()).collect()))
        .collect();
    assert!(profiles.iter().all(|p| *p == profiles[0]));
    let titles: Vec<&str> =
        profiles[0].entries.iter().filter_map(|e| e.title.as_deref()).collect();
    assert_eq!(titles, vec!["A", "B", "C"]);
    assert!(profiles.iter().all(|p| p.has_watched(" b ") && !p.has_watched("D")));
}

#[test]
fn the_best_scores_are_shown_first() {
    let rec = |title: &str, value: f64| Recommendation {
        title: title.to_string(),
        media_type: "movie".to_string(),
        score: value.to_bits(),
        shown_score: shown(value),
        matched_genres: Vec::new(),
        rationale: String::new(),
    };
    let all = vec![rec("A", 0.5), rec("B", 2.0), rec("C", 0.5), rec("D", 1.0)];
    let titles: Vec<String> =
        score_recommendations(&all, 3).into_iter().map(|r| r.title).collect();
    assert_eq!(titles, vec!["B", "D", "A"]);
}

#[test]
fn tags_come_as_texts_or_as_blocks() {
    let item = j(r#"{ "genres": ["A", 4, "B"], "Genre": [{"tag": "C"}, {"name": "D"}] }"#);
    assert_eq!(extract_tags(&item, "genres"), vec!["A", "B"]);
    assert_eq!(extract_tags(&item, "Genre"), vec!["C"]);
    assert_eq!(item_account_id(&j(r#"{ "accountID": 7 }"#)).as_deref(), Some("7"));
    assert_eq!(item_account_id(&j("{}")), None);
    let mut out = Vec::new();
    extract_candidates(&vec![j(r#"{ "title": "A" }"#), j("{}")], "movie", &mut out);
    assert_eq!(out.len(), 1);
}

// ── degraded answers ────────────────────────────────────────────────────────

#[test]
fn media_recommend_sparse_history_falls_back_to_library_with_thin_signal_note() {
    let tool = MediaRecommend { plex: plex(), radarr: radarr(), sonarr: None };
    let parsed = run(&tool, "{}", &caller_for(OPERATOR_ACCOUNT), &mut |r| {
        if r.url.starts_with("http://plex.test") {
            answered(200, r#"{ "MediaContainer": { "Metadata": [] } }"#)
        } else {
            answered(200, r#"[{ "title": "Arrival", "genres": ["Science Fiction"] }]"#)
        }
    })
    .unwrap();
    assert_eq!(structured(&parsed).bool_at("thin_signal"), Some(true));
    assert_eq!(structured(&parsed).bool_at("personalized"), Some(true));
    assert!(parsed.str_at("summary").unwrap().to_lowercase().contains("library"));
}

#[test]
fn media_recommend_plex_unreachable_degrades_to_arr_trending_not_panic() {
    let tool = MediaRecommend { plex: plex(), radarr: radarr(), sonarr: None };
    let result = run(&tool, "{}", &caller_for(OPERATOR_ACCOUNT), &mut |r| {
        if r.url.starts_with("http://plex.test") {
            answered(500, "")
        } else {
            answered(200, r#"[{ "title": "Arrival", "genres": ["Science Fiction"] }]"#)
        }
    });
    let parsed = result.expect("Plex being unreachable must degrade, not fail the tool");
    assert!(structured(&parsed).str_at("degraded").unwrap().to_lowercase().contains("plex"));
    assert!(!recommendations(&parsed).is_empty());
}

#[test]
fn media_recommend_no_services_configured_returns_friendly_empty_not_error() {
    let tool = MediaRecommend { plex: None, radarr: None, sonarr: None };
    let parsed = run(&tool, "{}", &caller_for(OPERATOR_ACCOUNT), &mut |r| {
        panic!("nothing is configured, yet {} was asked", r.url)
    })
    .expect("an answer");
    assert_eq!(recommendations(&parsed).len(), 0);
}

// ── whose history ───────────────────────────────────────────────────────────

#[test]
fn multi_user_history_is_scoped_to_one_account_not_blended() {
    let history = j(r#"[
        { "title": "Kids Show", "Genre": [{"tag": "Animation"}], "accountID": "acct-other",
          "viewedAt": 500 },
        { "title": "Dune", "Genre": [{"tag": "Science Fiction"}], "accountID": "acct-operator",
          "viewedAt": 1000 } ]"#);
    let scoped = filter_to_account(history.as_array().unwrap(), OPERATOR_ACCOUNT);
    assert_eq!(scoped.len(), 1);
    let profile = build_taste_profile(&scoped);
    assert!(!profile.recencies("Science Fiction", false).is_empty());
    assert!(
        profile.recencies("Animation", false).is_empty(),
        "the other account's genre must not leak in"
    );
}

#[test]
fn history_without_an_account_signal_is_dropped_when_scoping() {
    let history = j(r#"[
        { "title": "Dune", "Genre": [{"tag": "Science Fiction"}], "accountID": "acct-operator" },
        { "title": "Unattributed", "Genre": [{"tag": "Animation"}] } ]"#);
    let scoped = filter_to_account(history.as_array().unwrap(), OPERATOR_ACCOUNT);
    assert_eq!(scoped.len(), 1);
    assert_eq!(scoped[0].str_at("title"), Some("Dune"));
}

#[test]
fn scope_with_no_argument_comes_from_the_caller_not_the_history() {
    assert_eq!(
        resolve_history_scope(None, &caller_for(OPERATOR_ACCOUNT)).unwrap(),
        HistoryScope::Account(OPERATOR_ACCOUNT.to_string())
    );
}

#[test]
fn scope_naming_your_own_account_is_allowed() {
    assert_eq!(
        resolve_history_scope(Some(OPERATOR_ACCOUNT), &caller_for(OPERATOR_ACCOUNT)).unwrap(),
        HistoryScope::Account(OPERATOR_ACCOUNT.to_string())
    );
}

#[test]
fn scope_naming_another_members_account_is_refused_not_ignored() {
    let err = resolve_history_scope(Some(OTHER_MEMBER_ACCOUNT), &caller_for(OPERATOR_ACCOUNT))
        .unwrap_err();
    assert!(matches!(err, ToolError::InvalidArgument(_)));
    let msg = err.message();
    assert!(!msg.contains(OTHER_MEMBER_ACCOUNT) && !msg.contains(OPERATOR_ACCOUNT));
}

#[test]
fn scope_for_an_unmapped_caller_is_unentitled_and_any_account_id_is_refused() {
    assert_eq!(resolve_history_scope(None, &guest()).unwrap(), HistoryScope::Unentitled);
    assert!(matches!(
        resolve_history_scope(Some(OTHER_MEMBER_ACCOUNT), &guest()),
        Err(ToolError::InvalidArgument(_))
    ));
    assert!(matches!(
        resolve_history_scope(Some("acct-anything"), &guest()),
        Err(ToolError::InvalidArgument(_))
    ));
}

const HOUSEHOLD_HISTORY: &str = r#"{ "MediaContainer": { "Metadata": [
    { "title": "Placeholder Other-Member Title", "Genre": [{"tag": "Animation"}],
      "accountID": "acct-other", "viewedAt": 9000 },
    { "title": "Placeholder Operator Title", "Genre": [{"tag": "Science Fiction"}],
      "accountID": "acct-operator", "viewedAt": 100 } ] } }"#;

const HOUSEHOLD_LIBRARY: &str =
    r#"[ { "title": "Placeholder Library Movie", "genres": ["Animation"] } ]"#;

fn household(request: &HttpRequest) -> HttpReply {
    if request.url.starts_with("http://plex.test") {
        answered(200, HOUSEHOLD_HISTORY)
    } else {
        answered(200, HOUSEHOLD_LIBRARY)
    }
}

#[test]
fn guest_with_no_account_id_gets_no_personalisation_and_reads_no_history() {
    let tool = MediaRecommend { plex: plex(), radarr: radarr(), sonarr: None };
    let mut history_reads = 0;
    let parsed = run(&tool, "{}", &guest(), &mut |r| {
        if r.url.starts_with("http://plex.test") {
            history_reads += 1;
        }
        household(&r)
    })
    .unwrap();
    assert_eq!(
        history_reads, 0,
        "an unentitled caller must not cause ANY read of household watch history"
    );
    assert_eq!(structured(&parsed).bool_at("personalized"), Some(false));
    let result = parsed.render();
    assert!(!result.contains("Placeholder Other-Member Title"));
    assert!(!result.contains(OTHER_MEMBER_ACCOUNT));
    assert!(!result.to_lowercase().contains("because you watched"));
    for rec in recommendations(&parsed) {
        assert!(rec.array_at("matched_genres").unwrap().is_empty());
        assert_eq!(rec.get("score"), Some(&Json::Float("0.0".to_string())));
    }
}

#[test]
fn guest_requesting_another_members_account_is_refused_and_leaks_nothing() {
    let tool = MediaRecommend { plex: plex(), radarr: radarr(), sonarr: None };
    let mut reads = 0;
    let result = run(&tool, r#"{ "account_id": "acct-other" }"#, &guest(), &mut |r| {
        reads += 1;
        household(&r)
    });
    let err = result.expect_err("naming another account must be refused, not silently honoured");
    assert!(matches!(err, ToolError::InvalidArgument(_)));
    assert!(!err.message().contains("Placeholder Other-Member Title"));
    assert!(!err.message().contains(OTHER_MEMBER_ACCOUNT));
    assert_eq!(reads, 0, "a refused request must not read history either");
}

#[test]
fn entitled_member_requesting_another_members_account_is_refused() {
    let tool = MediaRecommend { plex: None, radarr: None, sonarr: None };
    let result = run(
        &tool,
        r#"{ "account_id": "acct-other" }"#,
        &caller_for(OPERATOR_ACCOUNT),
        &mut |r| household(&r),
    );
    assert!(matches!(result, Err(ToolError::InvalidArgument(_))));
}

#[test]
fn operator_with_no_account_id_still_gets_their_own_profile_attributed() {
    let tool = MediaRecommend { plex: plex(), radarr: radarr(), sonarr: None };
    let parsed = run(&tool, "{}", &caller_for(OPERATOR_ACCOUNT), &mut |r| {
        if r.url.starts_with("http://plex.test") {
            answered(200, HOUSEHOLD_HISTORY)
        } else {
            answered(
                200,
                r#"[ { "title": "Placeholder Sci-Fi Pick", "genres": ["Science Fiction"] },
                     { "title": "Placeholder Animated Pick", "genres": ["Animation"] } ]"#,
            )
        }
    })
    .unwrap();
    assert_eq!(structured(&parsed).bool_at("personalized"), Some(true));
    let recs = recommendations(&parsed);
    assert_eq!(
        recs[0].str_at("title"),
        Some("Placeholder Sci-Fi Pick"),
        "the operator's OWN genre must rank first"
    );
    assert!(recs[0].str_at("rationale").unwrap().contains("Placeholder Operator Title"));
    assert!(!parsed.render().contains("Placeholder Other-Member Title"));
}

#[test]
fn execute_without_a_caller_is_the_unentitled_path() {
    let tool = MediaRecommend { plex: plex(), radarr: radarr(), sonarr: None };
    let parsed =
        run(&tool, "{}", &CallerContext::default(), &mut |r| household(&r)).unwrap();
    assert_eq!(structured(&parsed).bool_at("personalized"), Some(false));
    assert!(!parsed.render().contains("Placeholder Other-Member Title"));
}

// ── continue watching and what is new ───────────────────────────────────────

const ON_DECK: &str =
    r#"{ "MediaContainer": { "Metadata": [{ "title": "Placeholder On Deck Title" }] } }"#;

fn on_deck(
    tool: &MediaOnDeck,
    caller: &CallerContext,
    token_account: Option<&str>,
    reads: &mut usize,
) -> Result<Json, ToolError> {
    let mut replies = Vec::new();
    loop {
        match tool.run(caller, token_account, &replies) {
            Step::Done(answer, _) => return Ok(answer),
            Step::Failed(e, _) => return Err(e),
            Step::Send(request) => {
                assert_eq!(request.url, "http://plex.test/library/onDeck");
                *reads += 1;
                replies.push(answered(200, ON_DECK));
            }
        }
    }
}

#[test]
fn media_on_deck_returns_current_items_for_the_account_it_belongs_to() {
    let tool = MediaOnDeck { plex: plex() };
    let parsed =
        on_deck(&tool, &caller_for(OPERATOR_ACCOUNT), Some(OPERATOR_ACCOUNT), &mut 0).unwrap();
    let titles = structured(&parsed).array_at("titles").unwrap();
    assert_eq!(titles[0].as_str(), Some("Placeholder On Deck Title"));
    assert_eq!(structured(&parsed).bool_at("personalized"), Some(true));
}

#[test]
fn media_on_deck_withholds_household_state_from_a_guest() {
    let tool = MediaOnDeck { plex: plex() };
    let mut reads = 0;
    let parsed = on_deck(&tool, &guest(), Some(OPERATOR_ACCOUNT), &mut reads).unwrap();
    assert_eq!(reads, 0, "an unentitled caller must not cause an on-deck read");
    assert!(!parsed.render().contains("Placeholder On Deck Title"));
    assert_eq!(structured(&parsed).bool_at("personalized"), Some(false));
    assert_eq!(structured(&parsed).int_at("count"), Some(0));
    assert!(structured(&parsed).array_at("titles").unwrap().is_empty());
}

#[test]
fn media_on_deck_withholds_from_a_different_household_member() {
    let tool = MediaOnDeck { plex: plex() };
    let mut reads = 0;
    let parsed =
        on_deck(&tool, &caller_for(OTHER_MEMBER_ACCOUNT), Some(OPERATOR_ACCOUNT), &mut reads)
            .unwrap();
    assert_eq!(reads, 0);
    assert!(!parsed.render().contains("Placeholder On Deck Title"));
}

#[test]
fn media_on_deck_withholds_when_the_token_account_is_unconfigured() {
    let tool = MediaOnDeck { plex: plex() };
    let mut reads = 0;
    let parsed = on_deck(&tool, &caller_for(OPERATOR_ACCOUNT), None, &mut reads).unwrap();
    assert_eq!(reads, 0);
    assert!(!parsed.render().contains("Placeholder On Deck Title"));
}

#[test]
fn media_on_deck_not_configured_for_an_entitled_caller_without_client() {
    let tool = MediaOnDeck { plex: None };
    let result = on_deck(&tool, &caller_for(OPERATOR_ACCOUNT), Some(OPERATOR_ACCOUNT), &mut 0);
    assert!(matches!(result, Err(ToolError::NotConfigured(_))));
}

#[test]
fn media_on_deck_withheld_answer_does_not_reveal_configuration_state() {
    let with_client = MediaOnDeck { plex: plex() };
    let without_client = MediaOnDeck { plex: None };
    assert_eq!(
        on_deck(&with_client, &guest(), Some(OPERATOR_ACCOUNT), &mut 0).unwrap(),
        on_deck(&without_client, &guest(), Some(OPERATOR_ACCOUNT), &mut 0).unwrap()
    );
}

fn recently_added(body: &str) -> Json {
    let tool = MediaRecentlyAdded { plex: plex() };
    match tool.execute(&Vec::new()) {
        Step::Send(request) => assert_eq!(request.url, "http://plex.test/library/recentlyAdded"),
        other => panic!("expected a request, got {other:?}"),
    }
    match tool.execute(&vec![answered(200, body)]) {
        Step::Done(answer, _) => answer,
        other => panic!("expected an answer, got {other:?}"),
    }
}

#[test]
fn media_recently_added_returns_new_items() {
    let parsed =
        recently_added(r#"{ "MediaContainer": { "Metadata": [{ "title": "New Arrival" }] } }"#);
    let titles = structured(&parsed).array_at("titles").unwrap();
    assert_eq!(titles[0].as_str(), Some("New Arrival"));
}

#[test]
fn media_recently_added_empty_is_friendly_not_error() {
    let parsed = recently_added(r#"{ "MediaContainer": { "Metadata": [] } }"#);
    assert_eq!(structured(&parsed).int_at("count"), Some(0));
    assert!(parsed.str_at("summary").unwrap().to_lowercase().contains("nothing"));
}

#[test]
fn media_recently_added_needs_a_client() {
    let tool = MediaRecentlyAdded { plex: None };
    assert!(matches!(
        tool.execute(&Vec::new()),
        Step::Failed(ToolError::NotConfigured(_), _)
    ));
}

#[test]
fn recommend_tool_metadata_is_valid() {
    let recommend = MediaRecommend::info();
    assert_eq!(recommend.name, "media_recommend");
    assert!(!recommend.description.is_empty());
    assert_eq!(recommend.parameters.str_at("type"), Some("object"));

    let on_deck = MediaOnDeck::info();
    assert_eq!(on_deck.name, "media_on_deck");
    assert!(!on_deck.description.is_empty());

    let recently_added = MediaRecentlyAdded::info();
    assert_eq!(recently_added.name, "media_recently_added");
    assert!(!recently_added.description.is_empty());
}
