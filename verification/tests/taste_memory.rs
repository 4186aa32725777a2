//! Taste memory: when it is on, what it is asked, and what its answers change.
use terminus::http::{Failure, HttpReply, HttpRequest, Method};
use terminus::json::Json;
use terminus::media::clients::plex::PlexClient;
use terminus::media::clients::radarr::RadarrClient;
use terminus::media::clients::sonarr::SonarrClient;
use terminus::media::recommend::{
    MediaRecommend, Rating, RecommendReplies, RecommendStep, Suggestion,
};
use terminus::media::taste_memory::{
    apply_taste_signals, factors, mark_taste_degraded, media_taste_memory_enabled,
    parse_three_state_bool, register, Factor, MediaTasteFeedback, TasteAwareMediaRecommend,
    TasteHeard, TasteMemoryClient, TasteRun, Verdict,
};
use terminus::registry::ToolRegistry;
use terminus::tool::{CallerContext, Step, ToolError};

const OPERATOR_ACCOUNT: &str = "acct-operator";

fn j(text: &str) -> Json {
    Json::parse(text).expect("valid JSON")
}

fn caller_for(account: &str) -> CallerContext {
    CallerContext::minted(false, false, Some(account))
}

fn guest() -> CallerContext {
    CallerContext::untrusted()
}

fn answered(status: u16, body: &str) -> HttpReply {
    HttpReply::Answered { status, body: Ok(body.to_string()) }
}

fn memory() -> Option<TasteMemoryClient> {
    Some(TasteMemoryClient::new("http://taste.test"))
}

fn unconfigured() -> MediaRecommend {
    MediaRecommend { plex: None, radarr: None, sonarr: None }
}

/// The decimal text of a factor's new score: raised by a quarter, halved, or as it was.
fn new_scores(factors: &Vec<Factor>) -> Vec<Option<String>> {
    factors
        .iter()
        .map(|f| {
            let score = f64::from_bits(f.score?);
            match f.verdict {
                Verdict::Liked => Some(format!("{:?}", score * 1.25)),
                Verdict::Disliked => Some(format!("{:?}", score * 0.5)),
                Verdict::Neutral => None,
            }
        })
        .collect()
}

fn enrich(base: Json, signals: &Json) -> Json {
    let scores = new_scores(&factors(&base, signals));
    apply_taste_signals(base, signals, &scores)
}

/// What a suggestion is worth.
fn rating(s: &Suggestion) -> Rating {
    let value: f64 = s
        .genre_recencies
        .iter()
        .flatten()
        .fold(0.0, |sum, rank| sum + 1.0 / (1.0 + *rank as f64 * 0.25));
    Rating { score: value.to_bits(), shown: format!("{value:?}") }
}

/// Runs the tool with memory. `reply` answers the other services; `asked` collects what memory is
/// asked.
fn run_with(
    tool: &TasteAwareMediaRecommend,
    args: &str,
    caller: &CallerContext,
    reply: &dyn Fn(HttpRequest) -> HttpReply,
    signals: HttpReply,
    asked: &mut Vec<HttpRequest>,
) -> Result<Json, ToolError> {
    let args = j(args);
    let mut heard =
        TasteHeard { replies: None, ratings: Vec::new(), signals: None, new_scores: Vec::new() };
    let mut signals = Some(signals);
    loop {
        match tool.run(&args, caller, &heard) {
            TasteRun::Done(answer) => return Ok(answer),
            TasteRun::Base(RecommendStep::Failed(e)) => return Err(e),
            TasteRun::Base(RecommendStep::Ask(requests)) => {
                heard.replies = Some(RecommendReplies {
                    history: requests.history.map(|r| reply(r)),
                    radarr: requests.radarr.map(|r| reply(r)),
                    sonarr: requests.sonarr.map(|r| reply(r)),
                });
            }
            TasteRun::Base(RecommendStep::Rate(all)) => {
                heard.ratings = all.iter().map(rating).collect();
            }
            TasteRun::Base(RecommendStep::Done(_)) => panic!("memory comes after that"),
            TasteRun::AskMemory(request) => {
                asked.push(request);
                heard.signals = signals.take();
            }
            TasteRun::Rescore(all) => heard.new_scores = new_scores(&all),
        }
    }
}

fn run(
    tool: &TasteAwareMediaRecommend,
    args: &str,
    caller: &CallerContext,
    signals: HttpReply,
    asked: &mut Vec<HttpRequest>,
) -> Result<Json, ToolError> {
    run_with(tool, args, caller, &|_| answered(500, ""), signals, asked)
}

fn structured(answer: &Json) -> &Json {
    answer.get("structured").expect("structured part")
}

fn taste(answer: &Json) -> &Json {
    structured(answer).get("taste_memory").expect("taste memory")
}

fn first(answer: &Json) -> &Json {
    &structured(answer).array_at("recommendations").expect("recommendations")[0]
}

// ── the switch ──────────────────────────────────────────────────────────────

#[test]
fn flag_parser_recognizes_true_tokens() {
    for tok in ["1", "true", "TRUE", "on", "On", "yes"] {
        assert_eq!(parse_three_state_bool(Some(tok)), Some(true), "{tok} should parse true");
    }
}

#[test]
fn flag_parser_recognizes_false_tokens() {
    for tok in ["0", "false", "FALSE", "off", "no"] {
        assert_eq!(parse_three_state_bool(Some(tok)), Some(false), "{tok} should parse false");
    }
}

#[test]
fn flag_parser_unset_and_garbage_are_none() {
    assert_eq!(parse_three_state_bool(None), None);
    assert_eq!(parse_three_state_bool(Some("")), None);
    assert_eq!(parse_three_state_bool(Some("maybe")), None);
    assert_eq!(parse_three_state_bool(Some("2")), None);
}

#[test]
fn media_taste_memory_enabled_defaults_off() {
    assert!(!media_taste_memory_enabled(None));
    assert!(!media_taste_memory_enabled(Some("garbage")));
}

#[test]
fn media_taste_memory_enabled_reads_true_tokens() {
    assert!(media_taste_memory_enabled(Some("true")));
}

#[test]
fn flag_off_register_does_not_replace_or_add_tools() {
    let mut reg = ToolRegistry::new();
    terminus::media::recommend::register(&mut reg);
    assert!(reg.contains("media_recommend"));
    assert!(!reg.contains("media_taste_feedback"));
    register(&mut reg, None);
    assert!(reg.contains("media_recommend"));
    assert!(
        !reg.contains("media_taste_feedback"),
        "write-back tool must not be registered when the flag is off"
    );
}

#[test]
fn flag_off_media_recommend_makes_no_facade_calls() {
    let mut reg = ToolRegistry::new();
    terminus::media::recommend::register(&mut reg);
    register(&mut reg, None);
    // The tool that stays offered is the one without memory, and it has nobody else to ask.
    let offered = reg.list().iter().find(|t| t.name == "media_recommend").unwrap();
    assert_eq!(offered, &MediaRecommend::info());
    let tool = MediaRecommend::from_env(
        PlexClient::from_env(None, None),
        RadarrClient::from_env(None, None),
        SonarrClient::from_env(None, None),
    );
    match tool.run(&j("{}"), &guest(), &None, &Vec::new()) {
        RecommendStep::Ask(requests) => assert!(
            requests.history.is_none() && requests.radarr.is_none() && requests.sonarr.is_none()
        ),
        other => panic!("expected requests, got {other:?}"),
    }
}

#[test]
fn flag_on_register_replaces_recommend_and_adds_feedback_tool() {
    let mut reg = ToolRegistry::new();
    terminus::media::recommend::register(&mut reg);
    let before = reg.list().len();
    register(&mut reg, Some("on"));
    assert!(reg.contains("media_recommend"));
    assert!(
        reg.contains("media_taste_feedback"),
        "write-back tool must be registered when the flag is on"
    );
    assert_eq!(reg.list().len(), before + 1);
    let offered = reg.list().iter().find(|t| t.name == "media_recommend").unwrap();
    assert_eq!(offered, &TasteAwareMediaRecommend::info());
}

// ── enrichment ──────────────────────────────────────────────────────────────

const DUNE: &str = r#"{
    "summary": "You might like \"Dune\" -- because you watched Arrival (Science Fiction).",
    "structured": { "thin_signal": false, "degraded": null, "recommendations": [
        { "title": "Dune", "media_type": "movie", "score": 1.0,
          "matched_genres": ["Science Fiction"],
          "rationale": "because you watched Arrival (Science Fiction)" } ] } }"#;

#[test]
fn flag_on_recommendations_incorporate_taste_memory_in_rationale() {
    let client = TasteMemoryClient::new("http://taste.test");
    let request = client.get_signals(None);
    assert_eq!(request.method, Method::Get);
    assert_eq!(request.url, "http://taste.test/media/taste/signals");
    let signals = TasteMemoryClient::signals_reply(&answered(
        200,
        r#"{ "liked_genres": ["Science Fiction"], "notes": ["into slow-burn sci-fi"] }"#,
    ))
    .unwrap();
    let enriched = enrich(j(DUNE), &signals);
    assert_eq!(taste(&enriched).bool_at("applied"), Some(true));
    assert!(enriched.str_at("summary").unwrap().contains("slow-burn sci-fi"));
    assert!(first(&enriched).str_at("rationale").unwrap().contains("you told me"));
    assert_eq!(first(&enriched).get("score"), Some(&Json::Float("1.25".to_string())));
}

#[test]
fn decorator_end_to_end_blends_taste_into_media_recommend() {
    let inner = MediaRecommend::from_env(
        PlexClient::from_env(Some("http://plex.test"), Some("t")),
        RadarrClient::from_env(Some("http://radarr.test"), Some("k")),
        SonarrClient::from_env(None, None),
    );
    let tool = TasteAwareMediaRecommend { inner, client: memory() };
    let reply = |r: HttpRequest| {
        if r.url.starts_with("http://plex.test") {
            answered(
                200,
                r#"{ "MediaContainer": { "Metadata": [ { "title": "Arrival",
                    "Genre": [{"tag": "Science Fiction"}], "viewedAt": 1000,
                    "accountID": "acct-operator" } ] } }"#,
            )
        } else {
            answered(
                200,
                r#"[ { "title": "Dune", "genres": ["Science Fiction"] },
                     { "title": "Cooking Show", "genres": ["Food"] } ]"#,
            )
        }
    };
    let mut asked = Vec::new();
    let signals = answered(200, r#"{ "liked_genres": ["Science Fiction"] }"#);
    let caller = caller_for(OPERATOR_ACCOUNT);
    let parsed = run_with(&tool, "{}", &caller, &reply, signals, &mut asked).unwrap();
    assert_eq!(asked.len(), 1);
    assert_eq!(taste(&parsed).bool_at("applied"), Some(true));
    assert_eq!(first(&parsed).str_at("title"), Some("Dune"));
}

#[test]
fn decorator_no_client_degrades_without_facade_call() {
    let tool = TasteAwareMediaRecommend { inner: unconfigured(), client: None };
    let mut asked = Vec::new();
    let parsed =
        run(&tool, "{}", &caller_for(OPERATOR_ACCOUNT), answered(200, "{}"), &mut asked).unwrap();
    assert!(asked.is_empty());
    assert_eq!(taste(&parsed).bool_at("applied"), Some(false));
    assert!(taste(&parsed).str_at("note").unwrap().contains("not configured"));
}

#[test]
fn decorator_facade_unreachable_degrades_to_stateless_not_error() {
    let tool = TasteAwareMediaRecommend { inner: unconfigured(), client: memory() };
    let replies = vec![
        answered(500, ""),
        HttpReply::Failed(Failure {
            text: "connection refused".to_string(),
            timeout: false,
            connect: true,
            request: true,
        }),
    ];
    for reply in replies {
        let parsed =
            run(&tool, "{}", &caller_for(OPERATOR_ACCOUNT), reply, &mut Vec::new())
                .expect("a facade error must degrade, never fail the tool");
        assert_eq!(taste(&parsed).bool_at("applied"), Some(false));
        assert!(taste(&parsed).str_at("note").unwrap().to_lowercase().contains("unreachable"));
    }
}

#[test]
fn cold_start_empty_signals_applies_without_changing_ranking() {
    let base = j(
        r#"{ "summary": "You might like \"Dune\".",
             "structured": { "recommendations": [
                { "title": "Dune", "media_type": "movie", "score": 1.0,
                  "matched_genres": ["Science Fiction"],
                  "rationale": "because you watched Arrival" } ] } }"#,
    );
    let before_score = first(&base).copy_at("score");
    let enriched = enrich(base, &j("{}"));
    assert_eq!(taste(&enriched).bool_at("applied"), Some(true), "module active even on cold start");
    assert_eq!(
        first(&enriched).get("score"),
        Some(&before_score),
        "no signal must not move the ranking"
    );
    assert_eq!(first(&enriched).str_at("title"), Some("Dune"));
}

#[test]
fn conflicting_like_and_dislike_same_genre_favors_like_not_hard_flip() {
    let base = j(
        r#"{ "summary": "s", "structured": { "recommendations": [
            { "title": "Dune", "media_type": "movie", "score": 1.0,
              "matched_genres": ["Science Fiction"], "rationale": "r" } ] } }"#,
    );
    let signals = j(
        r#"{ "liked_genres": ["Science Fiction"], "disliked_genres": ["Science Fiction"] }"#,
    );
    let enriched = enrich(base, &signals);
    let score: f64 = match first(&enriched).get("score") {
        Some(Json::Float(text)) => text.parse().unwrap(),
        other => panic!("expected a fraction, got {other:?}"),
    };
    assert!(
        score > 1.0,
        "a genre both liked and disliked must resolve to liked (boosted), got {score}"
    );
}

#[test]
fn a_disliked_recommendation_falls_behind() {
    let base = j(
        r#"{ "summary": "s", "structured": { "recommendations": [
            { "title": "A", "score": 1.0, "matched_genres": ["Horror"], "rationale": "r" },
            { "title": "B", "score": 0.75, "matched_genres": ["Drama"], "rationale": "r" } ] } }"#,
    );
    let enriched = enrich(base, &j(r#"{ "disliked_genres": ["Horror"] }"#));
    let recs = structured(&enriched).array_at("recommendations").unwrap();
    assert_eq!(recs[0].str_at("title"), Some("B"));
    assert_eq!(recs[1].get("score"), Some(&Json::Float("0.5".to_string())));
}

#[test]
fn degrading_changes_nothing_but_the_note() {
    let degraded = mark_taste_degraded(j(DUNE), "memory is away");
    assert_eq!(taste(&degraded).str_at("note"), Some("memory is away"));
    assert_eq!(
        structured(&degraded).get("recommendations"),
        structured(&j(DUNE)).get("recommendations")
    );
}

#[test]
fn decorator_facade_invalid_json_degrades_to_stateless() {
    let tool = TasteAwareMediaRecommend { inner: unconfigured(), client: memory() };
    let reply = answered(200, "not valid json");
    let parsed = run(&tool, "{}", &caller_for(OPERATOR_ACCOUNT), reply, &mut Vec::new())
        .expect("an unparseable facade response must degrade, never fail the tool");
    assert_eq!(taste(&parsed).bool_at("applied"), Some(false));
}

// ── recording ───────────────────────────────────────────────────────────────

const WATCHED: &str = r#"{"title": "Dune", "media_type": "movie", "signal": "watched"}"#;

/// Records a signal. `sent` collects what memory is told.
fn record(
    tool: &MediaTasteFeedback,
    args: &str,
    caller: &CallerContext,
    reply: HttpReply,
    sent: &mut Vec<HttpRequest>,
) -> Result<Json, ToolError> {
    let args = j(args);
    match tool.run(&args, caller, &Vec::new()) {
        Step::Send(request) => sent.push(request),
        Step::Done(answer, _) => return Ok(answer),
        Step::Failed(e, _) => return Err(e),
    }
    match tool.run(&args, caller, &vec![reply]) {
        Step::Done(answer, _) => Ok(answer),
        Step::Failed(e, _) => Err(e),
        Step::Send(_) => panic!("one request is enough"),
    }
}

#[test]
fn write_back_posts_engagement_signal_when_configured() {
    let tool = MediaTasteFeedback { client: memory() };
    let mut sent = Vec::new();
    let reply = answered(200, r#"{ "ok": true }"#);
    let parsed = record(&tool, WATCHED, &caller_for(OPERATOR_ACCOUNT), reply, &mut sent).unwrap();
    assert_eq!(sent.len(), 1);
    assert_eq!(sent[0].method, Method::Post);
    assert_eq!(sent[0].url, "http://taste.test/media/taste/engagement");
    assert_eq!(structured(&parsed).bool_at("recorded"), Some(true));
}

#[test]
fn write_back_not_configured_without_client() {
    let tool = MediaTasteFeedback { client: None };
    let result = record(
        &tool,
        WATCHED,
        &caller_for(OPERATOR_ACCOUNT),
        answered(200, "{}"),
        &mut Vec::new(),
    );
    assert!(matches!(result, Err(ToolError::NotConfigured(_))));
}

#[test]
fn write_back_facade_error_does_not_fail_the_tool() {
    let tool = MediaTasteFeedback { client: memory() };
    let parsed = record(
        &tool,
        WATCHED,
        &caller_for(OPERATOR_ACCOUNT),
        answered(500, ""),
        &mut Vec::new(),
    )
    .expect("a failed write-back must not surface as a tool error");
    assert_eq!(structured(&parsed).bool_at("recorded"), Some(false));
}

#[test]
fn write_back_rejects_invalid_signal() {
    let tool = MediaTasteFeedback { client: None };
    let result = record(
        &tool,
        r#"{"title": "Dune", "media_type": "movie", "signal": "bogus"}"#,
        &caller_for(OPERATOR_ACCOUNT),
        answered(200, "{}"),
        &mut Vec::new(),
    );
    assert!(matches!(result, Err(ToolError::InvalidArgument(_))));
}

// ── whose memory ────────────────────────────────────────────────────────────

#[test]
fn guest_gets_no_curation_notes_and_the_facade_is_never_called() {
    let tool = TasteAwareMediaRecommend { inner: unconfigured(), client: memory() };
    let signals = answered(
        200,
        r#"{ "liked_genres": ["Science Fiction"],
             "notes": ["Placeholder Private Curation Note"] }"#,
    );
    let mut asked = Vec::new();
    let parsed = run(&tool, "{}", &guest(), signals, &mut asked).unwrap();
    assert!(asked.is_empty(), "an unentitled caller must not cause ANY curation-memory read");
    let result = parsed.render();
    assert!(!result.contains("Placeholder Private Curation Note"));
    assert!(!result.contains("you told me"));
    assert_eq!(taste(&parsed).bool_at("applied"), Some(false));
    assert_eq!(structured(&parsed).bool_at("personalized"), Some(false));
}

#[test]
fn guest_requesting_another_members_curation_notes_is_refused() {
    let tool = TasteAwareMediaRecommend { inner: unconfigured(), client: memory() };
    let signals = answered(200, r#"{ "notes": ["Placeholder Private Curation Note"] }"#);
    let mut asked = Vec::new();
    let err = run(&tool, r#"{ "account_id": "acct-other" }"#, &guest(), signals, &mut asked)
        .expect_err("naming another member's account must be refused");
    assert!(matches!(err, ToolError::InvalidArgument(_)));
    assert!(asked.is_empty());
    assert!(!err.message().contains("Placeholder Private Curation Note"));
}

#[test]
fn the_facade_is_queried_for_the_callers_own_account() {
    let tool = TasteAwareMediaRecommend { inner: unconfigured(), client: memory() };
    let mut asked = Vec::new();
    run(
        &tool,
        r#"{ "account_id": "acct-operator" }"#,
        &caller_for(OPERATOR_ACCOUNT),
        answered(200, "{}"),
        &mut asked,
    )
    .unwrap();
    assert_eq!(asked.len(), 1);
    assert_eq!(asked[0].url, "http://taste.test/media/taste/signals");
    assert_eq!(
        asked[0].query,
        vec![("account_id".to_string(), OPERATOR_ACCOUNT.to_string())]
    );
}

#[test]
fn write_back_refuses_another_members_account_and_an_unmapped_caller() {
    let tool = MediaTasteFeedback { client: memory() };
    let mut sent = Vec::new();
    let ok = || answered(200, r#"{ "ok": true }"#);
    let foreign = record(
        &tool,
        r#"{"title": "Placeholder", "signal": "watched", "account_id": "acct-other"}"#,
        &caller_for(OPERATOR_ACCOUNT),
        ok(),
        &mut sent,
    );
    assert!(matches!(foreign, Err(ToolError::InvalidArgument(_))));
    let unmapped = record(
        &tool,
        r#"{"title": "Placeholder", "signal": "watched"}"#,
        &guest(),
        ok(),
        &mut sent,
    );
    assert!(matches!(unmapped, Err(ToolError::InvalidArgument(_))));
    assert!(sent.is_empty(), "neither refusal may reach the facade");
}

#[test]
fn write_back_records_against_the_callers_own_account() {
    let tool = MediaTasteFeedback { client: memory() };
    let mut sent = Vec::new();
    record(
        &tool,
        r#"{"title": "Placeholder", "signal": "watched"}"#,
        &caller_for(OPERATOR_ACCOUNT),
        answered(200, r#"{ "ok": true }"#),
        &mut sent,
    )
    .unwrap();
    let body = sent[0].body.as_ref().unwrap();
    assert_eq!(body.str_at("account_id"), Some(OPERATOR_ACCOUNT));
}

#[test]
fn taste_memory_tool_metadata_is_valid() {
    let tool = TasteAwareMediaRecommend::info();
    assert_eq!(tool.name, "media_recommend");
    assert!(!tool.description.is_empty());

    let feedback = MediaTasteFeedback::info();
    assert_eq!(feedback.name, "media_taste_feedback");
    assert!(!feedback.description.is_empty());
    assert_eq!(feedback.parameters.str_at("type"), Some("object"));
}
