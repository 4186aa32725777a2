//! Finding titles, and saying where they are.
use terminus::http::{HttpReply, HttpRequest};
use terminus::json::Json;
use terminus::media::clients::plex::PlexClient;
use terminus::media::clients::radarr::RadarrClient;
use terminus::media::clients::sonarr::SonarrClient;
use terminus::media::clients::tmdb::TmdbClient;
use terminus::media::search::{
    build_search_response, compare_item, conclude, extract_candidates, find_by_title, is_ambiguous,
    normalize, rank_candidates, title_similarity, try_extract_candidates, Candidate, Heard, Inquiry,
    MediaSearch, MediaStatus, Rating, Score, SearchStep, ServiceCheck, Similarity, StatusSource,
    StatusStep, CLOSE_DELTA, RELEVANCE_FLOOR, STRONG_MATCH,
};
use terminus::number::{float_rank, nearest_number, whole_number};
use terminus::tool::ToolError;

fn j(text: &str) -> Json {
    Json::parse(text).expect("valid JSON")
}

/// What a comparison is worth, from 0 to 1.
fn worth(similarity: Similarity) -> f64 {
    match similarity {
        Similarity::Unrelated => 0.0,
        Similarity::Exact => 1.0,
        Similarity::Substring { shorter, longer } => 0.6 + 0.3 * (shorter as f64 / longer as f64),
        Similarity::Words { shared, together } => (shared as f64 / together as f64) * 0.55,
    }
}

fn score(value: f64) -> Score {
    Score::from_bits(value.to_bits()).expect("a score from 0 to 1")
}

fn shown(value: f64) -> String {
    format!("{:?}", (value * 1000.0).round() / 1000.0)
}

fn ranked(results: &Vec<Json>, query: &str) -> Vec<Candidate> {
    let scored: Vec<Candidate> = try_extract_candidates(results, query)
        .expect("whole years")
        .into_iter()
        .map(|found| {
            let value = worth(found.similarity);
            found.scored(score(value), shown(value))
        })
        .collect();
    rank_candidates(&scored)
}

fn candidate(title: &str, tmdb_id: i64, year: Option<&str>, popularity: f64, value: f64) -> Candidate {
    Candidate {
        title: title.to_string(),
        tmdb_id,
        media_type: "movie".to_string(),
        year: year.map(|y| y.to_string()),
        popularity: popularity.to_bits(),
        score: score(value),
        shown_score: shown(value),
    }
}

fn answered(status: u16, body: &str) -> HttpReply {
    HttpReply::Answered { status, body: Ok(body.to_string()) }
}

fn structured(answer: &Json) -> &Json {
    answer.get("structured").expect("structured part")
}

/// Searches against a catalogue that answers `body`.
fn search(query: &str, body: &str) -> Result<Json, ToolError> {
    let tool = MediaSearch { client: Some(TmdbClient::new("http://tmdb.test", "testkey")) };
    let args = j(&format!(r#"{{ "query": "{query}" }}"#));
    let mut reply = None;
    let mut ratings = Vec::new();
    loop {
        match tool.execute(&args, &reply, &ratings) {
            SearchStep::Done(answer) => return Ok(answer),
            SearchStep::Failed(e) => return Err(e),
            SearchStep::CutDate => panic!("a date was cut"),
            SearchStep::Send(request) => {
                assert_eq!(request.url, "http://tmdb.test/search/multi");
                assert!(request.query.iter().any(|(n, v)| n == "query" && v == query));
                reply = Some(answered(200, body));
            }
            SearchStep::Rate(comparisons) => {
                ratings = comparisons
                    .into_iter()
                    .map(|c| Rating { score: score(worth(c)), shown: shown(worth(c)) })
                    .collect();
            }
        }
    }
}

// ── comparing titles ────────────────────────────────────────────────────────

#[test]
fn title_similarity_exact_match_scores_one() {
    assert_eq!(worth(title_similarity("Dune", "dune")), 1.0);
}

#[test]
fn title_similarity_unrelated_scores_low() {
    let value = worth(title_similarity("Dune", "The Great British Bake Off"));
    assert!(value < f64::from_bits(RELEVANCE_FLOOR));
}

#[test]
fn the_bounds_are_the_numbers_they_stand_for() {
    assert_eq!(f64::from_bits(RELEVANCE_FLOOR), 0.2);
    assert_eq!(f64::from_bits(STRONG_MATCH), 0.75);
    assert_eq!(f64::from_bits(CLOSE_DELTA), 0.15);
}

#[test]
fn similarity_counts_letters_and_words() {
    assert_eq!(
        title_similarity("dune", "Dune Messiah"),
        Similarity::Substring { shorter: 4, longer: 12 }
    );
    assert_eq!(
        title_similarity("the red house", "the blue house"),
        Similarity::Words { shared: 2, together: 4 }
    );
    assert_eq!(title_similarity("  ", "Dune"), Similarity::Unrelated);
    assert_eq!(normalize("  DÜNE "), "düne");
}

#[test]
fn similarity_is_the_same_both_ways_and_exact_only_between_equals() {
    let titles = ["Dune", "dune ", "Dune Messiah", "messiah of dune", "The Bear", "", "é"];
    for a in titles {
        for b in titles {
            let found = title_similarity(a, b);
            assert_eq!(found, title_similarity(b, a), "{a:?} {b:?}");
            let equal = normalize(a) == normalize(b) && !normalize(a).is_empty();
            assert_eq!(found == Similarity::Exact, equal, "{a:?} {b:?}");
            match found {
                Similarity::Substring { shorter, longer } => {
                    assert!(0 < shorter && shorter < longer);
                    assert!(worth(found) > 0.6 && worth(found) < 0.9);
                }
                Similarity::Words { shared, together } => {
                    assert!(shared <= together && 0 < together);
                    assert!(worth(found) <= 0.55);
                }
                Similarity::Unrelated => assert_eq!(worth(found), 0.0),
                Similarity::Exact => assert_eq!(worth(found), 1.0),
            }
        }
    }
    let same = worth(title_similarity("Dune", "dune"));
    let within = worth(title_similarity("dune", "dune messiah and much more of it"));
    let reordered = worth(title_similarity("dune messiah", "messiah dune"));
    assert!(same > within && within > reordered && reordered > 0.0);
    assert_eq!(
        title_similarity("dune messiah", "messiah dune"),
        Similarity::Words { shared: 2, together: 2 }
    );
}

#[test]
fn a_score_is_a_number_from_zero_to_one() {
    assert_eq!(Score::from_bits(1.0f64.to_bits()).map(|s| s.bits()), Some(1.0f64.to_bits()));
    assert!(Score::from_bits(1.5f64.to_bits()).is_none());
    assert!(Score::from_bits((-0.5f64).to_bits()).is_none());
    assert!(Score::from_bits(f64::NAN.to_bits()).is_none());
}

#[test]
fn ranks_order_numbers_as_they_are_ordered() {
    let values: [f64; 9] = [-1e300, -2.5, -0.0, 0.0, 1e-310, 0.2, 1.0, 500.0, 1e300];
    for a in values {
        for b in values {
            let ranks = float_rank(a.to_bits()).cmp(&float_rank(b.to_bits()));
            assert_eq!(Some(ranks), a.partial_cmp(&b), "{a} against {b}");
        }
    }
}

#[test]
fn numbers_are_whole_or_rounded_to_the_nearest() {
    assert_eq!(whole_number(12.0f64.to_bits()), Some(12));
    assert_eq!(whole_number((-3.0f64).to_bits()), Some(-3));
    assert_eq!(whole_number(0.5f64.to_bits()), None);
    assert_eq!(whole_number(f64::INFINITY.to_bits()), None);
    assert_eq!(nearest_number(2.5f64.to_bits()), Some(3));
    assert_eq!(nearest_number((-2.5f64).to_bits()), Some(-3));
    assert_eq!(nearest_number(2.4999999f64.to_bits()), Some(2));
    assert_eq!(nearest_number(f64::NAN.to_bits()), None);
}

// ── ranking ─────────────────────────────────────────────────────────────────

#[test]
fn rank_candidates_filters_out_persons_and_irrelevant() {
    let results = j(r#"[
        { "media_type": "person", "name": "Denis Villeneuve", "id": 1 },
        { "media_type": "movie", "title": "Dune", "id": 438631, "release_date": "2021-10-01",
          "popularity": 500.0 },
        { "media_type": "tv", "name": "The Great British Bake Off", "id": 99, "popularity": 10.0 }
    ]"#);
    let candidates = ranked(results.as_array().unwrap(), "dune");
    assert_eq!(candidates.len(), 1);
    assert_eq!(candidates[0].title, "Dune");
}

#[test]
fn popularity_only_decides_between_equal_scores() {
    let all = vec![
        candidate("B", 1, None, 5.0, 0.8),
        candidate("A", 2, None, 1.0, 0.9),
        candidate("C", 3, None, 9.0, 0.8),
        candidate("D", 4, None, 5.0, 0.8),
        candidate("E", 5, None, 99.0, 0.1),
    ];
    let ids: Vec<i64> = rank_candidates(&all).iter().map(|c| c.tmdb_id).collect();
    assert_eq!(ids, vec![2, 3, 1, 4]);
}

#[test]
fn a_year_is_cut_from_a_date_only_where_it_is_whole() {
    let results =
        vec![j(r#"{ "media_type": "movie", "title": "Dune", "release_date": "2021-10-01" }"#)];
    let found = extract_candidates(&results, "dune");
    assert_eq!(found[0].year.as_deref(), Some("2021"));
    assert_eq!(found[0].tmdb_id, 0);
    assert_eq!(found[0].popularity, 0.0f64.to_bits());

    let cut = vec![j(r#"{ "media_type": "movie", "title": "Dune", "release_date": "202é" }"#)];
    assert!(try_extract_candidates(&cut, "dune").is_none());
    let short = vec![j(r#"{ "media_type": "movie", "title": "Dune", "release_date": "202" }"#)];
    assert_eq!(try_extract_candidates(&short, "dune").unwrap()[0].year, None);
}

#[test]
fn is_ambiguous_true_for_two_close_strong_matches() {
    let candidates = vec![
        candidate("Dune", 1, Some("2021"), 500.0, 1.0),
        candidate("Dune", 2, Some("1984"), 50.0, 1.0),
    ];
    assert!(is_ambiguous(&candidates));
}

#[test]
fn is_ambiguous_false_for_dominant_top_match() {
    let candidates = vec![
        candidate("Dune", 1, Some("2021"), 500.0, 1.0),
        candidate("Dune Messiah", 2, None, 5.0, 0.3),
    ];
    assert!(!is_ambiguous(&candidates));
}

#[test]
fn is_ambiguous_false_for_single_candidate() {
    let candidates = vec![candidate("Dune", 1, Some("2021"), 500.0, 1.0)];
    assert!(!is_ambiguous(&candidates));
}

#[test]
fn closeness_is_the_rounded_difference_of_the_scores() {
    for (top, second) in [
        (1.0, 0.85),
        (1.0, 0.8499999999999999),
        (0.9, 0.75),
        (0.9000000000000001, 0.75),
        (0.90000000000000013, 0.75),
        (0.95, 0.8),
        (0.95, 0.7999999999999999),
        (0.9, 0.7499999999999999),
        (0.75, 0.75),
    ] {
        let expected = top >= 0.75 && second >= 0.75 && (top - second) <= 0.15;
        let pair = vec![
            candidate("A", 1, None, 1.0, top),
            candidate("B", 2, None, 1.0, second),
        ];
        assert_eq!(is_ambiguous(&pair), expected, "{top} against {second}");
    }
}

#[test]
fn build_search_response_is_narration_shaped_on_no_results() {
    let out = build_search_response("nonexistent xyz", &[]);
    assert!(out.get("summary").is_some());
    assert!(out.get("structured").is_some());
    let summary = out.str_at("summary").expect("summary");
    assert!(summary.to_lowercase().contains("couldn't find"));
    assert_eq!(structured(&out).array_at("candidates").unwrap().len(), 0);
}

// ── searching ───────────────────────────────────────────────────────────────

#[test]
fn media_search_exact_query_resolves_single_candidate() {
    let parsed = search(
        "dune",
        r#"{ "results": [ { "media_type": "movie", "title": "Dune", "id": 438631,
             "release_date": "2021-10-01", "popularity": 500.0 } ] }"#,
    )
    .unwrap();
    assert!(parsed.str_at("summary").unwrap().contains("Dune"));
    assert_eq!(structured(&parsed).bool_at("ambiguous"), Some(false));
    let candidates = structured(&parsed).array_at("candidates").unwrap();
    assert_eq!(candidates.len(), 1);
    assert_eq!(candidates[0].int_at("tmdb_id"), Some(438631));
}

#[test]
fn media_search_fuzzy_query_returns_ranked_candidates() {
    let parsed = search(
        "spy thriller",
        r#"{ "results": [
            { "media_type": "movie", "title": "The Spy Who Loved Thrillers", "id": 1,
              "popularity": 20.0, "release_date": "2010-01-01" },
            { "media_type": "movie", "title": "Gardening for Beginners", "id": 2,
              "popularity": 900.0, "release_date": "2015-01-01" },
            { "media_type": "tv", "name": "Spy Thriller Nights", "id": 3,
              "popularity": 15.0, "first_air_date": "2019-01-01" }
        ] }"#,
    )
    .unwrap();
    let candidates = structured(&parsed).array_at("candidates").unwrap();
    assert!(candidates.iter().all(|c| c.str_at("title") != Some("Gardening for Beginners")));
    assert_eq!(candidates[0].str_at("title"), Some("Spy Thriller Nights"));
}

#[test]
fn media_search_ambiguous_query_returns_options_not_a_guess() {
    let parsed = search(
        "dune",
        r#"{ "results": [
            { "media_type": "movie", "title": "Dune", "id": 438631,
              "release_date": "2021-10-01", "popularity": 500.0 },
            { "media_type": "movie", "title": "Dune", "id": 890,
              "release_date": "1984-12-14", "popularity": 60.0 }
        ] }"#,
    )
    .unwrap();
    assert_eq!(structured(&parsed).bool_at("ambiguous"), Some(true));
    assert_eq!(structured(&parsed).array_at("candidates").unwrap().len(), 2);
    let summary = parsed.str_at("summary").unwrap();
    assert!(summary.contains("2021"));
    assert!(summary.contains("1984"));
    assert!(summary.contains('?'));
}

#[test]
fn media_search_no_matches_returns_friendly_message_not_error() {
    let result = search("asdkfjhaslkdjfh", r#"{ "results": [] }"#);
    assert!(result.is_ok(), "no-match must be a friendly response, not an Err");
    let parsed = result.unwrap();
    assert!(parsed.str_at("summary").unwrap().to_lowercase().contains("couldn't find"));
    assert_eq!(structured(&parsed).array_at("candidates").unwrap().len(), 0);
}

#[test]
fn media_search_empty_query_is_invalid_argument() {
    let result = search("   ", "{}");
    assert!(matches!(result, Err(ToolError::InvalidArgument(_))));
}

#[test]
fn media_search_not_configured_without_client() {
    let tool = MediaSearch { client: None };
    match tool.execute(&j(r#"{ "query": "dune" }"#), &None, &Vec::new()) {
        SearchStep::Failed(ToolError::NotConfigured(_)) => {}
        other => panic!("expected a failure, got {other:?}"),
    }
}

// ── status ──────────────────────────────────────────────────────────────────

fn status(
    tool: &MediaStatus,
    args: &str,
    reply: fn(&HttpRequest) -> HttpReply,
) -> Result<Json, ToolError> {
    let args = j(args);
    let nothing = || Heard { reply: None, scores: Vec::new() };
    let (mut radarr, mut sonarr, mut plex) = (nothing(), nothing(), nothing());
    loop {
        let (source, inquiry) = match tool.execute(&args, &radarr, &sonarr, &plex) {
            StatusStep::Done(answer) => return Ok(answer),
            StatusStep::Failed(e) => return Err(e),
            StatusStep::Pending(source, inquiry) => (source, inquiry),
        };
        let heard = match source {
            StatusSource::Radarr => &mut radarr,
            StatusSource::Sonarr => &mut sonarr,
            StatusSource::Plex => &mut plex,
        };
        match inquiry {
            Inquiry::Send(request) => heard.reply = Some(reply(&request)),
            Inquiry::Rate(all) => {
                heard.scores =
                    all.into_iter().map(|c| c.map(|s| worth(s).to_bits())).collect();
            }
            Inquiry::Concluded(check) => panic!("nothing is left to do: {check:?}"),
        }
    }
}

fn of<'a>(answer: &'a Json, service: &str) -> &'a Json {
    structured(answer).get(service).expect("the service")
}

#[test]
fn media_status_aggregates_all_three_services() {
    let tool = MediaStatus {
        radarr: Some(RadarrClient::new("http://radarr.test", "k")),
        sonarr: Some(SonarrClient::new("http://sonarr.test", "k")),
        plex: Some(PlexClient::new("http://plex.test", "t")),
    };
    let reply = |request: &HttpRequest| match request.url.as_str() {
        "http://radarr.test/api/v3/movie" => {
            answered(200, r#"[{ "title": "Dune", "hasFile": true }]"#)
        }
        "http://sonarr.test/api/v3/series" => {
            answered(200, r#"[{ "title": "Foundation", "monitored": true }]"#)
        }
        "http://plex.test/status/sessions/history/all" => {
            answered(200, r#"{ "MediaContainer": { "Metadata": [{ "title": "Dune" }] } }"#)
        }
        other => panic!("unexpected request to {other}"),
    };
    let parsed = status(&tool, r#"{ "id_or_title": "Dune" }"#, reply).unwrap();
    assert!(parsed.get("summary").is_some());
    assert!(parsed.get("structured").is_some());
    assert_eq!(of(&parsed, "radarr").bool_at("present"), Some(true));
    assert_eq!(of(&parsed, "radarr").get("detail").unwrap().bool_at("hasFile"), Some(true));
    assert_eq!(of(&parsed, "plex").bool_at("present"), Some(true));
    assert_eq!(of(&parsed, "sonarr").bool_at("present"), Some(false));
}

#[test]
fn media_status_degrades_when_a_service_errors() {
    let tool = MediaStatus {
        radarr: Some(RadarrClient::new("http://radarr.test", "k")),
        sonarr: None,
        plex: Some(PlexClient::new("http://plex.test", "t")),
    };
    let reply = |request: &HttpRequest| {
        if request.url.starts_with("http://radarr.test") {
            answered(200, r#"[{ "title": "Dune", "hasFile": true }]"#)
        } else {
            answered(500, "")
        }
    };
    let parsed = status(&tool, r#"{ "id_or_title": "Dune" }"#, reply).unwrap();
    assert_eq!(of(&parsed, "radarr").bool_at("present"), Some(true));
    assert_eq!(of(&parsed, "sonarr").bool_at("configured"), Some(false));
    assert_eq!(of(&parsed, "plex").bool_at("reachable"), Some(false));
    assert!(of(&parsed, "plex").str_at("error").is_some());
}

#[test]
fn media_status_all_unconfigured_still_returns_ok() {
    let tool = MediaStatus { radarr: None, sonarr: None, plex: None };
    let result = status(&tool, r#"{ "id_or_title": "Dune" }"#, |_| answered(200, "[]"));
    let parsed = result.expect("an answer");
    assert_eq!(of(&parsed, "radarr").bool_at("configured"), Some(false));
    assert_eq!(of(&parsed, "sonarr").bool_at("configured"), Some(false));
    assert_eq!(of(&parsed, "plex").bool_at("configured"), Some(false));
}

#[test]
fn media_status_empty_id_or_title_is_invalid_argument() {
    let tool = MediaStatus { radarr: None, sonarr: None, plex: None };
    let result = status(&tool, r#"{ "id_or_title": "" }"#, |_| answered(200, "[]"));
    assert!(matches!(result, Err(ToolError::InvalidArgument(_))));
}

#[test]
fn the_last_of_the_best_items_is_found() {
    let bits = |v: f64| Some(v.to_bits());
    assert_eq!(find_by_title(&vec![bits(0.6), bits(0.9), None, bits(0.9), bits(0.1)]), Some(3));
    assert_eq!(find_by_title(&vec![bits(0.1), None]), None);
    let library = vec![j(r#"{ "title": "A" }"#), j(r#"{ "title": "B" }"#)];
    assert_eq!(
        conclude(&library, &vec![bits(0.3), bits(0.2)]),
        ServiceCheck::Found(library[0].copy())
    );
    assert_eq!(compare_item(&library[0], "a"), Some(Similarity::Exact));
    assert_eq!(compare_item(&j("{}"), "a"), None);
}

#[test]
fn a_reply_with_a_cut_date_has_no_answer() {
    let tool = MediaSearch { client: Some(TmdbClient::new("http://tmdb.test", "k")) };
    let reply = Some(answered(
        200,
        r#"{ "results": [ { "media_type": "movie", "title": "Dune", "release_date": "202é" } ] }"#,
    ));
    let step = tool.execute(&j(r#"{ "query": "dune" }"#), &reply, &Vec::new());
    assert!(matches!(step, SearchStep::CutDate));
}

#[test]
fn search_tool_metadata_is_valid() {
    let search = MediaSearch::info();
    assert_eq!(search.name, "media_search");
    assert!(!search.description.is_empty());
    assert_eq!(search.parameters.str_at("type"), Some("object"));

    let status = MediaStatus::info();
    assert_eq!(status.name, "media_status");
    assert!(!status.description.is_empty());
    assert_eq!(status.parameters.str_at("type"), Some("object"));
}
