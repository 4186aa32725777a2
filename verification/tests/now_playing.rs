//! What is playing now: reading the server's answer, and saying it to those who may know.
use terminus::http::{HttpReply, HttpRequest};
use terminus::json::{Fields, Json};
use terminus::media::clients::plex::{PlexClient, PlexSessionsError};
use terminus::media::now_playing::{
    build_response, container_size, decide, error_response, integral, json_kind,
    may_see_now_playing, num_at, on_session_read, part_decision, progress_ratio, quantity_at, register, server_json,
    session_items, session_json, transcode_reason, LiveHeard, MediaNowPlaying, NowPlayingRun,
    PlaybackDecision, TOOL_NAME,
};
use terminus::registry::ToolRegistry;
use terminus::tool::CallerContext;

fn j(text: &str) -> Json {
    Json::parse(text).expect("valid JSON")
}

// ── fixtures: every title, name and device is invented ──────────────────────

const EPISODE: &str = r#"{
    "type": "episode", "sessionKey": "101", "title": "The Placeholder Episode",
    "grandparentTitle": "Placeholder Show", "parentIndex": 4, "index": 12, "year": 1996,
    "duration": 2400000, "viewOffset": 600000, "librarySectionTitle": "TV Shows",
    "Media": [{ "container": "mkv", "videoResolution": "1080p",
                "Part": [{ "decision": "transcode" }] }],
    "User": { "id": "42", "title": "household-member-a" },
    "Player": { "title": "Placeholder Player", "product": "Plex for Placeholder",
                "platform": "Android", "state": "playing", "local": false },
    "Session": { "id": "sess-a", "bandwidth": 8906, "location": "wan" },
    "TranscodeSession": {
        "throttled": true, "complete": false, "progress": 36.5,
        "videoDecision": "copy", "audioDecision": "transcode", "subtitleDecision": "transcode",
        "sourceVideoCodec": "h264", "sourceAudioCodec": "eac3",
        "videoCodec": "h264", "audioCodec": "opus",
        "protocol": "hls", "transcodeHwRequested": true
    }
}"#;

const MOVIE: &str = r#"{
    "type": "movie", "sessionKey": "102", "title": "A Placeholder Motion Picture", "year": 2025,
    "duration": 6000000, "viewOffset": 3000000, "librarySectionTitle": "Movies",
    "Media": [{ "container": "mkv", "videoResolution": "2160p",
                "Part": [{ "decision": "directplay" }] }],
    "User": { "id": 7, "title": "household-member-b" },
    "Player": { "title": "Placeholder TV", "product": "Plex for Placeholder TV",
                "platform": "tvOS", "state": "paused", "local": true },
    "Session": { "id": "sess-b", "bandwidth": 40000, "location": "lan" }
}"#;

const REMUX: &str = r#"{
    "type": "movie", "sessionKey": "103", "title": "Another Placeholder Picture",
    "duration": 5000000, "viewOffset": 0,
    "User": { "id": "9", "title": "household-member-c" },
    "Player": { "title": "Placeholder Browser", "state": "buffering" },
    "TranscodeSession": { "videoDecision": "copy", "audioDecision": "copy",
                          "protocol": "dash", "progress": 4.0 }
}"#;

const IDENTITY: &str = r#"{ "MediaContainer": { "machineIdentifier": "MACHINE_ID_PLACEHOLDER",
    "version": "1.42.0.0", "apiVersion": "1.1.1" } }"#;

fn transcoding_episode() -> Json {
    j(EPISODE)
}

fn direct_play_movie() -> Json {
    j(MOVIE)
}

fn direct_stream_movie() -> Json {
    j(REMUX)
}

/// The film with another decision on its part.
fn movie_with_part(decision: &str) -> Json {
    j(&MOVIE.replace("directplay", decision))
}

/// An item with one field set.
fn with(item: &Json, key: &str, value: Json) -> Json {
    item.with_field(key, value)
}

/// An item with one field of a block set.
fn with_in(item: &Json, block: &str, key: &str, value: Json) -> Json {
    let changed = item.get(block).expect("the block").with_field(key, value);
    item.with_field(block, changed)
}

fn container(items: &[Json]) -> Json {
    let list: Vec<Json> = items.iter().map(|i| i.copy()).collect();
    let inner = Fields::new()
        .with("size", Json::integer(items.len() as i64))
        .with("Metadata", Json::array(list))
        .object();
    Fields::new().with("MediaContainer", inner).object()
}

/// Progress in percent, to one decimal.
fn percent_text(ratio: Option<(i64, i64)>) -> Option<String> {
    let (offset, duration) = ratio?;
    let p = (offset as f64 / duration as f64 * 1000.0).round() / 10.0;
    Some(format!("{p:?}"))
}

fn percent(item: &Json) -> Option<String> {
    percent_text(progress_ratio(item))
}

/// One session, flattened.
fn flat(item: &Json) -> Json {
    session_json(item, percent(item).as_deref())
}

fn entitled() -> CallerContext {
    CallerContext::minted(true, true, None)
}

/// A server that remembers how often it was asked.
struct Source {
    sessions: (u16, String),
    identity: (u16, String),
    calls: usize,
}

impl Source {
    fn ok(payload: Json) -> Source {
        Source { sessions: (200, payload.render()), identity: (200, IDENTITY.to_string()), calls: 0 }
    }

    fn failing(status: u16) -> Source {
        Source { sessions: (status, String::new()), ..Source::ok(Json::Null) }
    }

    fn answer(&mut self, request: HttpRequest) -> Option<HttpReply> {
        self.calls += 1;
        let (status, body) = if request.url.ends_with("/identity") {
            &self.identity
        } else {
            assert_eq!(request.url, "http://plex.test:32400/status/sessions");
            &self.sessions
        };
        Some(HttpReply::Answered { status: *status, body: Ok(body.clone()) })
    }
}

fn tool() -> MediaNowPlaying {
    MediaNowPlaying::with_source(PlexClient::new("http://plex.test:32400", "token"))
}

/// Runs the tool against a server.
fn run(source: &mut Source, caller: fn() -> CallerContext) -> Json {
    let tool = tool();
    let mut heard = LiveHeard { sessions: None, percents: Vec::new(), identity: None };
    loop {
        match tool.run(caller(), &heard) {
            NowPlayingRun::Done(answer) => return answer,
            NowPlayingRun::AskSessions(request) => heard.sessions = source.answer(request),
            NowPlayingRun::AskIdentity(request) => heard.identity = source.answer(request),
            NowPlayingRun::Measure(ratios) => {
                heard.percents = ratios.into_iter().map(percent_text).collect();
            }
        }
    }
}

fn run_ok(payload: &str) -> Json {
    run(&mut Source::ok(j(payload)), entitled)
}

fn session(answer: &Json, i: usize) -> &Json {
    &answer.array_at("sessions").expect("sessions")[i]
}

fn is_null(v: &Json, key: &str) -> bool {
    v.get(key).expect("the field is there").is_null()
}

fn float(v: &Json, key: &str) -> f64 {
    match v.get(key) {
        Some(Json::Float(text)) => text.parse().expect("a number"),
        other => panic!("expected a fraction, got {other:?}"),
    }
}

// ── decisions ───────────────────────────────────────────────────────────────

#[test]
fn transcode_and_direct_play_are_both_parsed_from_one_container() {
    let raw = container(&[transcoding_episode(), direct_play_movie()]);
    let parsed: Vec<Json> = session_items(&raw)
        .expect("a well-formed container parses")
        .iter()
        .map(flat)
        .collect();
    assert_eq!(parsed.len(), 2);

    assert_eq!(parsed[0].str_at("decision"), Some("transcode"));
    assert_eq!(parsed[0].str_at("video_decision"), Some("copy"));
    assert_eq!(parsed[0].str_at("audio_decision"), Some("transcode"));
    let reason = parsed[0].str_at("transcode_reason").expect("a transcode has a reason");
    assert!(reason.contains("audio eac3 -> opus"), "reason was {reason}");
    assert!(reason.contains("subtitles"), "reason was {reason}");

    assert_eq!(parsed[1].str_at("decision"), Some("direct_play"));
    assert!(is_null(&parsed[1], "transcode_reason"));
}

#[test]
fn plexs_own_transcode_reason_wins_over_the_derived_one() {
    let item = with_in(
        &transcoding_episode(),
        "TranscodeSession",
        "transcodeReason",
        Json::text("Conversion of the source audio is required"),
    );
    assert_eq!(
        flat(&item).str_at("transcode_reason"),
        Some("Conversion of the source audio is required")
    );
}

#[test]
fn a_part_decision_without_a_transcode_session_is_still_believed() {
    assert_eq!(flat(&movie_with_part("transcode")).str_at("decision"), Some("transcode"));
    assert_eq!(flat(&movie_with_part("copy")).str_at("decision"), Some("direct_stream"));
    assert_eq!(flat(&movie_with_part("directplay")).str_at("decision"), Some("direct_play"));
}

#[test]
fn copy_on_both_streams_is_direct_stream_not_transcode() {
    assert_eq!(flat(&direct_stream_movie()).str_at("decision"), Some("direct_stream"));
    assert_eq!(flat(&transcoding_episode()).str_at("decision"), Some("transcode"));
}

#[test]
fn direct_stream_without_a_transcode_session_has_no_reason_and_that_is_the_contract() {
    let parsed = flat(&movie_with_part("copy"));
    assert_eq!(parsed.str_at("decision"), Some("direct_stream"));
    assert!(is_null(&parsed, "transcode_reason"));

    let parsed = flat(&movie_with_part("transcode"));
    assert_eq!(parsed.str_at("decision"), Some("transcode"));
    assert!(is_null(&parsed, "transcode_reason"));

    for (item, expect_reason) in [
        (transcoding_episode(), true),
        (direct_stream_movie(), true),
        (direct_play_movie(), false),
    ] {
        let has_ts = item.get("TranscodeSession").is_some();
        let p = flat(&item);
        let non_direct_play = p.str_at("decision") != Some("direct_play");
        let has_reason = p.str_at("transcode_reason").is_some();
        assert_eq!(has_reason, has_ts && non_direct_play);
        assert_eq!(has_reason, expect_reason);
    }
}

#[test]
fn a_part_decision_is_read_off_the_first_part() {
    assert_eq!(part_decision(&direct_play_movie()), Some("directplay"));
    assert_eq!(part_decision(&direct_stream_movie()), None);
}

// ── malformed or idle ───────────────────────────────────────────────────────

#[test]
fn structurally_invalid_payloads_are_malformed_and_never_empty() {
    for (label, raw) in [
        ("an empty object", r#"{}"#),
        ("no MediaContainer", r#"{ "size": 0, "Metadata": [] }"#),
        ("a non-object response", r#""nothing is playing""#),
        ("a null response", r#"null"#),
        ("a MediaContainer that is not an object", r#"{ "MediaContainer": 0 }"#),
        ("size nonzero with no Metadata", r#"{ "MediaContainer": { "size": 2 } }"#),
        (
            "neither size nor Metadata",
            r#"{ "MediaContainer": { "identifier": "com.plexapp.plugins.library" } }"#,
        ),
        (
            "Metadata that is not a list",
            r#"{ "MediaContainer": { "size": 1, "Metadata": { "title": "x" } } }"#,
        ),
    ] {
        let err = session_items(&j(raw))
            .expect_err(&format!("{label} must not parse as a session list"));
        assert!(!err.is_empty(), "{label}: malformed needs a detail");
    }
}

#[test]
fn the_live_servers_empty_shape_is_idle_not_malformed() {
    let raw = j(r#"{ "MediaContainer": { "size": 0 } }"#);
    assert_eq!(session_items(&raw).expect("idle is a legitimate answer").len(), 0);
    assert!(session_items(&j(r#"{ "MediaContainer": { "size": 0, "Metadata": [] } }"#))
        .expect("an empty list is idle")
        .is_empty());
    assert!(session_items(&j(r#"{ "MediaContainer": { "size": "0" } }"#))
        .expect("a stringly-typed zero is still zero")
        .is_empty());
}

#[test]
fn an_explicitly_null_metadata_is_malformed_while_absent_and_empty_stay_idle() {
    for (label, raw) in [
        ("null Metadata at size 0", r#"{ "MediaContainer": { "size": 0, "Metadata": null } }"#),
        ("null Metadata at size 3", r#"{ "MediaContainer": { "size": 3, "Metadata": null } }"#),
        ("null Metadata with no size", r#"{ "MediaContainer": { "Metadata": null } }"#),
    ] {
        let err = session_items(&j(raw)).expect_err(&format!("{label} must not parse as idle"));
        assert!(err.contains("null"), "{label}: the detail should name it: {err}");
    }

    assert!(session_items(&j(r#"{ "MediaContainer": { "size": 0 } }"#))
        .expect("an ABSENT Metadata key at size 0 is the live server's idle shape")
        .is_empty());
    assert!(session_items(&j(r#"{ "MediaContainer": { "size": 0, "Metadata": [] } }"#))
        .expect("an EMPTY Metadata list at size 0 is idle")
        .is_empty());

    let p = run_ok(r#"{ "MediaContainer": { "size": 0, "Metadata": null } }"#);
    assert_eq!(p.str_at("status"), Some("malformed"));
    assert_eq!(p.bool_at("ok"), Some(false));
    assert!(p.get("session_count").is_none());
    assert!(p.get("sessions").is_none());
}

#[test]
fn an_absent_size_is_malformed_whatever_metadata_does() {
    let populated = format!(r#"{{ "MediaContainer": {{ "Metadata": [{EPISODE}] }} }}"#);
    for (label, raw) in [
        ("no size, no Metadata", r#"{ "MediaContainer": {} }"#),
        ("no size, empty Metadata", r#"{ "MediaContainer": { "Metadata": [] } }"#),
        ("no size, populated Metadata", populated.as_str()),
        (
            "no size, other keys present",
            r#"{ "MediaContainer": { "identifier": "com.plexapp.plugins.library" } }"#,
        ),
    ] {
        let err = session_items(&j(raw)).expect_err(&format!("{label} must not parse as idle"));
        assert!(err.contains("no size"), "{label}: the detail should name it: {err}");
    }

    let p = run_ok(r#"{ "MediaContainer": { "Metadata": [] } }"#);
    assert_eq!(p.str_at("status"), Some("malformed"));
    assert_eq!(p.bool_at("ok"), Some(false));
    assert!(p.get("session_count").is_none());
    assert!(p.get("sessions").is_none());

    assert!(session_items(&j(r#"{ "MediaContainer": { "size": 0 } }"#))
        .expect("the live server's at-rest body is idle")
        .is_empty());
}

#[test]
fn a_size_that_is_not_a_whole_non_negative_count_is_malformed_never_floored() {
    let fractional = format!(r#"{{ "MediaContainer": {{ "size": 1.5, "Metadata": [{EPISODE}] }} }}"#);
    for (label, raw) in [
        ("fractional zero", r#"{ "MediaContainer": { "size": 0.5 } }"#),
        (
            "fractional zero with an empty list",
            r#"{ "MediaContainer": { "size": 0.5, "Metadata": [] } }"#,
        ),
        ("fractional count with sessions", fractional.as_str()),
        ("negative", r#"{ "MediaContainer": { "size": -1 } }"#),
        ("negative with an empty list", r#"{ "MediaContainer": { "size": -1, "Metadata": [] } }"#),
        ("non-numeric string", r#"{ "MediaContainer": { "size": "none" } }"#),
        ("fractional string", r#"{ "MediaContainer": { "size": "0.5" } }"#),
        ("boolean", r#"{ "MediaContainer": { "size": false } }"#),
        ("a nested object", r#"{ "MediaContainer": { "size": { "n": 0 } } }"#),
    ] {
        let err = session_items(&j(raw)).expect_err(&format!("{label} must not parse as a list"));
        assert!(!err.is_empty(), "{label}: malformed needs a detail");
        assert!(!err.contains("no size"), "{label}: it HAS a size, it is just not a count: {err}");
    }

    for raw in [
        r#"{ "MediaContainer": { "size": -1 } }"#,
        r#"{ "MediaContainer": { "size": -1, "Metadata": [] } }"#,
        r#"{ "MediaContainer": { "size": "-3" } }"#,
    ] {
        let err = session_items(&j(raw)).expect_err("a negative size is not a count");
        assert!(
            err.contains("cannot be negative"),
            "a negative count should be named as one, not reported as a miscount: {err}"
        );
    }

    let p = run_ok(r#"{ "MediaContainer": { "size": 0.5 } }"#);
    assert_eq!(p.str_at("status"), Some("malformed"));
    assert!(p.get("session_count").is_none());

    assert!(session_items(&j(r#"{ "MediaContainer": { "size": 0.0 } }"#))
        .expect("0.0 is the whole number zero")
        .is_empty());
    assert!(session_items(&j(r#"{ "MediaContainer": { "size": "0" } }"#))
        .expect("a stringly-typed zero is still zero")
        .is_empty());
    assert_eq!(
        session_items(&container(&[transcoding_episode(), direct_play_movie()]))
            .expect("a normal populated response parses")
            .len(),
        2,
        "a populated container must still count its sessions"
    );
}

#[test]
fn ordinals_reject_a_fraction_while_measurements_round_it() {
    let item = with(&transcoding_episode(), "parentIndex", j("4.7"));
    let item = with(&item, "index", j("12.3"));
    let item = with(&item, "year", j("1996.5"));
    let p = flat(&item);
    assert!(is_null(&p, "season"), "a fractional season is not season 4");
    assert!(is_null(&p, "episode"), "a fractional episode is not episode 12");
    assert!(is_null(&p, "year"));
    assert_eq!(
        p.str_at("full_title"),
        Some("Placeholder Show - The Placeholder Episode"),
        "no SxxEyy may be invented from a fraction"
    );

    let item = with(&transcoding_episode(), "duration", j("2400000.4"));
    let item = with(&item, "viewOffset", j("599999.6"));
    let item = with_in(&item, "Session", "bandwidth", j("8905.5"));
    let p = flat(&item);
    assert_eq!(p.int_at("duration_ms"), Some(2_400_000));
    assert_eq!(p.int_at("progress_ms"), Some(600_000));
    assert_eq!(p.int_at("bandwidth_kbps"), Some(8906));
    assert_eq!(float(&p, "progress_percent"), 25.0);

    let item = with(&transcoding_episode(), "index", j("12.0"));
    let item = with(&item, "duration", j("2400000.0"));
    let p = flat(&item);
    assert_eq!(p.int_at("episode"), Some(12));
    assert_eq!(p.int_at("duration_ms"), Some(2_400_000));
}

#[test]
fn halves_round_away_from_zero_and_huge_values_are_dropped() {
    let v = j(r#"{ "a": 0.5, "b": -0.5, "c": 1.4999, "d": "2.5", "e": 9223372036854775808.0,
        "f": 1e300, "g": "x", "h": 18446744073709551615 }"#);
    assert_eq!(quantity_at(&v, "a"), Some(1));
    assert_eq!(quantity_at(&v, "b"), Some(-1));
    assert_eq!(quantity_at(&v, "c"), Some(1));
    assert_eq!(quantity_at(&v, "d"), Some(3));
    assert_eq!(quantity_at(&v, "e"), None);
    assert_eq!(quantity_at(&v, "f"), None);
    assert_eq!(quantity_at(&v, "g"), None);
    assert_eq!(quantity_at(&v, "h"), None);
    assert_eq!(quantity_at(&v, "missing"), None);
}

#[test]
fn a_whole_number_stays_within_64_bits() {
    assert_eq!(integral(&j("9223372036854775808")), None);
    assert_eq!(integral(&j("9223372036854775808.0")), None);
    assert_eq!(integral(&j("9223372036854774784.0")), Some(9223372036854774784));
    assert_eq!(integral(&j("9223372036854775807")), Some(i64::MAX));
    assert_eq!(integral(&j("-9223372036854775808.0")), Some(i64::MIN));
    assert_eq!(integral(&j("-9223372036854777856.0")), None);
    assert_eq!(integral(&j("7.0")), Some(7));
    assert_eq!(integral(&j("7.5")), None);
    assert_eq!(num_at(&j(r#"{"n": 9223372036854775808}"#), "n"), None);
}

#[test]
fn a_count_that_disagrees_with_the_list_is_malformed_never_an_undercount() {
    let raw = container(&[transcoding_episode()]);
    let raw = with_in(&raw, "MediaContainer", "size", Json::integer(3));
    assert!(
        session_items(&raw).is_err(),
        "reporting 1 of 3 sessions would be a quiet lie about who is watching"
    );
}

#[test]
fn an_unparseable_entry_fails_the_whole_response_rather_than_shortening_it() {
    let raw = container(&[transcoding_episode(), Json::text("not a session object")]);
    let err = session_items(&raw).expect_err("a non-object entry is not readable");
    assert!(err.contains("entry 1"), "the detail should locate it: {err}");
}

#[test]
fn a_container_names_its_size() {
    assert_eq!(container_size(&j(r#"{ "size": 4 }"#)), Ok(4));
    assert!(container_size(&j("{}")).unwrap_err().contains("no size"));
    assert_eq!(json_kind(&Json::Null), "null");
    assert_ne!(json_kind(&j("[]")), json_kind(&j("{}")));
}

// ── transcode blocks that are none ──────────────────────────────────────────

/// A container of one session whose transcode block is `ts`.
fn one_session_with_transcode_session(ts: &str) -> Json {
    container(&[with(&transcoding_episode(), "TranscodeSession", j(ts))])
}

#[test]
fn a_non_object_transcode_session_is_malformed_never_a_confident_decision() {
    for (label, ts) in [
        ("null", "null"),
        ("a number", "0"),
        ("a string", r#""transcoding""#),
        ("a list", r#"[{ "videoDecision": "copy" }]"#),
        ("a boolean", "false"),
    ] {
        let raw = one_session_with_transcode_session(ts);
        let err = session_items(&raw).expect_err(&format!(
            "a TranscodeSession that is {label} must not parse as a session list"
        ));
        assert!(
            err.contains("TranscodeSession"),
            "{label}: the detail should name the block: {err}"
        );
        assert!(err.contains("entry 0"), "{label}: the detail should locate it: {err}");

        let p = run(&mut Source::ok(raw), entitled);
        assert_eq!(p.str_at("status"), Some("malformed"), "{label}");
        assert_eq!(p.bool_at("ok"), Some(false), "{label}");
        assert!(p.get("session_count").is_none(), "{label}");
        assert!(p.get("sessions").is_none(), "{label}");
        assert!(
            !p.render().contains("remux"),
            "{label}: a rewritten transcode block must never yield a reason"
        );
    }

    let raw = container(&[transcoding_episode(), direct_stream_movie()]);
    let p = run(&mut Source::ok(raw), entitled);
    assert_eq!(p.str_at("status"), Some("playing"));
    assert_eq!(p.int_at("session_count"), Some(2));
    assert_eq!(session(&p, 0).str_at("decision"), Some("transcode"));
    assert!(session(&p, 0)
        .str_at("transcode_reason")
        .expect("a real transcode session still explains itself")
        .contains("audio eac3 -> opus"));
    assert_eq!(session(&p, 1).str_at("decision"), Some("direct_stream"));
    assert_eq!(session(&p, 1).str_at("transcode_reason"), Some("remuxed to dash"));

    let p = run(&mut Source::ok(container(&[direct_play_movie()])), entitled);
    assert_eq!(p.str_at("status"), Some("playing"));
    assert_eq!(session(&p, 0).str_at("decision"), Some("direct_play"));
    assert!(is_null(session(&p, 0), "transcode_reason"));
}

#[test]
fn a_non_object_transcode_session_never_derives_a_decision_if_it_reaches_the_derivation() {
    for ts in ["null", "0", r#""x""#, "[]"] {
        let item = with(&transcoding_episode(), "TranscodeSession", j(ts));
        assert_eq!(
            decide(&item),
            PlaybackDecision::Transcode,
            "a {ts} TranscodeSession must not be read as copy/copy"
        );
        assert_eq!(
            flat(&item).str_at("decision"),
            Some("transcode"),
            "payload decision for a {ts} TranscodeSession"
        );
    }
}

#[test]
fn a_non_object_transcode_session_never_yields_a_reason_if_it_reaches_the_derivation() {
    for ts in ["null", "0", r#""x""#, "[]"] {
        let item = with(&transcoding_episode(), "TranscodeSession", j(ts));
        for decision in [
            PlaybackDecision::Transcode,
            PlaybackDecision::DirectStream,
            PlaybackDecision::DirectPlay,
        ] {
            assert_eq!(
                transcode_reason(&item, decision),
                None,
                "a {ts} TranscodeSession must explain nothing, at {}",
                decision.as_str()
            );
        }
        assert!(
            is_null(&flat(&item), "transcode_reason"),
            "payload reason for a {ts} TranscodeSession"
        );
    }

    assert_eq!(
        transcode_reason(&direct_stream_movie(), PlaybackDecision::DirectStream).as_deref(),
        Some("remuxed to dash")
    );
}

#[test]
fn malformed_and_idle_do_not_render_identically_end_to_end() {
    let idle = run_ok(r#"{ "MediaContainer": { "size": 0 } }"#);
    for broken in [r#"{}"#, r#"{ "MediaContainer": { "size": 2 } }"#, r#"{ "size": 0 }"#] {
        let p = run_ok(broken);
        assert_eq!(p.str_at("status"), Some("malformed"), "payload was {broken}");
        assert_eq!(p.bool_at("ok"), Some(false), "payload was {broken}");
        assert_ne!(p.get("status"), idle.get("status"));
        assert_ne!(p.get("message"), idle.get("message"));
        assert_ne!(p.render(), idle.render());
        assert!(p.get("session_count").is_none(), "payload was {broken}");
        assert!(p.get("sessions").is_none(), "payload was {broken}");
        assert!(p.str_at("detail").is_some(), "payload was {broken}");
    }
    assert_eq!(idle.str_at("status"), Some("idle"));
    assert_eq!(idle.int_at("session_count"), Some(0));
}

// ── shapes ──────────────────────────────────────────────────────────────────

#[test]
fn episode_and_movie_titles_both_render_from_their_own_nesting() {
    let ep = flat(&transcoding_episode());
    assert_eq!(ep.str_at("media_type"), Some("episode"));
    assert_eq!(ep.str_at("show_title"), Some("Placeholder Show"));
    assert_eq!(ep.int_at("season"), Some(4));
    assert_eq!(ep.int_at("episode"), Some(12));
    assert_eq!(
        ep.str_at("full_title"),
        Some("Placeholder Show - S04E12 - The Placeholder Episode")
    );

    let mv = flat(&direct_play_movie());
    assert_eq!(mv.str_at("media_type"), Some("movie"));
    assert!(is_null(&mv, "show_title"));
    assert!(is_null(&mv, "season"));
    assert_eq!(mv.str_at("full_title"), Some("A Placeholder Motion Picture (2025)"));
}

#[test]
fn progress_user_and_player_are_carried_through() {
    let ep = flat(&transcoding_episode());
    assert_eq!(ep.int_at("progress_ms"), Some(600_000));
    assert_eq!(ep.int_at("duration_ms"), Some(2_400_000));
    assert_eq!(float(&ep, "progress_percent"), 25.0);
    assert_eq!(ep.str_at("user"), Some("household-member-a"));
    assert_eq!(ep.str_at("user_id"), Some("42"));
    assert_eq!(ep.str_at("player"), Some("Placeholder Player"));
    assert_eq!(ep.str_at("player_state"), Some("playing"));
    assert_eq!(ep.int_at("bandwidth_kbps"), Some(8906));
    assert_eq!(ep.str_at("stream_location"), Some("wan"));
    assert_eq!(float(&ep, "transcode_progress_percent"), 36.5);
    assert_eq!(flat(&direct_play_movie()).str_at("user_id"), Some("7"));
}

#[test]
fn a_household_ip_address_is_never_carried_into_the_payload() {
    let item =
        with_in(&transcoding_episode(), "Player", "address", Json::text("<internal-ip>"));
    let item = with_in(&item, "Player", "remotePublicAddress", Json::text("203.0.113.9"));
    let rendered = flat(&item).render();
    assert!(!rendered.contains("<internal-ip>"));
    assert!(!rendered.contains("203.0.113.9"));
}

// ── outcomes ────────────────────────────────────────────────────────────────

#[test]
fn entitled_caller_gets_full_session_detail() {
    let mut source = Source::ok(container(&[transcoding_episode()]));
    let out = MediaNowPlaying::present(run(&mut source, entitled));
    let p = out.structured.expect("entitled callers get structured detail");
    assert_eq!(p.str_at("status"), Some("playing"));
    assert_eq!(p.bool_at("ok"), Some(true));
    assert_eq!(p.int_at("session_count"), Some(1));
    assert_eq!(p.int_at("total_bandwidth_kbps"), Some(8906));
    let first = session(&p, 0);
    assert_eq!(
        first.str_at("full_title"),
        Some("Placeholder Show - S04E12 - The Placeholder Episode")
    );
    assert_eq!(first.str_at("user"), Some("household-member-a"));
    assert_eq!(first.str_at("player"), Some("Placeholder Player"));
    assert_eq!(first.str_at("decision"), Some("transcode"));
    assert!(first.str_at("transcode_reason").is_some());
    assert_eq!(p.get("server").unwrap().str_at("version"), Some("1.42.0.0"));
    assert!(!out.text.is_empty());
}

#[test]
fn zero_sessions_is_idle_and_is_not_a_failure() {
    let p = run_ok(r#"{ "MediaContainer": { "size": 0 } }"#);
    assert_eq!(p.str_at("status"), Some("idle"));
    assert_eq!(p.bool_at("ok"), Some(true));
    assert_eq!(p.int_at("session_count"), Some(0));
    assert_eq!(p.get("sessions"), Some(&j("[]")));
    assert!(is_null(&p, "total_bandwidth_kbps"));
}

#[test]
fn unreachable_token_rejected_and_idle_never_render_identically() {
    let idle = run_ok(r#"{ "MediaContainer": { "size": 0 } }"#);
    let down = run(&mut Source::failing(503), entitled);
    let refused = run(&mut Source::failing(401), entitled);

    assert_eq!(idle.str_at("status"), Some("idle"));
    assert_eq!(down.str_at("status"), Some("unreachable"));
    assert_eq!(refused.str_at("status"), Some("unauthorized"));

    for (a, b) in [(&idle, &down), (&idle, &refused), (&down, &refused)] {
        assert_ne!(a.get("status"), b.get("status"));
        assert_ne!(a.get("message"), b.get("message"));
        assert_ne!(a.render(), b.render());
    }

    assert_eq!(down.bool_at("ok"), Some(false));
    assert_eq!(refused.bool_at("ok"), Some(false));
    assert!(down.get("session_count").is_none());
    assert!(refused.get("session_count").is_none());
    assert!(down.get("sessions").is_none());
    assert!(refused.get("sessions").is_none());
}

#[test]
fn a_failed_identity_lookup_never_spoils_a_good_session_read() {
    let mut source = Source::ok(container(&[direct_play_movie()]));
    source.identity = (503, String::new());
    let p = run(&mut source, entitled);
    assert_eq!(p.str_at("status"), Some("playing"));
    assert!(is_null(&p, "server"));
}

#[test]
fn not_configured_is_its_own_outcome() {
    let tool = MediaNowPlaying::from_env(None, None);
    let heard = LiveHeard { sessions: None, percents: Vec::new(), identity: None };
    let p = match tool.run(entitled(), &heard) {
        NowPlayingRun::Done(answer) => answer,
        other => panic!("nothing can be asked: {other:?}"),
    };
    assert_eq!(p.str_at("status"), Some("not_configured"));
    assert_eq!(p.bool_at("ok"), Some(false));
    assert!(p.get("session_count").is_none());
}

#[test]
fn a_server_header_names_version_and_machine() {
    let header = server_json(&j(IDENTITY));
    assert_eq!(header.str_at("version"), Some("1.42.0.0"));
}

#[test]
fn a_failed_read_keeps_its_kind_and_detail() {
    let answer = on_session_read(Err(PlexSessionsError::Unreachable(
        "could not connect to Plex".into(),
    )))
    .unwrap_err();
    assert_eq!(answer.str_at("status"), Some("unreachable"));
    assert_eq!(answer.str_at("detail"), Some("could not connect to Plex"));
}

#[test]
fn an_answer_states_its_status_and_message() {
    let p = build_response("idle", "Nothing is playing.", Fields::new());
    assert_eq!(p.str_at("status"), Some("idle"));
    assert_eq!(p.str_at("message"), Some("Nothing is playing."));
    let e = error_response(&PlexSessionsError::Malformed("not JSON".into()));
    assert_eq!(e.str_at("status"), Some("malformed"));
    assert_eq!(e.str_at("detail"), Some("not JSON"));
}

#[test]
fn bandwidth_is_summed_over_the_sessions() {
    let raw = container(&[transcoding_episode(), direct_play_movie()]);
    let p = run(&mut Source::ok(raw), entitled);
    assert_eq!(p.int_at("total_bandwidth_kbps"), Some(48_906));
}

// ── entitlement ─────────────────────────────────────────────────────────────

#[test]
fn unentitled_caller_gets_nothing_and_no_plex_request_is_issued() {
    let cases: [(&str, fn() -> CallerContext); 4] = [
        ("untrusted", || CallerContext::untrusted()),
        ("default", || CallerContext::default()),
        ("calendar only", || CallerContext::minted(true, false, None)),
        ("routine only", || CallerContext::minted(false, true, None)),
    ];
    for (label, caller) in cases {
        let mut source = Source::ok(container(&[transcoding_episode()]));
        let out = MediaNowPlaying::present(run(&mut source, caller));
        let p = out.structured.expect("even a refusal is structured");

        assert_eq!(p.str_at("status"), Some("forbidden"), "{label}");
        assert_eq!(p.bool_at("ok"), Some(false), "{label}");
        assert_eq!(source.calls, 0, "{label}: an unentitled call must not touch Plex");

        let rendered = format!("{}{}", out.text, p.render());
        for secret in [
            "Placeholder Show",
            "The Placeholder Episode",
            "household-member-a",
            "Placeholder Player",
        ] {
            assert!(!rendered.contains(secret), "{label}: leaked {secret}");
        }
        assert!(p.get("session_count").is_none(), "{label}: leaked a count");
        assert!(p.get("sessions").is_none(), "{label}: leaked sessions");
        assert!(p.get("server").is_none(), "{label}: leaked the server header");
    }
}

#[test]
fn the_unthreaded_execute_path_is_unentitled() {
    let mut source = Source::ok(container(&[transcoding_episode()]));
    let p = run(&mut source, CallerContext::untrusted);
    assert_eq!(p.str_at("status"), Some("forbidden"));
    assert_eq!(source.calls, 0);
}

#[test]
fn the_gate_predicate_requires_both_operator_signals() {
    assert!(may_see_now_playing(CallerContext::minted(true, true, None)));
    assert!(!may_see_now_playing(CallerContext::minted(true, false, None)));
    assert!(!may_see_now_playing(CallerContext::minted(false, true, None)));
    assert!(!may_see_now_playing(CallerContext::untrusted()));
}

#[test]
fn tool_metadata_and_registration() {
    let mut reg = ToolRegistry::new();
    register(&mut reg);
    assert!(reg.contains(TOOL_NAME));

    let tool = MediaNowPlaying::info();
    assert_eq!(tool.name, TOOL_NAME);
    assert!(!tool.description.is_empty());
    assert_eq!(tool.parameters.str_at("type"), Some("object"));
}
