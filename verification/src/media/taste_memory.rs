//! Long-term taste memory, as an addition that can be switched off.
//!
//! Recommendations are made without it first, and blended with what is remembered of the caller's
//! own account where that can be had. Nothing here makes a recommendation fail.
use vstd::prelude::*;

use crate::http::{
    bare_request, body_view, replies_view, status_line, status_text, HttpReply, HttpRequest, Method,
    ReplyView, RequestView,
};
use crate::json::{
    bits_of, collect_strings, jsons, no_fields, number_bits, number_text, strings_in,
    text_array_view, text_or_null, Fields, Json, JsonView,
};
use crate::media::clients::{
    body_content, body_excerpt, excerpt, read_body, setting, setting_view, url_setting,
    url_setting_view,
};
use crate::media::recommend::{
    account_argument, named_account, resolve_history_scope, scope_of, HistoryScope, MediaRecommend,
    Rating, RecommendReplies, RecommendStep, RecommendView, ScopeView,
};
use crate::number::{float_rank, rank_of};
use crate::order::{indices_view, keys_view, rank_indices, ranking};
use crate::registry::{with_tool, InfoView, ToolInfo, ToolRegistry};
use crate::schema::{
    describe, described, described_choice, described_choice_view, described_view, no_texts,
    optional_object, optional_object_view, required_object, required_object_view, TextList,
};
use crate::text::{
    cat2, cat4, has_text, join, joined, lowercase, opt_str, opt_text, owned, same, strip_trailing,
    texts, to_lower, trim, trimmed, without_trailing,
};
use crate::tool::{
    answer, speak, spoken, Audit, AuditView, CallerContext, ErrorView, Step, StepView, ToolError,
};

verus! {

// ── the switch ──────────────────────────────────────────────────────────────

/// What a lowercased word says about a switch: on, off, or nothing.
pub open spec fn switch_word(word: Seq<char>) -> Option<bool> {
    if word == "1"@ || word == "true"@ || word == "on"@ || word == "yes"@ {
        Some(true)
    } else if word == "0"@ || word == "false"@ || word == "off"@ || word == "no"@ {
        Some(false)
    } else {
        None
    }
}

/// Reads a lowercased word as [`switch_word`] says.
pub fn parse_switch_word(word: &str) -> (r: Option<bool>)
    ensures
        r == switch_word(word@),
{
    if same(word, "1") || same(word, "true") || same(word, "on") || same(word, "yes") {
        Some(true)
    } else if same(word, "0") || same(word, "false") || same(word, "off") || same(word, "no") {
        Some(false)
    } else {
        None
    }
}

/// What a configured value says about a switch.
pub open spec fn switch_view(raw: Option<Seq<char>>) -> Option<bool> {
    match raw {
        Some(s) => switch_word(lowercase(trimmed(s))),
        None => None,
    }
}

/// Reads a configured value as [`switch_view`] says.
pub fn parse_three_state_bool(raw: Option<&str>) -> (r: Option<bool>)
    ensures
        r == switch_view(opt_str(raw)),
{
    match raw {
        Some(s) => {
            let word = to_lower(trim(s));
            parse_switch_word(word.as_str())
        },
        None => None,
    }
}

/// Whether taste memory is on: only where its configured value says so. `raw` is the value of
/// `MEDIA_TASTE_MEMORY_ENABLED`.
pub fn media_taste_memory_enabled(raw: Option<&str>) -> (r: bool)
    ensures
        r == (switch_view(setting_view(opt_str(raw))) == Some(true)),
{
    let value = setting(raw);
    let set = match &value {
        Some(s) => Some(s.as_str()),
        None => None,
    };
    match parse_three_state_bool(set) {
        Some(b) => b,
        None => false,
    }
}

// ── the memory service ──────────────────────────────────────────────────────

/// How long to wait for a reply of the memory service, in seconds.
pub const REQUEST_TIMEOUT_SECS: u64 = 10;

/// Where the memory service is.
#[derive(Debug, PartialEq, Eq)]
pub struct TasteMemoryClient {
    base_url: String,
}

/// What a response of the memory service stands for.
pub open spec fn taste_response(status: u16, body: Result<Seq<char>, Seq<char>>) -> Result<
    JsonView,
    ErrorView,
> {
    if !(200 <= status <= 299) {
        Err(
            ErrorView::Http(
                "taste memory facade HTTP "@ + status_line(status) + ": "@ + excerpt(body),
            ),
        )
    } else {
        match body {
            Ok(text) => body_content("taste memory facade"@, text),
            Err(e) => Err(ErrorView::Http(e)),
        }
    }
}

/// Reads a response of the memory service as [`taste_response`] says.
pub fn map_response(status: u16, body: &Result<String, String>) -> (r: Result<Json, ToolError>)
    ensures
        answer(r) == taste_response(status, body_view(*body)),
{
    if !(200 <= status && status <= 299) {
        let line = status_text(status);
        return Err(
            ToolError::Http(
                cat4("taste memory facade HTTP ", line.as_str(), ": ", body_excerpt(body)),
            ),
        );
    }
    match body {
        Ok(text) => read_body("taste memory facade", text.as_str()),
        Err(e) => Err(ToolError::Http(owned(e.as_str()))),
    }
}

/// What a reply to the question for signals stands for.
pub open spec fn signals_content(reply: ReplyView) -> Result<JsonView, ErrorView> {
    match reply {
        ReplyView::Failed { text, .. } => Err(
            ErrorView::Http("taste memory facade unavailable: "@ + text),
        ),
        ReplyView::Answered { status, body } => taste_response(status, body),
    }
}

/// What a reply to a recorded signal stands for: nothing, or the error.
pub open spec fn recording_error(reply: ReplyView) -> Option<ErrorView> {
    match reply {
        ReplyView::Failed { text, .. } => Some(
            ErrorView::Http("taste memory facade unavailable: "@ + text),
        ),
        ReplyView::Answered { status, body } => if 200 <= status <= 299 {
            None
        } else {
            Some(
                ErrorView::Http(
                    "taste memory facade rejected engagement write (HTTP "@ + status_line(status)
                        + "): "@ + excerpt(body),
                ),
            )
        },
    }
}

impl TasteMemoryClient {
    /// The base URL, without trailing slashes.
    pub closed spec fn base(&self) -> Seq<char> {
        self.base_url@
    }

    /// A client out of the value of `MEDIA_TASTE_API_URL`.
    pub fn from_env(url: Option<&str>) -> (r: Result<TasteMemoryClient, ToolError>)
        ensures
            match url_setting_view(opt_str(url)) {
                Some(base) => r matches Ok(c) && c.base() == base,
                None => r matches Err(e) && e@ == ErrorView::NotConfigured(
                    "MEDIA_TASTE_API_URL not set"@,
                ),
            },
    {
        match url_setting(url) {
            Some(base_url) => Ok(TasteMemoryClient { base_url }),
            None => Err(ToolError::not_configured("MEDIA_TASTE_API_URL not set")),
        }
    }

    /// A client out of its part; trailing slashes of the base URL are dropped.
    pub fn new(base_url: &str) -> (r: TasteMemoryClient)
        ensures
            r.base() == without_trailing(base_url@, '/'),
    {
        TasteMemoryClient { base_url: owned(strip_trailing(base_url, '/')) }
    }

    /// The question for an account's signals.
    pub open spec fn signals_view(&self, account_id: Option<Seq<char>>) -> RequestView {
        let bare = bare_request(Method::Get, self.base() + "/media/taste/signals"@).header(
            "Accept"@,
            "application/json"@,
        );
        match account_id {
            Some(id) => bare.param("account_id"@, id),
            None => bare,
        }
    }

    /// Asks for an account's signals.
    pub fn get_signals(&self, account_id: Option<&str>) -> (r: HttpRequest)
        ensures
            r@ == self.signals_view(opt_str(account_id)),
    {
        let bare = HttpRequest::new(
            Method::Get,
            cat2(self.base_url.as_str(), "/media/taste/signals"),
        ).header("Accept", "application/json");
        match account_id {
            Some(id) => bare.param("account_id", id),
            None => bare,
        }
    }

    /// The request that records a signal.
    pub open spec fn engagement_view(&self, body: JsonView) -> RequestView {
        bare_request(Method::Post, self.base() + "/media/taste/engagement"@).header(
            "Accept"@,
            "application/json"@,
        ).json(body)
    }

    /// Records a signal.
    pub fn record_engagement(&self, body: Json) -> (r: HttpRequest)
        ensures
            r@ == self.engagement_view(body@),
    {
        HttpRequest::new(
            Method::Post,
            cat2(self.base_url.as_str(), "/media/taste/engagement"),
        ).header("Accept", "application/json").json(body)
    }

    /// Reads the reply to the question for signals as [`signals_content`] says.
    pub fn signals_reply(reply: &HttpReply) -> (r: Result<Json, ToolError>)
        ensures
            answer(r) == signals_content(reply@),
    {
        match reply {
            HttpReply::Failed(f) => Err(
                ToolError::Http(cat2("taste memory facade unavailable: ", f.text.as_str())),
            ),
            HttpReply::Answered { status, body } => map_response(*status, body),
        }
    }

    /// Reads the reply to a recorded signal as [`recording_error`] says.
    pub fn engagement_reply(reply: &HttpReply) -> (r: Result<(), ToolError>)
        ensures
            match r {
                Ok(_) => recording_error(reply@) is None,
                Err(e) => recording_error(reply@) == Some(e@),
            },
    {
        match reply {
            HttpReply::Failed(f) => Err(
                ToolError::Http(cat2("taste memory facade unavailable: ", f.text.as_str())),
            ),
            HttpReply::Answered { status, body } => {
                let code: u16 = *status;
                if 200 <= code && code <= 299 {
                    Ok(())
                } else {
                    let line = status_text(code);
                    Err(
                        ToolError::Http(
                            cat4(
                                "taste memory facade rejected engagement write (HTTP ",
                                line.as_str(),
                                "): ",
                                body_excerpt(body),
                            ),
                        ),
                    )
                }
            },
        }
    }
}

// ── blending ────────────────────────────────────────────────────────────────

/// The strings of the list under `key`.
pub open spec fn list_at(signals: JsonView, key: Seq<char>) -> Seq<Seq<char>> {
    match signals.items_at(key) {
        Some(items) => strings_in(items),
        None => Seq::empty(),
    }
}

/// Reads the strings of the list under `key` as [`list_at`] says.
pub fn extract_string_list(signals: &Json, key: &str) -> (r: Vec<String>)
    ensures
        texts(r@) == list_at(signals@, key@),
{
    match signals.array_at(key) {
        Some(items) => collect_strings(items),
        None => {
            let none: Vec<String> = Vec::new();
            assert(texts(none@) =~= Seq::empty());
            none
        },
    }
}

/// What memory says about a recommendation.
#[derive(Debug, Clone, Copy, PartialEq, Eq, Structural)]
pub enum Verdict {
    /// One of its genres is liked.
    Liked,
    /// None is liked, and one is disliked.
    Disliked,
    /// Nothing.
    Neutral,
}

/// Whether any of some texts is in a list, and not in another.
pub open spec fn any_in(v: Seq<Seq<char>>, list: Seq<Seq<char>>, except: Seq<Seq<char>>) -> bool {
    exists|i: int|
        0 <= i < v.len() && list.contains(#[trigger] v[i]) && !except.contains(v[i])
}

/// What memory says about a recommendation. A genre that is both liked and disliked counts as
/// liked.
pub open spec fn verdict_of(
    rec: JsonView,
    liked: Seq<Seq<char>>,
    disliked: Seq<Seq<char>>,
) -> Verdict {
    let matched = list_at(rec, "matched_genres"@);
    if any_in(matched, liked, Seq::empty()) {
        Verdict::Liked
    } else if any_in(matched, disliked, liked) {
        Verdict::Disliked
    } else {
        Verdict::Neutral
    }
}

fn has_any(v: &Vec<String>, list: &Vec<String>, except: &Vec<String>) -> (r: bool)
    ensures
        r == any_in(texts(v@), texts(list@), texts(except@)),
{
    let ghost view = texts(v@);
    let mut i: usize = 0;
    while i < v.len()
        invariant
            i <= v.len(),
            view == texts(v@),
            forall|k: int|
                0 <= k < i ==> !(texts(list@).contains(#[trigger] view[k]) && !texts(
                    except@,
                ).contains(view[k])),
        decreases v.len() - i,
    {
        assert(view[i as int] == v@[i as int]@);
        if has_text(list, v[i].as_str()) && !has_text(except, v[i].as_str()) {
            return true;
        }
        i += 1;
    }
    false
}

fn judge(rec: &Json, liked: &Vec<String>, disliked: &Vec<String>) -> (r: Verdict)
    ensures
        r == verdict_of(rec@, texts(liked@), texts(disliked@)),
{
    let matched = extract_string_list(rec, "matched_genres");
    let none: Vec<String> = Vec::new();
    assert(texts(none@) =~= Seq::empty());
    if has_any(&matched, liked, &none) {
        Verdict::Liked
    } else if has_any(&matched, disliked, liked) {
        Verdict::Disliked
    } else {
        Verdict::Neutral
    }
}

/// A liked genre counts, however often it is disliked too.
pub proof fn liking_outweighs_disliking(
    rec: JsonView,
    liked: Seq<Seq<char>>,
    disliked: Seq<Seq<char>>,
    genre: Seq<char>,
)
    requires
        list_at(rec, "matched_genres"@).contains(genre),
        liked.contains(genre),
    ensures
        verdict_of(rec, liked, disliked) == Verdict::Liked,
{
    let matched = list_at(rec, "matched_genres"@);
    let i = choose|i: int| 0 <= i < matched.len() && matched[i] == genre;
    assert(liked.contains(matched[i]));
    assert(!Seq::<Seq<char>>::empty().contains(matched[i]));
}

/// The bits of a recommendation's score, where it has one.
pub open spec fn score_bits(rec: JsonView) -> Option<u64> {
    bits_of(number_text(rec.at("score"@)))
}

fn read_score(rec: &Json) -> (r: Option<u64>)
    ensures
        r == score_bits(rec@),
{
    match rec.get("score") {
        Some(v) => number_bits(v),
        None => None,
    }
}

/// What a new score is computed from: what memory says, and the score so far.
#[derive(Debug, Clone, Copy, PartialEq, Eq, Structural)]
pub struct Factor {
    pub verdict: Verdict,
    pub score: Option<u64>,
}

/// The recommendations of an answer.
pub open spec fn recommendations_in(base: JsonView) -> Option<Seq<JsonView>> {
    base.at("structured"@).items_at("recommendations"@)
}

/// What the new scores of an answer's recommendations are computed from.
pub open spec fn factors_of(base: JsonView, signals: JsonView) -> Seq<Factor> {
    match recommendations_in(base) {
        Some(recs) => recs.map_values(
            |rec: JsonView|
                Factor {
                    verdict: verdict_of(
                        rec,
                        list_at(signals, "liked_genres"@),
                        list_at(signals, "disliked_genres"@),
                    ),
                    score: score_bits(rec),
                },
        ),
        None => Seq::empty(),
    }
}

/// Lists what the new scores are computed from as [`factors_of`] says: a liked recommendation's
/// score is raised by a quarter, a disliked one's is halved.
pub fn factors(base: &Json, signals: &Json) -> (r: Vec<Factor>)
    ensures
        r@ == factors_of(base@, signals@),
{
    let liked = extract_string_list(signals, "liked_genres");
    let disliked = extract_string_list(signals, "disliked_genres");
    let mut out: Vec<Factor> = Vec::new();
    let recs = match base.get("structured") {
        Some(s) => s.array_at("recommendations"),
        None => None,
    };
    match recs {
        Some(v) => {
            let ghost view = jsons(v@);
            let mut i: usize = 0;
            while i < v.len()
                invariant
                    i <= v.len(),
                    view == jsons(v@),
                    recommendations_in(base@) == Some(view),
                    texts(liked@) == list_at(signals@, "liked_genres"@),
                    texts(disliked@) == list_at(signals@, "disliked_genres"@),
                    out.len() == i,
                    forall|k: int|
                        0 <= k < i ==> #[trigger] out@[k] == factors_of(base@, signals@)[k],
                decreases v.len() - i,
            {
                assert(view[i as int] == v@[i as int]@);
                out.push(
                    Factor { verdict: judge(&v[i], &liked, &disliked), score: read_score(&v[i]) },
                );
                i += 1;
            }
            assert(out@ =~= factors_of(base@, signals@));
        },
        None => {
            assert(out@ =~= factors_of(base@, signals@));
        },
    }
    out
}

/// A recommendation with its new score.
pub open spec fn with_score(rec: JsonView, new_score: Option<Seq<char>>) -> JsonView {
    match (score_bits(rec), new_score) {
        (Some(_), Some(text)) => if rec is Object {
            rec.with_field("score"@, JsonView::Float(text))
        } else {
            rec
        },
        _ => rec,
    }
}

/// A recommendation with what memory says about it taken in.
pub open spec fn adjusted(rec: JsonView, verdict: Verdict, new_score: Option<Seq<char>>) -> JsonView {
    match verdict {
        Verdict::Liked => {
            let scored = with_score(rec, new_score);
            match scored.text_at("rationale"@) {
                Some(rationale) => scored.with_field(
                    "rationale"@,
                    JsonView::Str(rationale + " -- and you told me you're into that"@),
                ),
                None => scored,
            }
        },
        Verdict::Disliked => with_score(rec, new_score),
        Verdict::Neutral => rec,
    }
}

fn put_score(rec: &Json, new_score: Option<&str>) -> (r: Json)
    ensures
        r@ == with_score(rec@, opt_str(new_score)),
{
    match (read_score(rec), new_score) {
        (Some(_), Some(text)) => {
            if rec.is_object() {
                rec.with_field("score", Json::Float(owned(text)))
            } else {
                rec.copy()
            }
        },
        _ => rec.copy(),
    }
}

fn adjust(rec: &Json, verdict: Verdict, new_score: Option<&str>) -> (r: Json)
    ensures
        r@ == adjusted(rec@, verdict, opt_str(new_score)),
{
    match verdict {
        Verdict::Liked => {
            let scored = put_score(rec, new_score);
            let said = match scored.str_at("rationale") {
                Some(rationale) => Some(
                    cat2(rationale, " -- and you told me you're into that"),
                ),
                None => None,
            };
            match said {
                Some(text) => scored.with_field("rationale", Json::Str(text)),
                None => scored,
            }
        },
        Verdict::Disliked => put_score(rec, new_score),
        Verdict::Neutral => rec.copy(),
    }
}

/// The new score of the recommendation at `i`, where there is one.
pub open spec fn new_score_at(new_scores: Seq<Option<String>>, i: int) -> Option<Seq<char>> {
    if 0 <= i < new_scores.len() {
        opt_text(new_scores[i])
    } else {
        None
    }
}

/// The recommendations with what memory says about them taken in, in their given order.
pub open spec fn all_adjusted(
    recs: Seq<JsonView>,
    signals: JsonView,
    new_scores: Seq<Option<String>>,
) -> Seq<JsonView> {
    Seq::new(
        recs.len(),
        |i: int|
            adjusted(
                recs[i],
                verdict_of(
                    recs[i],
                    list_at(signals, "liked_genres"@),
                    list_at(signals, "disliked_genres"@),
                ),
                new_score_at(new_scores, i),
            ),
    )
}

/// The keys by which recommendations rank.
pub open spec fn score_keys(recs: Seq<JsonView>) -> Seq<(int, int)> {
    recs.map_values(
        |rec: JsonView|
            (
                rank_of(
                    match score_bits(rec) {
                        Some(bits) => bits,
                        None => 0,
                    },
                ),
                0int,
            ),
    )
}

/// Recommendations by score, and in their given order where scores are equal.
pub open spec fn by_score(recs: Seq<JsonView>) -> Seq<JsonView> {
    ranking(score_keys(recs), recs.len() as int).map_values(|i: int| recs[i])
}

fn sort_by_score(recs: &Vec<Json>) -> (r: Vec<Json>)
    ensures
        jsons(r@) == by_score(jsons(recs@)),
{
    let ghost view = jsons(recs@);
    let mut keys: Vec<(i128, i128)> = Vec::new();
    let mut i: usize = 0;
    while i < recs.len()
        invariant
            i <= recs.len(),
            view == jsons(recs@),
            keys.len() == i,
            forall|k: int| 0 <= k < i ==> keys_view(keys@)[k] == #[trigger] score_keys(view)[k],
        decreases recs.len() - i,
    {
        assert(view[i as int] == recs@[i as int]@);
        let bits: u64 = match read_score(&recs[i]) {
            Some(b) => b,
            None => 0,
        };
        keys.push((float_rank(bits), 0));
        i += 1;
    }
    assert(keys_view(keys@) =~= score_keys(view));
    let order = rank_indices(&keys);
    let ghost places = indices_view(order@);
    let mut out: Vec<Json> = Vec::new();
    let mut k: usize = 0;
    while k < order.len()
        invariant
            k <= order.len(),
            view == jsons(recs@),
            order.len() == recs.len(),
            places == indices_view(order@),
            forall|m: int| 0 <= m < order.len() ==> order@[m] < recs.len(),
            out.len() == k,
            forall|m: int| 0 <= m < k ==> (#[trigger] out@[m])@ == view[places[m]],
        decreases order.len() - k,
    {
        assert(view[places[k as int]] == recs@[order@[k as int] as int]@);
        out.push(recs[order[k]].copy());
        k += 1;
    }
    assert(jsons(out@) =~= by_score(view));
    out
}

/// An answer with something put into its structured content, where it has any.
pub open spec fn with_structured(base: JsonView, key: Seq<char>, value: JsonView) -> JsonView {
    if base is Object && base.at("structured"@) is Object {
        base.with_field("structured"@, base.at("structured"@).with_field(key, value))
    } else {
        base
    }
}

fn put_structured(base: Json, key: &str, value: Json) -> (r: Json)
    ensures
        r@ == with_structured(base@, key@, value@),
{
    let structured = base.copy_at("structured");
    if base.is_object() && structured.is_object() {
        base.with_field("structured", structured.with_field(key, value))
    } else {
        base
    }
}

/// What is said once memory is taken in: a note of the caller's, or what they like.
pub open spec fn blended_summary(
    summary: Seq<char>,
    liked: Seq<Seq<char>>,
    notes: Seq<Seq<char>>,
) -> Seq<char> {
    if notes.len() > 0 {
        summary + " (you told me: \""@ + notes[0] + "\")"@
    } else if liked.len() > 0 {
        summary + " (you're into "@ + joined(liked, "/"@) + ")"@
    } else {
        summary
    }
}

/// An answer with what memory says taken in. `new_scores` holds the new score of each
/// recommendation, in order.
pub open spec fn blended(
    base: JsonView,
    signals: JsonView,
    new_scores: Seq<Option<String>>,
) -> JsonView {
    let liked = list_at(signals, "liked_genres"@);
    let disliked = list_at(signals, "disliked_genres"@);
    let notes = list_at(signals, "notes"@);
    let ranked = match recommendations_in(base) {
        Some(recs) => with_structured(
            base,
            "recommendations"@,
            JsonView::Array(by_score(all_adjusted(recs, signals, new_scores))),
        ),
        None => base,
    };
    let worded = match ranked.text_at("summary"@) {
        Some(summary) => ranked.with_field(
            "summary"@,
            JsonView::Str(blended_summary(summary, liked, notes)),
        ),
        None => ranked,
    };
    with_structured(
        worded,
        "taste_memory"@,
        JsonView::Object(
            no_fields().push(("enabled"@, JsonView::Bool(true))).push(
                ("applied"@, JsonView::Bool(true)),
            ).push(("liked_genres"@, text_array_view(liked))).push(
                ("disliked_genres"@, text_array_view(disliked)),
            ).push(("note"@, JsonView::Null)),
        ),
    )
}

/// Takes what memory says into an answer as [`blended`] says.
pub fn apply_taste_signals(base: Json, signals: &Json, new_scores: &Vec<Option<String>>) -> (r: Json)
    ensures
        r@ == blended(base@, signals@, new_scores@),
{
    let liked = extract_string_list(signals, "liked_genres");
    let disliked = extract_string_list(signals, "disliked_genres");
    let notes = extract_string_list(signals, "notes");
    let recs: Option<Vec<Json>> = match base.get("structured") {
        Some(s) => match s.array_at("recommendations") {
            Some(v) => {
                let ghost view = jsons(v@);
                let mut out: Vec<Json> = Vec::new();
                let mut i: usize = 0;
                while i < v.len()
                    invariant
                        i <= v.len(),
                        view == jsons(v@),
                        texts(liked@) == list_at(signals@, "liked_genres"@),
                        texts(disliked@) == list_at(signals@, "disliked_genres"@),
                        out.len() == i,
                        forall|k: int|
                            0 <= k < i ==> (#[trigger] out@[k])@ == all_adjusted(
                                view,
                                signals@,
                                new_scores@,
                            )[k],
                    decreases v.len() - i,
                {
                    assert(view[i as int] == v@[i as int]@);
                    let verdict = judge(&v[i], &liked, &disliked);
                    let new_score = if i < new_scores.len() {
                        match &new_scores[i] {
                            Some(text) => Some(text.as_str()),
                            None => None,
                        }
                    } else {
                        None
                    };
                    out.push(adjust(&v[i], verdict, new_score));
                    i += 1;
                }
                assert(jsons(out@) =~= all_adjusted(view, signals@, new_scores@));
                Some(sort_by_score(&out))
            },
            None => None,
        },
        None => None,
    };
    let ranked = match recs {
        Some(v) => put_structured(base, "recommendations", Json::array(v)),
        None => base,
    };
    let said = match ranked.str_at("summary") {
        Some(summary) => {
            if notes.len() > 0 {
                assert(texts(notes@)[0] == notes@[0]@);
                Some(cat4(summary, " (you told me: \"", notes[0].as_str(), "\")"))
            } else if liked.len() > 0 {
                let list = join(&liked, "/");
                Some(cat4(summary, " (you're into ", list.as_str(), ")"))
            } else {
                Some(owned(summary))
            }
        },
        None => None,
    };
    assert(texts(notes@).len() == notes@.len());
    assert(texts(liked@).len() == liked@.len());
    let worded = match said {
        Some(text) => ranked.with_field("summary", Json::Str(text)),
        None => ranked,
    };
    let mut f = Fields::new();
    f.put("enabled", Json::Bool(true));
    f.put("applied", Json::Bool(true));
    f.put("liked_genres", Json::text_array(&liked));
    f.put("disliked_genres", Json::text_array(&disliked));
    f.put("note", Json::Null);
    put_structured(worded, "taste_memory", f.object())
}

/// An answer that memory could not be taken into: as it was, with a note.
pub open spec fn degraded(base: JsonView, note: Seq<char>) -> JsonView {
    with_structured(
        base,
        "taste_memory"@,
        JsonView::Object(
            no_fields().push(("enabled"@, JsonView::Bool(true))).push(
                ("applied"@, JsonView::Bool(false)),
            ).push(("note"@, JsonView::Str(note))),
        ),
    )
}

/// Marks an answer that memory could not be taken into as [`degraded`] says.
pub fn mark_taste_degraded(base: Json, note: &str) -> (r: Json)
    ensures
        r@ == degraded(base@, note@),
{
    let mut f = Fields::new();
    f.put("enabled", Json::Bool(true));
    f.put("applied", Json::Bool(false));
    f.put("note", Json::text(note));
    put_structured(base, "taste_memory", f.object())
}

/// Where memory cannot be taken in, the recommendations are what they were.
pub proof fn degrading_keeps_recommendations(base: JsonView, note: Seq<char>)
    ensures
        recommendations_in(degraded(base, note)) == recommendations_in(base),
        degraded(base, note).field("summary"@) == base.field("summary"@),
{
    assert("recommendations"@ != "taste_memory"@) by {
        reveal_strlit("recommendations");
        reveal_strlit("taste_memory");
        assert("recommendations"@.len() == 15);
        assert("taste_memory"@.len() == 12);
    }
    assert("summary"@ != "structured"@) by {
        reveal_strlit("summary");
        reveal_strlit("structured");
        assert("summary"@.len() == 7);
        assert("structured"@.len() == 10);
    }
    if base is Object && base.at("structured"@) is Object {
        let value = JsonView::Object(
            no_fields().push(("enabled"@, JsonView::Bool(true))).push(
                ("applied"@, JsonView::Bool(false)),
            ).push(("note"@, JsonView::Str(note))),
        );
        let inner = base.at("structured"@).with_field("taste_memory"@, value);
        crate::json::with_field_sets_one_field(
            base.at("structured"@),
            "taste_memory"@,
            value,
            "recommendations"@,
        );
        crate::json::with_field_sets_one_field(base, "structured"@, inner, "summary"@);
    }
}

/// Memory that says nothing changes no recommendation; it only puts them in the order of their
/// scores, in which they are shown anyway.
pub proof fn empty_memory_changes_no_recommendation(
    recs: Seq<JsonView>,
    signals: JsonView,
    new_scores: Seq<Option<String>>,
)
    requires
        list_at(signals, "liked_genres"@).len() == 0,
        list_at(signals, "disliked_genres"@).len() == 0,
    ensures
        all_adjusted(recs, signals, new_scores) == recs,
{
    assert(all_adjusted(recs, signals, new_scores) =~= recs);
}

// ── recommendations with memory ─────────────────────────────────────────────

/// The recommendation tool with memory, around the one without.
#[derive(Debug)]
pub struct TasteAwareMediaRecommend {
    pub inner: MediaRecommend,
    pub client: Option<TasteMemoryClient>,
}

/// What happens to an answer that was made without memory.
#[derive(Debug, PartialEq, Eq)]
pub enum TasteStep {
    /// It stands, marked.
    Done(Json),
    /// Memory is asked.
    Ask(HttpRequest),
}

impl TasteAwareMediaRecommend {
    /// The step after the answer was made without memory. Memory is only ever asked about the
    /// caller's own account.
    pub fn after_base(&self, base: Json, caller: &CallerContext) -> (r: TasteStep)
        ensures
            match (caller.account(), self.client) {
                (None, _) => r matches TasteStep::Done(a) && a@ == degraded(
                    base@,
                    "not personalized for this caller"@,
                ),
                (Some(_), None) => r matches TasteStep::Done(a) && a@ == degraded(
                    base@,
                    "taste memory not configured (MEDIA_TASTE_API_URL unset)"@,
                ),
                (Some(account), Some(c)) => r matches TasteStep::Ask(x) && x@ == c.signals_view(
                    Some(account),
                ),
            },
    {
        match caller.media_account() {
            None => TasteStep::Done(mark_taste_degraded(base, "not personalized for this caller")),
            Some(account) => match &self.client {
                None => TasteStep::Done(
                    mark_taste_degraded(
                        base,
                        "taste memory not configured (MEDIA_TASTE_API_URL unset)",
                    ),
                ),
                Some(c) => TasteStep::Ask(c.get_signals(Some(account))),
            },
        }
    }

    /// What memory says, out of its reply, or the answer as it stands without it.
    pub fn on_signals(base: &Json, reply: &HttpReply) -> (r: Result<Json, Json>)
        ensures
            match signals_content(reply@) {
                Ok(signals) => r matches Ok(v) && v@ == signals,
                Err(_) => r matches Err(a) && a@ == degraded(
                    base@,
                    "taste memory unreachable, showing watch-history-only recommendations"@,
                ),
            },
    {
        match TasteMemoryClient::signals_reply(reply) {
            Ok(signals) => Ok(signals),
            Err(_) => Err(
                mark_taste_degraded(
                    base.copy(),
                    "taste memory unreachable, showing watch-history-only recommendations",
                ),
            ),
        }
    }
}

/// Where a call for recommendations with memory stands.
#[derive(Debug)]
pub enum TasteRun {
    /// The answer is ready.
    Done(Json),
    /// The answer without memory is not ready yet.
    Base(RecommendStep),
    /// Send this request to memory and come back with the reply.
    AskMemory(HttpRequest),
    /// Say what the new scores are and come back with them.
    Rescore(Vec<Factor>),
}

/// The content of a [`TasteRun`].
pub enum TasteRunView {
    Done(JsonView),
    Base(RecommendView),
    AskMemory(RequestView),
    Rescore(Seq<Factor>),
}

impl View for TasteRun {
    type V = TasteRunView;

    open spec fn view(&self) -> TasteRunView {
        match *self {
            TasteRun::Done(answer) => TasteRunView::Done(answer@),
            TasteRun::Base(step) => TasteRunView::Base(step@),
            TasteRun::AskMemory(request) => TasteRunView::AskMemory(request@),
            TasteRun::Rescore(all) => TasteRunView::Rescore(all@),
        }
    }
}

/// What was heard on the way to recommendations with memory: the replies and ratings for the answer
/// without it, the reply of memory, and the new scores.
#[derive(Debug)]
pub struct TasteHeard {
    pub replies: Option<RecommendReplies>,
    pub ratings: Vec<Rating>,
    pub signals: Option<HttpReply>,
    pub new_scores: Vec<Option<String>>,
}

impl TasteAwareMediaRecommend {
    /// Where an answer without memory stands: memory is asked about the caller's own account, and
    /// what it says is blended in. Without it the answer is only marked.
    pub open spec fn blend_view(
        &self,
        base: JsonView,
        own: Option<Seq<char>>,
        heard: TasteHeard,
    ) -> TasteRunView {
        match (own, self.client) {
            (None, _) => TasteRunView::Done(degraded(base, "not personalized for this caller"@)),
            (Some(_), None) => TasteRunView::Done(
                degraded(base, "taste memory not configured (MEDIA_TASTE_API_URL unset)"@),
            ),
            (Some(account), Some(c)) => match heard.signals {
                None => TasteRunView::AskMemory(c.signals_view(Some(account))),
                Some(reply) => match signals_content(reply@) {
                    Err(_) => TasteRunView::Done(
                        degraded(
                            base,
                            "taste memory unreachable, showing watch-history-only recommendations"@,
                        ),
                    ),
                    Ok(signals) => if heard.new_scores@.len() != factors_of(base, signals).len() {
                        TasteRunView::Rescore(factors_of(base, signals))
                    } else {
                        TasteRunView::Done(blended(base, signals, heard.new_scores@))
                    },
                },
            },
        }
    }

    /// Where a call stands. `own` is the caller's account.
    pub open spec fn run_view(
        &self,
        args: JsonView,
        own: Option<Seq<char>>,
        heard: TasteHeard,
    ) -> TasteRunView {
        match self.inner.run_view(args, own, heard.replies, heard.ratings@) {
            RecommendView::Done(base) => self.blend_view(base, own, heard),
            step => TasteRunView::Base(step),
        }
    }

    /// Carries a call on to its next step as [`Self::run_view`] says.
    pub fn run(&self, args: &Json, caller: &CallerContext, heard: &TasteHeard) -> (r: TasteRun)
        ensures
            r@ == self.run_view(args@, caller.account(), *heard),
    {
        let base = match self.inner.run(args, caller, &heard.replies, &heard.ratings) {
            RecommendStep::Done(base) => base,
            step => {
                return TasteRun::Base(step);
            },
        };
        let request = match self.after_base(base.copy(), caller) {
            TasteStep::Done(answer) => {
                return TasteRun::Done(answer);
            },
            TasteStep::Ask(request) => request,
        };
        let reply = match &heard.signals {
            Some(reply) => reply,
            None => {
                return TasteRun::AskMemory(request);
            },
        };
        match TasteAwareMediaRecommend::on_signals(&base, reply) {
            Err(answer) => TasteRun::Done(answer),
            Ok(signals) => {
                let all = factors(&base, &signals);
                if heard.new_scores.len() != all.len() {
                    return TasteRun::Rescore(all);
                }
                TasteRun::Done(apply_taste_signals(base, &signals, &heard.new_scores))
            },
        }
    }
}

/// Memory is never asked on behalf of a caller without an account, and for one with an account only
/// about that account.
pub proof fn memory_is_asked_about_own_account(
    tool: TasteAwareMediaRecommend,
    args: JsonView,
    own: Option<Seq<char>>,
    heard: TasteHeard,
)
    ensures
        tool.run_view(args, own, heard) matches TasteRunView::AskMemory(request) ==> {
            &&& own matches Some(account)
            &&& tool.client matches Some(c)
            &&& request == c.signals_view(Some(account))
        },
{
}

/// Memory never makes a call fail, and never changes whether one does: what fails is what fails
/// without it.
pub proof fn memory_never_fails_a_recommendation(
    tool: TasteAwareMediaRecommend,
    args: JsonView,
    own: Option<Seq<char>>,
    heard: TasteHeard,
)
    ensures
        (tool.run_view(args, own, heard) matches TasteRunView::Base(step) && step is Failed)
            <==> tool.inner.run_view(args, own, heard.replies, heard.ratings@) is Failed,
{
}

// ── recording ───────────────────────────────────────────────────────────────

/// The tool that records a signal, and the service it records with.
#[derive(Debug)]
pub struct MediaTasteFeedback {
    pub client: Option<TasteMemoryClient>,
}

/// Whether a word is a signal that can be recorded.
pub open spec fn is_signal(word: Seq<char>) -> bool {
    word == "requested"@ || word == "watched"@ || word == "dismissed"@
}

/// The text under `key`, trimmed, where anything is left of it.
pub open spec fn filled_text(args: JsonView, key: Seq<char>) -> Option<Seq<char>> {
    setting_view(args.text_at(key))
}

/// The type of media that a signal is about; a film where it is not said.
pub open spec fn feedback_media_type(args: JsonView) -> Seq<char> {
    match args.text_at("media_type"@) {
        Some(t) => t,
        None => "movie"@,
    }
}

/// What is recorded.
pub open spec fn feedback_body(
    title: Seq<char>,
    media_type: Seq<char>,
    signal: Seq<char>,
    account: Seq<char>,
    note: Option<Seq<char>>,
) -> JsonView {
    JsonView::Object(
        no_fields().push(("title"@, JsonView::Str(title))).push(
            ("media_type"@, JsonView::Str(media_type)),
        ).push(("signal"@, JsonView::Str(signal))).push(
            ("account_id"@, JsonView::Str(account)),
        ).push(("note"@, text_or_null(note))),
    )
}

impl MediaTasteFeedback {
    /// The first step: a signal that is complete and valid is recorded against the caller's own
    /// account, and against no other.
    pub open spec fn start_view(&self, args: JsonView, own: Option<Seq<char>>) -> StepView {
        match filled_text(args, "title"@) {
            None => StepView::Failed(ErrorView::InvalidArgument("title is required"@), None),
            Some(title) => match args.text_at("signal"@) {
                None => StepView::Failed(ErrorView::InvalidArgument("signal is required"@), None),
                Some(raw) => if !is_signal(trimmed(raw)) {
                    StepView::Failed(
                        ErrorView::InvalidArgument(
                            "signal must be one of [\"requested\", \"watched\", \"dismissed\"]"@,
                        ),
                        None,
                    )
                } else {
                    match scope_of(named_account(args), own) {
                        Err(e) => StepView::Failed(e, None),
                        Ok(ScopeView::Unentitled) => StepView::Failed(
                            ErrorView::InvalidArgument(
                                "I can't record that -- I don't know whose taste profile it belongs to."@,
                            ),
                            None,
                        ),
                        Ok(ScopeView::Account(account)) => match self.client {
                            None => StepView::Failed(
                                ErrorView::NotConfigured(
                                    "MEDIA_TASTE_API_URL is not set -- taste memory write-back is unavailable"@,
                                ),
                                None,
                            ),
                            Some(c) => StepView::Send(
                                c.engagement_view(
                                    feedback_body(
                                        title,
                                        feedback_media_type(args),
                                        trimmed(raw),
                                        account,
                                        filled_text(args, "note"@),
                                    ),
                                ),
                            ),
                        },
                    }
                },
            },
        }
    }

    /// Takes the first step as [`Self::start_view`] says.
    pub fn start(&self, args: &Json, caller: &CallerContext) -> (r: Step)
        ensures
            r@ == self.start_view(args@, caller.account()),
    {
        let title = match setting(args.str_at("title")) {
            Some(t) => t,
            None => {
                return Step::Failed(ToolError::invalid("title is required"), None);
            },
        };
        let signal = match args.str_at("signal") {
            Some(raw) => trim(raw),
            None => {
                return Step::Failed(ToolError::invalid("signal is required"), None);
            },
        };
        if !(same(signal, "requested") || same(signal, "watched") || same(signal, "dismissed")) {
            return Step::Failed(
                ToolError::invalid(
                    "signal must be one of [\"requested\", \"watched\", \"dismissed\"]",
                ),
                None,
            );
        }
        let account = match resolve_history_scope(account_argument(args), caller) {
            Ok(HistoryScope::Account(a)) => a,
            Ok(HistoryScope::Unentitled) => {
                return Step::Failed(
                    ToolError::invalid(
                        "I can't record that -- I don't know whose taste profile it belongs to.",
                    ),
                    None,
                );
            },
            Err(e) => {
                return Step::Failed(e, None);
            },
        };
        let media_type = match args.str_at("media_type") {
            Some(t) => t,
            None => "movie",
        };
        let note = match setting(args.str_at("note")) {
            Some(n) => Json::Str(n),
            None => Json::Null,
        };
        match &self.client {
            None => Step::Failed(
                ToolError::not_configured(
                    "MEDIA_TASTE_API_URL is not set -- taste memory write-back is unavailable",
                ),
                None,
            ),
            Some(c) => {
                let mut f = Fields::new();
                f.put("title", Json::Str(title));
                f.put("media_type", Json::text(media_type));
                f.put("signal", Json::text(signal));
                f.put("account_id", Json::Str(account));
                f.put("note", note);
                Step::Send(c.record_engagement(f.object()))
            },
        }
    }

    /// The last step. A signal that could not be recorded is noted, and is no failure of the call.
    pub open spec fn finish_view(args: JsonView, reply: ReplyView) -> StepView {
        let about = "media_type="@ + feedback_media_type(args) + " signal="@ + (
        match args.text_at("signal"@) {
            Some(s) => trimmed(s),
            None => ""@,
        });
        match recording_error(reply) {
            None => StepView::Done(
                spoken(
                    "Got it, noted."@,
                    JsonView::Object(no_fields().push(("recorded"@, JsonView::Bool(true)))),
                ),
                Some(
                    AuditView {
                        tool: "media_taste_feedback"@,
                        success: true,
                        detail: "media_taste_feedback recorded: "@ + about,
                    },
                ),
            ),
            Some(e) => StepView::Done(
                spoken(
                    "Noted, though I couldn't save it to long-term memory right now."@,
                    JsonView::Object(no_fields().push(("recorded"@, JsonView::Bool(false)))),
                ),
                Some(
                    AuditView {
                        tool: "media_taste_feedback"@,
                        success: false,
                        detail: "media_taste_feedback failed: "@ + about + " error="@ + e.message(),
                    },
                ),
            ),
        }
    }

    /// Takes the last step as [`Self::finish_view`] says.
    pub fn finish(args: &Json, reply: &HttpReply) -> (r: Step)
        ensures
            r@ == MediaTasteFeedback::finish_view(args@, reply@),
    {
        let media_type = match args.str_at("media_type") {
            Some(t) => t,
            None => "movie",
        };
        let signal = match args.str_at("signal") {
            Some(s) => trim(s),
            None => "",
        };
        let about = cat4("media_type=", media_type, " signal=", signal);
        let mut f = Fields::new();
        match TasteMemoryClient::engagement_reply(reply) {
            Ok(_) => {
                f.put("recorded", Json::Bool(true));
                let detail = cat2("media_taste_feedback recorded: ", about.as_str());
                Step::Done(
                    speak("Got it, noted.", f.object()),
                    Some(Audit { tool: owned("media_taste_feedback"), success: true, detail }),
                )
            },
            Err(e) => {
                f.put("recorded", Json::Bool(false));
                let detail = cat4(
                    "media_taste_feedback failed: ",
                    about.as_str(),
                    " error=",
                    e.message(),
                );
                Step::Done(
                    speak(
                        "Noted, though I couldn't save it to long-term memory right now.",
                        f.object(),
                    ),
                    Some(Audit { tool: owned("media_taste_feedback"), success: false, detail }),
                )
            },
        }
    }
}

impl MediaTasteFeedback {
    /// Where a call stands after some replies. `own` is the caller's account.
    pub open spec fn run_view(
        &self,
        args: JsonView,
        own: Option<Seq<char>>,
        replies: Seq<ReplyView>,
    ) -> StepView {
        let first = self.start_view(args, own);
        if !(first is Send) || replies.len() == 0 {
            first
        } else {
            MediaTasteFeedback::finish_view(args, replies[0])
        }
    }

    /// Carries a call on to its next step as [`Self::run_view`] says.
    pub fn run(&self, args: &Json, caller: &CallerContext, replies: &Vec<HttpReply>) -> (r: Step)
        ensures
            r@ == self.run_view(args@, caller.account(), replies_view(replies@)),
    {
        let first = self.start(args, caller);
        if !first.is_send() || replies.len() == 0 {
            return first;
        }
        MediaTasteFeedback::finish(args, &replies[0])
    }
}

/// Whatever memory replies, recording a valid signal is no failure of the call.
pub proof fn memory_never_fails_a_signal(
    tool: MediaTasteFeedback,
    args: JsonView,
    own: Option<Seq<char>>,
    replies: Seq<ReplyView>,
)
    requires
        tool.start_view(args, own) is Send,
        replies.len() > 0,
    ensures
        tool.run_view(args, own, replies) is Done,
{
}

/// Nothing is recorded against an account that is not the caller's own.
pub proof fn feedback_is_recorded_against_own_account(
    tool: MediaTasteFeedback,
    args: JsonView,
    own: Option<Seq<char>>,
    replies: Seq<ReplyView>,
)
    ensures
        tool.run_view(args, own, replies) matches StepView::Send(request) ==> {
            &&& own matches Some(account)
            &&& tool.client matches Some(c)
            &&& request == c.engagement_view(
                feedback_body(
                    filled_text(args, "title"@).unwrap(),
                    feedback_media_type(args),
                    trimmed(args.text_at("signal"@).unwrap()),
                    account,
                    filled_text(args, "note"@),
                ),
            )
        },
{
}

// ── registration ────────────────────────────────────────────────────────────

/// What the recommendation tool with memory says about itself.
pub open spec fn taste_aware_info() -> InfoView {
    InfoView {
        name: "media_recommend"@,
        description: "Suggest movies/shows already in the library that haven't been watched yet, ranked by a taste profile built from recent Plex watch history AND (when configured) longer-term taste memory of liked/disliked genres and curation notes -- rationale reflects both, e.g. \"because you watched Dune (sci-fi) -- and you told me you're into that\". Degrades to the plain watch-history-only ranking if taste memory is unset or unreachable; never fails because of it."@,
        parameters: optional_object_view(no_fields()
            .push(("limit"@, described_view("integer"@, "Maximum number of recommendations to return (default 5)."@)))
            .push(("account_id"@, described_view("string"@, "Optional: your OWN media account id. It may not name another household member's account -- doing so is refused, not silently ignored. Omit it and your own account is used."@)))),
    }
}

impl TasteAwareMediaRecommend {
    /// What this tool says about itself.
    pub fn info() -> (r: ToolInfo)
        ensures
            r@ == taste_aware_info(),
    {
        let parameters = optional_object(Fields::new()
            .with("limit", described("integer", "Maximum number of recommendations to return (default 5)."))
            .with("account_id", described("string", "Optional: your OWN media account id. It may not name another household member's account -- doing so is refused, not silently ignored. Omit it and your own account is used.")));
        describe(
            "media_recommend",
            "Suggest movies/shows already in the library that haven't been watched yet, ranked by a taste profile built from recent Plex watch history AND (when configured) longer-term taste memory of liked/disliked genres and curation notes -- rationale reflects both, e.g. \"because you watched Dune (sci-fi) -- and you told me you're into that\". Degrades to the plain watch-history-only ranking if taste memory is unset or unreachable; never fails because of it.",
            parameters,
        )
    }
}

/// What the tool that records a signal says about itself.
pub open spec fn feedback_info() -> InfoView {
    InfoView {
        name: "media_taste_feedback"@,
        description: "Record a taste-memory engagement signal for a title -- requested, watched, or dismissed -- so future media_recommend calls learn from it. Only available when taste memory is enabled; a no-op (NotConfigured) if the taste memory facade isn't set up."@,
        parameters: required_object_view(
            no_fields()
                .push(("title"@, described_view("string"@, "Title of the movie/show the signal is about."@)))
                .push(("media_type"@, described_choice_view(no_texts().push("movie"@).push("tv"@), "Movie or TV series. Optional, defaults to \"movie\"."@)))
                .push(("signal"@, described_choice_view(no_texts().push("requested"@).push("watched"@).push("dismissed"@), "The engagement signal to record."@)))
                .push(("account_id"@, described_view("string"@, "Optional: your OWN media account id. It may not name another household member's account -- doing so is refused. Omit it and your own account is used."@)))
                .push(("note"@, described_view("string"@, "Optional free-text curation note, e.g. \"loved the slow pacing\"."@))),
            no_texts().push("title"@).push("signal"@),
        ),
    }
}

impl MediaTasteFeedback {
    /// What this tool says about itself.
    pub fn info() -> (r: ToolInfo)
        ensures
            r@ == feedback_info(),
    {
        let parameters = required_object(
            Fields::new()
                .with("title", described("string", "Title of the movie/show the signal is about."))
                .with("media_type", described_choice(TextList::new().with("movie").with("tv"), "Movie or TV series. Optional, defaults to \"movie\"."))
                .with("signal", described_choice(TextList::new().with("requested").with("watched").with("dismissed"), "The engagement signal to record."))
                .with("account_id", described("string", "Optional: your OWN media account id. It may not name another household member's account -- doing so is refused. Omit it and your own account is used."))
                .with("note", described("string", "Optional free-text curation note, e.g. \"loved the slow pacing\".")),
            TextList::new().with("title").with("signal"),
        );
        describe(
            "media_taste_feedback",
            "Record a taste-memory engagement signal for a title -- requested, watched, or dismissed -- so future media_recommend calls learn from it. Only available when taste memory is enabled; a no-op (NotConfigured) if the taste memory facade isn't set up.",
            parameters,
        )
    }
}

/// The tools once taste memory had its say: those there were where it is off; with the recommendation
/// tool replaced and the recording tool added where it is on.
pub open spec fn registered(tools: Seq<InfoView>, enabled: bool) -> Seq<InfoView> {
    if enabled {
        with_tool(with_tool(tools, taste_aware_info()), feedback_info())
    } else {
        tools
    }
}

/// Offers the tools with memory, where it is on. `enabled` is the value of
/// `MEDIA_TASTE_MEMORY_ENABLED`.
pub fn register(registry: &mut ToolRegistry, enabled: Option<&str>)
    ensures
        final(registry)@ == registered(
            old(registry)@,
            switch_view(setting_view(opt_str(enabled))) == Some(true),
        ),
{
    if !media_taste_memory_enabled(enabled) {
        return;
    }
    registry.register_or_replace(TasteAwareMediaRecommend::info());
    registry.register_or_replace(MediaTasteFeedback::info());
}

/// Whether memory is on or off, callers see one recommendation tool under one name.
pub proof fn memory_keeps_the_tool_name()
    ensures
        taste_aware_info().name == crate::media::recommend::recommend_info().name,
        taste_aware_info().parameters == crate::media::recommend::recommend_info().parameters,
{
}

} // verus!
