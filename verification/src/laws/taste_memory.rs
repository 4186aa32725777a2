//! What taste memory adds to recommendations, and what is written into it.
use vstd::prelude::*;

use crate::http::{status_line, Method, ReplyView};
use crate::json::{
    bits_of, lemma_lookup_push, number_text, strings_in, with_field_sets_one_field, JsonView,
};
use crate::laws::recommend::whose;
use crate::media::clients::{body_content, excerpt};
use crate::media::recommend::{RecommendView, ScopeView};
use crate::media::taste_memory::{
    adjusted, all_adjusted, blended, by_score, degraded, factors_of, list_at, new_score_at,
    recording_error, registered, signals_content, switch_view, verdict_of, with_structured,
    MediaTasteFeedback, TasteAwareMediaRecommend, TasteHeard, TasteRunView, Verdict,
};
use crate::number::rank_of;
use crate::order::ranking_is_ordered;
use crate::registry::{offers, registration_adds_one_name, InfoView};
use crate::text::{joined, lowercase, trimmed};
use crate::tool::{ErrorView, StepView};

verus! {

/// The switch is on for four words and off for four others, whatever their case and the white space
/// around them; any other value, and none, says nothing.
pub proof fn switches_know_eight_words(raw: Option<Seq<char>>)
    ensures
        raw is None ==> switch_view(raw) is None,
        raw matches Some(s) ==> {
            let word = lowercase(trimmed(s));
            &&& switch_view(raw) == Some(true) <==> word == "1"@ || word == "true"@ || word == "on"@
                || word == "yes"@
            &&& switch_view(raw) == Some(false) <==> word == "0"@ || word == "false"@ || word
                == "off"@ || word == "no"@
        },
{
    reveal_strlit("1");
    reveal_strlit("true");
    reveal_strlit("on");
    reveal_strlit("yes");
    reveal_strlit("0");
    reveal_strlit("false");
    reveal_strlit("off");
    reveal_strlit("no");
    assert("1"@.len() == 1);
    assert("true"@.len() == 4);
    assert("on"@.len() == 2);
    assert("yes"@.len() == 3);
    assert("0"@.len() == 1);
    assert("false"@.len() == 5);
    assert("off"@.len() == 3);
    assert("no"@.len() == 2);
    assert("1"@[0] == '1');
    assert("0"@[0] == '0');
    assert("on"@[0] == 'o');
    assert("no"@[0] == 'n');
    assert("yes"@[0] == 'y');
    assert("off"@[0] == 'o');
}

/// The strings of a list follow it item by item; what is no string is passed over.
pub proof fn strings_follow_the_list(a: Seq<JsonView>, b: Seq<JsonView>, v: JsonView)
    ensures
        strings_in(a + b) == strings_in(a) + strings_in(b),
        strings_in(Seq::empty()).len() == 0,
        strings_in(seq![v]) == (match v {
            JsonView::Str(s) => seq![s],
            _ => Seq::empty(),
        }),
    decreases b.len(),
{
    let one = seq![v];
    assert(one.drop_last() =~= Seq::<JsonView>::empty());
    assert(strings_in(one.drop_last()) =~= Seq::<Seq<char>>::empty());
    if let JsonView::Str(s) = v {
        assert(Seq::<Seq<char>>::empty().push(s) =~= seq![s]);
    }
    if b.len() == 0 {
        assert(a + b =~= a);
        assert(strings_in(a) + strings_in(b) =~= strings_in(a));
    } else {
        assert((a + b).drop_last() =~= a + b.drop_last());
        strings_follow_the_list(a, b.drop_last(), v);
        assert(strings_in(a + b) =~= strings_in(a) + strings_in(b));
    }
}

/// The strings of the list under a key; none where there is no list.
pub open spec fn strings_under(v: JsonView, key: Seq<char>) -> Seq<Seq<char>> {
    match v.at(key) {
        JsonView::Array(items) => strings_in(items),
        _ => Seq::empty(),
    }
}

/// A recommendation is liked where it shares a genre that memory likes, and disliked where it shares
/// none of those, but one that memory dislikes.
pub proof fn likes_and_dislikes_are_by_genre(
    rec: JsonView,
    liked: Seq<Seq<char>>,
    disliked: Seq<Seq<char>>,
)
    ensures
        ({
            let shared = strings_under(rec, "matched_genres"@);
            let likes = exists|i: int| 0 <= i < shared.len() && liked.contains(#[trigger] shared[i]);
            let dislikes = exists|i: int|
                0 <= i < shared.len() && disliked.contains(#[trigger] shared[i]);
            &&& likes ==> verdict_of(rec, liked, disliked) == Verdict::Liked
            &&& !likes && dislikes ==> verdict_of(rec, liked, disliked) == Verdict::Disliked
            &&& !likes && !dislikes ==> verdict_of(rec, liked, disliked) == Verdict::Neutral
        }),
{
    let shared = strings_under(rec, "matched_genres"@);
    assert(shared == list_at(rec, "matched_genres"@));
    if exists|i: int| 0 <= i < shared.len() && liked.contains(#[trigger] shared[i]) {
        let i = choose|i: int| 0 <= i < shared.len() && liked.contains(#[trigger] shared[i]);
        assert(!Seq::<Seq<char>>::empty().contains(shared[i]));
    } else if exists|i: int| 0 <= i < shared.len() && disliked.contains(#[trigger] shared[i]) {
        let i = choose|i: int| 0 <= i < shared.len() && disliked.contains(#[trigger] shared[i]);
        assert(!liked.contains(shared[i]));
    }
}

/// A liked recommendation gets its new score and says that it was asked for; a disliked one gets its
/// new score; any other stays as it is. Nothing else of a recommendation changes.
pub proof fn verdicts_change_score_and_reason(
    rec: JsonView,
    verdict: Verdict,
    new_score: Seq<char>,
    key: Seq<char>,
)
    requires
        rec is Object,
        bits_of(number_text(rec.at("score"@))) is Some,
    ensures
        ({
            let after = adjusted(rec, verdict, Some(new_score));
            &&& verdict == Verdict::Neutral ==> after == rec
            &&& verdict != Verdict::Neutral ==> after.field("score"@) == Some(
                JsonView::Float(new_score),
            )
            &&& verdict == Verdict::Liked ==> (rec.text_at("rationale"@) matches Some(why)
                ==> after.text_at("rationale"@) == Some(
                why + " -- and you told me you're into that"@,
            ))
            &&& verdict == Verdict::Disliked ==> after.field("rationale"@) == rec.field(
                "rationale"@,
            )
            &&& key != "score"@ && key != "rationale"@ ==> after.field(key) == rec.field(key)
        }),
{
    reveal_strlit("score");
    reveal_strlit("rationale");
    assert("score"@.len() == 5);
    assert("rationale"@.len() == 9);
    let scored = rec.with_field("score"@, JsonView::Float(new_score));
    with_field_sets_one_field(rec, "score"@, JsonView::Float(new_score), "score"@);
    with_field_sets_one_field(rec, "score"@, JsonView::Float(new_score), "rationale"@);
    with_field_sets_one_field(rec, "score"@, JsonView::Float(new_score), key);
    if let Some(why) = rec.text_at("rationale"@) {
        let more = JsonView::Str(why + " -- and you told me you're into that"@);
        with_field_sets_one_field(scored, "rationale"@, more, "score"@);
        with_field_sets_one_field(scored, "rationale"@, more, key);
        with_field_sets_one_field(scored, "rationale"@, more, "rationale"@);
    }
}

/// A recommendation without a score gets none.
pub proof fn scores_are_not_made_up(rec: JsonView, verdict: Verdict, new_score: Option<Seq<char>>)
    requires
        rec is Object,
        bits_of(number_text(rec.at("score"@))) is None || new_score is None,
    ensures
        adjusted(rec, verdict, new_score).field("score"@) == rec.field("score"@),
{
    reveal_strlit("score");
    reveal_strlit("rationale");
    assert("score"@.len() == 5);
    assert("rationale"@.len() == 9);
    if let Some(why) = rec.text_at("rationale"@) {
        let more = JsonView::Str(why + " -- and you told me you're into that"@);
        with_field_sets_one_field(rec, "rationale"@, more, "score"@);
    }
}

/// The bits of a recommendation's score; those of zero where it has none.
pub open spec fn worth(rec: JsonView) -> u64 {
    match bits_of(number_text(rec.at("score"@))) {
        Some(bits) => bits,
        None => 0,
    }
}

/// A new score belongs to the recommendation at its place; where there are fewer, the rest have none.
pub proof fn new_scores_stand_in_their_place(new_scores: Seq<Option<String>>, i: int)
    ensures
        0 <= i < new_scores.len() ==> new_score_at(new_scores, i) == (match new_scores[i] {
            Some(score) => Some(score@),
            None => None,
        }),
        i >= new_scores.len() ==> new_score_at(new_scores, i) is None,
{
}

/// Recommendations are put in the order of their scores, highest first; none is added and none is
/// lost.
pub proof fn recommendations_are_ranked_again(recs: Seq<JsonView>)
    ensures
        by_score(recs).len() == recs.len(),
        forall|k: int| 0 <= k < recs.len() ==> recs.contains(#[trigger] by_score(recs)[k]),
        forall|i: int| 0 <= i < recs.len() ==> by_score(recs).contains(#[trigger] recs[i]),
        forall|k: int, l: int|
            0 <= k < l < recs.len() ==> rank_of(worth(#[trigger] by_score(recs)[k])) >= rank_of(
                worth(#[trigger] by_score(recs)[l]),
            ),
{
    let keys = crate::media::taste_memory::score_keys(recs);
    let n = recs.len() as int;
    let order = crate::order::ranking(keys, n);
    ranking_is_ordered(keys, n);
    assert forall|i: int| 0 <= i < recs.len() implies by_score(recs).contains(
        #[trigger] recs[i],
    ) by {
        assert(order.contains(i));
        let k = choose|k: int| 0 <= k < order.len() && order[k] == i;
        assert(by_score(recs)[k] == recs[i]);
    }
    assert forall|k: int, l: int| 0 <= k < l < recs.len() implies rank_of(
        worth(#[trigger] by_score(recs)[k]),
    ) >= rank_of(worth(#[trigger] by_score(recs)[l])) by {
        assert(crate::order::ranks_before(keys, order[k], order[l]));
        assert(keys[order[k]] == (rank_of(worth(recs[order[k]])), 0int));
        assert(keys[order[l]] == (rank_of(worth(recs[order[l]])), 0int));
    }
}

/// Setting something under the structured part of an answer sets just that.
proof fn lemma_structured(base: JsonView, key: Seq<char>, value: JsonView, other: Seq<char>)
    requires
        base is Object,
        base.at("structured"@) is Object,
    ensures
        ({
            let after = with_structured(base, key, value);
            &&& after is Object
            &&& after.at("structured"@) is Object
            &&& after.at("structured"@).field(key) == Some(value)
            &&& other != key ==> after.at("structured"@).field(other) == base.at(
                "structured"@,
            ).field(other)
            &&& other != "structured"@ ==> after.field(other) == base.field(other)
        }),
{
    let inner = base.at("structured"@).with_field(key, value);
    with_field_sets_one_field(base.at("structured"@), key, value, other);
    with_field_sets_one_field(base.at("structured"@), key, value, key);
    with_field_sets_one_field(base, "structured"@, inner, other);
    with_field_sets_one_field(base, "structured"@, inner, "structured"@);
}

/// Memory changes an answer in three places: its recommendations are adjusted, each by its own
/// verdict, and ranked again; its summary ends with the first note, or with what is liked; and it
/// says what memory holds.
pub proof fn memory_is_blended_in(
    base: JsonView,
    signals: JsonView,
    new_scores: Seq<Option<String>>,
    recs: Seq<JsonView>,
    summary: Seq<char>,
)
    requires
        base is Object,
        base.at("structured"@) is Object,
        base.at("structured"@).items_at("recommendations"@) == Some(recs),
        base.text_at("summary"@) == Some(summary),
    ensures
        ({
            let after = blended(base, signals, new_scores);
            let it = after.at("structured"@);
            let liked = strings_under(signals, "liked_genres"@);
            let disliked = strings_under(signals, "disliked_genres"@);
            let notes = strings_under(signals, "notes"@);
            let memory = it.at("taste_memory"@);
            &&& after.text_at("summary"@) == Some(
                if notes.len() > 0 {
                    summary + " (you told me: \""@ + notes[0] + "\")"@
                } else if liked.len() > 0 {
                    summary + " (you're into "@ + joined(liked, "/"@) + ")"@
                } else {
                    summary
                },
            )
            &&& memory.bool_at("enabled"@) == Some(true)
            &&& memory.bool_at("applied"@) == Some(true)
            &&& memory.field("note"@) == Some(JsonView::Null)
            &&& memory.items_at("liked_genres"@) matches Some(shown) && shown.len() == liked.len()
                && forall|i: int|
                0 <= i < shown.len() ==> #[trigger] shown[i] == JsonView::Str(liked[i])
            &&& memory.items_at("disliked_genres"@) matches Some(shown) && shown.len()
                == disliked.len() && forall|i: int|
                0 <= i < shown.len() ==> #[trigger] shown[i] == JsonView::Str(disliked[i])
            &&& exists|fresh: Seq<JsonView>|
                {
                    &&& fresh.len() == recs.len()
                    &&& forall|i: int|
                        0 <= i < recs.len() ==> #[trigger] fresh[i] == adjusted(
                            recs[i],
                            verdict_of(recs[i], liked, disliked),
                            new_score_at(new_scores, i),
                        )
                    &&& it.items_at("recommendations"@) == Some(#[trigger] by_score(fresh))
                }
        }),
{
    broadcast use lemma_lookup_push;
    reveal_strlit("structured");
    reveal_strlit("summary");
    reveal_strlit("recommendations");
    reveal_strlit("taste_memory");
    reveal_strlit("enabled");
    reveal_strlit("applied");
    reveal_strlit("liked_genres");
    reveal_strlit("disliked_genres");
    reveal_strlit("note");
    assert("structured"@.len() == 10);
    assert("summary"@.len() == 7);
    assert("recommendations"@.len() == 15);
    assert("taste_memory"@.len() == 12);
    assert("enabled"@.len() == 7);
    assert("applied"@.len() == 7);
    assert("liked_genres"@.len() == 12);
    assert("disliked_genres"@.len() == 15);
    assert("note"@.len() == 4);
    assert("summary"@[0] == 's');
    assert("enabled"@[0] == 'e');
    assert("applied"@[0] == 'a');
    assert("recommendations"@[0] == 'r');
    assert("disliked_genres"@[0] == 'd');
    assert("taste_memory"@[0] == 't');
    assert("liked_genres"@[0] == 'l');
    let liked = list_at(signals, "liked_genres"@);
    let disliked = list_at(signals, "disliked_genres"@);
    let notes = list_at(signals, "notes"@);
    let fresh = all_adjusted(recs, signals, new_scores);
    let shown = JsonView::Array(by_score(fresh));
    lemma_structured(base, "recommendations"@, shown, "summary"@);
    let ranked = with_structured(base, "recommendations"@, shown);
    let words = JsonView::Str(
        crate::media::taste_memory::blended_summary(summary, liked, notes),
    );
    with_field_sets_one_field(ranked, "summary"@, words, "structured"@);
    with_field_sets_one_field(ranked, "summary"@, words, "summary"@);
    let worded = ranked.with_field("summary"@, words);
    let memory = JsonView::Object(
        crate::json::no_fields().push(("enabled"@, JsonView::Bool(true))).push(
            ("applied"@, JsonView::Bool(true)),
        ).push(("liked_genres"@, crate::json::text_array_view(liked))).push(
            ("disliked_genres"@, crate::json::text_array_view(disliked)),
        ).push(("note"@, JsonView::Null)),
    );
    lemma_structured(worded, "taste_memory"@, memory, "summary"@);
    lemma_structured(worded, "taste_memory"@, memory, "recommendations"@);
    assert(ranked.at("structured"@).field("recommendations"@) == Some(shown));
    assert(by_score(fresh) == by_score(fresh));
}

/// Where memory could not be used, an answer stays as it is but for a note that says why.
pub proof fn degraded_answers_say_why(base: JsonView, note: Seq<char>, key: Seq<char>)
    requires
        base is Object,
        base.at("structured"@) is Object,
    ensures
        ({
            let after = degraded(base, note);
            let memory = after.at("structured"@).at("taste_memory"@);
            &&& memory.bool_at("enabled"@) == Some(true)
            &&& memory.bool_at("applied"@) == Some(false)
            &&& memory.text_at("note"@) == Some(note)
            &&& key != "structured"@ ==> after.field(key) == base.field(key)
            &&& key != "taste_memory"@ ==> after.at("structured"@).field(key) == base.at(
                "structured"@,
            ).field(key)
        }),
{
    broadcast use lemma_lookup_push;
    reveal_strlit("enabled");
    reveal_strlit("applied");
    reveal_strlit("note");
    assert("enabled"@.len() == 7);
    assert("applied"@.len() == 7);
    assert("note"@.len() == 4);
    assert("enabled"@[0] == 'e');
    assert("applied"@[0] == 'a');
    let memory = JsonView::Object(
        crate::json::no_fields().push(("enabled"@, JsonView::Bool(true))).push(
            ("applied"@, JsonView::Bool(false)),
        ).push(("note"@, JsonView::Str(note))),
    );
    lemma_structured(base, "taste_memory"@, memory, key);
}

/// What memory said: its content, where it answered with success; otherwise an error that says how
/// it was not reached, or what it answered.
pub proof fn memory_is_heard(reply: ReplyView)
    ensures
        match reply {
            ReplyView::Failed { text, .. } => signals_content(reply) == Err::<JsonView, ErrorView>(
                ErrorView::Http("taste memory facade unavailable: "@ + text),
            ) && recording_error(reply) == Some(
                ErrorView::Http("taste memory facade unavailable: "@ + text),
            ),
            ReplyView::Answered { status, body } => if 200 <= status && status <= 299 {
                recording_error(reply) is None && signals_content(reply) == (match body {
                    Ok(text) => body_content("taste memory facade"@, text),
                    Err(e) => Err(ErrorView::Http(e)),
                })
            } else {
                &&& signals_content(reply) == Err::<JsonView, ErrorView>(
                    ErrorView::Http(
                        "taste memory facade HTTP "@ + status_line(status) + ": "@ + excerpt(body),
                    ),
                )
                &&& recording_error(reply) == Some(
                    ErrorView::Http(
                        "taste memory facade rejected engagement write (HTTP "@ + status_line(
                            status,
                        ) + "): "@ + excerpt(body),
                    ),
                )
            },
        },
{
}

/// A call is carried through as without memory. Then memory is asked about the caller's own account,
/// where there is one and memory is configured, each recommendation is judged, and the answer is
/// blended; where any of that fails, the answer says so and is otherwise as without memory.
pub proof fn memory_is_asked_after_the_rest(
    tool: TasteAwareMediaRecommend,
    args: JsonView,
    own: Option<Seq<char>>,
    heard: TasteHeard,
)
    ensures
        match tool.inner.run_view(args, own, heard.replies, heard.ratings@) {
            RecommendView::Done(base) => match (own, tool.client) {
                (None, _) => tool.run_view(args, own, heard) == TasteRunView::Done(
                    degraded(base, "not personalized for this caller"@),
                ),
                (Some(_), None) => tool.run_view(args, own, heard) == TasteRunView::Done(
                    degraded(base, "taste memory not configured (MEDIA_TASTE_API_URL unset)"@),
                ),
                (Some(account), Some(c)) => match heard.signals {
                    None => tool.run_view(args, own, heard) matches TasteRunView::AskMemory(request)
                        && request.method == Method::Get && request.url == c.base()
                        + "/media/taste/signals"@ && request.query == seq![
                        ("account_id"@, account),
                    ] && request.body is None,
                    Some(reply) => match signals_content(reply@) {
                        Err(_) => tool.run_view(args, own, heard) == TasteRunView::Done(
                            degraded(
                                base,
                                "taste memory unreachable, showing watch-history-only recommendations"@,
                            ),
                        ),
                        Ok(signals) => if heard.new_scores@.len() != factors_of(base, signals).len() {
                            tool.run_view(args, own, heard) == TasteRunView::Rescore(
                                factors_of(base, signals),
                            )
                        } else {
                            tool.run_view(args, own, heard) == TasteRunView::Done(
                                blended(base, signals, heard.new_scores@),
                            )
                        },
                    },
                },
            },
            step => tool.run_view(args, own, heard) == TasteRunView::Base(step),
        },
{
    if let Some(account) = own {
        assert(Seq::<(Seq<char>, Seq<char>)>::empty().push(("account_id"@, account)) =~= seq![
            ("account_id"@, account),
        ]);
    }
}

/// Each recommendation is judged by its own genres, and handed over with the bits of its score.
pub proof fn every_recommendation_is_judged(base: JsonView, signals: JsonView, recs: Seq<JsonView>)
    requires
        base.at("structured"@).items_at("recommendations"@) == Some(recs),
    ensures
        factors_of(base, signals).len() == recs.len(),
        forall|i: int|
            0 <= i < recs.len() ==> (#[trigger] factors_of(base, signals)[i]).verdict == verdict_of(
                recs[i],
                strings_under(signals, "liked_genres"@),
                strings_under(signals, "disliked_genres"@),
            ) && factors_of(base, signals)[i].score == bits_of(number_text(recs[i].at("score"@))),
{
}

/// Whether arguments give a title and one of the three signals.
pub open spec fn gives_signal(args: JsonView) -> bool {
    &&& args.text_at("title"@) matches Some(t) && trimmed(t).len() > 0
    &&& args.text_at("signal"@) matches Some(s) && (trimmed(s) == "requested"@ || trimmed(s)
        == "watched"@ || trimmed(s) == "dismissed"@)
}

/// A signal is written against the caller's own account, with the title, the type, the signal and
/// the note that the arguments give. Without a title or a signal, for an account that is not the
/// caller's, and where nobody's account is known, it is refused.
pub proof fn signals_are_written_as_given(
    tool: MediaTasteFeedback,
    args: JsonView,
    own: Option<Seq<char>>,
)
    ensures
        !gives_signal(args) || !(whose(args, own) matches Some(ScopeView::Account(_))) ==> tool.run_view(
            args,
            own,
            Seq::empty(),
        ) == StepView::Failed(
            ErrorView::InvalidArgument(
                if !(args.text_at("title"@) matches Some(t) && trimmed(t).len() > 0) {
                    "title is required"@
                } else if args.text_at("signal"@) is None {
                    "signal is required"@
                } else if !gives_signal(args) {
                    "signal must be one of [\"requested\", \"watched\", \"dismissed\"]"@
                } else if whose(args, own) is None {
                    "account_id may only be your own media account. Omit it and I'll use yours."@
                } else {
                    "I can't record that -- I don't know whose taste profile it belongs to."@
                },
            ),
            None,
        ),
        gives_signal(args) ==> (whose(args, own) matches Some(ScopeView::Account(account)) ==> match tool.client {
            None => tool.run_view(args, own, Seq::empty()) == StepView::Failed(
                ErrorView::NotConfigured(
                    "MEDIA_TASTE_API_URL is not set -- taste memory write-back is unavailable"@,
                ),
                None,
            ),
            Some(c) => tool.run_view(args, own, Seq::empty()) matches StepView::Send(request) && {
                &&& request.method == Method::Post
                &&& request.url == c.base() + "/media/taste/engagement"@
                &&& request.query.len() == 0
                &&& request.body matches Some(body) && {
                    &&& body.text_at("title"@) == Some(trimmed(args.text_at("title"@).unwrap()))
                    &&& body.text_at("signal"@) == Some(trimmed(args.text_at("signal"@).unwrap()))
                    &&& body.text_at("media_type"@) == Some(
                        match args.text_at("media_type"@) {
                            Some(t) => t,
                            None => "movie"@,
                        },
                    )
                    &&& body.text_at("account_id"@) == own
                    &&& account == own.unwrap()
                    &&& body.text_at("note"@) == (match args.text_at("note"@) {
                        Some(n) => if trimmed(n).len() > 0 {
                            Some(trimmed(n))
                        } else {
                            None
                        },
                        None => None,
                    })
                }
            },
        }),
{
    broadcast use lemma_lookup_push;
    reveal_strlit("title");
    reveal_strlit("media_type");
    reveal_strlit("signal");
    reveal_strlit("account_id");
    reveal_strlit("note");
    assert("title"@.len() == 5);
    assert("media_type"@.len() == 10);
    assert("signal"@.len() == 6);
    assert("account_id"@.len() == 10);
    assert("note"@.len() == 4);
    assert("media_type"@[0] == 'm');
    assert("account_id"@[0] == 'a');
    reveal_strlit("requested");
    reveal_strlit("watched");
    reveal_strlit("dismissed");
    assert("requested"@.len() == 9);
    assert("watched"@.len() == 7);
    assert("dismissed"@.len() == 9);
    assert("requested"@[0] == 'r');
    assert("dismissed"@[0] == 'd');
}

/// Whether a signal was taken is what the answer and the record say; that it was not is no failure.
pub proof fn signals_are_answered(
    tool: MediaTasteFeedback,
    args: JsonView,
    own: Option<Seq<char>>,
    replies: Seq<ReplyView>,
)
    requires
        tool.run_view(args, own, Seq::empty()) is Send,
        replies.len() > 0,
    ensures
        tool.run_view(args, own, replies) matches StepView::Done(answer, Some(audit)) && {
            let about = "media_type="@ + (match args.text_at("media_type"@) {
                Some(t) => t,
                None => "movie"@,
            }) + " signal="@ + trimmed(args.text_at("signal"@).unwrap());
            let error = recording_error(replies[0]);
            &&& answer.at("structured"@).bool_at("recorded"@) == Some(error is None)
            &&& answer.text_at("summary"@) == Some(
                if error is None {
                    "Got it, noted."@
                } else {
                    "Noted, though I couldn't save it to long-term memory right now."@
                },
            )
            &&& audit.success == (error is None)
            &&& audit.tool == "media_taste_feedback"@
            &&& audit.detail == (match error {
                None => "media_taste_feedback recorded: "@ + about,
                Some(e) => "media_taste_feedback failed: "@ + about + " error="@ + e.message(),
            })
        },
{
    broadcast use lemma_lookup_push;
    reveal_strlit("summary");
    reveal_strlit("structured");
    reveal_strlit("recorded");
    assert("summary"@.len() == 7);
    assert("structured"@.len() == 10);
    assert("recorded"@.len() == 8);
}

/// Memory's tools are offered exactly where it is switched on, besides everything that was offered
/// before.
pub proof fn memory_is_offered_where_switched_on(
    tools: Seq<InfoView>,
    enabled: bool,
    name: Seq<char>,
)
    ensures
        !enabled ==> registered(tools, enabled) == tools,
        enabled ==> (offers(registered(tools, enabled), name) <==> offers(tools, name) || name
            == "media_recommend"@ || name == "media_taste_feedback"@),
{
    let first = crate::media::taste_memory::taste_aware_info();
    let second = crate::media::taste_memory::feedback_info();
    registration_adds_one_name(tools, first, name);
    registration_adds_one_name(crate::registry::with_tool(tools, first), second, name);
}

} // verus!
