//! What a search and a status call come to, in terms of the query and of what the services list.
use vstd::arithmetic::power2::{lemma_pow2_pos, lemma_pow2_unfold, pow2};
use vstd::prelude::*;
use vstd::utf8::{decode_utf8, encode_utf8};

use crate::http::{Method, ReplyView};
use crate::json::{bits_of, lemma_lookup_push, number_text, Json, JsonView};
use crate::media::clients::{reply_content, Service};
use crate::media::search::{
    ambiguous, best_item, better_titles_come_first, found_in, found_item_is_best, is_relevant,
    item_comparisons, listed_items, ranked, rated, relevant, search_answer, similarity_of,
    status_answer, too_close, years_are_whole, Candidate, CandidateView, CheckView, FoundView,
    Heard, InquiryView, MediaSearch, MediaStatus, Rating, SearchView, Similarity, StatusSource,
    StatusView,
};
use crate::number::{rank_of, rank_orders_magnitudes, scaled};
use crate::text::{has_substring, joined, lowercase, trimmed, words_of};
use crate::tool::ErrorView;

verus! {

// ── comparing titles ────────────────────────────────────────────────────────

/// Where one title stands within another, the comparison holds the two lengths in bytes, the smaller
/// one first.
pub proof fn substrings_are_measured_in_bytes(q: Seq<char>, t: Seq<char>)
    requires
        encode_utf8(q).len() <= usize::MAX,
        encode_utf8(t).len() <= usize::MAX,
        q.len() > 0,
        t.len() > 0,
        q != t,
        has_substring(q, t) || has_substring(t, q),
    ensures
        similarity_of(q, t) matches Similarity::Substring { shorter, longer } && shorter <= longer
            && shorter + longer == encode_utf8(q).len() + encode_utf8(t).len() && (longer
            == encode_utf8(q).len() || longer == encode_utf8(t).len()),
{
}

/// Where neither title stands within the other, the comparison counts words: shared ones and all of
/// them together make up the words of both, they share all where they have the same words, and none
/// where they have no word in common.
pub proof fn overlaps_are_measured_in_words(q: Seq<char>, t: Seq<char>)
    requires
        encode_utf8(q).len() <= usize::MAX,
        encode_utf8(t).len() <= usize::MAX,
        q.len() > 0,
        t.len() > 0,
        q != t,
        !has_substring(q, t),
        !has_substring(t, q),
    ensures
        words_of(q).len() == 0 || words_of(t).len() == 0 ==> similarity_of(q, t) is Unrelated,
        words_of(q).len() > 0 && words_of(t).len() > 0 ==> (similarity_of(q, t)
            matches Similarity::Words { shared, together } && {
            &&& shared + together == words_of(q).to_set().len() + words_of(t).to_set().len()
            &&& shared == together <==> words_of(q).to_set() == words_of(t).to_set()
            &&& shared == 0 <==> forall|w: Seq<char>|
                words_of(q).contains(w) ==> !(#[trigger] words_of(t).contains(w))
        }),
{
    if words_of(q).len() > 0 && words_of(t).len() > 0 {
        let a = words_of(q);
        let b = words_of(t);
        let qw = a.to_set();
        let tw = b.to_set();
        crate::media::search::lemma_word_counts(q, t);
        vstd::seq_lib::seq_to_set_is_finite(a);
        vstd::seq_lib::seq_to_set_is_finite(b);
        vstd::set_lib::lemma_set_intersect_union_lens(qw, tw);
        let both = qw.intersect(tw);
        let all = qw + tw;
        assert(both.subset_of(all));
        if qw == tw {
            assert(both =~= qw);
            assert(all =~= qw);
        }
        if both.len() == all.len() {
            vstd::set_lib::lemma_subset_equality(both, all);
            assert forall|w: Seq<char>| qw.contains(w) <==> tw.contains(w) by {
                assert(all.contains(w) <==> both.contains(w));
            }
            assert(qw =~= tw);
        }
        if both.len() == 0 {
            assert forall|w: Seq<char>| a.contains(w) implies !(#[trigger] b.contains(w)) by {
                if b.contains(w) {
                    assert(qw.contains(w) && tw.contains(w));
                    assert(both.contains(w));
                }
            }
        }
        if forall|w: Seq<char>| a.contains(w) ==> !(#[trigger] b.contains(w)) {
            assert(both =~= Set::<Seq<char>>::empty()) by {
                assert forall|w: Seq<char>| !both.contains(w) by {
                    if both.contains(w) {
                        assert(a.contains(w) && b.contains(w));
                    }
                }
            }
        }
    }
}

// ── thresholds ──────────────────────────────────────────────────────────────

/// A score is shown exactly where it is at least one fifth.
pub proof fn a_fifth_is_relevant(score: u64)
    requires
        score <= 0x3ff0_0000_0000_0000,
    ensures
        is_relevant(score) <==> 5 * scaled(score) >= pow2(1074),
{
    let floor: u64 = 0x3fc9_9999_9999_999a;
    let below: u64 = 0x3fc9_9999_9999_9999;
    let u = pow2(1019) as int;
    lemma_pow2_pos(1019);
    lemma_units();
    assert(scaled(floor) == 0x19_9999_9999_999a * u);
    assert(scaled(below) == 0x19_9999_9999_9999 * u);
    rank_orders_magnitudes(score, floor);
    rank_orders_magnitudes(below, score);
    rank_orders_magnitudes(score, below);
    assert(5 * (0x19_9999_9999_999a * u) >= 0x80_0000_0000_0000 * u) by (nonlinear_arith)
        requires
            u > 0,
    ;
    assert(5 * (0x19_9999_9999_9999 * u) < 0x80_0000_0000_0000 * u) by (nonlinear_arith)
        requires
            u > 0,
    ;
}

/// What is relevant stays, in its order, and nothing else does.
pub proof fn the_relevant_stay(a: Seq<CandidateView>, b: Seq<CandidateView>, c: CandidateView)
    ensures
        crate::media::search::relevant(a + b) == crate::media::search::relevant(a)
            + crate::media::search::relevant(b),
        crate::media::search::relevant(Seq::empty()) == Seq::<CandidateView>::empty(),
        crate::media::search::relevant(seq![c]) == (if is_relevant(c.score) {
            seq![c]
        } else {
            Seq::empty()
        }),
    decreases b.len(),
{
    reveal_with_fuel(crate::media::search::relevant, 2);
    assert(seq![c].drop_last() =~= Seq::empty());
    assert(Seq::<CandidateView>::empty().push(c) =~= seq![c]);
    if b.len() > 0 {
        the_relevant_stay(a, b.drop_last(), c);
        assert((a + b).drop_last() =~= a + b.drop_last());
        assert(crate::media::search::relevant(a + b) =~= crate::media::search::relevant(a)
            + crate::media::search::relevant(b));
    } else {
        assert(a + b =~= a);
        assert(b =~= Seq::empty());
        assert(crate::media::search::relevant(a) + crate::media::search::relevant(b)
            =~= crate::media::search::relevant(a));
    }
}

/// The powers of two that the thresholds are made of.
proof fn lemma_units()
    ensures
        pow2(1020) == 2 * pow2(1019),
        pow2(1021) == 4 * pow2(1019),
        pow2(1022) == 8 * pow2(1019),
        pow2(1074) == 0x80_0000_0000_0000 * pow2(1019),
{
    lemma_pow2_unfold(1020);
    lemma_pow2_unfold(1021);
    lemma_pow2_unfold(1022);
    vstd::arithmetic::power2::lemma_pow2_adds(1019, 55);
    vstd::arithmetic::power2::lemma2_to64_rest();
    assert(pow2(55) == 0x80_0000_0000_0000) by {
        vstd::arithmetic::power2::lemma2_to64_rest();
        vstd::arithmetic::power2::lemma2_to64();
    }
    let u = pow2(1019);
    assert(u * 0x80_0000_0000_0000 == 0x80_0000_0000_0000 * u) by (nonlinear_arith);
}

/// Two scores are too close to call exactly where both are at least three quarters and the first is
/// at most three twentieths above the second.
pub proof fn strong_scores_may_be_too_close(top: u64, second: u64)
    requires
        top <= 0x3ff0_0000_0000_0000,
        second <= 0x3ff0_0000_0000_0000,
    ensures
        too_close(top, second) <==> {
            &&& 4 * scaled(top) >= 3 * pow2(1074)
            &&& 4 * scaled(second) >= 3 * pow2(1074)
            &&& 20 * (scaled(top) - scaled(second)) <= 3 * pow2(1074)
        },
{
    let u = pow2(1019) as int;
    lemma_pow2_pos(1019);
    lemma_units();
    let strong: u64 = 0x3fe8_0000_0000_0000;
    assert(scaled(strong) == 0x18_0000_0000_0000 * pow2(1021));
    assert(4 * scaled(strong) == 3 * pow2(1074)) by (nonlinear_arith)
        requires
            scaled(strong) == 0x18_0000_0000_0000 * pow2(1021),
            pow2(1021) == 4 * pow2(1019),
            pow2(1074) == 0x80_0000_0000_0000 * pow2(1019),
    ;
    rank_orders_magnitudes(top, strong);
    rank_orders_magnitudes(second, strong);
    if top >= strong && second >= strong {
        let x = lemma_quarter_units(top);
        let y = lemma_quarter_units(second);
        let close: u64 = 0x3fc3_3333_3333_3333;
        assert(scaled(close) == 0x13_3333_3333_3333 * u);
        let d = x - y;
        assert(scaled(top) - scaled(second) == (4 * d) * u) by (nonlinear_arith)
            requires
                scaled(top) == x * (4 * u),
                scaled(second) == y * (4 * u),
                d == x - y,
        ;
        assert((4 * d) * u <= 0x13_3333_3333_3333 * u <==> 4 * d <= 0x13_3333_3333_3333)
            by (nonlinear_arith)
            requires
                u > 0,
        ;
        assert(20 * ((4 * d) * u) <= 3 * (0x80_0000_0000_0000 * u) <==> 80 * d
            <= 0x180_0000_0000_0000) by (nonlinear_arith)
            requires
                u > 0,
        ;
        assert(4 * d <= 0x13_3333_3333_3333 <==> 80 * d <= 0x180_0000_0000_0000);
    }
}

/// A score of at least one half is a multiple of the spacing of such scores.
proof fn lemma_quarter_units(bits: u64) -> (n: int)
    requires
        0x3fe0_0000_0000_0000 <= bits <= 0x3ff0_0000_0000_0000,
    ensures
        scaled(bits) == n * (4 * pow2(1019)),
{
    lemma_units();
    let unit = pow2(1021) as int;
    if bits == 0x3ff0_0000_0000_0000 {
        assert(scaled(bits) == 0x10_0000_0000_0000 * pow2(1022));
        assert(0x10_0000_0000_0000 * (2 * unit) == 0x20_0000_0000_0000 * unit) by (nonlinear_arith);
        0x20_0000_0000_0000
    } else {
        0x10_0000_0000_0000 + bits as int % 0x10_0000_0000_0000
    }
}

// ── what is found ───────────────────────────────────────────────────────────

/// Whether a search result is a film or a series with a title or a name.
pub open spec fn is_film_or_series(item: JsonView) -> bool {
    &&& item.text_at("media_type"@) == Some("movie"@) || item.text_at("media_type"@) == Some("tv"@)
    &&& item.text_at("title"@) is Some || item.text_at("name"@) is Some
}

/// The title of an item, else its name.
pub open spec fn title_or_name(item: JsonView) -> Option<Seq<char>> {
    if item.text_at("title"@) is Some {
        item.text_at("title"@)
    } else {
        item.text_at("name"@)
    }
}

/// The date of a search result: that of its release, else that of its first airing.
pub open spec fn date_given(item: JsonView) -> Option<Seq<char>> {
    if item.text_at("release_date"@) is Some {
        item.text_at("release_date"@)
    } else {
        item.text_at("first_air_date"@)
    }
}

/// Whether a find says what a search result says.
pub open spec fn tells_of(found: FoundView, item: JsonView, query: Seq<char>) -> bool {
    &&& Some(found.title) == title_or_name(item)
    &&& Some(found.media_type) == item.text_at("media_type"@)
    &&& item.int_at("id"@) matches Some(n) ==> found.tmdb_id == n
    &&& item.int_at("id"@) is None ==> found.tmdb_id == 0
    &&& date_given(item) is None ==> found.year is None
    &&& date_given(item) matches Some(d) ==> encode_utf8(d).len() <= usize::MAX ==> if encode_utf8(
        d,
    ).len() >= 4 {
        found.year == Some(decode_utf8(encode_utf8(d).take(4)))
    } else {
        found.year is None
    }
    &&& found.popularity == match bits_of(number_text(item.at("popularity"@))) {
        Some(bits) => bits,
        None => 0,
    }
    &&& found.similarity == similarity_of(
        lowercase(trimmed(query)),
        lowercase(trimmed(found.title)),
    )
}

/// What is found among some results is what is found among the first of them and then among the
/// rest: nothing is dropped or moved.
pub proof fn finds_follow_the_results(a: Seq<JsonView>, b: Seq<JsonView>, query: Seq<char>)
    ensures
        found_in(a + b, query) == found_in(a, query) + found_in(b, query),
        found_in(Seq::empty(), query).len() == 0,
    decreases b.len(),
{
    if b.len() == 0 {
        assert(a + b =~= a);
        assert(found_in(a, query) + found_in(b, query) =~= found_in(a, query));
    } else {
        assert((a + b).drop_last() =~= a + b.drop_last());
        finds_follow_the_results(a, b.drop_last(), query);
        assert(found_in(a + b, query) =~= found_in(a, query) + found_in(b, query));
    }
}

/// A film or a series with a title is found, with what it says of itself; nothing else is.
pub proof fn films_and_series_are_found(item: JsonView, query: Seq<char>)
    ensures
        is_film_or_series(item) ==> found_in(seq![item], query).len() == 1 && tells_of(
            found_in(seq![item], query)[0],
            item,
            query,
        ),
        !is_film_or_series(item) ==> found_in(seq![item], query).len() == 0,
{
    let one = seq![item];
    assert(one.drop_last() =~= Seq::<JsonView>::empty());
    assert(found_in(one.drop_last(), query) =~= Seq::<FoundView>::empty());
    if let Some(d) = date_given(item) {
        if encode_utf8(d).len() >= 4 {
            assert(encode_utf8(d).subrange(0, 4) =~= encode_utf8(d).take(4));
        }
    }
}

/// Each find gets the score in its place and keeps everything else.
pub proof fn finds_keep_what_they_say(found: Seq<FoundView>, ratings: Seq<Rating>, i: int)
    requires
        0 <= i < found.len(),
    ensures
        rated(found, ratings).len() == found.len(),
        ({
            let c = rated(found, ratings)[i];
            &&& c.title == found[i].title
            &&& c.tmdb_id == found[i].tmdb_id
            &&& c.media_type == found[i].media_type
            &&& c.year == found[i].year
            &&& c.popularity == found[i].popularity
            &&& c.score == ratings[i].score.view_bits()
            &&& c.shown_score == ratings[i].shown@
        }),
{
}

// ── the answer to a search ──────────────────────────────────────────────────

/// A candidate's year, in words.
pub open spec fn year_words(c: CandidateView) -> Seq<char> {
    if let Some(y) = c.year {
        y
    } else {
        "year unknown"@
    }
}

/// Where one candidate stands out, the summary names it: its title, its year and its type. No
/// candidate has a higher score than the one that is named.
pub proof fn the_best_match_is_named(query: Seq<char>, candidates: Seq<CandidateView>)
    requires
        ranked(candidates).len() > 0,
        !ambiguous(ranked(candidates)),
    ensures
        exists|i: int|
            {
                &&& 0 <= i < candidates.len()
                &&& is_relevant((#[trigger] candidates[i]).score)
                &&& forall|j: int|
                    0 <= j < candidates.len() && is_relevant((#[trigger] candidates[j]).score)
                        ==> rank_of(candidates[j].score) <= rank_of(candidates[i].score)
                &&& search_answer(query, ranked(candidates)).text_at("summary"@) == Some(
                    "Found \""@ + candidates[i].title + "\" ("@ + year_words(candidates[i])
                        + ") — "@ + candidates[i].media_type + "."@,
                )
            },
{
    broadcast use lemma_lookup_push;
    reveal_strlit("summary");
    reveal_strlit("structured");
    assert("summary"@.len() == 7);
    assert("structured"@.len() == 10);
    let best = ranked(candidates);
    better_titles_come_first(candidates);
    assert(candidates.contains(best[0]));
    let i = choose|i: int| 0 <= i < candidates.len() && candidates[i] == best[0];
    assert forall|j: int| 0 <= j < candidates.len() && is_relevant((#[trigger] candidates[j]).score)
        implies rank_of(candidates[j].score) <= rank_of(candidates[i].score) by {
        assert(best.contains(candidates[j]));
        let k = choose|k: int| 0 <= k < best.len() && best[k] == candidates[j];
        if k > 0 {
            assert(rank_of(best[0].score) >= rank_of(best[k].score));
        }
    }
    assert(is_relevant(candidates[i].score));
}

/// A response to a search whose first candidate stands out names that candidate.
pub proof fn responses_name_the_first_candidate(query: &str, candidates: &[Candidate], said: Json)
    requires
        call_ensures(crate::media::search::build_search_response, (query, candidates), said),
        candidates@.len() > 0,
        !ambiguous(crate::media::search::candidates_view(candidates@)),
    ensures
        said@.text_at("summary"@) == Some(
            "Found \""@ + candidates@[0]@.title + "\" ("@ + year_words(candidates@[0]@) + ") — "@
                + candidates@[0]@.media_type + "."@,
        ),
{
    broadcast use lemma_lookup_push;
    reveal_strlit("summary");
    reveal_strlit("structured");
    assert("summary"@.len() == 7);
    assert("structured"@.len() == 10);
    assert(crate::media::search::candidates_view(candidates@)[0] == candidates@[0]@);
}

/// Where the two best candidates are too close to call, the summary asks which was meant, and names
/// the three best, best first, each by title, year and type.
pub proof fn close_matches_are_a_question(query: Seq<char>, candidates: Seq<CandidateView>)
    requires
        candidates.len() >= 2,
        too_close(candidates[0].score, candidates[1].score),
    ensures
        search_answer(query, candidates).at("structured"@).bool_at("ambiguous"@) == Some(true),
        exists|options: Seq<Seq<char>>|
            {
                &&& options.len() == if candidates.len() < 3 {
                    candidates.len()
                } else {
                    3
                }
                &&& forall|k: int|
                    0 <= k < options.len() ==> #[trigger] options[k] == candidates[k].title + " ("@
                        + year_words(candidates[k]) + ", "@ + candidates[k].media_type + ")"@
                &&& search_answer(query, candidates).text_at("summary"@) == Some(
                    "I found a few close matches for \""@ + query + "\": "@ + #[trigger] joined(
                        options,
                        "; "@,
                    ) + ". Which one did you mean?"@,
                )
            },
{
    broadcast use lemma_lookup_push;
    reveal_strlit("summary");
    reveal_strlit("structured");
    reveal_strlit("query");
    reveal_strlit("ambiguous");
    reveal_strlit("candidates");
    assert("summary"@.len() == 7);
    assert("structured"@.len() == 10);
    assert("query"@.len() == 5);
    assert("ambiguous"@.len() == 9);
    assert("candidates"@.len() == 10);
    assert("structured"@[0] == 's');
    assert("candidates"@[0] == 'c');
    let options = crate::media::search::first_of(candidates, 3).map_values(
        |c: CandidateView|
            c.title + " ("@ + crate::media::search::year_text(c) + ", "@ + c.media_type + ")"@,
    );
    assert(joined(options, "; "@) == joined(options, "; "@));
}

/// Where nothing is left of the candidates, the summary says so and names the query.
pub proof fn nothing_found_is_said(query: Seq<char>)
    ensures
        search_answer(query, Seq::empty()).text_at("summary"@) == Some(
            "I couldn't find anything matching \""@ + query
                + "\". Try a more specific title, or add the year if you know it."@,
        ),
        search_answer(query, Seq::empty()).at("structured"@).bool_at("ambiguous"@) == Some(false),
        search_answer(query, Seq::empty()).at("structured"@).items_at("candidates"@) matches Some(
            shown,
        ) && shown.len() == 0,
{
    broadcast use lemma_lookup_push;
    reveal_strlit("summary");
    reveal_strlit("structured");
    reveal_strlit("query");
    reveal_strlit("ambiguous");
    reveal_strlit("candidates");
    assert("summary"@.len() == 7);
    assert("structured"@.len() == 10);
    assert("query"@.len() == 5);
    assert("ambiguous"@.len() == 9);
    assert("candidates"@.len() == 10);
    assert("structured"@[0] == 's');
    assert("candidates"@[0] == 'c');
}

/// The structured answer holds the query, whether it was too close to call, and the five best
/// candidates, best first, each with its title, year, id, type and score.
pub proof fn the_five_best_are_shown(query: Seq<char>, candidates: Seq<CandidateView>)
    ensures
        ({
            let it = search_answer(query, candidates).at("structured"@);
            &&& it.text_at("query"@) == Some(query)
            &&& it.bool_at("ambiguous"@) == Some(
                candidates.len() >= 2 && too_close(candidates[0].score, candidates[1].score),
            )
            &&& it.items_at("candidates"@) matches Some(shown) && {
                &&& shown.len() == if candidates.len() < 5 {
                    candidates.len()
                } else {
                    5
                }
                &&& forall|k: int|
                    0 <= k < shown.len() ==> {
                        let c = #[trigger] shown[k];
                        &&& c.text_at("title"@) == Some(candidates[k].title)
                        &&& c.text_at("year"@) == candidates[k].year
                        &&& c.at("tmdb_id"@) == JsonView::Int(candidates[k].tmdb_id)
                        &&& c.text_at("media_type"@) == Some(candidates[k].media_type)
                        &&& c.at("score"@) == JsonView::Float(candidates[k].shown_score)
                    }
            }
        }),
{
    broadcast use lemma_lookup_push;
    reveal_strlit("summary");
    reveal_strlit("structured");
    reveal_strlit("query");
    reveal_strlit("ambiguous");
    reveal_strlit("candidates");
    reveal_strlit("title");
    reveal_strlit("year");
    reveal_strlit("tmdb_id");
    reveal_strlit("media_type");
    reveal_strlit("score");
    assert("summary"@.len() == 7);
    assert("structured"@.len() == 10);
    assert("query"@.len() == 5);
    assert("ambiguous"@.len() == 9);
    assert("candidates"@.len() == 10);
    assert("title"@.len() == 5);
    assert("year"@.len() == 4);
    assert("tmdb_id"@.len() == 7);
    assert("media_type"@.len() == 10);
    assert("score"@.len() == 5);
    assert("summary"@[0] == 's');
    assert("tmdb_id"@[0] == 't');
    assert("structured"@[0] == 's');
    assert("candidates"@[0] == 'c');
    assert("media_type"@[0] == 'm');
    assert("query"@[0] == 'q');
    assert("title"@[0] == 't');
    assert("score"@[0] == 's');
}

/// The query that some arguments ask.
pub open spec fn asked(args: JsonView, key: Seq<char>) -> Option<Seq<char>> {
    match args.text_at(key) {
        Some(t) => if trimmed(t).len() > 0 {
            Some(trimmed(t))
        } else {
            None
        },
        None => None,
    }
}

/// A search without a query is refused; one without a service fails; any other asks the service for
/// the very query.
pub proof fn searches_ask_for_the_query(tool: MediaSearch, args: JsonView, ratings: Seq<Rating>)
    ensures
        match (asked(args, "query"@), tool.client) {
            (None, _) => tool.execute_view(args, None, ratings) == SearchView::Failed(
                ErrorView::InvalidArgument("query must not be empty"@),
            ),
            (Some(_), None) => tool.execute_view(args, None, ratings) == SearchView::Failed(
                ErrorView::NotConfigured("TMDB_API_KEY not set"@),
            ),
            (Some(q), Some(c)) => tool.execute_view(args, None, ratings) matches SearchView::Send(request)
                && {
                &&& request.method == Method::Get
                &&& request.url == c.base() + "/search/multi"@
                &&& request.query == seq![("query"@, q), ("api_key"@, c.secret())]
                &&& request.headers.len() == 0
                &&& request.body is None
            },
        },
{
    reveal_strlit("");
    if let (Some(q), Some(c)) = (asked(args, "query"@), tool.client) {
        assert(Seq::<(Seq<char>, Seq<char>)>::empty().push(("query"@, q)).push(
            ("api_key"@, c.secret()),
        ) =~= seq![("query"@, q), ("api_key"@, c.secret())]);
    }
}

/// The results that a reply of the search service lists.
pub open spec fn listed_results(reply: ReplyView) -> Option<Seq<JsonView>> {
    match reply_content(Service::Tmdb, reply) {
        Ok(raw) => Some(
            if raw.items_at("results"@) is Some {
                raw.items_at("results"@).unwrap()
            } else {
                Seq::empty()
            },
        ),
        Err(_) => None,
    }
}

/// A search is answered from the ranking of what the service lists, under the very query; an error
/// of the service is the error of the call.
pub proof fn searches_answer_from_the_results(
    tool: MediaSearch,
    args: JsonView,
    reply: ReplyView,
    ratings: Seq<Rating>,
    query: Seq<char>,
)
    requires
        asked(args, "query"@) == Some(query),
        tool.client is Some,
    ensures
        match listed_results(reply) {
            None => tool.execute_view(args, Some(reply), ratings) matches SearchView::Failed(e)
                && reply_content(Service::Tmdb, reply) == Err::<JsonView, ErrorView>(e),
            Some(results) => if !years_are_whole(results) {
                tool.execute_view(args, Some(reply), ratings) is CutDate
            } else {
                let found = found_in(results, query);
                if ratings.len() != found.len() {
                    tool.execute_view(args, Some(reply), ratings) matches SearchView::Rate(all)
                        && all.len() == found.len() && forall|i: int|
                        0 <= i < all.len() ==> #[trigger] all[i] == found[i].similarity
                } else {
                    tool.execute_view(args, Some(reply), ratings) == SearchView::Done(
                        search_answer(query, ranked(rated(found, ratings))),
                    )
                }
            },
        },
{
}

// ── the answer to a status call ─────────────────────────────────────────────

/// What is said of a service that holds a title: whether the title was downloaded, else whether it
/// is monitored.
pub open spec fn state_words(item: JsonView) -> Seq<char> {
    if item.bool_at("hasFile"@) == Some(true) {
        "downloaded"@
    } else if item.bool_at("hasFile"@) == Some(false) {
        "monitored, not downloaded yet"@
    } else if item.bool_at("monitored"@) == Some(true) {
        "monitored"@
    } else if item.bool_at("monitored"@) == Some(false) {
        "known"@
    } else {
        "present"@
    }
}

/// What is said of one service.
pub open spec fn service_words(name: Seq<char>, check: CheckView) -> Seq<char> {
    match check {
        CheckView::NotConfigured => name + " isn't configured"@,
        CheckView::Error(_) => name + " is unreachable right now"@,
        CheckView::NotFoundInLibrary => "not in "@ + name,
        CheckView::Found(item) => "in "@ + name + " ("@ + state_words(item) + ")"@,
    }
}

/// Whether the structured content about one service says what its check says.
pub open spec fn tells_check(it: JsonView, check: CheckView) -> bool {
    match check {
        CheckView::NotConfigured => it.bool_at("configured"@) == Some(false) && it.field(
            "reachable"@,
        ) is None && it.field("present"@) is None,
        CheckView::Error(m) => it.bool_at("configured"@) == Some(true) && it.bool_at("reachable"@)
            == Some(false) && it.text_at("error"@) == Some(m) && it.field("present"@) is None,
        CheckView::NotFoundInLibrary => it.bool_at("configured"@) == Some(true) && it.bool_at(
            "reachable"@,
        ) == Some(true) && it.bool_at("present"@) == Some(false) && it.field("detail"@) is None,
        CheckView::Found(item) => it.bool_at("configured"@) == Some(true) && it.bool_at(
            "reachable"@,
        ) == Some(true) && it.bool_at("present"@) == Some(true) && it.field("detail"@) == Some(
            item,
        ),
    }
}

/// A status answer repeats the query and says of each service what its check says, in words and as
/// structured content.
pub proof fn status_answers_tell_each_check(
    query: Seq<char>,
    radarr: CheckView,
    sonarr: CheckView,
    plex: CheckView,
)
    ensures
        ({
            let said = status_answer(query, radarr, sonarr, plex);
            let it = said.at("structured"@);
            &&& it.text_at("query"@) == Some(query)
            &&& tells_check(it.at("radarr"@), radarr)
            &&& tells_check(it.at("sonarr"@), sonarr)
            &&& tells_check(it.at("plex"@), plex)
            &&& said.text_at("summary"@) == Some(
                "\""@ + query + "\": "@ + (service_words("Radarr"@, radarr) + "; "@ + service_words(
                    "Sonarr"@,
                    sonarr,
                ) + "; "@ + service_words("Plex"@, plex)) + "."@,
            )
        }),
{
    broadcast use lemma_lookup_push;
    reveal_strlit("summary");
    reveal_strlit("structured");
    reveal_strlit("query");
    reveal_strlit("radarr");
    reveal_strlit("sonarr");
    reveal_strlit("plex");
    assert("summary"@.len() == 7);
    assert("structured"@.len() == 10);
    assert("query"@.len() == 5);
    assert("radarr"@.len() == 6);
    assert("sonarr"@.len() == 6);
    assert("plex"@.len() == 4);
    assert("radarr"@[0] == 'r');
    assert("sonarr"@[0] == 's');
    lemma_check(radarr);
    lemma_check(sonarr);
    lemma_check(plex);
}

proof fn lemma_check(check: CheckView)
    ensures
        tells_check(crate::media::search::check_json(check), check),
{
    broadcast use lemma_lookup_push;
    reveal_strlit("configured");
    reveal_strlit("reachable");
    reveal_strlit("present");
    reveal_strlit("error");
    reveal_strlit("detail");
    assert("configured"@.len() == 10);
    assert("reachable"@.len() == 9);
    assert("present"@.len() == 7);
    assert("error"@.len() == 5);
    assert("detail"@.len() == 6);
}

/// Where several items of a listing share the highest score, the last of them is the one that is
/// found.
pub proof fn the_last_of_equals_is_found(scores: Seq<Option<u64>>, n: int, b: int, i: int)
    requires
        0 <= n <= scores.len(),
        best_item(scores, n) == Some(b),
        b < i < n,
    ensures
        0 <= b < n,
        scores[b] matches Some(top) && (scores[i] matches Some(score) ==> is_relevant(score)
            ==> rank_of(score) < rank_of(top)),
    decreases n,
{
    crate::media::search::found_item_is_best(scores, n);
    if i < n - 1 {
        the_last_of_equals_is_found(scores, n - 1, b, i);
    }
}

/// What one service says about a title: nothing where it is not configured, its error where it has
/// one, the relevant item with the highest score where it lists one, and otherwise that it has none.
pub proof fn checks_find_the_best_item(
    tool: MediaStatus,
    source: StatusSource,
    query: Seq<char>,
    reply: ReplyView,
    scores: Seq<Option<u64>>,
)
    ensures
        tool.listing_request(source) is None ==> tool.check_view(source, query, Some(reply), scores)
            == InquiryView::Concluded(CheckView::NotConfigured),
        tool.listing_request(source) is Some ==> match listed_items(source, reply) {
            Err(m) => tool.check_view(source, query, Some(reply), scores) == InquiryView::Concluded(
                CheckView::Error(m),
            ),
            Ok(items) => if scores.len() != items.len() {
                tool.check_view(source, query, Some(reply), scores) matches InquiryView::Rate(all)
                    && all.len() == items.len() && forall|i: int|
                    0 <= i < items.len() ==> #[trigger] all[i] == (match title_or_name(items[i]) {
                        Some(t) => Some(
                            similarity_of(lowercase(trimmed(query)), lowercase(trimmed(t))),
                        ),
                        None => None,
                    })
            } else {
                tool.check_view(source, query, Some(reply), scores) matches InquiryView::Concluded(
                    check,
                ) && match check {
                    CheckView::Found(item) => exists|b: int|
                        {
                            &&& 0 <= b < items.len()
                            &&& #[trigger] items[b] == item
                            &&& scores[b] matches Some(top) && is_relevant(top) && forall|i: int|
                                0 <= i < items.len() ==> ((#[trigger] scores[i]) matches Some(score)
                                    ==> rank_of(score) <= rank_of(top))
                        },
                    CheckView::NotFoundInLibrary => forall|i: int|
                        0 <= i < items.len() ==> ((#[trigger] scores[i]) matches Some(score)
                            ==> !is_relevant(score)),
                    _ => false,
                }
            },
        },
{
    if tool.listing_request(source) is Some {
        if let Ok(items) = listed_items(source, reply) {
            if scores.len() == items.len() {
                found_item_is_best(scores, scores.len() as int);
                if let Some(b) = best_item(scores, scores.len() as int) {
                    assert(items[b] == items[b]);
                }
            } else {
                assert forall|i: int| 0 <= i < items.len() implies #[trigger] item_comparisons(
                    items,
                    query,
                )[i] == (match title_or_name(items[i]) {
                    Some(t) => Some(similarity_of(lowercase(trimmed(query)), lowercase(trimmed(t)))),
                    None => None,
                }) by {}
            }
        }
    }
}

/// What a service lists: the items of its reply, which for the media server stand in a container, or
/// the message of its error.
pub proof fn listings_are_the_replies_items(source: StatusSource, reply: ReplyView)
    ensures
        ({
            let service = match source {
                StatusSource::Radarr => Service::Radarr,
                StatusSource::Sonarr => Service::Sonarr,
                StatusSource::Plex => Service::Plex,
            };
            match reply_content(service, reply) {
                Err(e) => listed_items(source, reply) == Err::<Seq<JsonView>, Seq<char>>(e.message()),
                Ok(JsonView::Array(items)) => listed_items(source, reply) == Ok::<
                    Seq<JsonView>,
                    Seq<char>,
                >(items),
                Ok(raw) => if source == StatusSource::Plex && raw.at("MediaContainer"@).items_at(
                    "Metadata"@,
                ) is Some {
                    listed_items(source, reply) == Ok::<Seq<JsonView>, Seq<char>>(
                        raw.at("MediaContainer"@).items_at("Metadata"@).unwrap(),
                    )
                } else {
                    listed_items(source, reply) matches Ok(items) && items.len() == 0
                },
            }
        }),
{
}

/// A status call asks each service for what it has, the films of one, the series of another and the
/// watch history of the third, one after the other, and answers once all three have concluded.
pub proof fn status_calls_ask_every_service(
    tool: MediaStatus,
    args: JsonView,
    radarr: Heard,
    sonarr: Heard,
    plex: Heard,
)
    ensures
        asked(args, "id_or_title"@) is None ==> tool.execute_view(args, radarr, sonarr, plex)
            == StatusView::Failed(ErrorView::InvalidArgument("id_or_title must not be empty"@)),
        tool.radarr matches Some(c) ==> tool.listing_request(StatusSource::Radarr) matches Some(request)
            && request.method == Method::Get && request.url == c.base() + "/api/v3/movie"@,
        tool.sonarr matches Some(c) ==> tool.listing_request(StatusSource::Sonarr) matches Some(request)
            && request.method == Method::Get && request.url == c.base() + "/api/v3/series"@,
        tool.plex matches Some(c) ==> tool.listing_request(StatusSource::Plex) matches Some(request)
            && request.method == Method::Get && request.url == c.base()
            + "/status/sessions/history/all"@,
        tool.radarr is None ==> tool.listing_request(StatusSource::Radarr) is None,
        tool.sonarr is None ==> tool.listing_request(StatusSource::Sonarr) is None,
        tool.plex is None ==> tool.listing_request(StatusSource::Plex) is None,
        asked(args, "id_or_title"@) matches Some(query) ==> {
            let a = tool.check_view(
                StatusSource::Radarr,
                query,
                crate::http::opt_reply(radarr.reply),
                radarr.scores@,
            );
            let b = tool.check_view(
                StatusSource::Sonarr,
                query,
                crate::http::opt_reply(sonarr.reply),
                sonarr.scores@,
            );
            let c = tool.check_view(
                StatusSource::Plex,
                query,
                crate::http::opt_reply(plex.reply),
                plex.scores@,
            );
            match (a, b, c) {
                (
                    InquiryView::Concluded(x),
                    InquiryView::Concluded(y),
                    InquiryView::Concluded(z),
                ) => tool.execute_view(args, radarr, sonarr, plex) == StatusView::Done(
                    status_answer(query, x, y, z),
                ),
                _ => tool.execute_view(args, radarr, sonarr, plex) matches StatusView::Pending(
                    source,
                    inquiry,
                ) && !(inquiry is Concluded) && inquiry == (match source {
                    StatusSource::Radarr => a,
                    StatusSource::Sonarr => b,
                    StatusSource::Plex => c,
                }),
            }
        },
{
    reveal_strlit("");
}

} // verus!
