//! What is recommended, in terms of the caller's own history and of what the libraries list.
use vstd::prelude::*;

use crate::http::{Method, ReplyView};
use crate::json::{lemma_lookup_push, JsonView};
use crate::media::clients::{reply_content, Service};
use crate::media::recommend::{
    best_of, best_recommendations_come_first, degraded_note, entry_of, entry_tags,
    every_watched_title_is_excluded, final_answer, known_tags, library_of, limit_view,
    listed_candidates, profile_of, rated, rationale_of, recencies, recommend_answer, repeated,
    sample_from, samples, scoped_history, suggestion_of, suggestions_for, suggestions_from,
    tag_recencies, tag_texts, tags_at, title_view, titles_in, was_watched, watched_by, EntryView,
    LibraryView, MediaOnDeck, MediaRecentlyAdded, MediaRecommend, Rating, RecommendPlan,
    RecommendReplies, RecommendView, RecommendationView, ScopeView, Suggested, SuggestionView,
};
use crate::media::search::plex_items;
use crate::number::rank_of;
use crate::text::{dec, joined, lowercase, trimmed};
use crate::tool::{ErrorView, StepView};

verus! {

// ── what items say ──────────────────────────────────────────────────────────

/// The title of an item: its own, else its show's, else its name.
pub open spec fn shown_title(item: JsonView) -> Option<Seq<char>> {
    if item.text_at("title"@) is Some {
        item.text_at("title"@)
    } else if item.text_at("grandparentTitle"@) is Some {
        item.text_at("grandparentTitle"@)
    } else {
        item.text_at("name"@)
    }
}

/// A tag: a string, or the `tag` of an object.
pub open spec fn tag_given(v: JsonView) -> Option<Seq<char>> {
    match v {
        JsonView::Str(s) => Some(s),
        _ => v.text_at("tag"@),
    }
}

/// The tags of a list are those of its first part and then those of the rest, each by itself: one
/// that is a string or an object with a `tag`, and is not empty, counts.
pub proof fn tags_are_strings_or_objects(a: Seq<JsonView>, b: Seq<JsonView>, v: JsonView)
    ensures
        tag_texts(a + b) == tag_texts(a) + tag_texts(b),
        tag_texts(Seq::empty()).len() == 0,
        match tag_given(v) {
            Some(t) => if t.len() > 0 {
                tag_texts(seq![v]) == seq![t]
            } else {
                tag_texts(seq![v]).len() == 0
            },
            None => tag_texts(seq![v]).len() == 0,
        },
    decreases b.len(),
{
    let one = seq![v];
    assert(one.drop_last() =~= Seq::<JsonView>::empty());
    assert(tag_texts(one.drop_last()) =~= Seq::<Seq<char>>::empty());
    if let Some(t) = tag_given(v) {
        assert(Seq::<Seq<char>>::empty().push(t) =~= seq![t]);
    }
    if b.len() == 0 {
        assert(a + b =~= a);
        assert(tag_texts(a) + tag_texts(b) =~= tag_texts(a));
    } else {
        assert((a + b).drop_last() =~= a + b.drop_last());
        tags_are_strings_or_objects(a, b.drop_last(), v);
        assert(tag_texts(a + b) =~= tag_texts(a) + tag_texts(b));
    }
}

/// The tags under a key are those of the list that stands there.
pub proof fn tags_stand_in_a_list(item: JsonView, key: Seq<char>)
    ensures
        item.items_at(key) matches Some(items) ==> tags_at(item, key) == tag_texts(items),
        item.items_at(key) is None ==> tags_at(item, key).len() == 0,
{
}

/// A watched item says its title, its genres and its directors, under the names that the media
/// server and the libraries use.
pub proof fn watched_items_say_their_tags(item: JsonView)
    ensures
        entry_of(item).title == shown_title(item),
        entry_of(item).genres == tags_at(item, "Genre"@) + tags_at(item, "genres"@),
        entry_of(item).directors == tags_at(item, "Director"@) + tags_at(item, "directors"@),
{
}

/// When an item was watched is what its `viewedAt` states, and the beginning of time where it states
/// nothing. A profile runs from the newest watch to the oldest.
pub proof fn watches_are_dated(items: Seq<JsonView>, k: int, l: int)
    ensures
        profile_of(items).len() == items.len(),
        0 <= k < l < items.len() ==> exists|i: int, j: int|
            {
                &&& 0 <= i < items.len()
                &&& 0 <= j < items.len()
                &&& profile_of(items)[k] == entry_of(#[trigger] items[i])
                &&& profile_of(items)[l] == entry_of(#[trigger] items[j])
                &&& date_of(items[i]) >= date_of(items[j])
            },
{
    crate::media::recommend::recent_watches_come_first(items);
    if 0 <= k < l < items.len() {
        let order = crate::order::ranking(
            crate::media::recommend::viewing_keys(items),
            items.len() as int,
        );
        let i = order[k];
        let j = order[l];
        assert(profile_of(items)[k] == entry_of(items[i]));
        assert(profile_of(items)[l] == entry_of(items[j]));
        assert(crate::media::recommend::viewed_at(items[i]) == date_of(items[i]));
        assert(crate::media::recommend::viewed_at(items[j]) == date_of(items[j]));
    }
}

/// When an item was watched.
pub open spec fn date_of(item: JsonView) -> int {
    match item.at("viewedAt"@) {
        JsonView::Int(n) => if i64::MIN <= n <= i64::MAX {
            n
        } else {
            0
        },
        _ => 0,
    }
}

/// A library lists its items in order; each one that has a title counts, with its type, its genres
/// and its directors.
pub proof fn titled_items_are_candidates(
    a: Seq<JsonView>,
    b: Seq<JsonView>,
    item: JsonView,
    media_type: Seq<char>,
)
    ensures
        library_of(a + b, media_type) == library_of(a, media_type) + library_of(b, media_type),
        library_of(Seq::empty(), media_type).len() == 0,
        match shown_title(item) {
            Some(t) => library_of(seq![item], media_type) matches found && found.len() == 1
                && found[0].title == t && found[0].media_type == media_type && found[0].genres
                == tags_at(item, "genres"@) + tags_at(item, "Genre"@) && found[0].directors
                == tags_at(item, "directors"@) + tags_at(item, "Director"@),
            None => library_of(seq![item], media_type).len() == 0,
        },
    decreases b.len(),
{
    let one = seq![item];
    assert(one.drop_last() =~= Seq::<JsonView>::empty());
    assert(library_of(one.drop_last(), media_type) =~= Seq::<LibraryView>::empty());
    if b.len() == 0 {
        assert(a + b =~= a);
        assert(library_of(a, media_type) + library_of(b, media_type) =~= library_of(a, media_type));
    } else {
        assert((a + b).drop_last() =~= a + b.drop_last());
        titled_items_are_candidates(a, b.drop_last(), item, media_type);
        assert(library_of(a + b, media_type) =~= library_of(a, media_type) + library_of(
            b,
            media_type,
        ));
    }
}

/// The account that watched an item: `accountID`, else the user's `id`, as a number or as a string.
pub open spec fn watcher(item: JsonView) -> Option<Seq<char>> {
    let own = item.at("accountID"@);
    let user = item.at("User"@).at("id"@);
    if own.int64() is Some {
        Some(dec(own.int64().unwrap()))
    } else if own.text() is Some {
        own.text()
    } else if user.int64() is Some {
        Some(dec(user.int64().unwrap()))
    } else {
        user.text()
    }
}

/// A history is narrowed to one account item by item: an item stays exactly where that account
/// watched it.
pub proof fn history_is_narrowed_item_by_item(
    a: Seq<JsonView>,
    b: Seq<JsonView>,
    item: JsonView,
    account: Seq<char>,
)
    ensures
        watched_by(a + b, account) == watched_by(a, account) + watched_by(b, account),
        watched_by(Seq::empty(), account).len() == 0,
        watched_by(seq![item], account) == (if watcher(item) == Some(account) {
            seq![item]
        } else {
            Seq::empty()
        }),
    decreases b.len(),
{
    let one = seq![item];
    assert(one.drop_last() =~= Seq::<JsonView>::empty());
    assert(watched_by(one.drop_last(), account) =~= Seq::<JsonView>::empty());
    assert(Seq::<JsonView>::empty().push(item) =~= seq![item]);
    if b.len() == 0 {
        assert(a + b =~= a);
        assert(watched_by(a, account) + watched_by(b, account) =~= watched_by(a, account));
    } else {
        assert((a + b).drop_last() =~= a + b.drop_last());
        history_is_narrowed_item_by_item(a, b.drop_last(), item, account);
        assert(watched_by(a + b, account) =~= watched_by(a, account) + watched_by(b, account));
    }
}

// ── what is known of a tag ──────────────────────────────────────────────────

/// How often a tag stands in a list.
pub open spec fn occurrences(tags: Seq<Seq<char>>, tag: Seq<char>) -> nat {
    tags.filter(|t: Seq<char>| t == tag).len()
}

proof fn lemma_repeated(tags: Seq<Seq<char>>, tag: Seq<char>, recency: int)
    ensures
        repeated(tags, tag, recency).len() == occurrences(tags, tag),
        forall|i: int|
            0 <= i < repeated(tags, tag, recency).len() ==> #[trigger] repeated(
                tags,
                tag,
                recency,
            )[i] == recency,
    decreases tags.len(),
{
    reveal(Seq::filter);
    if tags.len() > 0 {
        lemma_repeated(tags.drop_last(), tag, recency);
    }
}

proof fn lemma_recencies_of_front(
    p: Seq<EntryView>,
    e: EntryView,
    tag: Seq<char>,
    directors: bool,
    n: int,
)
    requires
        n <= p.len(),
    ensures
        recencies(p.push(e), tag, directors, n) == recencies(p, tag, directors, n),
    decreases n,
{
    if n > 0 {
        lemma_recencies_of_front(p, e, tag, directors, n - 1);
        assert(p.push(e)[n - 1] == p[n - 1]);
    }
}

/// One more watch, older than the others, adds its place to what is known of a tag, once for each
/// time it has the tag as a genre, or as a director; what was known stays.
pub proof fn watches_add_their_place(
    profile: Seq<EntryView>,
    entry: EntryView,
    tag: Seq<char>,
    directors: bool,
)
    ensures
        ({
            let before = tag_recencies(profile, tag, directors);
            let after = tag_recencies(profile.push(entry), tag, directors);
            let tags = if directors {
                entry.directors
            } else {
                entry.genres
            };
            &&& after.len() == before.len() + occurrences(tags, tag)
            &&& after.take(before.len() as int) == before
            &&& forall|i: int| before.len() <= i < after.len() ==> #[trigger] after[i] == profile.len()
        }),
        tag_recencies(Seq::empty(), tag, directors).len() == 0,
{
    lemma_recencies_of_front(profile, entry, tag, directors, profile.len() as int);
    let tags = entry_tags(entry, directors);
    lemma_repeated(tags, tag, profile.len() as int);
    let before = tag_recencies(profile, tag, directors);
    let after = tag_recencies(profile.push(entry), tag, directors);
    assert(profile.push(entry)[profile.len() as int] == entry);
    assert(after == before + repeated(tags, tag, profile.len() as int));
    assert(after.take(before.len() as int) =~= before);
}

/// The tags of a candidate that count are those, in order, that some watch has too.
pub proof fn shared_tags_count(
    profile: Seq<EntryView>,
    a: Seq<Seq<char>>,
    b: Seq<Seq<char>>,
    tag: Seq<char>,
    directors: bool,
)
    ensures
        known_tags(profile, a + b, directors) == known_tags(profile, a, directors) + known_tags(
            profile,
            b,
            directors,
        ),
        known_tags(profile, Seq::empty(), directors).len() == 0,
        known_tags(profile, seq![tag], directors) == (if exists|i: int|
            0 <= i < profile.len() && (if directors {
                (#[trigger] profile[i]).directors.contains(tag)
            } else {
                profile[i].genres.contains(tag)
            }) {
            seq![tag]
        } else {
            Seq::empty()
        }),
    decreases b.len(),
{
    let one = seq![tag];
    assert(one.drop_last() =~= Seq::<Seq<char>>::empty());
    assert(known_tags(profile, one.drop_last(), directors) =~= Seq::<Seq<char>>::empty());
    assert(Seq::<Seq<char>>::empty().push(tag) =~= seq![tag]);
    lemma_known(profile, tag, directors, profile.len() as int);
    if b.len() == 0 {
        assert(a + b =~= a);
        assert(known_tags(profile, a, directors) + known_tags(profile, b, directors) =~= known_tags(
            profile,
            a,
            directors,
        ));
    } else {
        assert((a + b).drop_last() =~= a + b.drop_last());
        shared_tags_count(profile, a, b.drop_last(), tag, directors);
        assert(known_tags(profile, a + b, directors) =~= known_tags(profile, a, directors)
            + known_tags(profile, b, directors));
    }
}

proof fn lemma_known(profile: Seq<EntryView>, tag: Seq<char>, directors: bool, n: int)
    requires
        0 <= n <= profile.len(),
    ensures
        recencies(profile, tag, directors, n).len() > 0 <==> exists|i: int|
            0 <= i < n && (if directors {
                (#[trigger] profile[i]).directors.contains(tag)
            } else {
                profile[i].genres.contains(tag)
            }),
    decreases n,
{
    if n > 0 {
        lemma_known(profile, tag, directors, n - 1);
        let tags = entry_tags(profile[n - 1], directors);
        lemma_repeated(tags, tag, n - 1);
        lemma_occurs(tags, tag);
        if recencies(profile, tag, directors, n).len() > 0 {
            if recencies(profile, tag, directors, n - 1).len() > 0 {
                let i = choose|i: int|
                    0 <= i < n - 1 && (if directors {
                        (#[trigger] profile[i]).directors.contains(tag)
                    } else {
                        profile[i].genres.contains(tag)
                    });
                assert(0 <= i < n);
            } else {
                assert(tags.contains(tag));
                assert(if directors {
                    profile[n - 1].directors.contains(tag)
                } else {
                    profile[n - 1].genres.contains(tag)
                });
            }
        }
        if exists|i: int|
            0 <= i < n && (if directors {
                (#[trigger] profile[i]).directors.contains(tag)
            } else {
                profile[i].genres.contains(tag)
            }) {
            let i = choose|i: int|
                0 <= i < n && (if directors {
                    (#[trigger] profile[i]).directors.contains(tag)
                } else {
                    profile[i].genres.contains(tag)
                });
            if i == n - 1 {
                assert(tags.contains(tag));
            }
        }
    }
}

proof fn lemma_occurs(tags: Seq<Seq<char>>, tag: Seq<char>)
    ensures
        occurrences(tags, tag) > 0 <==> tags.contains(tag),
    decreases tags.len(),
{
    reveal(Seq::filter);
    if tags.len() > 0 {
        let front = tags.drop_last();
        lemma_occurs(front, tag);
        if front.contains(tag) {
            let i = choose|i: int| 0 <= i < front.len() && front[i] == tag;
            assert(tags[i] == tag);
        }
        if tags.contains(tag) {
            let i = choose|i: int| 0 <= i < tags.len() && tags[i] == tag;
            if i < front.len() {
                assert(front[i] == tag);
            }
        }
        if tags.last() == tag {
            assert(tags[tags.len() - 1] == tag);
        }
    }
}

/// The example for a genre is the title of the newest watch that has the genre and a title.
pub proof fn examples_are_the_newest(profile: Seq<EntryView>, genre: Seq<char>, from: int)
    requires
        0 <= from,
    ensures
        match sample_from(profile, genre, from) {
            Some(t) => exists|i: int|
                {
                    &&& from <= i < profile.len()
                    &&& (#[trigger] profile[i]).title == Some(t)
                    &&& profile[i].genres.contains(genre)
                    &&& forall|j: int|
                        from <= j < i ==> !((#[trigger] profile[j]).genres.contains(genre)
                            && profile[j].title is Some)
                },
            None => forall|j: int|
                from <= j < profile.len() ==> !((#[trigger] profile[j]).genres.contains(genre)
                    && profile[j].title is Some),
        },
    decreases profile.len() - from,
{
    if from < profile.len() {
        if profile[from].genres.contains(genre) && profile[from].title is Some {
            assert(profile[from].title is Some);
        } else {
            examples_are_the_newest(profile, genre, from + 1);
            if let Some(t) = sample_from(profile, genre, from + 1) {
                let i = choose|i: int|
                    {
                        &&& from + 1 <= i < profile.len()
                        &&& (#[trigger] profile[i]).title == Some(t)
                        &&& profile[i].genres.contains(genre)
                        &&& forall|j: int|
                            from + 1 <= j < i ==> !((#[trigger] profile[j]).genres.contains(genre)
                                && profile[j].title is Some)
                    };
                assert(from <= i < profile.len());
            }
        }
    }
}

/// The examples of some genres are those of each, in order.
pub proof fn examples_follow_the_genres(
    profile: Seq<EntryView>,
    a: Seq<Seq<char>>,
    b: Seq<Seq<char>>,
    genre: Seq<char>,
)
    ensures
        samples(profile, a + b) == samples(profile, a) + samples(profile, b),
        samples(profile, Seq::empty()).len() == 0,
        samples(profile, seq![genre]) == (match sample_from(profile, genre, 0) {
            Some(t) => seq![t],
            None => Seq::empty(),
        }),
    decreases b.len(),
{
    let one = seq![genre];
    assert(one.drop_last() =~= Seq::<Seq<char>>::empty());
    assert(samples(profile, one.drop_last()) =~= Seq::<Seq<char>>::empty());
    if let Some(t) = sample_from(profile, genre, 0) {
        assert(Seq::<Seq<char>>::empty().push(t) =~= seq![t]);
    }
    if b.len() == 0 {
        assert(a + b =~= a);
        assert(samples(profile, a) + samples(profile, b) =~= samples(profile, a));
    } else {
        assert((a + b).drop_last() =~= a + b.drop_last());
        examples_follow_the_genres(profile, a, b.drop_last(), genre);
        assert(samples(profile, a + b) =~= samples(profile, a) + samples(profile, b));
    }
}

/// The reason for a suggestion names the genres that it shares with what was watched and the first
/// two examples for them; without a shared genre it only says where the title is.
pub proof fn reasons_name_genres_and_examples(profile: Seq<EntryView>, matched: Seq<Seq<char>>)
    ensures
        matched.len() == 0 ==> rationale_of(profile, matched) == "in the library"@,
        matched.len() > 0 ==> {
            let examples = samples(profile, matched);
            let genres = joined(matched, "/"@);
            rationale_of(profile, matched) == (if examples.len() == 0 {
                "because you've been watching "@ + genres
            } else if examples.len() == 1 {
                "because you watched "@ + examples[0] + " ("@ + genres + ")"@
            } else {
                "because you watched "@ + (examples[0] + " and "@ + examples[1]) + " ("@ + genres
                    + ")"@
            })
        },
{
    let examples = samples(profile, matched);
    if examples.len() >= 2 {
        let two = examples.take(2);
        assert(two.drop_last() =~= seq![examples[0]]);
        assert(joined(two.drop_last(), " and "@) == examples[0]);
        assert(joined(two, " and "@) == examples[0] + " and "@ + examples[1]);
        assert(examples.len() == 2 ==> examples =~= two);
    }
}

// ── suggestions ─────────────────────────────────────────────────────────────

/// A suggestion says the candidate's title and type, the genres it shares with what was watched and
/// why it is suggested, and carries what is known of each shared genre and of each shared director.
pub proof fn suggestions_say_why(profile: Seq<EntryView>, c: LibraryView)
    ensures
        ({
            let s = suggestion_of(profile, c);
            &&& s.title == c.title
            &&& s.media_type == c.media_type
            &&& s.matched_genres == known_tags(profile, c.genres, false)
            &&& s.rationale == rationale_of(profile, s.matched_genres)
            &&& s.genre_recencies.len() == s.matched_genres.len()
            &&& forall|i: int|
                0 <= i < s.genre_recencies.len() ==> #[trigger] s.genre_recencies[i] == tag_recencies(
                    profile,
                    s.matched_genres[i],
                    false,
                )
            &&& s.director_recencies.len() == known_tags(profile, c.directors, true).len()
            &&& forall|i: int|
                0 <= i < s.director_recencies.len() ==> #[trigger] s.director_recencies[i]
                    == tag_recencies(profile, known_tags(profile, c.directors, true)[i], true)
        }),
{
}

/// Candidates are suggested in order, each by itself: one whose title was not watched is, one whose
/// title was is not.
pub proof fn unwatched_candidates_are_suggested(
    profile: Seq<EntryView>,
    a: Seq<LibraryView>,
    b: Seq<LibraryView>,
    c: LibraryView,
)
    ensures
        suggestions_for(profile, a + b) == suggestions_for(profile, a) + suggestions_for(profile, b),
        suggestions_for(profile, Seq::empty()).len() == 0,
        suggestions_for(profile, seq![c]) == (if was_watched(profile, c.title) {
            Seq::empty()
        } else {
            seq![suggestion_of(profile, c)]
        }),
    decreases b.len(),
{
    let one = seq![c];
    assert(one.drop_last() =~= Seq::<LibraryView>::empty());
    assert(suggestions_for(profile, one.drop_last()) =~= Seq::<SuggestionView>::empty());
    assert(Seq::<SuggestionView>::empty().push(suggestion_of(profile, c)) =~= seq![
        suggestion_of(profile, c),
    ]);
    if b.len() == 0 {
        assert(a + b =~= a);
        assert(suggestions_for(profile, a) + suggestions_for(profile, b) =~= suggestions_for(
            profile,
            a,
        ));
    } else {
        assert((a + b).drop_last() =~= a + b.drop_last());
        unwatched_candidates_are_suggested(profile, a, b.drop_last(), c);
        assert(suggestions_for(profile, a + b) =~= suggestions_for(profile, a) + suggestions_for(
            profile,
            b,
        ));
    }
}

/// Whether a history holds a title, whatever the case and the white space at its ends.
pub open spec fn was_seen(history: Seq<JsonView>, title: Seq<char>) -> bool {
    exists|i: int|
        0 <= i < history.len() && (shown_title(#[trigger] history[i]) matches Some(t) && lowercase(
            trimmed(t),
        ) == lowercase(trimmed(title)))
}

/// The items that a library lists, where its reply is good.
pub open spec fn shelf(service: Service, reply: Option<ReplyView>) -> Seq<JsonView> {
    match reply {
        Some(r) => match reply_content(service, r) {
            Ok(JsonView::Array(items)) => items,
            _ => Seq::empty(),
        },
        None => Seq::empty(),
    }
}

/// The items of the history that count: those of the caller's own account, where there is one and
/// the media server answered.
pub open spec fn own_history(scope: ScopeView, reply: Option<ReplyView>) -> Seq<JsonView> {
    match (scope, reply) {
        (ScopeView::Account(account), Some(r)) => match reply_content(Service::Plex, r) {
            Ok(raw) => watched_by(plex_items(raw), account),
            Err(_) => Seq::empty(),
        },
        _ => Seq::empty(),
    }
}

/// Whether a suggestion is about an item of a library, as a film or as a series.
pub open spec fn is_about(s: SuggestionView, item: JsonView, media_type: Seq<char>) -> bool {
    shown_title(item) == Some(s.title) && s.media_type == media_type
}

/// Every titled film of a good reply of the film library, and every titled series of a good reply of
/// the series library, that the caller's own history does not hold is suggested, as a film and as a
/// series; and every suggestion is such an item.
#[verifier::rlimit(30)]
pub proof fn unseen_titles_of_both_libraries_are_suggested(
    scope: ScopeView,
    history: Option<ReplyView>,
    radarr: Option<ReplyView>,
    sonarr: Option<ReplyView>,
)
    ensures
        forall|i: int|
            0 <= i < shelf(Service::Radarr, radarr).len() && shown_title(
                #[trigger] shelf(Service::Radarr, radarr)[i],
            ) is Some && !was_seen(
                own_history(scope, history),
                shown_title(shelf(Service::Radarr, radarr)[i]).unwrap(),
            ) ==> exists|k: int|
                0 <= k < suggestions_from(scope, history, radarr, sonarr).len() && is_about(
                    #[trigger] suggestions_from(scope, history, radarr, sonarr)[k],
                    shelf(Service::Radarr, radarr)[i],
                    "movie"@,
                ),
        forall|i: int|
            0 <= i < shelf(Service::Sonarr, sonarr).len() && shown_title(
                #[trigger] shelf(Service::Sonarr, sonarr)[i],
            ) is Some && !was_seen(
                own_history(scope, history),
                shown_title(shelf(Service::Sonarr, sonarr)[i]).unwrap(),
            ) ==> exists|k: int|
                0 <= k < suggestions_from(scope, history, radarr, sonarr).len() && is_about(
                    #[trigger] suggestions_from(scope, history, radarr, sonarr)[k],
                    shelf(Service::Sonarr, sonarr)[i],
                    "tv"@,
                ),
        forall|k: int|
            0 <= k < suggestions_from(scope, history, radarr, sonarr).len() ==> {
                let s = #[trigger] suggestions_from(scope, history, radarr, sonarr)[k];
                &&& !was_seen(own_history(scope, history), s.title)
                &&& (exists|i: int|
                    0 <= i < shelf(Service::Radarr, radarr).len() && is_about(
                        s,
                        #[trigger] shelf(Service::Radarr, radarr)[i],
                        "movie"@,
                    )) || (exists|i: int|
                    0 <= i < shelf(Service::Sonarr, sonarr).len() && is_about(
                        s,
                        #[trigger] shelf(Service::Sonarr, sonarr)[i],
                        "tv"@,
                    ))
            },
{
    let profile = profile_of(scoped_history(scope, history));
    let films = shelf(Service::Radarr, radarr);
    let shows = shelf(Service::Sonarr, sonarr);
    let all = suggestions_from(scope, history, radarr, sonarr);
    let from_films = suggestions_for(profile, library_of(films, "movie"@));
    let from_shows = suggestions_for(profile, library_of(shows, "tv"@));
    assert(own_history(scope, history) == scoped_history(scope, history));
    assert(listed_candidates(Service::Radarr, radarr, "movie"@) =~= library_of(films, "movie"@));
    assert(listed_candidates(Service::Sonarr, sonarr, "tv"@) =~= library_of(shows, "tv"@));
    unwatched_candidates_are_suggested(
        profile,
        library_of(films, "movie"@),
        library_of(shows, "tv"@),
        arbitrary(),
    );
    assert(all == from_films + from_shows);
    lemma_shelf(scoped_history(scope, history), films, "movie"@);
    lemma_shelf(scoped_history(scope, history), shows, "tv"@);
    assert forall|i: int|
        0 <= i < films.len() && shown_title(#[trigger] films[i]) is Some && !was_seen(
            own_history(scope, history),
            shown_title(films[i]).unwrap(),
        ) implies exists|k: int|
        0 <= k < all.len() && is_about(#[trigger] all[k], films[i], "movie"@) by {
        let k = choose|k: int|
            0 <= k < from_films.len() && is_about(#[trigger] from_films[k], films[i], "movie"@);
        assert(all[k] == from_films[k]);
    }
    assert forall|i: int|
        0 <= i < shows.len() && shown_title(#[trigger] shows[i]) is Some && !was_seen(
            own_history(scope, history),
            shown_title(shows[i]).unwrap(),
        ) implies exists|k: int|
        0 <= k < all.len() && is_about(#[trigger] all[k], shows[i], "tv"@) by {
        let k = choose|k: int|
            0 <= k < from_shows.len() && is_about(#[trigger] from_shows[k], shows[i], "tv"@);
        assert(all[from_films.len() + k] == from_shows[k]);
    }
    assert forall|k: int| 0 <= k < all.len() implies {
        let s = #[trigger] all[k];
        &&& !was_seen(own_history(scope, history), s.title)
        &&& (exists|i: int| 0 <= i < films.len() && is_about(s, #[trigger] films[i], "movie"@)) || (
        exists|i: int| 0 <= i < shows.len() && is_about(s, #[trigger] shows[i], "tv"@))
    } by {
        if k < from_films.len() {
            assert(all[k] == from_films[k]);
        } else {
            assert(all[k] == from_shows[k - from_films.len()]);
        }
    }
}

/// What is suggested of one library.
proof fn lemma_shelf(history: Seq<JsonView>, items: Seq<JsonView>, media_type: Seq<char>)
    ensures
        forall|i: int|
            0 <= i < items.len() && shown_title(#[trigger] items[i]) is Some && !was_seen(
                history,
                shown_title(items[i]).unwrap(),
            ) ==> exists|k: int|
                0 <= k < suggestions_for(profile_of(history), library_of(items, media_type)).len()
                    && is_about(
                    #[trigger] suggestions_for(
                        profile_of(history),
                        library_of(items, media_type),
                    )[k],
                    items[i],
                    media_type,
                ),
        forall|k: int|
            0 <= k < suggestions_for(profile_of(history), library_of(items, media_type)).len() ==> {
                let s = #[trigger] suggestions_for(
                    profile_of(history),
                    library_of(items, media_type),
                )[k];
                &&& !was_seen(history, s.title)
                &&& exists|i: int|
                    0 <= i < items.len() && is_about(s, #[trigger] items[i], media_type)
            },
    decreases items.len(),
{
    if items.len() > 0 {
        let front = items.drop_last();
        let last = items.last();
        let profile = profile_of(history);
        let before = suggestions_for(profile, library_of(front, media_type));
        let after = suggestions_for(profile, library_of(items, media_type));
        lemma_shelf(history, front, media_type);
        if let Some(t) = shown_title(last) {
            every_watched_title_is_excluded(history, t);
            lemma_seen(history, t);
            assert(library_of(items, media_type).drop_last() =~= library_of(front, media_type));
        }
        assert forall|i: int|
            0 <= i < items.len() && shown_title(#[trigger] items[i]) is Some && !was_seen(
                history,
                shown_title(items[i]).unwrap(),
            ) implies exists|k: int|
            0 <= k < after.len() && is_about(#[trigger] after[k], items[i], media_type) by {
            if i < front.len() {
                assert(front[i] == items[i]);
                let k = choose|k: int|
                    0 <= k < before.len() && is_about(#[trigger] before[k], front[i], media_type);
                assert(after[k] == before[k]);
            } else {
                assert(after.len() == before.len() + 1);
                assert(is_about(after[before.len() as int], items[i], media_type));
            }
        }
        assert forall|k: int| 0 <= k < after.len() implies {
            let s = #[trigger] after[k];
            &&& !was_seen(history, s.title)
            &&& exists|i: int| 0 <= i < items.len() && is_about(s, #[trigger] items[i], media_type)
        } by {
            if k < before.len() {
                assert(after[k] == before[k]);
                let i = choose|i: int|
                    0 <= i < front.len() && is_about(before[k], #[trigger] front[i], media_type);
                assert(items[i] == front[i]);
                assert(is_about(after[k], items[i], media_type));
            } else {
                assert(is_about(after[k], items[items.len() - 1], media_type));
            }
        }
    }
}

proof fn lemma_seen(history: Seq<JsonView>, title: Seq<char>)
    ensures
        was_seen(history, title) <==> was_watched(profile_of(history), title),
{
    every_watched_title_is_excluded(history, title);
    assert forall|i: int| 0 <= i < history.len() implies shown_title(#[trigger] history[i])
        == title_view(history[i]) by {}
    if was_seen(history, title) {
        let i = choose|i: int|
            0 <= i < history.len() && (shown_title(#[trigger] history[i]) matches Some(t)
                && lowercase(trimmed(t)) == lowercase(trimmed(title)));
        assert(title_view(history[i]) matches Some(t) && lowercase(trimmed(t)) == lowercase(
            trimmed(title),
        ));
    }
    if was_watched(profile_of(history), title) {
        let i = choose|i: int|
            0 <= i < history.len() && (title_view(#[trigger] history[i]) matches Some(t)
                && lowercase(trimmed(t)) == lowercase(trimmed(title)));
        assert(shown_title(history[i]) is Some);
    }
}

// ── the answer ──────────────────────────────────────────────────────────────

/// What is suggested to a caller holds every titled series of the series library, and every titled
/// film of the film library, that the caller has not seen.
pub proof fn what_is_suggested_holds_films_and_series(
    plan: &RecommendPlan,
    replies: &RecommendReplies,
    suggested: Suggested,
    i: int,
)
    requires
        call_ensures(MediaRecommend::suggestions, (plan, replies), suggested),
    ensures
        ({
            let shows = shelf(Service::Sonarr, crate::http::opt_reply(replies.sonarr));
            0 <= i < shows.len() && shown_title(shows[i]) is Some && !was_seen(
                own_history(plan.scope@, crate::http::opt_reply(replies.history)),
                shown_title(shows[i]).unwrap(),
            ) ==> exists|k: int|
                0 <= k < suggested.suggestions@.len() && is_about(
                    (#[trigger] suggested.suggestions@[k])@,
                    shows[i],
                    "tv"@,
                )
        }),
        ({
            let films = shelf(Service::Radarr, crate::http::opt_reply(replies.radarr));
            0 <= i < films.len() && shown_title(films[i]) is Some && !was_seen(
                own_history(plan.scope@, crate::http::opt_reply(replies.history)),
                shown_title(films[i]).unwrap(),
            ) ==> exists|k: int|
                0 <= k < suggested.suggestions@.len() && is_about(
                    (#[trigger] suggested.suggestions@[k])@,
                    films[i],
                    "movie"@,
                )
        }),
{
    let history = crate::http::opt_reply(replies.history);
    let radarr = crate::http::opt_reply(replies.radarr);
    let sonarr = crate::http::opt_reply(replies.sonarr);
    let all = suggestions_from(plan.scope@, history, radarr, sonarr);
    unseen_titles_of_both_libraries_are_suggested(plan.scope@, history, radarr, sonarr);
    let shows = shelf(Service::Sonarr, sonarr);
    let films = shelf(Service::Radarr, radarr);
    assert(all.len() == suggested.suggestions@.len());
    assert forall|k: int| 0 <= k < all.len() implies #[trigger] all[k] == suggested.suggestions@[k]@ by {}
    if 0 <= i < shows.len() && shown_title(shows[i]) is Some && !was_seen(
        own_history(plan.scope@, history),
        shown_title(shows[i]).unwrap(),
    ) {
        let k = choose|k: int| 0 <= k < all.len() && is_about(#[trigger] all[k], shows[i], "tv"@);
        assert(is_about(suggested.suggestions@[k]@, shows[i], "tv"@));
    }
    if 0 <= i < films.len() && shown_title(films[i]) is Some && !was_seen(
        own_history(plan.scope@, history),
        shown_title(films[i]).unwrap(),
    ) {
        let k = choose|k: int|
            0 <= k < all.len() && is_about(#[trigger] all[k], films[i], "movie"@);
        assert(is_about(suggested.suggestions@[k]@, films[i], "movie"@));
    }
}

/// Each suggestion gets the score in its place and keeps everything else.
pub proof fn suggestions_keep_what_they_say(
    suggestions: Seq<SuggestionView>,
    ratings: Seq<Rating>,
    i: int,
)
    requires
        0 <= i < suggestions.len(),
    ensures
        rated(suggestions, ratings).len() == suggestions.len(),
        ({
            let r = rated(suggestions, ratings)[i];
            &&& r.title == suggestions[i].title
            &&& r.media_type == suggestions[i].media_type
            &&& r.matched_genres == suggestions[i].matched_genres
            &&& r.rationale == suggestions[i].rationale
            &&& r.score == ratings[i].score
            &&& r.shown_score == ratings[i].shown@
        }),
{
}

/// At most the number that the arguments state is recommended, and at least one; five where they
/// state none.
pub proof fn as_many_as_asked_for(args: JsonView)
    ensures
        args.at("limit"@).uint64() is None ==> limit_view(args) == 5,
        args.at("limit"@).uint64() matches Some(n) ==> limit_view(args) == if n == 0 {
            1
        } else {
            n
        },
{
}

/// The titles of the first three, in order, with commas between them.
pub open spec fn three_titles(v: Seq<RecommendationView>) -> Seq<char> {
    if v.len() == 1 {
        v[0].title
    } else if v.len() == 2 {
        v[0].title + ", "@ + v[1].title
    } else {
        v[0].title + ", "@ + v[1].title + ", "@ + v[2].title
    }
}

/// What is said: nothing is there, what the library holds, that there is little history to go on, or
/// which title is the best and why; and then what could not be reached.
pub proof fn recommendations_are_put_into_words(
    v: Seq<RecommendationView>,
    thin_signal: bool,
    personalized: bool,
    note: Option<Seq<char>>,
)
    ensures
        recommend_answer(v, thin_signal, personalized, note).text_at("summary"@) == Some(
            (if v.len() == 0 {
                "I don't have anything to recommend from the library right now."@
            } else if !personalized {
                "Here's what's in the library: "@ + three_titles(v) + "."@
            } else if thin_signal {
                "I don't have much watch history to go on yet, so here's what's in your library: "@
                    + three_titles(v) + "."@
            } else {
                "You might like \""@ + v[0].title + "\" -- "@ + v[0].rationale + "."@
            }) + (match note {
                Some(n) => " ("@ + n + ")"@,
                None => ""@,
            }),
        ),
{
    broadcast use lemma_lookup_push;
    reveal_strlit("summary");
    reveal_strlit("structured");
    assert("summary"@.len() == 7);
    assert("structured"@.len() == 10);
    reveal_strlit("");
    let said = crate::media::recommend::recommend_summary(v, thin_signal, personalized, None);
    assert(said + ""@ =~= said);
    if let Some(n) = note {
        assert(said + " ("@ + n + ")"@ =~= said + (" ("@ + n + ")"@));
    }
    if v.len() > 0 {
        let titles = crate::media::search::first_of(v, 3).map_values(
            |x: RecommendationView| x.title,
        );
        assert(crate::media::recommend::top_titles(v) == joined(titles, ", "@));
        if v.len() >= 2 {
            let front = titles.drop_last();
            assert(joined(titles, ", "@) == joined(front, ", "@) + ", "@ + titles.last());
            if v.len() >= 3 {
                assert(joined(front, ", "@) == joined(front.drop_last(), ", "@) + ", "@
                    + front.last());
            }
        }
    }
}

/// The structured answer says whether there was little history, whether it is personal and what
/// could not be reached, and lists every recommendation in order, with its title, type, score,
/// shared genres and reason.
pub proof fn recommendations_are_listed(
    v: Seq<RecommendationView>,
    thin_signal: bool,
    personalized: bool,
    note: Option<Seq<char>>,
)
    ensures
        ({
            let it = recommend_answer(v, thin_signal, personalized, note).at("structured"@);
            &&& it.bool_at("thin_signal"@) == Some(thin_signal)
            &&& it.bool_at("personalized"@) == Some(personalized)
            &&& it.text_at("degraded"@) == note
            &&& it.items_at("recommendations"@) matches Some(shown) && shown.len() == v.len()
                && forall|k: int|
                0 <= k < shown.len() ==> {
                    let r = #[trigger] shown[k];
                    &&& r.text_at("title"@) == Some(v[k].title)
                    &&& r.text_at("media_type"@) == Some(v[k].media_type)
                    &&& r.at("score"@) == JsonView::Float(v[k].shown_score)
                    &&& r.text_at("rationale"@) == Some(v[k].rationale)
                    &&& r.items_at("matched_genres"@) matches Some(genres) && genres.len()
                        == v[k].matched_genres.len() && forall|g: int|
                        0 <= g < genres.len() ==> #[trigger] genres[g] == JsonView::Str(
                            v[k].matched_genres[g],
                        )
                }
        }),
{
    broadcast use lemma_lookup_push;
    reveal_strlit("summary");
    reveal_strlit("structured");
    reveal_strlit("thin_signal");
    reveal_strlit("personalized");
    reveal_strlit("degraded");
    reveal_strlit("recommendations");
    reveal_strlit("title");
    reveal_strlit("media_type");
    reveal_strlit("score");
    reveal_strlit("rationale");
    reveal_strlit("matched_genres");
    assert("summary"@.len() == 7);
    assert("structured"@.len() == 10);
    assert("thin_signal"@.len() == 11);
    assert("personalized"@.len() == 12);
    assert("degraded"@.len() == 8);
    assert("recommendations"@.len() == 15);
    assert("title"@.len() == 5);
    assert("media_type"@.len() == 10);
    assert("score"@.len() == 5);
    assert("rationale"@.len() == 9);
    assert("matched_genres"@.len() == 14);
    assert("structured"@[0] == 's');
    assert("media_type"@[0] == 'm');
    assert("title"@[0] == 't');
    assert("score"@[0] == 's');
}

/// The first service that could not be reached is named: the media server where its history was
/// due, then the film library, then the series library.
pub proof fn unreached_services_are_named(
    scope: ScopeView,
    history: Option<ReplyView>,
    radarr: Option<ReplyView>,
    sonarr: Option<ReplyView>,
)
    ensures
        degraded_note(scope, history, radarr, sonarr) == (if scope is Account && history is Some
            && reply_content(Service::Plex, history.unwrap()) is Err {
            Some("couldn't reach Plex, so this isn't personalized right now"@)
        } else if radarr is Some && reply_content(Service::Radarr, radarr.unwrap()) is Err {
            Some("couldn't reach Radarr for movie picks"@)
        } else if sonarr is Some && reply_content(Service::Sonarr, sonarr.unwrap()) is Err {
            Some("couldn't reach Sonarr for show picks"@)
        } else {
            None
        }),
{
}

/// Whether no recommendation shares a genre with what was watched.
pub open spec fn shares_no_genre(v: Seq<RecommendationView>) -> bool {
    forall|i: int| 0 <= i < v.len() ==> (#[trigger] v[i]).matched_genres.len() == 0
}

/// The answer holds the best of what was scored, as many as asked for. It is personal exactly where
/// the caller has an account, and there is little signal where no recommendation shares a genre with
/// what was watched.
pub proof fn the_best_suggestions_are_answered(
    scope: ScopeView,
    limit: int,
    scored: Seq<RecommendationView>,
    note: Option<Seq<char>>,
)
    requires
        limit >= 0,
    ensures
        exists|best: Seq<RecommendationView>|
            {
                &&& best.len() == if scored.len() <= limit {
                    scored.len() as int
                } else {
                    limit
                }
                &&& forall|k: int| 0 <= k < best.len() ==> scored.contains(#[trigger] best[k])
                &&& forall|k: int, l: int|
                    0 <= k < l < best.len() ==> rank_of((#[trigger] best[k]).score) >= rank_of(
                        (#[trigger] best[l]).score,
                    )
                &&& forall|i: int, k: int|
                    0 <= i < scored.len() && 0 <= k < best.len() && !best.contains(
                        #[trigger] scored[i],
                    ) ==> rank_of((#[trigger] best[k]).score) >= rank_of(scored[i].score)
                &&& final_answer(scope, limit, scored, note) == recommend_answer(
                    best,
                    scope is Account && best.len() > 0 && #[trigger] shares_no_genre(best),
                    scope is Account,
                    note,
                )
            },
{
    let best = best_of(scored, limit);
    best_recommendations_come_first(scored, limit);
    let thin = shares_no_genre(best);
    if !thin {
        let i = choose|i: int|
            0 <= i < best.len() && (#[trigger] best[i]).matched_genres.len() > 0;
        assert(best[i].matched_genres.len() > 0);
    }
    assert(final_answer(scope, limit, scored, note) == recommend_answer(
        best,
        scope is Account && best.len() > 0 && thin,
        scope is Account,
        note,
    ));
}

/// The account that some arguments name.
pub open spec fn account_asked_for(args: JsonView) -> Option<Seq<char>> {
    match args.text_at("account_id"@) {
        Some(s) => if trimmed(s).len() > 0 {
            Some(trimmed(s))
        } else {
            None
        },
        None => None,
    }
}

/// Whose history a call counts: the caller's own, which the arguments may name; nobody's, where the
/// caller has no account and names none.
pub open spec fn whose(args: JsonView, own: Option<Seq<char>>) -> Option<ScopeView> {
    if account_asked_for(args) is None && own is None {
        Some(ScopeView::Unentitled)
    } else if account_asked_for(args) is None || account_asked_for(args) == own {
        Some(ScopeView::Account(own.unwrap()))
    } else {
        None
    }
}

/// A call first asks: the media server for the history where the caller has an account, and both
/// libraries for what they hold, each where it is configured. It is then answered from the replies.
pub proof fn recommendations_come_from_the_replies(
    tool: MediaRecommend,
    args: JsonView,
    own: Option<Seq<char>>,
    ratings: Seq<Rating>,
)
    ensures
        whose(args, own) is None ==> forall|replies: Option<RecommendReplies>| #[trigger]
            tool.run_view(args, own, replies, ratings) == RecommendView::Failed(
                ErrorView::InvalidArgument(
                    "account_id may only be your own media account. Omit it and I'll use yours."@,
                ),
            ),
        whose(args, own) matches Some(scope) ==> {
            &&& tool.run_view(args, own, None, ratings) matches RecommendView::Ask(asks) && {
                &&& asks.history is Some <==> own is Some && tool.plex is Some
                &&& asks.history matches Some(request) ==> request.method == Method::Get
                    && request.url == tool.plex.unwrap().base() + "/status/sessions/history/all"@
                &&& asks.radarr is Some <==> tool.radarr is Some
                &&& asks.radarr matches Some(request) ==> request.method == Method::Get
                    && request.url == tool.radarr.unwrap().base() + "/api/v3/movie"@
                &&& asks.sonarr is Some <==> tool.sonarr is Some
                &&& asks.sonarr matches Some(request) ==> request.method == Method::Get
                    && request.url == tool.sonarr.unwrap().base() + "/api/v3/series"@
            }
            &&& forall|heard: RecommendReplies|
                {
                    let all = suggestions_from(
                        scope,
                        crate::http::opt_reply(heard.history),
                        crate::http::opt_reply(heard.radarr),
                        crate::http::opt_reply(heard.sonarr),
                    );
                    #[trigger] tool.run_view(args, own, Some(heard), ratings) == (if ratings.len()
                        != all.len() {
                        RecommendView::Rate(all)
                    } else {
                        RecommendView::Done(
                            final_answer(
                                scope,
                                limit_view(args),
                                rated(all, ratings),
                                degraded_note(
                                    scope,
                                    crate::http::opt_reply(heard.history),
                                    crate::http::opt_reply(heard.radarr),
                                    crate::http::opt_reply(heard.sonarr),
                                ),
                            ),
                        )
                    })
                }
        },
{
}

// ── what is next, and what is new ───────────────────────────────────────────

/// The titles of some items are those of each, in order, where it has one.
pub proof fn titles_follow_the_items(a: Seq<JsonView>, b: Seq<JsonView>, item: JsonView)
    ensures
        titles_in(a + b) == titles_in(a) + titles_in(b),
        titles_in(Seq::empty()).len() == 0,
        titles_in(seq![item]) == (match shown_title(item) {
            Some(t) => seq![t],
            None => Seq::empty(),
        }),
    decreases b.len(),
{
    let one = seq![item];
    assert(one.drop_last() =~= Seq::<JsonView>::empty());
    assert(titles_in(one.drop_last()) =~= Seq::<Seq<char>>::empty());
    if let Some(t) = shown_title(item) {
        assert(Seq::<Seq<char>>::empty().push(t) =~= seq![t]);
    }
    if b.len() == 0 {
        assert(a + b =~= a);
        assert(titles_in(a) + titles_in(b) =~= titles_in(a));
    } else {
        assert((a + b).drop_last() =~= a + b.drop_last());
        titles_follow_the_items(a, b.drop_last(), item);
        assert(titles_in(a + b) =~= titles_in(a) + titles_in(b));
    }
}

/// At most five of some titles.
pub open spec fn five(titles: Seq<Seq<char>>) -> Seq<Seq<char>> {
    if titles.len() > 5 {
        titles.take(5)
    } else {
        titles
    }
}

/// Whether an answer counts some titles, lists them all in order, and says the first five of them
/// behind a lead, or that there are none.
pub open spec fn tells_titles(
    answer: JsonView,
    titles: Seq<Seq<char>>,
    lead: Seq<char>,
    nothing: Seq<char>,
) -> bool {
    let it = answer.at("structured"@);
    &&& it.at("count"@) == JsonView::Int(titles.len() as int)
    &&& it.items_at("titles"@) matches Some(shown) && shown.len() == titles.len() && forall|k: int|
        0 <= k < shown.len() ==> #[trigger] shown[k] == JsonView::Str(titles[k])
    &&& answer.text_at("summary"@) == Some(
        if titles.len() == 0 {
            nothing
        } else {
            lead + joined(five(titles), ", "@) + "."@
        },
    )
}

/// What is on deck is shown to the account that it belongs to, and to nobody else: everyone else is
/// told the same, and no server is asked.
pub proof fn on_deck_is_for_its_account(
    tool: MediaOnDeck,
    own: Option<Seq<char>>,
    token_account: Option<Seq<char>>,
    replies: Seq<ReplyView>,
)
    ensures
        own is None || own != token_account ==> (tool.run_view(own, token_account, replies)
            matches StepView::Done(answer, None) && answer.at("structured"@).bool_at("personalized"@)
            == Some(false) && answer.at("structured"@).at("count"@) == JsonView::Int(0)
            && answer.at("structured"@).items_at("titles"@) == Some(Seq::<JsonView>::empty())
            && answer.text_at("summary"@) == Some(
            "Continue-watching is personal to each household member, and I can't tell which one you are, so I'm not showing it."@,
        )),
        own is Some && own == token_account ==> match tool.plex {
            None => tool.run_view(own, token_account, replies) == StepView::Failed(
                ErrorView::NotConfigured("PLEX_URL/PLEX_TOKEN not set"@),
                None,
            ),
            Some(c) => if replies.len() == 0 {
                tool.run_view(own, token_account, replies) matches StepView::Send(request)
                    && request.method == Method::Get && request.url == c.base() + "/library/onDeck"@
            } else {
                match reply_content(Service::Plex, replies[0]) {
                    Err(e) => tool.run_view(own, token_account, replies) == StepView::Failed(e, None),
                    Ok(raw) => tool.run_view(own, token_account, replies) matches StepView::Done(
                        answer,
                        None,
                    ) && answer.at("structured"@).bool_at("personalized"@) == Some(true)
                        && tells_titles(
                        answer,
                        titles_in(plex_items(raw)),
                        "Up next: "@,
                        "Nothing on deck right now."@,
                    ),
                }
            },
        },
{
    broadcast use lemma_lookup_push;
    reveal_strlit("summary");
    reveal_strlit("structured");
    reveal_strlit("personalized");
    reveal_strlit("count");
    reveal_strlit("titles");
    assert("summary"@.len() == 7);
    assert("structured"@.len() == 10);
    assert("personalized"@.len() == 12);
    assert("count"@.len() == 5);
    assert("titles"@.len() == 6);
}

/// What was added recently is shown to everyone: every title that the server lists, in order.
pub proof fn recent_additions_are_listed(tool: MediaRecentlyAdded, replies: Seq<ReplyView>)
    ensures
        match tool.plex {
            None => tool.run_view(replies) == StepView::Failed(
                ErrorView::NotConfigured("PLEX_URL/PLEX_TOKEN not set"@),
                None,
            ),
            Some(c) => if replies.len() == 0 {
                tool.run_view(replies) matches StepView::Send(request) && request.method
                    == Method::Get && request.url == c.base() + "/library/recentlyAdded"@
            } else {
                match reply_content(Service::Plex, replies[0]) {
                    Err(e) => tool.run_view(replies) == StepView::Failed(e, None),
                    Ok(raw) => tool.run_view(replies) matches StepView::Done(answer, None)
                        && tells_titles(
                        answer,
                        titles_in(plex_items(raw)),
                        "Recently added: "@,
                        "Nothing recently added."@,
                    ),
                }
            },
        },
{
    broadcast use lemma_lookup_push;
    reveal_strlit("summary");
    reveal_strlit("structured");
    reveal_strlit("count");
    reveal_strlit("titles");
    reveal_strlit("on_deck");
    reveal_strlit("recently_added");
    assert("summary"@.len() == 7);
    assert("structured"@.len() == 10);
    assert("count"@.len() == 5);
    assert("titles"@.len() == 6);
    assert("on_deck"@.len() == 7);
    assert("recently_added"@.len() == 14);
    assert("summary"@[0] == 's');
    assert("on_deck"@[0] == 'o');
}

} // verus!
