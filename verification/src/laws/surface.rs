//! Which tool a phrase leads to, and how a pending change is put to the user.
use vstd::prelude::*;

use crate::json::JsonView;
use crate::laws::taste_memory::strings_under;
use crate::media::surface::{
    cleanup_question, delete_question, mentions, request_question, routed, tools_of, IntentView,
};
use crate::text::{dec, has_substring, joined};

verus! {

/// Whether a phrase asks to clean up.
pub open spec fn asks_to_clean_up(phrase: Seq<char>) -> bool {
    ||| has_substring(phrase, "clean up"@)
    ||| has_substring(phrase, "cleanup"@)
    ||| has_substring(phrase, "free up space"@)
    ||| has_substring(phrase, "remove what i've watched"@)
    ||| has_substring(phrase, "remove watched"@)
}

proof fn lemma_cleanup(phrase: Seq<char>)
    ensures
        mentions(phrase, crate::media::surface::cleanup_words()) <==> asks_to_clean_up(phrase),
{
    let words = crate::media::surface::cleanup_words();
    assert(words[0] == "clean up"@);
    assert(words[1] == "cleanup"@);
    assert(words[2] == "free up space"@);
    assert(words[3] == "remove what i've watched"@);
    assert(words[4] == "remove watched"@);
    assert(words.len() == 5);
}

/// Whether a phrase asks to delete something.
pub open spec fn asks_to_delete(phrase: Seq<char>) -> bool {
    ||| has_substring(phrase, "delete"@)
    ||| has_substring(phrase, "get rid of"@)
    ||| has_substring(phrase, "remove it"@)
    ||| has_substring(phrase, "remove this"@)
}

proof fn lemma_delete(phrase: Seq<char>)
    ensures
        mentions(phrase, crate::media::surface::delete_words()) <==> asks_to_delete(phrase),
{
    let words = crate::media::surface::delete_words();
    assert(words[0] == "delete"@);
    assert(words[1] == "get rid of"@);
    assert(words[2] == "remove it"@);
    assert(words[3] == "remove this"@);
    assert(words.len() == 4);
}

/// Whether a phrase asks whether something is there.
pub open spec fn asks_for_status(phrase: Seq<char>) -> bool {
    ||| has_substring(phrase, "is on plex"@)
    ||| has_substring(phrase, "on plex?"@)
    ||| has_substring(phrase, "do i have"@)
    ||| has_substring(phrase, "do we have"@)
    ||| has_substring(phrase, "already have"@)
    ||| has_substring(phrase, "is it in my library"@)
    ||| has_substring(phrase, "check if"@)
}

proof fn lemma_status(phrase: Seq<char>)
    ensures
        mentions(phrase, crate::media::surface::status_words()) <==> asks_for_status(phrase),
{
    let words = crate::media::surface::status_words();
    assert(words[0] == "is on plex"@);
    assert(words[1] == "on plex?"@);
    assert(words[2] == "do i have"@);
    assert(words[3] == "do we have"@);
    assert(words[4] == "already have"@);
    assert(words[5] == "is it in my library"@);
    assert(words[6] == "check if"@);
    assert(words.len() == 7);
}

/// Whether a phrase asks to get something.
pub open spec fn asks_to_get(phrase: Seq<char>) -> bool {
    ||| has_substring(phrase, "grab"@)
    ||| has_substring(phrase, "download"@)
    ||| has_substring(phrase, "get me"@)
    ||| has_substring(phrase, "watch that"@)
    ||| has_substring(phrase, "get that show"@)
    ||| has_substring(phrase, "get that movie"@)
}

proof fn lemma_acquire(phrase: Seq<char>)
    ensures
        mentions(phrase, crate::media::surface::acquire_words()) <==> asks_to_get(phrase),
{
    let words = crate::media::surface::acquire_words();
    assert(words[0] == "grab"@);
    assert(words[1] == "download"@);
    assert(words[2] == "get me"@);
    assert(words[3] == "watch that"@);
    assert(words[4] == "get that show"@);
    assert(words[5] == "get that movie"@);
    assert(words.len() == 6);
}

/// Whether a phrase asks to request something.
pub open spec fn asks_to_request(phrase: Seq<char>) -> bool {
    ||| has_substring(phrase, "request "@)
    ||| has_substring(phrase, "add to radarr"@)
    ||| has_substring(phrase, "add to sonarr"@)
}

proof fn lemma_request(phrase: Seq<char>)
    ensures
        mentions(phrase, crate::media::surface::request_words()) <==> asks_to_request(phrase),
{
    let words = crate::media::surface::request_words();
    assert(words[0] == "request "@);
    assert(words[1] == "add to radarr"@);
    assert(words[2] == "add to sonarr"@);
    assert(words.len() == 3);
}

/// Whether a phrase asks to change something.
pub open spec fn asks_to_change(phrase: Seq<char>) -> bool {
    ||| has_substring(phrase, "stop monitoring"@)
    ||| has_substring(phrase, "tag it"@)
    ||| has_substring(phrase, "add to collection"@)
    ||| has_substring(phrase, "mark as monitored"@)
}

proof fn lemma_organize(phrase: Seq<char>)
    ensures
        mentions(phrase, crate::media::surface::organize_words()) <==> asks_to_change(phrase),
{
    let words = crate::media::surface::organize_words();
    assert(words[0] == "stop monitoring"@);
    assert(words[1] == "tag it"@);
    assert(words[2] == "add to collection"@);
    assert(words[3] == "mark as monitored"@);
    assert(words.len() == 4);
}

/// Whether a phrase asks what is next.
pub open spec fn asks_what_is_next(phrase: Seq<char>) -> bool {
    ||| has_substring(phrase, "on deck"@)
    ||| has_substring(phrase, "continue watching"@)
    ||| has_substring(phrase, "what's next"@)
    ||| has_substring(phrase, "up next"@)
}

proof fn lemma_on_deck(phrase: Seq<char>)
    ensures
        mentions(phrase, crate::media::surface::on_deck_words()) <==> asks_what_is_next(phrase),
{
    let words = crate::media::surface::on_deck_words();
    assert(words[0] == "on deck"@);
    assert(words[1] == "continue watching"@);
    assert(words[2] == "what's next"@);
    assert(words[3] == "up next"@);
    assert(words.len() == 4);
}

/// Whether a phrase asks what is new.
pub open spec fn asks_what_is_new(phrase: Seq<char>) -> bool {
    ||| has_substring(phrase, "recently added"@)
    ||| has_substring(phrase, "what's new"@)
    ||| has_substring(phrase, "new on plex"@)
}

proof fn lemma_recent(phrase: Seq<char>)
    ensures
        mentions(phrase, crate::media::surface::recent_words()) <==> asks_what_is_new(phrase),
{
    let words = crate::media::surface::recent_words();
    assert(words[0] == "recently added"@);
    assert(words[1] == "what's new"@);
    assert(words[2] == "new on plex"@);
    assert(words.len() == 3);
}

/// Whether a phrase asks for a suggestion.
pub open spec fn asks_for_suggestion(phrase: Seq<char>) -> bool {
    ||| has_substring(phrase, "put something on"@)
    ||| has_substring(phrase, "suggest something"@)
    ||| has_substring(phrase, "recommend something"@)
    ||| has_substring(phrase, "what should i watch"@)
    ||| has_substring(phrase, "surprise me"@)
}

proof fn lemma_recommend(phrase: Seq<char>)
    ensures
        mentions(phrase, crate::media::surface::recommend_words()) <==> asks_for_suggestion(phrase),
{
    let words = crate::media::surface::recommend_words();
    assert(words[0] == "put something on"@);
    assert(words[1] == "suggest something"@);
    assert(words[2] == "recommend something"@);
    assert(words[3] == "what should i watch"@);
    assert(words[4] == "surprise me"@);
    assert(words.len() == 5);
}

/// Whether a phrase asks to look something up.
pub open spec fn asks_to_look_up(phrase: Seq<char>) -> bool {
    ||| has_substring(phrase, "search for"@)
    ||| has_substring(phrase, "find me"@)
    ||| has_substring(phrase, "look up"@)
}

proof fn lemma_search(phrase: Seq<char>)
    ensures
        mentions(phrase, crate::media::surface::search_words()) <==> asks_to_look_up(phrase),
{
    let words = crate::media::surface::search_words();
    assert(words[0] == "search for"@);
    assert(words[1] == "find me"@);
    assert(words[2] == "look up"@);
    assert(words.len() == 3);
}

/// Whether a phrase is about media at all.
pub open spec fn is_about_media(phrase: Seq<char>) -> bool {
    ||| has_substring(phrase, "movie"@)
    ||| has_substring(phrase, "show"@)
    ||| has_substring(phrase, "watch"@)
    ||| has_substring(phrase, "media"@)
    ||| has_substring(phrase, "plex"@)
    ||| has_substring(phrase, "library"@)
    ||| has_substring(phrase, "episode"@)
    ||| has_substring(phrase, "series"@)
}

proof fn lemma_media(phrase: Seq<char>)
    ensures
        mentions(phrase, crate::media::surface::media_words()) <==> is_about_media(phrase),
{
    let words = crate::media::surface::media_words();
    assert(words[0] == "movie"@);
    assert(words[1] == "show"@);
    assert(words[2] == "watch"@);
    assert(words[3] == "media"@);
    assert(words[4] == "plex"@);
    assert(words[5] == "library"@);
    assert(words[6] == "episode"@);
    assert(words[7] == "series"@);
    assert(words.len() == 8);
}

/// A phrase leads to the tool for the first thing that it asks for: removing comes before anything
/// else, then looking whether something is there, then getting it, and so on to looking it up. A
/// phrase that asks for nothing of the kind leads to a question.
pub proof fn phrases_lead_to_their_tool(phrase: Seq<char>)
    ensures
        phrase.len() == 0 ==> routed(phrase) == IntentView::Clarify(
            "What would you like me to do with your media library?"@,
        ),
        phrase.len() > 0 ==> routed(phrase) == (if asks_to_clean_up(phrase) {
            IntentView::Tool("media_cleanup"@)
        } else if asks_to_delete(phrase) {
            IntentView::Tool("media_delete"@)
        } else if asks_for_status(phrase) {
            IntentView::Tool("media_status"@)
        } else if asks_to_get(phrase) {
            IntentView::Chain(seq!["media_search"@, "media_status"@, "media_request"@])
        } else if asks_to_request(phrase) {
            IntentView::Tool("media_request"@)
        } else if asks_to_change(phrase) {
            IntentView::Tool("media_organize"@)
        } else if asks_what_is_next(phrase) {
            IntentView::Tool("media_on_deck"@)
        } else if asks_what_is_new(phrase) {
            IntentView::Tool("media_recently_added"@)
        } else if asks_for_suggestion(phrase) {
            IntentView::Tool("media_recommend"@)
        } else if asks_to_look_up(phrase) {
            IntentView::Tool("media_search"@)
        } else if is_about_media(phrase) {
            IntentView::Clarify(
                "Do you want me to look something up, check if you already have it, request it, or clean something out?"@,
            )
        } else {
            IntentView::Clarify(
                "I'm not sure what media action you mean -- could you say a bit more?"@,
            )
        }),
{

    lemma_cleanup(phrase);
    lemma_delete(phrase);
    lemma_status(phrase);
    lemma_acquire(phrase);
    lemma_request(phrase);
    lemma_organize(phrase);
    lemma_on_deck(phrase);
    lemma_recent(phrase);
    lemma_recommend(phrase);
    lemma_search(phrase);
    lemma_media(phrase);
}

/// The tools of an intent are the one that it names, all that it names in order, or none where it is
/// a question.
pub proof fn intents_name_their_tools(intent: IntentView)
    ensures
        match intent {
            IntentView::Tool(name) => tools_of(intent).len() == 1 && tools_of(intent)[0] == name,
            IntentView::Chain(names) => tools_of(intent) == names,
            IntentView::Clarify(_) => tools_of(intent).len() == 0,
        },
{
}

/// A request is put as a question exactly where it waits for a confirmation and was not carried out;
/// the question names the title, the year, the size and the quality, as far as they are known.
pub proof fn requests_are_put_as_questions(it: JsonView, size_gb: Seq<char>)
    ensures
        request_question(it, size_gb) == (if it.text_at("tier"@) == Some("confirm"@) && it.bool_at(
            "executed"@,
        ) == Some(false) {
            Some(
                "\""@ + (match it.text_at("title"@) {
                    Some(t) => t,
                    None => "that"@,
                }) + "\""@ + (match it.text_at("year"@) {
                    Some(y) => " ("@ + y + ")"@,
                    None => ""@,
                }) + " -- "@ + (if it.at("estimated_size_bytes"@).uint64() is Some {
                    "that's a ~"@ + size_gb + "GB"@
                } else {
                    "that's a"@
                }) + (match it.text_at("quality_hint"@) {
                    Some(q) => " "@ + q,
                    None => ""@,
                }) + " grab -- want me to go ahead?"@,
            )
        } else {
            None
        }),
{
}

/// A deletion is put as a question exactly where it waits for its title to be spelled out, and the
/// question spells it.
pub proof fn deletions_are_put_as_questions(it: JsonView)
    ensures
        delete_question(it) == (if it.bool_at("executed"@) == Some(false) && it.bool_at(
            "requires_confirmation"@,
        ) == Some(true) && it.text_at("title"@) is Some {
            Some(
                "That'll permanently delete \""@ + it.text_at("title"@).unwrap()
                    + "\" and its files -- there's no undo. Say \"yes, delete "@ + it.text_at(
                    "title"@,
                ).unwrap() + "\" and I'll confirm with the exact title to go ahead."@,
            )
        } else {
            None
        }),
{
}

/// A clean-up is put as a question exactly where it waits for its titles to be spelled out; the
/// question names them all, counts them, and counts what is left alone.
pub proof fn clean_ups_are_put_as_questions(it: JsonView)
    ensures
        ({
            let titles = strings_under(it, "eligible"@);
            let left = match it.at("flagged"@) {
                JsonView::Array(items) => items.len(),
                _ => 0,
            };
            cleanup_question(it) == (if it.bool_at("executed"@) == Some(false) && it.bool_at(
                "requires_confirmation"@,
            ) == Some(true) && titles.len() > 0 {
                Some(
                    "I'd be permanently removing "@ + dec(titles.len() as int) + " thing"@ + (
                    if titles.len() == 1 {
                        ""@
                    } else {
                        "s"@
                    }) + ": "@ + joined(titles, ", "@) + "."@ + (if left == 0 {
                        ""@
                    } else if left == 1 {
                        " "@ + dec(left as int) + " other item"@ + ""@
                            + " not watched by everyone, so I'm leaving "@ + "it"@ + " alone."@
                    } else {
                        " "@ + dec(left as int) + " other item"@ + "s"@
                            + " not watched by everyone, so I'm leaving "@ + "them"@ + " alone."@
                    }) + " Want me to go ahead?"@,
                )
            } else {
                None
            })
        }),
{
}

} // verus!
