//! Routing of conversational phrases to tools, and the wording of confirmations.
//!
//! Nothing here changes anything: a route names tools, each of which keeps its own gate, and a
//! narration only words what a gate is waiting for.
use vstd::prelude::*;

use crate::json::{collect_strings, lemma_lookup_push, strings_in, Json, JsonView};
use crate::media::organize::{enumeration, DeletePlanView};
use crate::media::request::{MediaType, MutationTier, PlanView};
use crate::text::{
    cat2, cat3, cat4, cat5, contains, dec, fmt_nat, has_substring, join, joined, lowercase,
    opt_text, owned, same, texts, to_lower, trim, trimmed,
};

verus! {

// ── routing ─────────────────────────────────────────────────────────────────

/// What a phrase asks for.
#[derive(Debug, Clone, Copy, PartialEq, Eq)]
pub enum MediaIntent {
    /// A single tool.
    Tool(&'static str),
    /// Several tools in order, each with its own gate.
    Chain(&'static [&'static str]),
    /// Too little to go by: a question to ask back.
    Clarify(&'static str),
}

/// The content of a [`MediaIntent`].
pub enum IntentView {
    Tool(Seq<char>),
    Chain(Seq<Seq<char>>),
    Clarify(Seq<char>),
}

impl View for MediaIntent {
    type V = IntentView;

    open spec fn view(&self) -> IntentView {
        match *self {
            MediaIntent::Tool(name) => IntentView::Tool(name@),
            MediaIntent::Chain(names) => IntentView::Chain(words_view(names@)),
            MediaIntent::Clarify(question) => IntentView::Clarify(question@),
        }
    }
}

/// The character views of a list of strings.
pub open spec fn words_view(words: Seq<&'static str>) -> Seq<Seq<char>> {
    words.map_values(|w: &'static str| w@)
}

/// Whether a phrase holds any of these words.
pub open spec fn mentions(phrase: Seq<char>, words: Seq<Seq<char>>) -> bool {
    exists|i: int| 0 <= i < words.len() && has_substring(phrase, #[trigger] words[i])
}

fn mentions_any(phrase: &str, words: &[&'static str]) -> (r: bool)
    ensures
        r == mentions(phrase@, words_view(words@)),
{
    let mut i: usize = 0;
    while i < words.len()
        invariant
            i <= words.len(),
            forall|k: int| 0 <= k < i ==> !has_substring(phrase@, #[trigger] words_view(words@)[k]),
        decreases words.len() - i,
    {
        if contains(phrase, words[i]) {
            assert(has_substring(phrase@, words_view(words@)[i as int]));
            return true;
        }
        i += 1;
    }
    false
}

/// Words of a phrase that is asking for a bulk clean-up.
pub open spec fn cleanup_words() -> Seq<Seq<char>> {
    seq!["clean up"@, "cleanup"@, "free up space"@, "remove what i've watched"@, "remove watched"@]
}

/// Words of a phrase that is asking for a deletion.
pub open spec fn delete_words() -> Seq<Seq<char>> {
    seq!["delete"@, "get rid of"@, "remove it"@, "remove this"@]
}

/// Words of a phrase that is asking whether something is there.
pub open spec fn status_words() -> Seq<Seq<char>> {
    seq!["is on plex"@, "on plex?"@, "do i have"@, "do we have"@, "already have"@, "is it in my library"@, "check if"@]
}

/// Words of a phrase that is asking for something to be got.
pub open spec fn acquire_words() -> Seq<Seq<char>> {
    seq!["grab"@, "download"@, "get me"@, "watch that"@, "get that show"@, "get that movie"@]
}

/// Words of a phrase that is asking for a fully specified title.
pub open spec fn request_words() -> Seq<Seq<char>> {
    seq!["request "@, "add to radarr"@, "add to sonarr"@]
}

/// Words of a phrase that is asking for a change to the library's order.
pub open spec fn organize_words() -> Seq<Seq<char>> {
    seq!["stop monitoring"@, "tag it"@, "add to collection"@, "mark as monitored"@]
}

/// Words of a phrase that is asking what to continue.
pub open spec fn on_deck_words() -> Seq<Seq<char>> {
    seq!["on deck"@, "continue watching"@, "what's next"@, "up next"@]
}

/// Words of a phrase that is asking what is new.
pub open spec fn recent_words() -> Seq<Seq<char>> {
    seq!["recently added"@, "what's new"@, "new on plex"@]
}

/// Words of a phrase that is asking for a recommendation.
pub open spec fn recommend_words() -> Seq<Seq<char>> {
    seq!["put something on"@, "suggest something"@, "recommend something"@, "what should i watch"@, "surprise me"@]
}

/// Words of a phrase that is asking to look something up.
pub open spec fn search_words() -> Seq<Seq<char>> {
    seq!["search for"@, "find me"@, "look up"@]
}

/// Words that say a phrase is about media at all.
pub open spec fn media_words() -> Seq<Seq<char>> {
    seq!["movie"@, "show"@, "watch"@, "media"@, "plex"@, "library"@, "episode"@, "series"@]
}

/// The tools that get a title, in order: find it, see whether it is there, ask for it.
pub open spec fn acquisition_steps() -> Seq<Seq<char>> {
    seq!["media_search"@, "media_status"@, "media_request"@]
}

/// What a trimmed and lowercased phrase asks for: the first matching route, and a question where
/// none matches.
pub open spec fn routed(phrase: Seq<char>) -> IntentView {
    if phrase.len() == 0 {
        IntentView::Clarify("What would you like me to do with your media library?"@)
    } else if mentions(phrase, cleanup_words()) {
        IntentView::Tool("media_cleanup"@)
    } else if mentions(phrase, delete_words()) {
        IntentView::Tool("media_delete"@)
    } else if mentions(phrase, status_words()) {
        IntentView::Tool("media_status"@)
    } else if mentions(phrase, acquire_words()) {
        IntentView::Chain(acquisition_steps())
    } else if mentions(phrase, request_words()) {
        IntentView::Tool("media_request"@)
    } else if mentions(phrase, organize_words()) {
        IntentView::Tool("media_organize"@)
    } else if mentions(phrase, on_deck_words()) {
        IntentView::Tool("media_on_deck"@)
    } else if mentions(phrase, recent_words()) {
        IntentView::Tool("media_recently_added"@)
    } else if mentions(phrase, recommend_words()) {
        IntentView::Tool("media_recommend"@)
    } else if mentions(phrase, search_words()) {
        IntentView::Tool("media_search"@)
    } else if mentions(phrase, media_words()) {
        IntentView::Clarify(
            "Do you want me to look something up, check if you already have it, request it, or clean something out?"@,
        )
    } else {
        IntentView::Clarify(
            "I'm not sure what media action you mean -- could you say a bit more?"@,
        )
    }
}

fn has_cleanup_words(phrase: &str) -> (r: bool)
    ensures
        r == mentions(phrase@, cleanup_words()),
{
    let words: &[&'static str] = &["clean up", "cleanup", "free up space", "remove what i've watched", "remove watched"];
    assert(words_view(words@) =~= cleanup_words());
    mentions_any(phrase, words)
}

fn has_delete_words(phrase: &str) -> (r: bool)
    ensures
        r == mentions(phrase@, delete_words()),
{
    let words: &[&'static str] = &["delete", "get rid of", "remove it", "remove this"];
    assert(words_view(words@) =~= delete_words());
    mentions_any(phrase, words)
}

fn has_status_words(phrase: &str) -> (r: bool)
    ensures
        r == mentions(phrase@, status_words()),
{
    let words: &[&'static str] = &["is on plex", "on plex?", "do i have", "do we have", "already have", "is it in my library", "check if"];
    assert(words_view(words@) =~= status_words());
    mentions_any(phrase, words)
}

fn has_acquire_words(phrase: &str) -> (r: bool)
    ensures
        r == mentions(phrase@, acquire_words()),
{
    let words: &[&'static str] = &["grab", "download", "get me", "watch that", "get that show", "get that movie"];
    assert(words_view(words@) =~= acquire_words());
    mentions_any(phrase, words)
}

fn has_request_words(phrase: &str) -> (r: bool)
    ensures
        r == mentions(phrase@, request_words()),
{
    let words: &[&'static str] = &["request ", "add to radarr", "add to sonarr"];
    assert(words_view(words@) =~= request_words());
    mentions_any(phrase, words)
}

fn has_organize_words(phrase: &str) -> (r: bool)
    ensures
        r == mentions(phrase@, organize_words()),
{
    let words: &[&'static str] = &["stop monitoring", "tag it", "add to collection", "mark as monitored"];
    assert(words_view(words@) =~= organize_words());
    mentions_any(phrase, words)
}

fn has_on_deck_words(phrase: &str) -> (r: bool)
    ensures
        r == mentions(phrase@, on_deck_words()),
{
    let words: &[&'static str] = &["on deck", "continue watching", "what's next", "up next"];
    assert(words_view(words@) =~= on_deck_words());
    mentions_any(phrase, words)
}

fn has_recent_words(phrase: &str) -> (r: bool)
    ensures
        r == mentions(phrase@, recent_words()),
{
    let words: &[&'static str] = &["recently added", "what's new", "new on plex"];
    assert(words_view(words@) =~= recent_words());
    mentions_any(phrase, words)
}

fn has_recommend_words(phrase: &str) -> (r: bool)
    ensures
        r == mentions(phrase@, recommend_words()),
{
    let words: &[&'static str] = &["put something on", "suggest something", "recommend something", "what should i watch", "surprise me"];
    assert(words_view(words@) =~= recommend_words());
    mentions_any(phrase, words)
}

fn has_search_words(phrase: &str) -> (r: bool)
    ensures
        r == mentions(phrase@, search_words()),
{
    let words: &[&'static str] = &["search for", "find me", "look up"];
    assert(words_view(words@) =~= search_words());
    mentions_any(phrase, words)
}

fn has_media_words(phrase: &str) -> (r: bool)
    ensures
        r == mentions(phrase@, media_words()),
{
    let words: &[&'static str] = &["movie", "show", "watch", "media", "plex", "library", "episode", "series"];
    assert(words_view(words@) =~= media_words());
    mentions_any(phrase, words)
}

/// Routes a trimmed and lowercased phrase as [`routed`] says.
pub fn route(phrase: &str) -> (r: MediaIntent)
    ensures
        r@ == routed(phrase@),
{
    if phrase.is_empty() {
        return MediaIntent::Clarify("What would you like me to do with your media library?");
    }
    if has_cleanup_words(phrase) {
        return MediaIntent::Tool("media_cleanup");
    }
    if has_delete_words(phrase) {
        return MediaIntent::Tool("media_delete");
    }
    if has_status_words(phrase) {
        return MediaIntent::Tool("media_status");
    }
    if has_acquire_words(phrase) {
        let steps: &'static [&'static str] = &["media_search", "media_status", "media_request"];
        assert(words_view(steps@) =~= acquisition_steps());
        return MediaIntent::Chain(steps);
    }
    if has_request_words(phrase) {
        return MediaIntent::Tool("media_request");
    }
    if has_organize_words(phrase) {
        return MediaIntent::Tool("media_organize");
    }
    if has_on_deck_words(phrase) {
        return MediaIntent::Tool("media_on_deck");
    }
    if has_recent_words(phrase) {
        return MediaIntent::Tool("media_recently_added");
    }
    if has_recommend_words(phrase) {
        return MediaIntent::Tool("media_recommend");
    }
    if has_search_words(phrase) {
        return MediaIntent::Tool("media_search");
    }
    if has_media_words(phrase) {
        return MediaIntent::Clarify(
            "Do you want me to look something up, check if you already have it, request it, or clean something out?",
        );
    }
    MediaIntent::Clarify("I'm not sure what media action you mean -- could you say a bit more?")
}

/// Finds out what a phrase asks for, whatever its letter case.
pub fn resolve_intent(phrase: &str) -> (r: MediaIntent)
    ensures
        r@ == routed(lowercase(trimmed(phrase@))),
{
    let normalized = to_lower(trim(phrase));
    route(normalized.as_str())
}

/// The tools that an intent names, in order.
pub open spec fn tools_of(intent: IntentView) -> Seq<Seq<char>> {
    match intent {
        IntentView::Tool(name) => seq![name],
        IntentView::Chain(names) => names,
        IntentView::Clarify(_) => Seq::empty(),
    }
}

/// Lists the tools that an intent names, in order.
pub fn chain_for(intent: MediaIntent) -> (r: Vec<&'static str>)
    ensures
        words_view(r@) == tools_of(intent@),
{
    let mut out: Vec<&'static str> = Vec::new();
    match intent {
        MediaIntent::Tool(name) => {
            out.push(name);
            assert(words_view(out@) =~= seq![name@]);
        },
        MediaIntent::Chain(names) => {
            let mut i: usize = 0;
            while i < names.len()
                invariant
                    i <= names.len(),
                    out@ =~= names@.take(i as int),
                decreases names.len() - i,
            {
                out.push(names[i]);
                i += 1;
            }
            assert(out@ =~= names@);
        },
        MediaIntent::Clarify(_) => {
            assert(words_view(out@) =~= Seq::empty());
        },
    }
    out
}

/// A phrase that is not clear enough is answered with a question, and no tool is called.
pub proof fn unclear_phrases_get_a_question(phrase: Seq<char>)
    ensures
        routed(phrase) matches IntentView::Clarify(question) ==> question.contains('?') && tools_of(
            routed(phrase),
        ).len() == 0,
{
    reveal_strlit("What would you like me to do with your media library?");
    reveal_strlit(
        "Do you want me to look something up, check if you already have it, request it, or clean something out?",
    );
    reveal_strlit("I'm not sure what media action you mean -- could you say a bit more?");
    assert("What would you like me to do with your media library?"@[52] == '?');
    assert("Do you want me to look something up, check if you already have it, request it, or clean something out?"@[101]
        == '?');
    assert("I'm not sure what media action you mean -- could you say a bit more?"@[67] == '?');
}

/// Anything but a question names at least one tool.
pub proof fn clear_phrases_name_a_tool(phrase: Seq<char>)
    ensures
        !(routed(phrase) is Clarify) ==> tools_of(routed(phrase)).len() > 0,
{
}

/// A named, ordered chain of tools.
#[derive(Debug, Clone, Copy, PartialEq, Eq)]
pub struct MediaChain {
    pub name: &'static str,
    pub steps: &'static [&'static str],
    pub description: &'static str,
}

/// The chain that gets a title. Its last step keeps its own gate, however it is reached.
pub fn search_status_request_chain() -> (r: MediaChain)
    ensures
        r.name@ == "search_status_request"@,
        words_view(r.steps@) == acquisition_steps(),
        r.description@
            == "Resolve a fuzzy title, confirm it isn't already in the library, then request it. The final media_request call is still subject to MEDIA-03's tiering: a Confirm-tier request returns a confirmation payload, not an executed result, no matter how it was reached."@,
{
    let steps: &'static [&'static str] = &["media_search", "media_status", "media_request"];
    assert(words_view(steps@) =~= acquisition_steps());
    MediaChain {
        name: "search_status_request",
        steps,
        description: "Resolve a fuzzy title, confirm it isn't already in the library, then request it. The final media_request call is still subject to MEDIA-03's tiering: a Confirm-tier request returns a confirmation payload, not an executed result, no matter how it was reached.",
    }
}

// ── wording ─────────────────────────────────────────────────────────────────

/// Whether an answer says that nothing was carried out.
pub open spec fn not_executed(structured: JsonView) -> bool {
    structured.bool_at("executed"@) == Some(false)
}

fn is_pending(structured: &Json) -> (r: bool)
    ensures
        r == not_executed(structured@),
{
    match structured.bool_at("executed") {
        Some(b) => !b,
        None => false,
    }
}

/// The size that an answer states, in bytes.
pub open spec fn size_of(structured: JsonView) -> Option<int> {
    structured.at("estimated_size_bytes"@).uint64()
}

/// The size that an answer states, in bytes: what its wording in gibibytes is computed from.
pub fn narrated_size(structured: &Json) -> (r: Option<u64>)
    ensures
        match r {
            Some(n) => size_of(structured@) == Some(n as int),
            None => size_of(structured@) is None,
        },
{
    match structured.get("estimated_size_bytes") {
        Some(v) => v.as_u64(),
        None => None,
    }
}

/// The question for a request that waits for confirmation. `size_gb` is its size in whole
/// gibibytes.
pub open spec fn request_question(structured: JsonView, size_gb: Seq<char>) -> Option<Seq<char>> {
    if structured.text_at("tier"@) == Some("confirm"@) && not_executed(structured) {
        let title = match structured.text_at("title"@) {
            Some(t) => t,
            None => "that"@,
        };
        let year = match structured.text_at("year"@) {
            Some(y) => " ("@ + y + ")"@,
            None => ""@,
        };
        let size = match size_of(structured) {
            Some(_) => "that's a ~"@ + size_gb + "GB"@,
            None => "that's a"@,
        };
        let quality = match structured.text_at("quality_hint"@) {
            Some(q) => " "@ + q,
            None => ""@,
        };
        Some(
            "\""@ + title + "\""@ + year + " -- "@ + size + quality
                + " grab -- want me to go ahead?"@,
        )
    } else {
        None
    }
}

/// Words a request that waits for confirmation as [`request_question`] says.
pub fn narrate_request_confirmation(structured: &Json, size_gb: &str) -> (r: Option<String>)
    ensures
        opt_text(r) == request_question(structured@, size_gb@),
{
    let confirm_tier = match structured.str_at("tier") {
        Some(t) => same(t, "confirm"),
        None => false,
    };
    if !confirm_tier || !is_pending(structured) {
        return None;
    }
    let title = match structured.str_at("title") {
        Some(t) => t,
        None => "that",
    };
    let year = match structured.str_at("year") {
        Some(y) => cat3(" (", y, ")"),
        None => owned(""),
    };
    let size = match narrated_size(structured) {
        Some(_) => cat3("that's a ~", size_gb, "GB"),
        None => owned("that's a"),
    };
    let quality = match structured.str_at("quality_hint") {
        Some(q) => cat2(" ", q),
        None => owned(""),
    };
    let desc = cat5("\"", title, "\"", year.as_str(), " -- ");
    Some(cat4(desc.as_str(), size.as_str(), quality.as_str(), " grab -- want me to go ahead?"))
}

/// Whether an answer waits for something to be spelled out.
pub open spec fn waits_for_confirmation(structured: JsonView) -> bool {
    not_executed(structured) && structured.bool_at("requires_confirmation"@) == Some(true)
}

fn is_waiting(structured: &Json) -> (r: bool)
    ensures
        r == waits_for_confirmation(structured@),
{
    let required = match structured.bool_at("requires_confirmation") {
        Some(b) => b,
        None => false,
    };
    is_pending(structured) && required
}

/// The question for a deletion that waits for its title to be spelled out.
pub open spec fn delete_question(structured: JsonView) -> Option<Seq<char>> {
    if waits_for_confirmation(structured) {
        match structured.text_at("title"@) {
            Some(title) => Some(
                "That'll permanently delete \""@ + title
                    + "\" and its files -- there's no undo. Say \"yes, delete "@ + title
                    + "\" and I'll confirm with the exact title to go ahead."@,
            ),
            None => None,
        }
    } else {
        None
    }
}

/// Words a deletion that waits for confirmation as [`delete_question`] says.
pub fn narrate_delete_confirmation(structured: &Json) -> (r: Option<String>)
    ensures
        opt_text(r) == delete_question(structured@),
{
    if !is_waiting(structured) {
        return None;
    }
    match structured.str_at("title") {
        Some(title) => Some(
            cat5(
                "That'll permanently delete \"",
                title,
                "\" and its files -- there's no undo. Say \"yes, delete ",
                title,
                "\" and I'll confirm with the exact title to go ahead.",
            ),
        ),
        None => None,
    }
}

/// The question for a clean-up that waits for its titles to be spelled out.
pub open spec fn cleanup_question(structured: JsonView) -> Option<Seq<char>> {
    let eligible = match structured.items_at("eligible"@) {
        Some(items) => strings_in(items),
        None => Seq::empty(),
    };
    let flagged = match structured.items_at("flagged"@) {
        Some(items) => items.len(),
        None => 0,
    };
    if waits_for_confirmation(structured) && eligible.len() > 0 {
        Some(
            "I'd be permanently removing "@ + dec(eligible.len() as int) + " thing"@ + (
            if eligible.len() == 1 {
                ""@
            } else {
                "s"@
            }) + ": "@ + joined(eligible, ", "@) + "."@ + (if flagged > 0 {
                " "@ + dec(flagged as int) + " other item"@ + (if flagged == 1 {
                    ""@
                } else {
                    "s"@
                }) + " not watched by everyone, so I'm leaving "@ + (if flagged == 1 {
                    "it"@
                } else {
                    "them"@
                }) + " alone."@
            } else {
                ""@
            }) + " Want me to go ahead?"@,
        )
    } else {
        None
    }
}

/// Words a clean-up that waits for confirmation as [`cleanup_question`] says.
pub fn narrate_cleanup_confirmation(structured: &Json) -> (r: Option<String>)
    ensures
        opt_text(r) == cleanup_question(structured@),
{
    if !is_waiting(structured) {
        return None;
    }
    let eligible: Vec<String> = match structured.array_at("eligible") {
        Some(items) => collect_strings(items),
        None => Vec::new(),
    };
    proof {
        if structured@.items_at("eligible"@) is None {
            assert(texts(eligible@) =~= Seq::empty());
        }
    }
    if eligible.len() == 0 {
        return None;
    }
    let flagged: usize = match structured.array_at("flagged") {
        Some(items) => items.len(),
        None => 0,
    };
    let count = fmt_nat(eligible.len() as u128);
    let names = join(&eligible, ", ");
    let head = cat4(
        "I'd be permanently removing ",
        count.as_str(),
        " thing",
        if eligible.len() == 1 {
            ""
        } else {
            "s"
        },
    );
    let list = cat4(head.as_str(), ": ", names.as_str(), ".");
    let kept = if flagged > 0 {
        let n = fmt_nat(flagged as u128);
        let left = cat4(
            " ",
            n.as_str(),
            " other item",
            if flagged == 1 {
                ""
            } else {
                "s"
            },
        );
        cat4(
            left.as_str(),
            " not watched by everyone, so I'm leaving ",
            if flagged == 1 {
                "it"
            } else {
                "them"
            },
            " alone.",
        )
    } else {
        owned("")
    };
    Some(cat3(list.as_str(), kept.as_str(), " Want me to go ahead?"))
}

proof fn lemma_answer_keys()
    ensures
        "tier"@ != "executed"@,
        "tier"@ != "already_present"@,
        "tier"@ != "note"@,
        "executed"@ != "already_present"@,
        "executed"@ != "note"@,
        "executed"@ != "media_type"@,
        "executed"@ != "title"@,
        "executed"@ != "requires_confirmation"@,
        "executed"@ != "already_absent"@,
        "executed"@ != "eligible"@,
        "executed"@ != "flagged"@,
        "requires_confirmation"@ != "id"@,
        "requires_confirmation"@ != "media_type"@,
        "requires_confirmation"@ != "title"@,
        "requires_confirmation"@ != "executed"@,
        "requires_confirmation"@ != "already_absent"@,
        "requires_confirmation"@ != "eligible"@,
        "requires_confirmation"@ != "flagged"@,
        "title"@ != "executed"@,
        "title"@ != "requires_confirmation"@,
        "eligible"@ != "flagged"@,
        "eligible"@ != "requires_confirmation"@,
        "flagged"@ != "requires_confirmation"@,
{
    reveal_strlit("tier");
    reveal_strlit("executed");
    reveal_strlit("already_present");
    reveal_strlit("note");
    reveal_strlit("requires_confirmation");
    reveal_strlit("id");
    reveal_strlit("media_type");
    reveal_strlit("title");
    reveal_strlit("already_absent");
    reveal_strlit("eligible");
    reveal_strlit("flagged");
    assert("tier"@.len() == 4);
    assert("executed"@.len() == 8);
    assert("already_present"@.len() == 15);
    assert("note"@.len() == 4);
    assert("requires_confirmation"@.len() == 21);
    assert("id"@.len() == 2);
    assert("media_type"@.len() == 10);
    assert("title"@.len() == 5);
    assert("already_absent"@.len() == 14);
    assert("eligible"@.len() == 8);
    assert("flagged"@.len() == 7);
    assert("tier"@[0] == 't');
    assert("note"@[0] == 'n');
    assert("executed"@[1] == 'x');
    assert("eligible"@[1] == 'l');
}

proof fn lemma_strings_in_texts(v: Seq<Seq<char>>)
    ensures
        strings_in(v.map_values(|s: Seq<char>| JsonView::Str(s))) == v,
    decreases v.len(),
{
    let items = v.map_values(|s: Seq<char>| JsonView::Str(s));
    if v.len() > 0 {
        lemma_strings_in_texts(v.drop_last());
        assert(items.drop_last() =~= v.drop_last().map_values(|s: Seq<char>| JsonView::Str(s)));
        assert(v.drop_last().push(v.last()) =~= v);
    } else {
        assert(items =~= Seq::empty());
    }
}

/// Whatever led up to it, a request that needs confirmation and was not carried out is put as a
/// question.
pub proof fn pending_request_is_narrated(plan: PlanView, size_gb: Seq<char>, whole_gb: Seq<char>)
    requires
        plan.tier == MutationTier::Confirm,
    ensures
        request_question(
            plan.answer(size_gb, false, false).at("structured"@),
            whole_gb,
        ) is Some,
{
    broadcast use lemma_lookup_push;

    lemma_answer_keys();
}

/// A request that was carried out is not put as a question.
pub proof fn executed_request_is_not_narrated(
    plan: PlanView,
    size_gb: Seq<char>,
    whole_gb: Seq<char>,
)
    ensures
        request_question(plan.answer(size_gb, true, false).at("structured"@), whole_gb) is None,
{
    broadcast use lemma_lookup_push;

    lemma_answer_keys();
}

/// A deletion is put as a question where its title is still to be spelled out, and not where there
/// is nothing to delete.
pub proof fn pending_deletion_is_narrated(plan: DeletePlanView, title: Seq<char>)
    ensures
        delete_question(plan.confirmation_answer(title).at("structured"@)) is Some,
        delete_question(plan.absent_answer().at("structured"@)) is None,
{
    broadcast use lemma_lookup_push;

    lemma_answer_keys();
}

/// A clean-up that waits for its titles to be spelled out is put as a question.
pub proof fn pending_cleanup_is_narrated(
    media: MediaType,
    eligible: Seq<Seq<char>>,
    flagged: Seq<Seq<char>>,
)
    requires
        eligible.len() > 0,
    ensures
        cleanup_question(
            JsonView::Object(
                enumeration(media, eligible, flagged).push(
                    ("requires_confirmation"@, JsonView::Bool(true)),
                ),
            ),
        ) is Some,
{
    broadcast use lemma_lookup_push;

    lemma_answer_keys();
    lemma_strings_in_texts(eligible);
}

} // verus!
