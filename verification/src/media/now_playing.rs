//! What is playing on Plex right now, for a caller who may know it.
//!
//! Three outcomes never look alike: Plex could not be asked, Plex refused the token, and Plex
//! answered that nobody is watching. `idle` is granted only to the one empty shape that Plex emits;
//! any other body that cannot be read is `malformed`. Neither carries a session count, and a caller
//! who is not entitled learns nothing, because entitlement is decided before the first request.
use vstd::prelude::*;

use crate::http::{HttpReply, HttpRequest, ReplyView, RequestView};
use crate::json::{
    bits_of, bool_or_null, float_text, int_or_null, jsons, lemma_array_view, lookup, no_fields,
    number_bits, number_text, number_text_of, opt_int, opt_json, opt_json_owned, read_bits,
    read_view, render, rendered, shortest_text, text_or_null, Fields, Json, JsonView,
};
use crate::media::clients::settings_pair;
use crate::media::clients::plex::{
    live, live_reply_content, map_live_reply, LiveErrorView, PlexClient, PlexSessionsError,
};
use crate::number::{nearest_number, rounded, whole, whole_number};
use crate::registry::{with_tool, InfoView, ToolInfo, ToolRegistry};
use crate::schema::{describe, optional_object, optional_object_view};
use crate::text::{
    cat2, cat3, cat4, cat5, dec, dec2, fmt_int, fmt_int2, fmt_nat, join, joined, opt_str, opt_text,
    owned, parse_int64, read_int64, same, strip_leading, strip_trailing, texts, trim, trimmed,
    without_leading, without_trailing,
};
use crate::tool::{CallerContext, ToolOutput};

verus! {

/// The tool's name.
pub const TOOL_NAME: &'static str = "media_now_playing";

// ── entitlement ─────────────────────────────────────────────────────────────

/// Whether this caller may see who is watching what: both operator signals are needed.
pub fn may_see_now_playing(caller: CallerContext) -> (r: bool)
    ensures
        r == entitled(caller),
{
    caller.may_infer_from_calendar() && caller.may_infer_from_routine()
}

/// Both operator signals.
pub open spec fn entitled(caller: CallerContext) -> bool {
    caller.calendar() && caller.routine()
}

// ── reading fields ──────────────────────────────────────────────────────────

/// The string under `key`, trimmed, where anything is left of it.
pub open spec fn clean_text(v: JsonView, key: Seq<char>) -> Option<Seq<char>> {
    match v.text_at(key) {
        Some(s) => if trimmed(s).len() > 0 {
            Some(trimmed(s))
        } else {
            None
        },
        None => None,
    }
}

/// The string under `key`, trimmed, where anything is left of it.
pub fn str_at<'a>(v: &'a Json, key: &str) -> (r: Option<&'a str>)
    ensures
        opt_str(r) == clean_text(v@, key@),
{
    match v.str_at(key) {
        Some(s) => {
            let t = trim(s);
            if t.is_empty() {
                None
            } else {
                Some(t)
            }
        },
        None => None,
    }
}

/// The integer that some bits hold, where they hold one.
pub open spec fn whole_of(bits: Option<u64>) -> Option<int> {
    match bits {
        Some(b) => whole(b),
        None => None,
    }
}

/// The integer nearest to what some bits hold.
pub open spec fn nearest_of(bits: Option<u64>) -> Option<int> {
    match bits {
        Some(b) => rounded(b),
        None => None,
    }
}

/// A number node read as an integer, where it is one: a fraction is never dropped.
pub open spec fn integral_view(v: JsonView) -> Option<int> {
    match v.int64() {
        Some(n) => Some(n),
        None => whole_of(bits_of(number_text(v))),
    }
}

/// Reads a number node as [`integral_view`] says.
pub fn integral(v: &Json) -> (r: Option<i64>)
    ensures
        opt_int(r) == integral_view(v@),
{
    match v.as_i64() {
        Some(n) => Some(n),
        None => match number_bits(v) {
            Some(bits) => whole_number(bits),
            None => None,
        },
    }
}

/// A count or an ordinal under `key`, as a number or as a string. A fraction is rejected: there is
/// no half of an episode.
pub open spec fn number_at(v: JsonView, key: Seq<char>) -> Option<int> {
    match v.at(key) {
        JsonView::Str(s) => parse_int64(trimmed(s)),
        other => integral_view(other),
    }
}

/// Reads a count or an ordinal as [`number_at`] says.
pub fn num_at(v: &Json, key: &str) -> (r: Option<i64>)
    ensures
        opt_int(r) == number_at(v@, key@),
{
    match v.get(key) {
        Some(Json::Str(s)) => read_int64(trim(s.as_str())),
        Some(other) => integral(other),
        None => None,
    }
}

/// A measurement under `key`, as a number or as a string. A fraction is rounded to the nearest
/// whole unit, halves away from zero.
pub open spec fn measure_at(v: JsonView, key: Seq<char>) -> Option<int> {
    match v.at(key) {
        JsonView::Str(s) => match parse_int64(trimmed(s)) {
            Some(n) => Some(n),
            None => nearest_of(bits_of(Some(trimmed(s)))),
        },
        other => match integral_view(other) {
            Some(n) => Some(n),
            None => nearest_of(bits_of(number_text(other))),
        },
    }
}

/// Reads a measurement as [`measure_at`] says.
pub fn quantity_at(v: &Json, key: &str) -> (r: Option<i64>)
    ensures
        opt_int(r) == measure_at(v@, key@),
{
    match v.get(key) {
        Some(Json::Str(s)) => {
            let t = trim(s.as_str());
            match read_int64(t) {
                Some(n) => Some(n),
                None => match read_bits(t) {
                    Some(bits) => nearest_number(bits),
                    None => None,
                },
            }
        },
        Some(other) => match integral(other) {
            Some(n) => Some(n),
            None => match number_bits(other) {
                Some(bits) => nearest_number(bits),
                None => None,
            },
        },
        None => None,
    }
}

/// A floating-point field: the number under `key`, given as a number or as a string, or `Null`.
pub open spec fn float_at_view(v: JsonView, key: Seq<char>) -> JsonView {
    let text = match v.at(key) {
        JsonView::Str(s) => Some(trimmed(s)),
        other => number_text(other),
    };
    match text {
        Some(t) => match float_text(t) {
            Some(shortest) => JsonView::Float(shortest),
            None => JsonView::Null,
        },
        None => JsonView::Null,
    }
}

fn shortest_float(text: &str) -> (r: Json)
    ensures
        r@ == (match float_text(text@) {
            Some(shortest) => JsonView::Float(shortest),
            None => JsonView::Null,
        }),
{
    match shortest_text(text) {
        Some(shortest) => Json::Float(shortest),
        None => Json::Null,
    }
}

/// Reads a floating-point field as [`float_at_view`] says.
pub fn float_at(v: &Json, key: &str) -> (r: Json)
    ensures
        r@ == float_at_view(v@, key@),
{
    match v.get(key) {
        Some(Json::Str(s)) => shortest_float(trim(s.as_str())),
        Some(other) => match number_text_of(other) {
            Some(t) => shortest_float(t.as_str()),
            None => Json::Null,
        },
        None => Json::Null,
    }
}

/// A truth value under `key`, given as one, as an integer, or as a string.
pub open spec fn flag_at(v: JsonView, key: Seq<char>) -> Option<bool> {
    match v.at(key) {
        JsonView::Bool(b) => Some(b),
        JsonView::Str(s) => if trimmed(s) == "1"@ || trimmed(s) == "true"@ {
            Some(true)
        } else if trimmed(s) == "0"@ || trimmed(s) == "false"@ {
            Some(false)
        } else {
            None
        },
        other => match other.int64() {
            Some(n) => Some(n != 0),
            None => None,
        },
    }
}

/// Reads a truth value as [`flag_at`] says.
pub fn bool_at(v: &Json, key: &str) -> (r: Option<bool>)
    ensures
        r == flag_at(v@, key@),
{
    match v.get(key) {
        Some(Json::Bool(b)) => Some(*b),
        Some(Json::Str(s)) => {
            let t = trim(s.as_str());
            if same(t, "1") || same(t, "true") {
                Some(true)
            } else if same(t, "0") || same(t, "false") {
                Some(false)
            } else {
                None
            }
        },
        Some(other) => match other.as_i64() {
            Some(n) => Some(n != 0),
            None => None,
        },
        None => None,
    }
}

// ── the session container ───────────────────────────────────────────────────

/// The session count that a container states: a whole number that is not negative, or a description
/// of what stands there instead.
pub open spec fn container_size_view(mc: JsonView) -> Result<int, Seq<char>> {
    match mc.field("size"@) {
        None => Err(
            "MediaContainer carried no size, and Plex states a size on every container it emits (at rest /status/sessions is exactly {\"MediaContainer\":{\"size\":0}}), so the response was altered somewhere in the path"@,
        ),
        Some(raw) => match number_at(mc, "size"@) {
            None => Err(
                "MediaContainer.size was "@ + rendered(raw)
                    + ", which is not a whole number of sessions"@,
            ),
            Some(n) => if n < 0 {
                Err(
                    "MediaContainer.size was "@ + dec(n)
                        + ", and a number of sessions cannot be negative"@,
                )
            } else {
                Ok(n)
            },
        },
    }
}

/// Reads the session count as [`container_size_view`] says.
pub fn container_size(mc: &Json) -> (r: Result<i64, String>)
    ensures
        match r {
            Ok(n) => container_size_view(mc@) == Ok::<int, Seq<char>>(n as int) && n >= 0,
            Err(e) => container_size_view(mc@) == Err::<int, Seq<char>>(e@),
        },
{
    let raw = match mc.get("size") {
        None => {
            return Err(
                owned(
                    "MediaContainer carried no size, and Plex states a size on every container it emits (at rest /status/sessions is exactly {\"MediaContainer\":{\"size\":0}}), so the response was altered somewhere in the path",
                ),
            );
        },
        Some(raw) => raw,
    };
    match num_at(mc, "size") {
        None => {
            let shown = render(raw);
            Err(
                cat3(
                    "MediaContainer.size was ",
                    shown.as_str(),
                    ", which is not a whole number of sessions",
                ),
            )
        },
        Some(n) => {
            if n < 0 {
                let shown = fmt_int(n as i128);
                Err(
                    cat3(
                        "MediaContainer.size was ",
                        shown.as_str(),
                        ", and a number of sessions cannot be negative",
                    ),
                )
            } else {
                Ok(n)
            }
        },
    }
}

/// The name of a JSON shape.
pub open spec fn kind_name(v: JsonView) -> Seq<char> {
    match v {
        JsonView::Null => "null"@,
        JsonView::Bool(_) => "a boolean"@,
        JsonView::Int(_) => "a number"@,
        JsonView::Float(_) => "a number"@,
        JsonView::Str(_) => "a string"@,
        JsonView::Array(_) => "a list"@,
        JsonView::Object(_) => "an object"@,
    }
}

/// The name of a JSON shape.
pub fn json_kind(v: &Json) -> (r: &'static str)
    ensures
        r@ == kind_name(v@),
{
    match v {
        Json::Null => "null",
        Json::Bool(_) => "a boolean",
        Json::Int(_) => "a number",
        Json::Float(_) => "a number",
        Json::Str(_) => "a string",
        Json::Array(_) => "a list",
        Json::Object(_) => "an object",
    }
}

/// Whether an entry is a session object whose transcode block, where it has one, is an object.
pub open spec fn readable_entry(entry: JsonView) -> bool {
    &&& entry is Object
    &&& entry.field("TranscodeSession"@) matches Some(ts) ==> ts is Object
}

/// What is wrong with entry `i`.
pub open spec fn entry_fault(entry: JsonView, i: int) -> Seq<char> {
    if !(entry is Object) {
        "MediaContainer.Metadata entry "@ + dec(i) + " was not a session object"@
    } else {
        "MediaContainer.Metadata entry "@ + dec(i) + " carried a TranscodeSession that was "@
            + kind_name(entry.at("TranscodeSession"@))
            + ", not an object, and Plex emits neither a JSON null nor a scalar there"@
    }
}

/// The first entry, from `i` on, that cannot be read.
pub open spec fn first_unreadable(items: Seq<JsonView>, i: int) -> Option<int>
    decreases items.len() - i,
{
    if i >= items.len() {
        None
    } else if readable_entry(items[i]) {
        first_unreadable(items, i + 1)
    } else {
        Some(i)
    }
}

/// The sessions that a response carries, or a description of why it cannot be read. Nothing that is
/// merely unreadable counts as empty.
pub open spec fn sessions_of(raw: JsonView) -> Result<Seq<JsonView>, Seq<char>> {
    match raw.field("MediaContainer"@) {
        None => Err("the response from Plex had no MediaContainer"@),
        Some(mc) => if !(mc is Object) {
            Err("MediaContainer was not an object"@)
        } else if mc.field("Metadata"@) == Some(JsonView::Null) {
            Err(
                "MediaContainer.Metadata was explicitly null, which is not a shape Plex emits (it omits the key entirely when nothing is playing)"@,
            )
        } else {
            match container_size_view(mc) {
                Err(e) => Err(e),
                Ok(size) => match mc.field("Metadata"@) {
                    None => if size == 0 {
                        Ok(Seq::empty())
                    } else {
                        Err(
                            "MediaContainer reported "@ + dec(size)
                                + " session(s) but carried no Metadata list"@,
                        )
                    },
                    Some(JsonView::Array(items)) => match first_unreadable(items, 0) {
                        Some(i) => Err(entry_fault(items[i], i)),
                        None => if size != items.len() {
                            Err(
                                "MediaContainer reported "@ + dec(size)
                                    + " session(s) but carried "@ + dec(items.len() as int),
                            )
                        } else {
                            Ok(items)
                        },
                    },
                    Some(_) => Err("MediaContainer.Metadata was not a list"@),
                },
            }
        },
    }
}

/// The content of a session list.
pub open spec fn session_list(r: Result<Vec<Json>, String>) -> Result<Seq<JsonView>, Seq<char>> {
    match r {
        Ok(v) => Ok(jsons(v@)),
        Err(e) => Err(e@),
    }
}

/// Reads the sessions as [`sessions_of`] says.
pub fn session_items(raw: &Json) -> (r: Result<Vec<Json>, String>)
    ensures
        session_list(r) == sessions_of(raw@),
{
    broadcast use lemma_array_view;

    let mc = match raw.get("MediaContainer") {
        None => {
            return Err(owned("the response from Plex had no MediaContainer"));
        },
        Some(mc) => mc,
    };
    if !mc.is_object() {
        return Err(owned("MediaContainer was not an object"));
    }
    let metadata = mc.get("Metadata");
    if let Some(Json::Null) = metadata {
        return Err(
            owned(
                "MediaContainer.Metadata was explicitly null, which is not a shape Plex emits (it omits the key entirely when nothing is playing)",
            ),
        );
    }
    let size: i64 = match container_size(mc) {
        Ok(n) => n,
        Err(e) => {
            return Err(e);
        },
    };
    match metadata {
        None => {
            if size == 0 {
                let none: Vec<Json> = Vec::new();
                assert(jsons(none@) =~= Seq::empty());
                Ok(none)
            } else {
                let shown = fmt_int(size as i128);
                Err(
                    cat3(
                        "MediaContainer reported ",
                        shown.as_str(),
                        " session(s) but carried no Metadata list",
                    ),
                )
            }
        },
        Some(Json::Array(items)) => read_entries(items, size),
        Some(_) => Err(owned("MediaContainer.Metadata was not a list")),
    }
}

/// Reads the entries of a session list that is stated to hold `size` of them.
fn read_entries(items: &Vec<Json>, size: i64) -> (r: Result<Vec<Json>, String>)
    ensures
        session_list(r) == (match first_unreadable(jsons(items@), 0) {
            Some(i) => Err::<Seq<JsonView>, Seq<char>>(entry_fault(jsons(items@)[i], i)),
            None => if size != items.len() {
                Err::<Seq<JsonView>, Seq<char>>(
                    "MediaContainer reported "@ + dec(size as int) + " session(s) but carried "@
                        + dec(items@.len() as int),
                )
            } else {
                Ok::<Seq<JsonView>, Seq<char>>(jsons(items@))
            },
        }),
{
    let mut out: Vec<Json> = Vec::new();
    let ghost view = jsons(items@);
    let mut i: usize = 0;
    while i < items.len()
        invariant
            i <= items.len(),
            view == jsons(items@),
            out.len() == i,
            forall|k: int| 0 <= k < i ==> (#[trigger] out@[k])@ == view[k],
            first_unreadable(view, 0) == first_unreadable(view, i as int),
        decreases items.len() - i,
    {
        let item = &items[i];
        assert(view[i as int] == item@);
        if !item.is_object() {
            let n = fmt_nat(i as u128);
            return Err(
                cat3("MediaContainer.Metadata entry ", n.as_str(), " was not a session object"),
            );
        }
        if let Some(ts) = item.get("TranscodeSession") {
            if !ts.is_object() {
                let n = fmt_nat(i as u128);
                return Err(
                    cat5(
                        "MediaContainer.Metadata entry ",
                        n.as_str(),
                        " carried a TranscodeSession that was ",
                        json_kind(ts),
                        ", not an object, and Plex emits neither a JSON null nor a scalar there",
                    ),
                );
            }
        }
        out.push(item.copy());
        i += 1;
    }
    assert(jsons(out@) =~= view);
    if size as i128 != items.len() as i128 {
        let stated = fmt_int(size as i128);
        let carried = fmt_nat(items.len() as u128);
        return Err(
            cat4(
                "MediaContainer reported ",
                stated.as_str(),
                " session(s) but carried ",
                carried.as_str(),
            ),
        );
    }
    Ok(out)
}

proof fn lemma_all_readable(items: Seq<JsonView>, i: int)
    requires
        0 <= i,
        first_unreadable(items, i) is None,
    ensures
        forall|k: int| i <= k < items.len() ==> readable_entry(#[trigger] items[k]),
    decreases items.len() - i,
{
    if i < items.len() {
        lemma_all_readable(items, i + 1);
    }
}

/// A response is read as carrying no sessions exactly where its container is an object that states
/// the whole number zero as its size and has no session list, or an empty one.
pub proof fn empty_house_has_one_shape(raw: JsonView)
    ensures
        sessions_of(raw) == Ok::<Seq<JsonView>, Seq<char>>(Seq::empty()) <==> {
            let mc = raw.at("MediaContainer"@);
            &&& mc is Object
            &&& mc.field("size"@) is Some
            &&& number_at(mc, "size"@) == Some(0int)
            &&& mc.field("Metadata"@) is None || mc.field("Metadata"@) == Some(
                JsonView::Array(Seq::empty()),
            )
        },
{
    let mc = raw.at("MediaContainer"@);
    if mc is Object {
        if let Some(JsonView::Array(items)) = mc.field("Metadata"@) {
            if items.len() == 0 {
                assert(items =~= Seq::empty());
            }
        }
    }
}

/// A list of sessions is never short: where one is read, its length is the stated size, and every
/// entry is a session object whose transcode block, if any, is an object.
pub proof fn session_list_is_complete(raw: JsonView)
    ensures
        sessions_of(raw) matches Ok(items) ==> {
            &&& number_at(raw.at("MediaContainer"@), "size"@) == Some(items.len() as int)
            &&& forall|k: int| 0 <= k < items.len() ==> readable_entry(#[trigger] items[k])
        },
{
    if let Ok(items) = sessions_of(raw) {
        if items.len() > 0 {
            lemma_all_readable(items, 0);
        }
    }
}

/// A size that is absent, fractional, negative or no number at all makes a response unreadable,
/// whatever stands next to it.
pub proof fn impossible_size_is_never_empty(raw: JsonView)
    requires
        match number_at(raw.at("MediaContainer"@), "size"@) {
            Some(n) => n < 0,
            None => true,
        },
    ensures
        sessions_of(raw) is Err,
{
}

/// An explicit `null` in place of the session list makes a response unreadable at every size.
pub proof fn null_list_is_never_empty(raw: JsonView)
    requires
        raw.at("MediaContainer"@).field("Metadata"@) == Some(JsonView::Null),
    ensures
        sessions_of(raw) is Err,
{
}

// ── one session ─────────────────────────────────────────────────────────────

/// How Plex is delivering one session's media.
#[derive(Debug, Clone, Copy, PartialEq, Eq, Structural)]
pub enum PlaybackDecision {
    DirectPlay,
    DirectStream,
    Transcode,
}

impl PlaybackDecision {
    /// The decision's name.
    pub open spec fn name_view(self) -> Seq<char> {
        match self {
            PlaybackDecision::DirectPlay => "direct_play"@,
            PlaybackDecision::DirectStream => "direct_stream"@,
            PlaybackDecision::Transcode => "transcode"@,
        }
    }

    /// The decision's name.
    pub fn as_str(self) -> (r: &'static str)
        ensures
            r@ == self.name_view(),
    {
        match self {
            PlaybackDecision::DirectPlay => "direct_play",
            PlaybackDecision::DirectStream => "direct_stream",
            PlaybackDecision::Transcode => "transcode",
        }
    }
}

/// The first item of the array under `key`.
pub open spec fn first_at(v: JsonView, key: Seq<char>) -> Option<JsonView> {
    match v.items_at(key) {
        Some(items) => if items.len() > 0 {
            Some(items[0])
        } else {
            None
        },
        None => None,
    }
}

fn first_of<'a>(v: &'a Json, key: &str) -> (r: Option<&'a Json>)
    ensures
        opt_json(r) == first_at(v@, key@),
{
    match v.array_at(key) {
        Some(items) => {
            if items.len() > 0 {
                assert(jsons(items@)[0] == items@[0]@);
                Some(&items[0])
            } else {
                None
            }
        },
        None => None,
    }
}

/// The decision that the first part of the first medium states.
pub open spec fn stated_decision(item: JsonView) -> Option<Seq<char>> {
    match first_at(item, "Media"@) {
        Some(media) => match first_at(media, "Part"@) {
            Some(part) => clean_text(part, "decision"@),
            None => None,
        },
        None => None,
    }
}

/// Reads the stated decision.
pub fn part_decision(item: &Json) -> (r: Option<&str>)
    ensures
        opt_str(r) == stated_decision(item@),
{
    match first_of(item, "Media") {
        Some(media) => match first_of(media, "Part") {
            Some(part) => str_at(part, "decision"),
            None => None,
        },
        None => None,
    }
}

/// The transcode block, where the entry has one that is an object.
pub open spec fn transcode_block(item: JsonView) -> Option<JsonView> {
    match item.field("TranscodeSession"@) {
        Some(ts) => if ts is Object {
            Some(ts)
        } else {
            None
        },
        None => None,
    }
}

fn transcode_session(item: &Json) -> (r: Option<&Json>)
    ensures
        opt_json(r) == transcode_block(item@),
{
    match item.get("TranscodeSession") {
        Some(ts) => {
            if ts.is_object() {
                Some(ts)
            } else {
                None
            }
        },
        None => None,
    }
}

/// Whether a stream's decision, which is `copy` where nothing is stated, is `copy`.
pub open spec fn is_copied(ts: JsonView, key: Seq<char>) -> bool {
    match clean_text(ts, key) {
        Some(d) => d == "copy"@,
        None => true,
    }
}

fn copied(ts: &Json, key: &str) -> (r: bool)
    ensures
        r == is_copied(ts@, key@),
{
    match str_at(ts, key) {
        Some(d) => same(d, "copy"),
        None => true,
    }
}

/// How a session is delivered: by its transcode block where it has one, else by what its first part
/// states.
pub open spec fn decision_of(item: JsonView) -> PlaybackDecision {
    match transcode_block(item) {
        None => match stated_decision(item) {
            Some(d) => if d == "transcode"@ {
                PlaybackDecision::Transcode
            } else if d == "copy"@ {
                PlaybackDecision::DirectStream
            } else {
                PlaybackDecision::DirectPlay
            },
            None => PlaybackDecision::DirectPlay,
        },
        Some(ts) => if is_copied(ts, "videoDecision"@) && is_copied(ts, "audioDecision"@) {
            PlaybackDecision::DirectStream
        } else {
            PlaybackDecision::Transcode
        },
    }
}

/// Derives the decision as [`decision_of`] says.
pub fn decide(item: &Json) -> (r: PlaybackDecision)
    ensures
        r == decision_of(item@),
{
    match transcode_session(item) {
        None => match part_decision(item) {
            Some(d) => {
                if same(d, "transcode") {
                    PlaybackDecision::Transcode
                } else if same(d, "copy") {
                    PlaybackDecision::DirectStream
                } else {
                    PlaybackDecision::DirectPlay
                }
            },
            None => PlaybackDecision::DirectPlay,
        },
        Some(ts) => {
            if copied(ts, "videoDecision") && copied(ts, "audioDecision") {
                PlaybackDecision::DirectStream
            } else {
                PlaybackDecision::Transcode
            }
        },
    }
}

/// What is said of a stream that is re-encoded: from what to what, where both are known.
pub open spec fn stream_reason(
    ts: JsonView,
    label: Seq<char>,
    decision_key: Seq<char>,
    source_key: Seq<char>,
    target_key: Seq<char>,
) -> Seq<Seq<char>> {
    if clean_text(ts, decision_key) == Some("transcode"@) {
        match (clean_text(ts, source_key), clean_text(ts, target_key)) {
            (Some(src), Some(dst)) => seq![label + " "@ + src + " -> "@ + dst],
            _ => seq![label + " re-encoded"@],
        }
    } else {
        Seq::empty()
    }
}

fn push_stream_reason(
    parts: &mut Vec<String>,
    ts: &Json,
    label: &str,
    decision_key: &str,
    source_key: &str,
    target_key: &str,
)
    ensures
        texts(final(parts)@) == texts(old(parts)@) + stream_reason(
            ts@,
            label@,
            decision_key@,
            source_key@,
            target_key@,
        ),
{
    let ghost before = texts(parts@);
    let ghost added = stream_reason(ts@, label@, decision_key@, source_key@, target_key@);
    let transcoded = match str_at(ts, decision_key) {
        Some(d) => same(d, "transcode"),
        None => false,
    };
    if transcoded {
        match (str_at(ts, source_key), str_at(ts, target_key)) {
            (Some(src), Some(dst)) => {
                parts.push(cat5(label, " ", src, " -> ", dst));
            },
            _ => {
                parts.push(cat2(label, " re-encoded"));
            },
        }
    }
    assert(texts(parts@) =~= before + added);
}

/// What is being re-encoded, or, where nothing is, what the container is being remuxed to.
pub open spec fn derived_reasons(ts: JsonView) -> Seq<Seq<char>> {
    let streams = stream_reason(
        ts,
        "video"@,
        "videoDecision"@,
        "sourceVideoCodec"@,
        "videoCodec"@,
    ) + stream_reason(ts, "audio"@, "audioDecision"@, "sourceAudioCodec"@, "audioCodec"@) + (
    if clean_text(ts, "subtitleDecision"@) == Some("transcode"@) {
        seq!["subtitles burned in or converted"@]
    } else {
        Seq::empty()
    });
    if streams.len() > 0 {
        streams
    } else {
        seq![
            "remuxed to "@ + (match clean_text(ts, "protocol"@) {
                Some(p) => p,
                None => "a different container"@,
            }),
        ]
    }
}

/// Why a session is not played directly: what Plex says itself, else what its transcode block
/// implies. Without a transcode block there is nothing to derive a reason from.
pub open spec fn reason_of(item: JsonView, decision: PlaybackDecision) -> Option<Seq<char>> {
    if decision == PlaybackDecision::DirectPlay {
        None
    } else {
        match transcode_block(item) {
            None => None,
            Some(ts) => match clean_text(ts, "transcodeReason"@) {
                Some(reason) => Some(reason),
                None => Some(joined(derived_reasons(ts), "; "@)),
            },
        }
    }
}

/// Gives the reason as [`reason_of`] says.
pub fn transcode_reason(item: &Json, decision: PlaybackDecision) -> (r: Option<String>)
    ensures
        opt_text(r) == reason_of(item@, decision),
{
    if decision == PlaybackDecision::DirectPlay {
        return None;
    }
    let ts = match transcode_session(item) {
        None => {
            return None;
        },
        Some(ts) => ts,
    };
    if let Some(reason) = str_at(ts, "transcodeReason") {
        return Some(owned(reason));
    }
    let mut parts: Vec<String> = Vec::new();
    assert(texts(parts@) =~= Seq::empty());
    push_stream_reason(
        &mut parts,
        ts,
        "video",
        "videoDecision",
        "sourceVideoCodec",
        "videoCodec",
    );
    push_stream_reason(
        &mut parts,
        ts,
        "audio",
        "audioDecision",
        "sourceAudioCodec",
        "audioCodec",
    );
    let ghost streams = texts(parts@);
    let subtitles = match str_at(ts, "subtitleDecision") {
        Some(d) => same(d, "transcode"),
        None => false,
    };
    if subtitles {
        parts.push(owned("subtitles burned in or converted"));
    }
    assert(texts(parts@) =~= streams + (if subtitles {
        seq!["subtitles burned in or converted"@]
    } else {
        Seq::empty()
    }));
    assert(streams =~= stream_reason(
        ts@,
        "video"@,
        "videoDecision"@,
        "sourceVideoCodec"@,
        "videoCodec"@,
    ) + stream_reason(ts@, "audio"@, "audioDecision"@, "sourceAudioCodec"@, "audioCodec"@));
    if parts.len() == 0 {
        let container = match str_at(ts, "protocol") {
            Some(p) => p,
            None => "a different container",
        };
        parts.push(cat2("remuxed to ", container));
    }
    assert(texts(parts@) =~= derived_reasons(ts@));
    Some(join(&parts, "; "))
}

/// A reason is given exactly where the session is not played directly and carries a transcode block
/// that is an object.
pub proof fn reason_given_iff_transcode_block(item: JsonView)
    ensures
        reason_of(item, decision_of(item)) is Some <==> decision_of(item)
            != PlaybackDecision::DirectPlay && item.field("TranscodeSession"@) is Some && item.at(
            "TranscodeSession"@,
        ) is Object,
{
}

/// With a transcode block, a session is never called direct play.
pub proof fn transcode_block_rules_out_direct_play(item: JsonView)
    ensures
        transcode_block(item) is Some ==> decision_of(item) != PlaybackDecision::DirectPlay,
{
}

/// A text, or a stand-in where there is none.
pub open spec fn text_or(s: Option<Seq<char>>, stand_in: Seq<char>) -> Seq<char> {
    match s {
        Some(x) => x,
        None => stand_in,
    }
}

/// A display title: the show, the episode's place in it and its title, or a title and its year.
pub open spec fn full_title_view(item: JsonView) -> Seq<char> {
    let title = text_or(clean_text(item, "title"@), "Unknown"@);
    if clean_text(item, "type"@) == Some("episode"@) {
        let show = text_or(clean_text(item, "grandparentTitle"@), "Unknown show"@);
        match (number_at(item, "parentIndex"@), number_at(item, "index"@)) {
            (Some(s), Some(e)) => show + " - S"@ + dec2(s) + "E"@ + dec2(e) + " - "@ + title,
            _ => show + " - "@ + title,
        }
    } else {
        match number_at(item, "year"@) {
            Some(y) => title + " ("@ + dec(y) + ")"@,
            None => title,
        }
    }
}

/// Writes the display title as [`full_title_view`] says.
pub fn full_title(item: &Json) -> (r: String)
    ensures
        r@ == full_title_view(item@),
{
    let title = match str_at(item, "title") {
        Some(t) => t,
        None => "Unknown",
    };
    let episode = match str_at(item, "type") {
        Some(t) => same(t, "episode"),
        None => false,
    };
    if episode {
        let show = match str_at(item, "grandparentTitle") {
            Some(t) => t,
            None => "Unknown show",
        };
        return match (num_at(item, "parentIndex"), num_at(item, "index")) {
            (Some(s), Some(e)) => {
                let season = fmt_int2(s as i128);
                let number = fmt_int2(e as i128);
                let head = cat5(show, " - S", season.as_str(), "E", number.as_str());
                cat3(head.as_str(), " - ", title)
            },
            _ => cat3(show, " - ", title),
        };
    }
    match num_at(item, "year") {
        Some(y) => {
            let shown = fmt_int(y as i128);
            cat4(title, " (", shown.as_str(), ")")
        },
        None => owned(title),
    }
}

/// The user's id: its JSON text without the quotes around it.
pub open spec fn user_id_view(user: JsonView) -> JsonView {
    match user.field("id"@) {
        Some(id) => JsonView::Str(
            without_trailing(without_leading(rendered(id), '"'), '"'),
        ),
        None => JsonView::Null,
    }
}

fn user_id(user: &Json) -> (r: Json)
    ensures
        r@ == user_id_view(user@),
{
    match user.get("id") {
        Some(id) => {
            let shown = render(id);
            Json::text(strip_trailing(strip_leading(shown.as_str(), '"'), '"'))
        },
        None => Json::Null,
    }
}

/// How far in the session is, in milliseconds; the start where nothing is stated.
pub open spec fn progress_of(item: JsonView) -> int {
    match measure_at(item, "viewOffset"@) {
        Some(n) => n,
        None => 0,
    }
}

/// How far in the session is, and how long it is, where its length is known and positive.
pub open spec fn ratio_of(item: JsonView) -> Option<(int, int)> {
    match measure_at(item, "duration"@) {
        Some(d) => if d > 0 {
            Some((progress_of(item), d))
        } else {
            None
        },
        None => None,
    }
}

/// How far in the session is, and how long it is: what a progress percentage is computed from.
pub fn progress_ratio(item: &Json) -> (r: Option<(i64, i64)>)
    ensures
        match r {
            Some((at, length)) => ratio_of(item@) == Some((at as int, length as int)),
            None => ratio_of(item@) is None,
        },
{
    let at: i64 = match quantity_at(item, "viewOffset") {
        Some(n) => n,
        None => 0,
    };
    match quantity_at(item, "duration") {
        Some(length) => {
            if length > 0 {
                Some((at, length))
            } else {
                None
            }
        },
        None => None,
    }
}

/// The progress percentage, which a session without a positive length does not have.
pub open spec fn percent_view(item: JsonView, percent: Option<Seq<char>>) -> JsonView {
    match (ratio_of(item), percent) {
        (Some(_), Some(p)) => JsonView::Float(p),
        _ => JsonView::Null,
    }
}

/// One session as a flat object: who, what, where and how. `percent` is the progress percentage
/// computed from [`ratio_of`].
pub open spec fn session_view(item: JsonView, percent: Option<Seq<char>>) -> JsonView {
    let user = item.at("User"@);
    let player = item.at("Player"@);
    let session = item.at("Session"@);
    let ts = item.at("TranscodeSession"@);
    let media = match first_at(item, "Media"@) {
        Some(m) => m,
        None => JsonView::Null,
    };
    JsonView::Object(
        no_fields()
            .push(("session_key"@, text_or_null(clean_text(item, "sessionKey"@))))
            .push(("media_type"@, text_or_null(clean_text(item, "type"@))))
            .push(("title"@, text_or_null(clean_text(item, "title"@))))
            .push(("show_title"@, text_or_null(clean_text(item, "grandparentTitle"@))))
            .push(("season"@, int_or_null(number_at(item, "parentIndex"@))))
            .push(("episode"@, int_or_null(number_at(item, "index"@))))
            .push(("year"@, int_or_null(number_at(item, "year"@))))
            .push(("full_title"@, JsonView::Str(full_title_view(item))))
            .push(("library_section"@, text_or_null(clean_text(item, "librarySectionTitle"@))))
            .push(("user"@, text_or_null(clean_text(user, "title"@))))
            .push(("user_id"@, user_id_view(user)))
            .push(("player"@, text_or_null(clean_text(player, "title"@))))
            .push(("player_product"@, text_or_null(clean_text(player, "product"@))))
            .push(("player_platform"@, text_or_null(clean_text(player, "platform"@))))
            .push(("player_state"@, text_or_null(clean_text(player, "state"@))))
            .push(("player_local"@, bool_or_null(flag_at(player, "local"@))))
            .push(("progress_ms"@, JsonView::Int(progress_of(item))))
            .push(("duration_ms"@, int_or_null(measure_at(item, "duration"@))))
            .push(("progress_percent"@, percent_view(item, percent)))
            .push(("decision"@, JsonView::Str(decision_of(item).name_view())))
            .push(("video_decision"@, text_or_null(clean_text(ts, "videoDecision"@))))
            .push(("audio_decision"@, text_or_null(clean_text(ts, "audioDecision"@))))
            .push(("subtitle_decision"@, text_or_null(clean_text(ts, "subtitleDecision"@))))
            .push(("transcode_reason"@, text_or_null(reason_of(item, decision_of(item)))))
            .push(("transcode_progress_percent"@, float_at_view(ts, "progress"@)))
            .push(("transcode_throttled"@, bool_or_null(flag_at(ts, "throttled"@))))
            .push(("transcode_hw"@, bool_or_null(flag_at(ts, "transcodeHwRequested"@))))
            .push(("bandwidth_kbps"@, int_or_null(measure_at(session, "bandwidth"@))))
            .push(("stream_location"@, text_or_null(clean_text(session, "location"@))))
            .push(("container"@, text_or_null(clean_text(media, "container"@))))
            .push(("video_resolution"@, text_or_null(clean_text(media, "videoResolution"@)))),
    )
}

/// Flattens one session as [`session_view`] says.
pub fn session_json(item: &Json, percent: Option<&str>) -> (r: Json)
    ensures
        r@ == session_view(item@, opt_str(percent)),
{
    let decision = decide(item);
    let user = item.copy_at("User");
    let player = item.copy_at("Player");
    let session = item.copy_at("Session");
    let ts = item.copy_at("TranscodeSession");
    let media = match first_of(item, "Media") {
        Some(m) => m.copy(),
        None => Json::Null,
    };
    let duration_ms = quantity_at(item, "duration");
    let progress_ms: i64 = match quantity_at(item, "viewOffset") {
        Some(n) => n,
        None => 0,
    };
    let shown_percent = match (progress_ratio(item), percent) {
        (Some(_), Some(p)) => Json::Float(owned(p)),
        _ => Json::Null,
    };
    let reason = match transcode_reason(item, decision) {
        Some(text) => Json::Str(text),
        None => Json::Null,
    };
    let mut f = Fields::new();
    f.put("session_key", Json::opt_text(str_at(item, "sessionKey")));
    f.put("media_type", Json::opt_text(str_at(item, "type")));
    f.put("title", Json::opt_text(str_at(item, "title")));
    f.put("show_title", Json::opt_text(str_at(item, "grandparentTitle")));
    f.put("season", Json::opt_integer(num_at(item, "parentIndex")));
    f.put("episode", Json::opt_integer(num_at(item, "index")));
    f.put("year", Json::opt_integer(num_at(item, "year")));
    f.put("full_title", Json::Str(full_title(item)));
    f.put("library_section", Json::opt_text(str_at(item, "librarySectionTitle")));
    f.put("user", Json::opt_text(str_at(&user, "title")));
    f.put("user_id", user_id(&user));
    f.put("player", Json::opt_text(str_at(&player, "title")));
    f.put("player_product", Json::opt_text(str_at(&player, "product")));
    f.put("player_platform", Json::opt_text(str_at(&player, "platform")));
    f.put("player_state", Json::opt_text(str_at(&player, "state")));
    f.put("player_local", Json::opt_bool(bool_at(&player, "local")));
    f.put("progress_ms", Json::integer(progress_ms));
    f.put("duration_ms", Json::opt_integer(duration_ms));
    f.put("progress_percent", shown_percent);
    f.put("decision", Json::text(decision.as_str()));
    f.put("video_decision", Json::opt_text(str_at(&ts, "videoDecision")));
    f.put("audio_decision", Json::opt_text(str_at(&ts, "audioDecision")));
    f.put("subtitle_decision", Json::opt_text(str_at(&ts, "subtitleDecision")));
    f.put("transcode_reason", reason);
    f.put("transcode_progress_percent", float_at(&ts, "progress"));
    f.put("transcode_throttled", Json::opt_bool(bool_at(&ts, "throttled")));
    f.put("transcode_hw", Json::opt_bool(bool_at(&ts, "transcodeHwRequested")));
    f.put("bandwidth_kbps", Json::opt_integer(quantity_at(&session, "bandwidth")));
    f.put("stream_location", Json::opt_text(str_at(&session, "location")));
    f.put("container", Json::opt_text(str_at(&media, "container")));
    f.put("video_resolution", Json::opt_text(str_at(&media, "videoResolution")));
    f.object()
}

/// Whether two entries agree on every key that a session is made from but the player.
spec fn same_beside_player(a: JsonView, b: JsonView) -> bool {
    &&& a.field("sessionKey"@) == b.field("sessionKey"@)
    &&& a.field("type"@) == b.field("type"@)
    &&& a.field("title"@) == b.field("title"@)
    &&& a.field("grandparentTitle"@) == b.field("grandparentTitle"@)
    &&& a.field("parentIndex"@) == b.field("parentIndex"@)
    &&& a.field("index"@) == b.field("index"@)
    &&& a.field("year"@) == b.field("year"@)
    &&& a.field("librarySectionTitle"@) == b.field("librarySectionTitle"@)
    &&& a.field("User"@) == b.field("User"@)
    &&& a.field("Session"@) == b.field("Session"@)
    &&& a.field("TranscodeSession"@) == b.field("TranscodeSession"@)
    &&& a.field("Media"@) == b.field("Media"@)
    &&& a.field("duration"@) == b.field("duration"@)
    &&& a.field("viewOffset"@) == b.field("viewOffset"@)
}

proof fn lemma_keys_beside_player(a: JsonView, b: JsonView)
    requires
        forall|key: Seq<char>| key != "Player"@ ==> #[trigger] a.field(key) == b.field(key),
    ensures
        same_beside_player(a, b),
{
    reveal_strlit("sessionKey");
    reveal_strlit("type");
    reveal_strlit("title");
    reveal_strlit("grandparentTitle");
    reveal_strlit("parentIndex");
    reveal_strlit("index");
    reveal_strlit("year");
    reveal_strlit("librarySectionTitle");
    reveal_strlit("User");
    reveal_strlit("Session");
    reveal_strlit("TranscodeSession");
    reveal_strlit("Media");
    reveal_strlit("duration");
    reveal_strlit("viewOffset");
    reveal_strlit("Player");
    assert("sessionKey"@.len() == 10);
    assert("type"@.len() == 4);
    assert("title"@.len() == 5);
    assert("grandparentTitle"@.len() == 16);
    assert("parentIndex"@.len() == 11);
    assert("index"@.len() == 5);
    assert("year"@.len() == 4);
    assert("librarySectionTitle"@.len() == 19);
    assert("User"@.len() == 4);
    assert("Session"@.len() == 7);
    assert("TranscodeSession"@.len() == 16);
    assert("Media"@.len() == 5);
    assert("duration"@.len() == 8);
    assert("viewOffset"@.len() == 10);
    assert("Player"@.len() == 6);
}

/// What is read out of a field depends on that field alone.
proof fn lemma_reads_of_a_field(a: JsonView, b: JsonView, key: Seq<char>)
    requires
        a.field(key) == b.field(key),
    ensures
        a.at(key) == b.at(key),
        clean_text(a, key) == clean_text(b, key),
        number_at(a, key) == number_at(b, key),
        measure_at(a, key) == measure_at(b, key),
        first_at(a, key) == first_at(b, key),
{
}

proof fn lemma_same_decision(a: JsonView, b: JsonView)
    requires
        a.field("TranscodeSession"@) == b.field("TranscodeSession"@),
        first_at(a, "Media"@) == first_at(b, "Media"@),
    ensures
        decision_of(a) == decision_of(b),
        reason_of(a, decision_of(a)) == reason_of(b, decision_of(b)),
{
    assert(transcode_block(a) == transcode_block(b));
    assert(stated_decision(a) == stated_decision(b));
}

proof fn lemma_same_title(a: JsonView, b: JsonView)
    requires
        clean_text(a, "type"@) == clean_text(b, "type"@),
        clean_text(a, "title"@) == clean_text(b, "title"@),
        clean_text(a, "grandparentTitle"@) == clean_text(b, "grandparentTitle"@),
        number_at(a, "parentIndex"@) == number_at(b, "parentIndex"@),
        number_at(a, "index"@) == number_at(b, "index"@),
        number_at(a, "year"@) == number_at(b, "year"@),
    ensures
        full_title_view(a) == full_title_view(b),
{
}

proof fn lemma_session_beside_player(a: JsonView, b: JsonView)
    requires
        same_beside_player(a, b),
    ensures
        decision_of(a) == decision_of(b),
        reason_of(a, decision_of(a)) == reason_of(b, decision_of(b)),
        full_title_view(a) == full_title_view(b),
        ratio_of(a) == ratio_of(b),
        progress_of(a) == progress_of(b),
        first_at(a, "Media"@) == first_at(b, "Media"@),
        measure_at(a, "duration"@) == measure_at(b, "duration"@),
        number_at(a, "parentIndex"@) == number_at(b, "parentIndex"@),
        number_at(a, "index"@) == number_at(b, "index"@),
        number_at(a, "year"@) == number_at(b, "year"@),
        clean_text(a, "sessionKey"@) == clean_text(b, "sessionKey"@),
        clean_text(a, "type"@) == clean_text(b, "type"@),
        clean_text(a, "title"@) == clean_text(b, "title"@),
        clean_text(a, "grandparentTitle"@) == clean_text(b, "grandparentTitle"@),
        clean_text(a, "librarySectionTitle"@) == clean_text(b, "librarySectionTitle"@),
        a.at("User"@) == b.at("User"@),
        a.at("Session"@) == b.at("Session"@),
        a.at("TranscodeSession"@) == b.at("TranscodeSession"@),
{
    lemma_reads_of_a_field(a, b, "sessionKey"@);
    lemma_reads_of_a_field(a, b, "type"@);
    lemma_reads_of_a_field(a, b, "title"@);
    lemma_reads_of_a_field(a, b, "grandparentTitle"@);
    lemma_reads_of_a_field(a, b, "parentIndex"@);
    lemma_reads_of_a_field(a, b, "index"@);
    lemma_reads_of_a_field(a, b, "year"@);
    lemma_reads_of_a_field(a, b, "librarySectionTitle"@);
    lemma_reads_of_a_field(a, b, "User"@);
    lemma_reads_of_a_field(a, b, "Session"@);
    lemma_reads_of_a_field(a, b, "TranscodeSession"@);
    lemma_reads_of_a_field(a, b, "Media"@);
    lemma_reads_of_a_field(a, b, "duration"@);
    lemma_reads_of_a_field(a, b, "viewOffset"@);
    lemma_same_decision(a, b);
    lemma_same_title(a, b);
}

/// Of a player, only its title, product, platform, state and whether it is local reach the payload:
/// two sessions that differ in nothing else of their players, such as an address, look the same.
pub proof fn player_addresses_never_surface(a: JsonView, b: JsonView, percent: Option<Seq<char>>)
    requires
        forall|key: Seq<char>| key != "Player"@ ==> #[trigger] a.field(key) == b.field(key),
        clean_text(a.at("Player"@), "title"@) == clean_text(b.at("Player"@), "title"@),
        clean_text(a.at("Player"@), "product"@) == clean_text(b.at("Player"@), "product"@),
        clean_text(a.at("Player"@), "platform"@) == clean_text(b.at("Player"@), "platform"@),
        clean_text(a.at("Player"@), "state"@) == clean_text(b.at("Player"@), "state"@),
        flag_at(a.at("Player"@), "local"@) == flag_at(b.at("Player"@), "local"@),
    ensures
        session_view(a, percent) == session_view(b, percent),
{
    lemma_keys_beside_player(a, b);
    lemma_session_beside_player(a, b);
    assert(percent_view(a, percent) == percent_view(b, percent));
}

/// The server's version and identifiers.
pub open spec fn server_view(raw: JsonView) -> JsonView {
    let mc = raw.at("MediaContainer"@);
    JsonView::Object(
        no_fields()
            .push(("version"@, text_or_null(clean_text(mc, "version"@))))
            .push(("api_version"@, text_or_null(clean_text(mc, "apiVersion"@))))
            .push(("machine_identifier"@, text_or_null(clean_text(mc, "machineIdentifier"@)))),
    )
}

/// Reduces an identity answer as [`server_view`] says.
pub fn server_json(raw: &Json) -> (r: Json)
    ensures
        r@ == server_view(raw@),
{
    let mc = raw.copy_at("MediaContainer");
    let mut f = Fields::new();
    f.put("version", Json::opt_text(str_at(&mc, "version")));
    f.put("api_version", Json::opt_text(str_at(&mc, "apiVersion")));
    f.put("machine_identifier", Json::opt_text(str_at(&mc, "machineIdentifier")));
    f.object()
}

// ── the answer ──────────────────────────────────────────────────────────────

/// Whether a status stands for an answer of Plex.
pub open spec fn ok_status(status: Seq<char>) -> bool {
    status == "playing"@ || status == "idle"@
}

/// A payload: the status, whether it is an answer, a message, and what else the status carries.
pub open spec fn payload(
    status: Seq<char>,
    message: Seq<char>,
    extra: Seq<(Seq<char>, JsonView)>,
) -> JsonView {
    JsonView::Object(
        no_fields()
            .push(("status"@, JsonView::Str(status)))
            .push(("ok"@, JsonView::Bool(ok_status(status))))
            .push(("message"@, JsonView::Str(message))) + extra,
    )
}

/// Builds a payload.
pub fn build_response(status: &str, message: &str, extra: Fields) -> (r: Json)
    ensures
        r@ == payload(status@, message@, extra@),
{
    let mut f = Fields::new();
    f.put("status", Json::text(status));
    f.put("ok", Json::Bool(same(status, "playing") || same(status, "idle")));
    f.put("message", Json::text(message));
    f.append(extra);
    f.object()
}

/// The refusal, which depends on nothing.
pub open spec fn forbidden_view() -> JsonView {
    payload(
        "forbidden"@,
        "Live viewing activity is private to the household operator; this caller is not entitled to it."@,
        Seq::empty(),
    )
}

/// Builds the refusal.
pub fn forbidden_response() -> (r: Json)
    ensures
        r@ == forbidden_view(),
{
    build_response(
        "forbidden",
        "Live viewing activity is private to the household operator; this caller is not entitled to it.",
        Fields::new(),
    )
}

/// The answer where no server is configured.
pub open spec fn not_configured_view() -> JsonView {
    payload(
        "not_configured"@,
        "Plex is not configured here (PLEX_URL / PLEX_TOKEN are unset)."@,
        Seq::empty(),
    )
}

fn not_configured_response() -> (r: Json)
    ensures
        r@ == not_configured_view(),
{
    build_response(
        "not_configured",
        "Plex is not configured here (PLEX_URL / PLEX_TOKEN are unset).",
        Fields::new(),
    )
}

/// The bandwidth that one session states.
pub open spec fn stated_bandwidth(session: JsonView) -> Option<int> {
    session.int_at("bandwidth_kbps"@)
}

/// The sum of the stated bandwidths.
pub open spec fn bandwidth_sum(sessions: Seq<JsonView>) -> int
    decreases sessions.len(),
{
    if sessions.len() == 0 {
        0
    } else {
        bandwidth_sum(sessions.drop_last()) + (match stated_bandwidth(sessions.last()) {
            Some(n) => n,
            None => 0,
        })
    }
}

/// `n` in 64 signed bits, wrapping around where it does not fit.
pub open spec fn wrap64(n: int) -> int {
    (n + 0x8000_0000_0000_0000) % 0x1_0000_0000_0000_0000 - 0x8000_0000_0000_0000
}

/// The total bandwidth, where any session states one.
pub open spec fn total_bandwidth(sessions: Seq<JsonView>) -> Option<int> {
    if exists|i: int|
        0 <= i < sessions.len() && stated_bandwidth(#[trigger] sessions[i]) is Some {
        Some(wrap64(bandwidth_sum(sessions)))
    } else {
        None
    }
}

fn sum_bandwidth(sessions: &Vec<Json>) -> (r: Option<i64>)
    ensures
        opt_int(r) == total_bandwidth(jsons(sessions@)),
{
    let ghost view = jsons(sessions@);
    let mut acc: i128 = 0;
    let mut any = false;
    let mut i: usize = 0;
    assert(view.take(0) =~= Seq::<JsonView>::empty());
    while i < sessions.len()
        invariant
            i <= sessions.len(),
            view == jsons(sessions@),
            i64::MIN <= acc <= i64::MAX,
            acc == wrap64(bandwidth_sum(view.take(i as int))),
            any == exists|k: int| 0 <= k < i && stated_bandwidth(#[trigger] view[k]) is Some,
        decreases sessions.len() - i,
    {
        let ghost next = view.take(i + 1);
        assert(next.drop_last() =~= view.take(i as int));
        assert(next.last() == view[i as int]);
        assert(view[i as int] == sessions@[i as int]@);
        if let Some(n) = sessions[i].int_at("bandwidth_kbps") {
            any = true;
            let sum: i128 = acc + n as i128;
            acc = if sum > 0x7fff_ffff_ffff_ffff {
                sum - 0x1_0000_0000_0000_0000
            } else if sum < -0x8000_0000_0000_0000 {
                sum + 0x1_0000_0000_0000_0000
            } else {
                sum
            };
        }
        i += 1;
    }
    assert(view.take(view.len() as int) =~= view);
    if any {
        Some(acc as i64)
    } else {
        None
    }
}

/// The answer of a server that could be read: nobody is watching, or these sessions.
pub open spec fn ok_view(sessions: Seq<JsonView>, server: Option<JsonView>) -> JsonView {
    payload(
        if sessions.len() == 0 {
            "idle"@
        } else {
            "playing"@
        },
        if sessions.len() == 0 {
            "Plex answered: nothing is playing right now."@
        } else {
            dec(sessions.len() as int) + " stream(s) playing right now."@
        },
        no_fields()
            .push(("session_count"@, JsonView::Int(sessions.len() as int)))
            .push(("total_bandwidth_kbps"@, int_or_null(total_bandwidth(sessions))))
            .push(("sessions"@, JsonView::Array(sessions)))
            .push((
                "server"@,
                match server {
                    Some(v) => v,
                    None => JsonView::Null,
                },
            )),
    )
}

/// Builds the answer of a server that could be read.
pub fn ok_response(sessions: Vec<Json>, server: Option<Json>) -> (r: Json)
    ensures
        r@ == ok_view(jsons(sessions@), opt_json_owned(server)),
{
    let total = sum_bandwidth(&sessions);
    let count = sessions.len();
    let mut extra = Fields::new();
    extra.put("session_count", Json::uint(count as u64));
    extra.put("total_bandwidth_kbps", Json::opt_integer(total));
    extra.put("sessions", Json::array(sessions));
    extra.put(
        "server",
        match server {
            Some(v) => v,
            None => Json::Null,
        },
    );
    if count == 0 {
        build_response("idle", "Plex answered: nothing is playing right now.", extra)
    } else {
        let n = fmt_nat(count as u128);
        let message = cat2(n.as_str(), " stream(s) playing right now.");
        build_response("playing", message.as_str(), extra)
    }
}

/// What is said of a read that failed.
pub open spec fn failure_message(err: LiveErrorView) -> Seq<char> {
    match err {
        LiveErrorView::Unreachable(_) => "Could not reach Plex, so what is playing is UNKNOWN - this is not the same as nothing playing."@,
        LiveErrorView::TokenRejected(_) => "Plex is up but rejected the configured token, so live activity could not be read."@,
        LiveErrorView::Malformed(_) => "Plex answered with something this client could not read, so live activity is unknown."@,
    }
}

/// The answer where the read failed.
pub open spec fn error_view(err: LiveErrorView) -> JsonView {
    payload(
        err.kind(),
        failure_message(err),
        no_fields().push(("detail"@, JsonView::Str(err.detail()))),
    )
}

/// Builds the answer where the read failed.
pub fn error_response(err: &PlexSessionsError) -> (r: Json)
    ensures
        r@ == error_view(err@),
{
    let message = match err {
        PlexSessionsError::Unreachable(_) => "Could not reach Plex, so what is playing is UNKNOWN - this is not the same as nothing playing.",
        PlexSessionsError::TokenRejected(_) => "Plex is up but rejected the configured token, so live activity could not be read.",
        PlexSessionsError::Malformed(_) => "Plex answered with something this client could not read, so live activity is unknown.",
    };
    let mut extra = Fields::new();
    extra.put("detail", Json::text(err.detail()));
    build_response(err.kind(), message, extra)
}

proof fn lemma_payload_keys()
    ensures
        "status"@ != "ok"@,
        "status"@ != "message"@,
        "ok"@ != "message"@,
        "session_count"@ != "status"@,
        "session_count"@ != "ok"@,
        "session_count"@ != "message"@,
        "session_count"@ != "detail"@,
        "session_count"@ != "total_bandwidth_kbps"@,
        "session_count"@ != "sessions"@,
        "session_count"@ != "server"@,
        "sessions"@ != "status"@,
        "sessions"@ != "ok"@,
        "sessions"@ != "message"@,
        "sessions"@ != "detail"@,
        "sessions"@ != "server"@,
        "sessions"@ != "total_bandwidth_kbps"@,
        "status"@ != "detail"@,
        "status"@ != "total_bandwidth_kbps"@,
        "status"@ != "server"@,
        "ok"@ != "detail"@,
        "ok"@ != "total_bandwidth_kbps"@,
        "ok"@ != "server"@,
{
    reveal_strlit("status");
    reveal_strlit("ok");
    reveal_strlit("message");
    reveal_strlit("session_count");
    reveal_strlit("total_bandwidth_kbps");
    reveal_strlit("sessions");
    reveal_strlit("server");
    reveal_strlit("detail");
    assert("status"@[1] == 't');
    assert("detail"@[0] == 'd');
    assert("server"@[1] == 'e');
    assert("status"@.len() == 6);
    assert("ok"@.len() == 2);
    assert("message"@.len() == 7);
    assert("session_count"@.len() == 13);
    assert("total_bandwidth_kbps"@.len() == 20);
    assert("sessions"@.len() == 8);
    assert("server"@.len() == 6);
    assert("detail"@.len() == 6);
}

proof fn lemma_statuses()
    ensures
        "playing"@ != "idle"@,
        !ok_status("forbidden"@),
        !ok_status("not_configured"@),
        !ok_status("unreachable"@),
        !ok_status("unauthorized"@),
        !ok_status("malformed"@),
{
    reveal_strlit("playing");
    reveal_strlit("idle");
    reveal_strlit("forbidden");
    reveal_strlit("not_configured");
    reveal_strlit("unreachable");
    reveal_strlit("unauthorized");
    reveal_strlit("malformed");
    assert("playing"@.len() == 7);
    assert("idle"@.len() == 4);
    assert("forbidden"@.len() == 9);
    assert("not_configured"@.len() == 14);
    assert("unreachable"@.len() == 11);
    assert("unauthorized"@.len() == 12);
    assert("malformed"@.len() == 9);
}

/// Whether a payload tells how many sessions there are, or which.
pub open spec fn tells_occupancy(p: JsonView) -> bool {
    p.field("session_count"@) is Some || p.field("sessions"@) is Some
}

/// A refusal, a missing configuration and a failed read are not answers and tell nothing about who
/// is watching, not even a count.
pub proof fn non_answers_tell_no_occupancy(err: LiveErrorView)
    ensures
        !tells_occupancy(forbidden_view()),
        forbidden_view().bool_at("ok"@) == Some(false),
        !tells_occupancy(not_configured_view()),
        not_configured_view().bool_at("ok"@) == Some(false),
        !tells_occupancy(error_view(err)),
        error_view(err).bool_at("ok"@) == Some(false),
        error_view(err).text_at("status"@) == Some(err.kind()),
{
    broadcast use crate::json::lemma_lookup_push;

    lemma_payload_keys();
    lemma_statuses();
    let base = |status: Seq<char>, message: Seq<char>|
        no_fields().push(("status"@, JsonView::Str(status))).push(
            ("ok"@, JsonView::Bool(ok_status(status))),
        ).push(("message"@, JsonView::Str(message)));
    let refusal = base(
        "forbidden"@,
        "Live viewing activity is private to the household operator; this caller is not entitled to it."@,
    );
    let unset = base(
        "not_configured"@,
        "Plex is not configured here (PLEX_URL / PLEX_TOKEN are unset)."@,
    );
    let failed = base(err.kind(), failure_message(err));
    let detail = no_fields().push(("detail"@, JsonView::Str(err.detail())));
    assert forall|key: Seq<char>| #[trigger]
        lookup(refusal + Seq::empty(), key) == lookup(refusal, key) by {
        crate::json::lemma_lookup_append(refusal, Seq::empty(), key);
    }
    assert forall|key: Seq<char>| #[trigger]
        lookup(unset + Seq::empty(), key) == lookup(unset, key) by {
        crate::json::lemma_lookup_append(unset, Seq::empty(), key);
    }
    crate::json::lemma_lookup_append(failed, detail, "session_count"@);
    crate::json::lemma_lookup_append(failed, detail, "sessions"@);
    crate::json::lemma_lookup_append(failed, detail, "ok"@);
    crate::json::lemma_lookup_append(failed, detail, "status"@);
}

/// A server that could be read is always answered for: the count is given, it is the number of
/// sessions, and the status is `idle` exactly where there are none.
pub proof fn answers_tell_the_count(sessions: Seq<JsonView>, server: Option<JsonView>)
    ensures
        ok_view(sessions, server).bool_at("ok"@) == Some(true),
        ok_view(sessions, server).at("session_count"@) == JsonView::Int(sessions.len() as int),
        ok_view(sessions, server).at("sessions"@) == JsonView::Array(sessions),
        ok_view(sessions, server).text_at("status"@) == Some("idle"@) <==> sessions.len() == 0,
        ok_view(sessions, server).text_at("status"@) == Some("playing"@) <==> sessions.len() > 0,
{
    broadcast use crate::json::lemma_lookup_push;

    lemma_payload_keys();
    lemma_statuses();
    let status = if sessions.len() == 0 {
        "idle"@
    } else {
        "playing"@
    };
    let message = if sessions.len() == 0 {
        "Plex answered: nothing is playing right now."@
    } else {
        dec(sessions.len() as int) + " stream(s) playing right now."@
    };
    let base = no_fields().push(("status"@, JsonView::Str(status))).push(
        ("ok"@, JsonView::Bool(ok_status(status))),
    ).push(("message"@, JsonView::Str(message)));
    let more = no_fields().push(("session_count"@, JsonView::Int(sessions.len() as int))).push(
        ("total_bandwidth_kbps"@, int_or_null(total_bandwidth(sessions))),
    ).push(("sessions"@, JsonView::Array(sessions))).push(
        (
            "server"@,
            match server {
                Some(v) => v,
                None => JsonView::Null,
            },
        ),
    );
    crate::json::lemma_lookup_append(base, more, "session_count"@);
    crate::json::lemma_lookup_append(base, more, "sessions"@);
    crate::json::lemma_lookup_append(base, more, "ok"@);
    crate::json::lemma_lookup_append(base, more, "status"@);
}

// ── the tool ────────────────────────────────────────────────────────────────

/// The live-activity tool and the server it asks.
#[derive(Debug)]
pub struct MediaNowPlaying {
    source: Option<PlexClient>,
}

/// What the tool does next.
#[derive(Debug)]
pub enum NowPlayingStep {
    /// The answer is ready.
    Done(Json),
    /// Ask the server for its sessions.
    AskSessions(HttpRequest),
}

impl MediaNowPlaying {
    /// The server that is asked, where one is configured.
    pub closed spec fn server(&self) -> Option<PlexClient> {
        self.source
    }

    /// The tool for the values of `PLEX_URL` and `PLEX_TOKEN`.
    pub fn from_env(plex_url: Option<&str>, plex_token: Option<&str>) -> (r: MediaNowPlaying)
        ensures
            match settings_pair(
                "PLEX_URL"@,
                opt_str(plex_url),
                "PLEX_TOKEN"@,
                opt_str(plex_token),
            ) {
                Ok(p) => r.server() matches Some(c) && c.base() == p.0 && c.secret() == p.1,
                Err(_) => r.server() is None,
            },
    {
        match PlexClient::from_env(plex_url, plex_token) {
            Ok(c) => MediaNowPlaying { source: Some(c) },
            Err(_) => MediaNowPlaying { source: None },
        }
    }

    /// The tool that asks this server.
    pub fn with_source(source: PlexClient) -> (r: MediaNowPlaying)
        ensures
            r.server() == Some(source),
    {
        MediaNowPlaying { source: Some(source) }
    }

    /// The first step. The entitlement gate stands first: a caller who does not pass it is refused
    /// before it matters whether a server is configured, and nothing is asked.
    pub fn begin(&self, caller: CallerContext) -> (r: NowPlayingStep)
        ensures
            match r {
                NowPlayingStep::Done(answer) => if !entitled(caller) {
                    answer@ == forbidden_view()
                } else {
                    self.server() is None && answer@ == not_configured_view()
                },
                NowPlayingStep::AskSessions(request) => {
                    &&& entitled(caller)
                    &&& self.server() matches Some(c)
                    &&& request@ == c.read_view("/status/sessions"@)
                },
            },
    {
        if !may_see_now_playing(caller) {
            return NowPlayingStep::Done(forbidden_response());
        }
        match &self.source {
            None => NowPlayingStep::Done(not_configured_response()),
            Some(c) => NowPlayingStep::AskSessions(c.sessions()),
        }
    }

    /// The best-effort question about the server itself, once its sessions are known.
    pub fn ask_identity(&self) -> (r: Option<HttpRequest>)
        ensures
            match r {
                Some(request) => self.server() matches Some(c) && request@ == c.read_view(
                    "/identity"@,
                ),
                None => self.server() is None,
            },
    {
        match &self.source {
            None => None,
            Some(c) => Some(c.identity()),
        }
    }

    /// The sessions in the reply to the first question, or the answer that says why there are none
    /// to show.
    pub fn on_sessions(reply: &HttpReply) -> (r: Result<Vec<Json>, Json>)
        ensures
            match r {
                Ok(items) => sessions_in(reply@) == Ok::<Seq<JsonView>, LiveErrorView>(
                    jsons(items@),
                ),
                Err(answer) => sessions_in(reply@) matches Err(e) && answer@ == error_view(e),
            },
    {
        reveal(sessions_in);
        on_session_read(map_live_reply(reply))
    }

    /// What the caller is shown: the message as text, the payload as structured content.
    pub fn present(answer: Json) -> (r: ToolOutput)
        ensures
            r.text@ == text_or(answer@.text_at("message"@), ""@),
            opt_json_owned(r.structured) == Some(answer@),
    {
        let text = match answer.str_at("message") {
            Some(m) => owned(m),
            None => owned(""),
        };
        ToolOutput { text, structured: Some(answer) }
    }
}

/// The sessions of a live read: a body that cannot be read is a failure of its own kind, never an
/// empty list.
pub open spec fn readable_sessions(read: Result<JsonView, LiveErrorView>) -> Result<
    Seq<JsonView>,
    LiveErrorView,
> {
    match read {
        Ok(raw) => match sessions_of(raw) {
            Ok(items) => Ok(items),
            Err(detail) => Err(LiveErrorView::Malformed(detail)),
        },
        Err(e) => Err(e),
    }
}

/// The sessions of a live read, or the answer that says why there are none to show.
pub fn on_session_read(read: Result<Json, PlexSessionsError>) -> (r: Result<Vec<Json>, Json>)
    ensures
        match r {
            Ok(items) => readable_sessions(live(read)) == Ok::<Seq<JsonView>, LiveErrorView>(
                jsons(items@),
            ),
            Err(answer) => readable_sessions(live(read)) matches Err(e) && answer@ == error_view(e),
        },
{
    match read {
        Ok(raw) => match session_items(&raw) {
            Ok(items) => Ok(items),
            Err(detail) => Err(error_response(&PlexSessionsError::Malformed(detail))),
        },
        Err(e) => Err(error_response(&e)),
    }
}

/// Where a call stands.
#[derive(Debug)]
pub enum NowPlayingRun {
    /// The answer is ready.
    Done(Json),
    /// Ask the server for its sessions.
    AskSessions(HttpRequest),
    /// Turn these ratios into percentages with one decimal and come back with them.
    Measure(Vec<Option<(i64, i64)>>),
    /// Ask the server about itself.
    AskIdentity(HttpRequest),
}

/// The content of a ratio.
pub open spec fn ratio_view(r: Option<(i64, i64)>) -> Option<(int, int)> {
    match r {
        Some((at, length)) => Some((at as int, length as int)),
        None => None,
    }
}

/// The content of a [`NowPlayingRun`].
pub enum NowPlayingView {
    Done(JsonView),
    AskSessions(RequestView),
    Measure(Seq<Option<(int, int)>>),
    AskIdentity(RequestView),
}

impl View for NowPlayingRun {
    type V = NowPlayingView;

    open spec fn view(&self) -> NowPlayingView {
        match *self {
            NowPlayingRun::Done(answer) => NowPlayingView::Done(answer@),
            NowPlayingRun::AskSessions(request) => NowPlayingView::AskSessions(request@),
            NowPlayingRun::Measure(ratios) => NowPlayingView::Measure(
                ratios@.map_values(|r: Option<(i64, i64)>| ratio_view(r)),
            ),
            NowPlayingRun::AskIdentity(request) => NowPlayingView::AskIdentity(request@),
        }
    }
}

/// What was heard on the way to an answer: the reply with the sessions, their percentages, and the
/// reply about the server.
#[derive(Debug)]
pub struct LiveHeard {
    pub sessions: Option<HttpReply>,
    pub percents: Vec<Option<String>>,
    pub identity: Option<HttpReply>,
}

/// The sessions of a reply with their percentages, flattened.
pub open spec fn measured(items: Seq<JsonView>, percents: Seq<Option<String>>) -> Seq<JsonView> {
    Seq::new(items.len(), |i: int| session_view(items[i], opt_text(percents[i])))
}

/// The sessions that a reply holds, or why it holds none that could be read.
#[verifier::opaque]
pub open spec fn sessions_in(reply: ReplyView) -> Result<Seq<JsonView>, LiveErrorView> {
    readable_sessions(live_reply_content(reply))
}

/// The ratios that the percentages of some sessions come from.
pub open spec fn ratios_of(items: Seq<JsonView>) -> Seq<Option<(int, int)>> {
    items.map_values(|item: JsonView| ratio_of(item))
}

/// What was learned of the server.
pub open spec fn learned_server(reply: ReplyView) -> Option<JsonView> {
    match live_reply_content(reply) {
        Ok(raw) => Some(server_view(raw)),
        Err(_) => None,
    }
}

/// The answer to a good read, with what could be learned of the server.
#[verifier::opaque]
pub open spec fn live_answer(
    items: Seq<JsonView>,
    percents: Seq<Option<String>>,
    identity: ReplyView,
) -> JsonView {
    ok_view(measured(items, percents), learned_server(identity))
}

impl MediaNowPlaying {
    /// Where a call stands once its caller has passed: the server is asked for its sessions, they
    /// are measured, and it is asked about itself, which never spoils a good answer.
    pub open spec fn live_view(&self, heard: LiveHeard) -> NowPlayingView {
        match self.server() {
            None => NowPlayingView::Done(not_configured_view()),
            Some(c) => match heard.sessions {
                None => NowPlayingView::AskSessions(c.read_view("/status/sessions"@)),
                Some(reply) => match sessions_in(reply@) {
                    Err(e) => NowPlayingView::Done(error_view(e)),
                    Ok(items) => if heard.percents@.len() != items.len() {
                        NowPlayingView::Measure(ratios_of(items))
                    } else {
                        match heard.identity {
                            None => NowPlayingView::AskIdentity(c.read_view("/identity"@)),
                            Some(identity) => NowPlayingView::Done(
                                live_answer(items, heard.percents@, identity@),
                            ),
                        }
                    },
                },
            },
        }
    }

    /// Where a call stands. A caller who is not entitled is refused before anything is asked.
    pub open spec fn run_view(&self, caller: CallerContext, heard: LiveHeard) -> NowPlayingView {
        if !entitled(caller) {
            NowPlayingView::Done(forbidden_view())
        } else {
            self.live_view(heard)
        }
    }

    /// Carries a call on to its next step as [`Self::run_view`] says.
    pub fn run(&self, caller: CallerContext, heard: &LiveHeard) -> (r: NowPlayingRun)
        ensures
            r@ == self.run_view(caller, *heard),
    {
        let request = match self.begin(caller) {
            NowPlayingStep::Done(answer) => {
                return NowPlayingRun::Done(answer);
            },
            NowPlayingStep::AskSessions(request) => request,
        };
        let items = match &heard.sessions {
            None => {
                return NowPlayingRun::AskSessions(request);
            },
            Some(reply) => match MediaNowPlaying::on_sessions(reply) {
                Ok(items) => items,
                Err(answer) => {
                    return NowPlayingRun::Done(answer);
                },
            },
        };
        let ghost view = jsons(items@);
        assert(view.len() == items@.len());
        if heard.percents.len() != items.len() {
            let mut ratios: Vec<Option<(i64, i64)>> = Vec::new();
            let mut i: usize = 0;
            while i < items.len()
                invariant
                    i <= items.len(),
                    view == jsons(items@),
                    ratios.len() == i,
                    forall|k: int|
                        0 <= k < i ==> ratio_view(#[trigger] ratios@[k]) == ratio_of(view[k]),
                decreases items.len() - i,
            {
                assert(view[i as int] == items@[i as int]@);
                ratios.push(progress_ratio(&items[i]));
                i += 1;
            }
            assert(ratios@.map_values(|r: Option<(i64, i64)>| ratio_view(r)) =~= ratios_of(view));
            return NowPlayingRun::Measure(ratios);
        }
        let identity = match (&heard.identity, self.ask_identity()) {
            (Some(reply), _) => reply,
            (None, Some(request)) => {
                return NowPlayingRun::AskIdentity(request);
            },
            (None, None) => {
                return NowPlayingRun::Done(not_configured_response());
            },
        };
        let mut sessions: Vec<Json> = Vec::new();
        let mut i: usize = 0;
        while i < items.len()
            invariant
                i <= items.len(),
                view == jsons(items@),
                items.len() == heard.percents.len(),
                sessions.len() == i,
                forall|k: int|
                    0 <= k < i ==> (#[trigger] sessions@[k])@ == measured(
                        view,
                        heard.percents@,
                    )[k],
            decreases items.len() - i,
        {
            assert(view[i as int] == items@[i as int]@);
            let percent = match &heard.percents[i] {
                Some(p) => Some(p.as_str()),
                None => None,
            };
            sessions.push(session_json(&items[i], percent));
            i += 1;
        }
        assert(jsons(sessions@) =~= measured(view, heard.percents@));
        let server = match map_live_reply(identity) {
            Ok(raw) => Some(server_json(&raw)),
            Err(_) => None,
        };
        reveal(live_answer);
        NowPlayingRun::Done(ok_response(sessions, server))
    }
}

/// A caller who is not entitled causes no request, and gets one answer, whatever is configured and
/// whatever is playing.
pub proof fn the_unentitled_learn_nothing(
    tool: MediaNowPlaying,
    caller: CallerContext,
    heard: LiveHeard,
)
    requires
        !entitled(caller),
    ensures
        tool.run_view(caller, heard) == NowPlayingView::Done(forbidden_view()),
{
}

/// The answer to a good read is one, with all its sessions, whatever was learned of the server.
proof fn lemma_live_answer(
    items: Seq<JsonView>,
    percents: Seq<Option<String>>,
    identity: ReplyView,
)
    ensures
        live_answer(items, percents, identity).bool_at("ok"@) == Some(true),
        live_answer(items, percents, identity).at("sessions"@) == JsonView::Array(
            measured(items, percents),
        ),
{
    reveal(live_answer);
    answers_tell_the_count(measured(items, percents), learned_server(identity));
}

/// What could be learned of the server itself never turns a good read into a failure, and never
/// hides a session.
pub proof fn the_server_header_spoils_nothing(
    tool: MediaNowPlaying,
    heard: LiveHeard,
    reply: HttpReply,
    identity: HttpReply,
    items: Seq<JsonView>,
)
    requires
        tool.server() is Some,
        heard.sessions == Some(reply),
        heard.identity == Some(identity),
        sessions_in(reply@) == Ok::<Seq<JsonView>, LiveErrorView>(items),
        heard.percents@.len() == items.len(),
    ensures
        tool.live_view(heard) == NowPlayingView::Done(
            live_answer(items, heard.percents@, identity@),
        ),
        live_answer(items, heard.percents@, identity@).bool_at("ok"@) == Some(true),
        live_answer(items, heard.percents@, identity@).at("sessions"@) == JsonView::Array(
            measured(items, heard.percents@),
        ),
{
    lemma_live_answer(items, heard.percents@, identity@);
}

// ── registration ────────────────────────────────────────────────────────────

/// What the live-activity tool says about itself.
pub open spec fn now_playing_info() -> InfoView {
    InfoView {
        name: TOOL_NAME@,
        description: "Show what is playing on Plex RIGHT NOW: title, who is watching, on which player, how far in, and whether it is direct play, direct stream or a transcode (with the reason). Live and never cached. Private: only an entitled operator-tier caller receives any of it."@,
        parameters: optional_object_view(no_fields()),
    }
}

impl MediaNowPlaying {
    /// What this tool says about itself.
    pub fn info() -> (r: ToolInfo)
        ensures
            r@ == now_playing_info(),
    {
        let parameters = optional_object(Fields::new());
        describe(
            TOOL_NAME,
            "Show what is playing on Plex RIGHT NOW: title, who is watching, on which player, how far in, and whether it is direct play, direct stream or a transcode (with the reason). Live and never cached. Private: only an entitled operator-tier caller receives any of it.",
            parameters,
        )
    }
}

/// Offers the live-activity tool.
pub fn register(registry: &mut ToolRegistry)
    ensures
        final(registry)@ == with_tool(old(registry)@, now_playing_info()),
{
    registry.register_or_replace(MediaNowPlaying::info());
}

} // verus!
