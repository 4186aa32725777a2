//! What is said to be playing, in terms of what the media server states.
use vstd::prelude::*;

use crate::http::{Method, ReplyView};
use crate::json::{
    float_bits, float_text, lemma_lookup_append, lemma_lookup_push, lookup, no_fields, rendered,
    Json, JsonView,
};
use crate::media::clients::plex::{live_reply_content, LiveErrorView};
use crate::media::now_playing::{
    clean_text, decision_of, entitled, error_view, flag_at, float_at_view, forbidden_view,
    full_title_view, live_answer, measure_at, measured, not_configured_view, number_at, ok_view,
    ratio_of, reason_of, server_view, session_view, sessions_in, sessions_of, LiveHeard,
    MediaNowPlaying, NowPlayingView, PlaybackDecision,
};
use crate::number::{rounded, whole};
use crate::text::{
    dec, dec2, joined, opt_text, parse_int64, trimmed, without_leading, without_trailing,
};
use crate::tool::CallerContext;

verus! {

// ── reading fields ──────────────────────────────────────────────────────────

/// The text under a key without white space at its ends, where anything is left of it.
pub open spec fn stated(v: JsonView, key: Seq<char>) -> Option<Seq<char>> {
    match v.at(key) {
        JsonView::Str(s) => if trimmed(s).len() > 0 {
            Some(trimmed(s))
        } else {
            None
        },
        _ => None,
    }
}

/// A count is the integer that stands under its key, as a number or as a string; a fraction is none.
/// A measurement is that integer too, and a fraction is rounded to the nearest one.
pub proof fn counts_are_whole_and_measures_are_rounded(v: JsonView, key: Seq<char>)
    ensures
        match v.at(key) {
            JsonView::Int(n) => i64::MIN <= n <= i64::MAX ==> number_at(v, key) == Some(n)
                && measure_at(v, key) == Some(n),
            JsonView::Str(s) => {
                &&& number_at(v, key) == parse_int64(trimmed(s))
                &&& measure_at(v, key) == (match (parse_int64(trimmed(s)), float_bits(trimmed(s))) {
                    (Some(n), _) => Some(n),
                    (None, Some(bits)) => rounded(bits),
                    (None, None) => None,
                })
            },
            JsonView::Float(t) => match float_bits(t) {
                Some(bits) => number_at(v, key) == whole(bits) && measure_at(v, key) == rounded(bits),
                None => number_at(v, key) is None && measure_at(v, key) is None,
            },
            _ => number_at(v, key) is None && measure_at(v, key) is None,
        },
{
}

/// A truth value stands under its key as one, as a number that is zero or not, or as one of four
/// words; a decimal number as one, or as a string that is one.
pub proof fn flags_and_decimals_are_read(v: JsonView, key: Seq<char>)
    ensures
        flag_at(v, key) == (match v.at(key) {
            JsonView::Bool(b) => Some(b),
            JsonView::Int(n) => if i64::MIN <= n <= i64::MAX {
                Some(n != 0)
            } else {
                None
            },
            JsonView::Str(s) => if trimmed(s) == "true"@ || trimmed(s) == "1"@ {
                Some(true)
            } else if trimmed(s) == "false"@ || trimmed(s) == "0"@ {
                Some(false)
            } else {
                None
            },
            _ => None,
        }),
        float_at_view(v, key) == (match v.at(key) {
            JsonView::Float(t) => match float_text(t) {
                Some(shortest) => JsonView::Float(shortest),
                None => JsonView::Null,
            },
            JsonView::Str(s) => match float_text(trimmed(s)) {
                Some(shortest) => JsonView::Float(shortest),
                None => JsonView::Null,
            },
            JsonView::Int(n) => match float_text(dec(n)) {
                Some(shortest) => JsonView::Float(shortest),
                None => JsonView::Null,
            },
            _ => JsonView::Null,
        }),
{
    reveal_strlit("true");
    reveal_strlit("false");
    reveal_strlit("1");
    reveal_strlit("0");
    assert("true"@.len() == 4);
    assert("false"@.len() == 5);
    assert("1"@.len() == 1);
    assert("0"@.len() == 1);
    assert("1"@[0] == '1');
    assert("0"@[0] == '0');
}

// ── how a session is delivered ──────────────────────────────────────────────

/// Whether a stream is delivered as it is: nothing but `copy` is stated of it.
pub open spec fn is_untouched(block: JsonView, key: Seq<char>) -> bool {
    stated(block, key) matches Some(d) ==> d == "copy"@
}

/// The decision that the first part of the first medium states.
pub open spec fn part_states(item: JsonView) -> Option<Seq<char>> {
    match item.at("Media"@) {
        JsonView::Array(media) => if media.len() > 0 {
            match media[0].at("Part"@) {
                JsonView::Array(parts) => if parts.len() > 0 {
                    stated(parts[0], "decision"@)
                } else {
                    None
                },
                _ => None,
            }
        } else {
            None
        },
        _ => None,
    }
}

/// With a transcode block, a session is streamed directly exactly where neither its video nor its
/// audio is said to be anything but copied, and transcoded otherwise. So a session whose video is
/// re-encoded is transcoded whatever becomes of its audio, and the other way round. Without a block
/// it goes by what its first part states, and is played directly where that states neither a
/// transcode nor a copy.
pub proof fn reencoding_is_a_transcode(item: JsonView)
    ensures
        item.at("TranscodeSession"@) is Object ==> {
            let block = item.at("TranscodeSession"@);
            &&& decision_of(item) == PlaybackDecision::DirectStream <==> is_untouched(
                block,
                "videoDecision"@,
            ) && is_untouched(block, "audioDecision"@)
            &&& decision_of(item) != PlaybackDecision::DirectStream ==> decision_of(item)
                == PlaybackDecision::Transcode
            &&& stated(block, "videoDecision"@) == Some("transcode"@) ==> decision_of(item)
                == PlaybackDecision::Transcode
            &&& stated(block, "audioDecision"@) == Some("transcode"@) ==> decision_of(item)
                == PlaybackDecision::Transcode
        },
        !(item.at("TranscodeSession"@) is Object) ==> {
            &&& decision_of(item) == PlaybackDecision::Transcode <==> part_states(item) == Some(
                "transcode"@,
            )
            &&& decision_of(item) == PlaybackDecision::DirectStream <==> part_states(item) == Some(
                "copy"@,
            )
        },
{
    reveal_strlit("transcode");
    reveal_strlit("copy");
    assert("transcode"@.len() == 9);
    assert("copy"@.len() == 4);
}

/// What is decided of a session whose video or audio is re-encoded is that it is transcoded.
pub proof fn decisions_tell_of_reencoding(item: &Json, decision: PlaybackDecision)
    requires
        call_ensures(crate::media::now_playing::decide, (item,), decision),
        item@.at("TranscodeSession"@) is Object,
    ensures
        decision is Transcode <==> !is_untouched(item@.at("TranscodeSession"@), "videoDecision"@)
            || !is_untouched(item@.at("TranscodeSession"@), "audioDecision"@),
        decision is DirectStream <==> !(decision is Transcode),
{
    reencoding_is_a_transcode(item@);
}

/// What is said of a stream that is re-encoded: from which codec to which, where both are stated.
pub open spec fn stream_words(
    block: JsonView,
    label: Seq<char>,
    source: Seq<char>,
    target: Seq<char>,
) -> Seq<char> {
    match (stated(block, source), stated(block, target)) {
        (Some(from), Some(to)) => label + " "@ + from + " -> "@ + to,
        _ => label + " re-encoded"@,
    }
}

/// The reason for a transcode is the server's own where it gives one; else it names what is
/// re-encoded, video before audio before subtitles, or that only the container changes.
pub proof fn reasons_name_what_is_reencoded(item: JsonView)
    requires
        item.at("TranscodeSession"@) is Object,
    ensures
        ({
            let block = item.at("TranscodeSession"@);
            let video = stated(block, "videoDecision"@) == Some("transcode"@);
            let audio = stated(block, "audioDecision"@) == Some("transcode"@);
            let titles = stated(block, "subtitleDecision"@) == Some("transcode"@);
            let video_words = stream_words(
                block,
                "video"@,
                "sourceVideoCodec"@,
                "videoCodec"@,
            );
            let audio_words = stream_words(
                block,
                "audio"@,
                "sourceAudioCodec"@,
                "audioCodec"@,
            );
            let title_words = "subtitles burned in or converted"@;
            reason_of(item, decision_of(item)) == Some(
                match stated(block, "transcodeReason"@) {
                    Some(given) => given,
                    None => if video && audio && titles {
                        video_words + "; "@ + audio_words + "; "@ + title_words
                    } else if video && audio {
                        video_words + "; "@ + audio_words
                    } else if video && titles {
                        video_words + "; "@ + title_words
                    } else if audio && titles {
                        audio_words + "; "@ + title_words
                    } else if video {
                        video_words
                    } else if audio {
                        audio_words
                    } else if titles {
                        title_words
                    } else {
                        "remuxed to "@ + (match stated(block, "protocol"@) {
                            Some(p) => p,
                            None => "a different container"@,
                        })
                    },
                },
            )
        }),
{
    let block = item.at("TranscodeSession"@);
    let reasons = crate::media::now_playing::derived_reasons(block);
    assert(clean_text(block, "videoDecision"@) == stated(block, "videoDecision"@));
    assert(clean_text(block, "audioDecision"@) == stated(block, "audioDecision"@));
    assert(clean_text(block, "subtitleDecision"@) == stated(block, "subtitleDecision"@));
    if reasons.len() >= 2 {
        let front = reasons.drop_last();
        assert(joined(reasons, "; "@) == joined(front, "; "@) + "; "@ + reasons.last());
        if reasons.len() >= 3 {
            assert(joined(front, "; "@) == joined(front.drop_last(), "; "@) + "; "@ + front.last());
        }
    }
}

/// The display title of an episode is its show, its season and number where both are stated, and
/// its title; that of anything else its title, and its year where one is stated.
pub proof fn display_titles_are_complete(item: JsonView)
    ensures
        ({
            let title = match stated(item, "title"@) {
                Some(t) => t,
                None => "Unknown"@,
            };
            let show = match stated(item, "grandparentTitle"@) {
                Some(t) => t,
                None => "Unknown show"@,
            };
            let season = number_at(item, "parentIndex"@);
            let episode = number_at(item, "index"@);
            full_title_view(item) == (if stated(item, "type"@) == Some("episode"@) {
                if season is Some && episode is Some {
                    show + " - S"@ + dec2(season.unwrap()) + "E"@ + dec2(episode.unwrap()) + " - "@
                        + title
                } else {
                    show + " - "@ + title
                }
            } else if number_at(item, "year"@) is Some {
                title + " ("@ + dec(number_at(item, "year"@).unwrap()) + ")"@
            } else {
                title
            })
        }),
{
}

// ── one session ─────────────────────────────────────────────────────────────

/// A session says what is playing: its key, type, title, show, season, episode, year and library, as
/// the server states them.
pub proof fn sessions_say_what_is_playing(item: JsonView, percent: Option<Seq<char>>)
    ensures
        ({
            let it = session_view(item, percent);
            &&& it.text_at("session_key"@) == stated(item, "sessionKey"@)
            &&& it.text_at("media_type"@) == stated(item, "type"@)
            &&& it.text_at("title"@) == stated(item, "title"@)
            &&& it.text_at("show_title"@) == stated(item, "grandparentTitle"@)
            &&& opt_number(it.at("season"@)) == number_at(item, "parentIndex"@)
            &&& opt_number(it.at("episode"@)) == number_at(item, "index"@)
            &&& opt_number(it.at("year"@)) == number_at(item, "year"@)
            &&& it.text_at("full_title"@) == Some(full_title_view(item))
            &&& it.text_at("library_section"@) == stated(item, "librarySectionTitle"@)
        }),
{
    broadcast use lemma_lookup_push;
    reveal_strlit("session_key");
    reveal_strlit("media_type");
    reveal_strlit("title");
    reveal_strlit("show_title");
    reveal_strlit("season");
    reveal_strlit("episode");
    reveal_strlit("year");
    reveal_strlit("full_title");
    reveal_strlit("library_section");
    reveal_strlit("user");
    reveal_strlit("user_id");
    reveal_strlit("player");
    reveal_strlit("player_product");
    reveal_strlit("player_platform");
    reveal_strlit("player_state");
    reveal_strlit("player_local");
    reveal_strlit("progress_ms");
    reveal_strlit("duration_ms");
    reveal_strlit("progress_percent");
    reveal_strlit("decision");
    reveal_strlit("video_decision");
    reveal_strlit("audio_decision");
    reveal_strlit("subtitle_decision");
    reveal_strlit("transcode_reason");
    reveal_strlit("transcode_progress_percent");
    reveal_strlit("transcode_throttled");
    reveal_strlit("transcode_hw");
    reveal_strlit("bandwidth_kbps");
    reveal_strlit("stream_location");
    reveal_strlit("container");
    reveal_strlit("video_resolution");
    assert("session_key"@.len() == 11);
    assert("media_type"@.len() == 10);
    assert("title"@.len() == 5);
    assert("show_title"@.len() == 10);
    assert("season"@.len() == 6);
    assert("episode"@.len() == 7);
    assert("year"@.len() == 4);
    assert("full_title"@.len() == 10);
    assert("library_section"@.len() == 15);
    assert("user"@.len() == 4);
    assert("user_id"@.len() == 7);
    assert("player"@.len() == 6);
    assert("player_product"@.len() == 14);
    assert("player_platform"@.len() == 15);
    assert("player_state"@.len() == 12);
    assert("player_local"@.len() == 12);
    assert("progress_ms"@.len() == 11);
    assert("duration_ms"@.len() == 11);
    assert("progress_percent"@.len() == 16);
    assert("decision"@.len() == 8);
    assert("video_decision"@.len() == 14);
    assert("audio_decision"@.len() == 14);
    assert("subtitle_decision"@.len() == 17);
    assert("transcode_reason"@.len() == 16);
    assert("transcode_progress_percent"@.len() == 26);
    assert("transcode_throttled"@.len() == 19);
    assert("transcode_hw"@.len() == 12);
    assert("bandwidth_kbps"@.len() == 14);
    assert("stream_location"@.len() == 15);
    assert("container"@.len() == 9);
    assert("video_resolution"@.len() == 16);
    assert("session_key"@[0] == 's');
    assert("progress_ms"@[0] == 'p');
    assert("duration_ms"@[0] == 'd');
    assert("media_type"@[0] == 'm');
    assert("show_title"@[0] == 's');
    assert("full_title"@[0] == 'f');
    assert("season"@[0] == 's');
    assert("player"@[0] == 'p');
    assert("episode"@[0] == 'e');
    assert("user_id"@[0] == 'u');
    assert("year"@[0] == 'y');
    assert("user"@[0] == 'u');
    assert("library_section"@[0] == 'l');
    assert("player_platform"@[0] == 'p');
    assert("stream_location"@[0] == 's');
    assert("player_product"@[0] == 'p');
    assert("video_decision"@[0] == 'v');
    assert("audio_decision"@[0] == 'a');
    assert("bandwidth_kbps"@[0] == 'b');
    assert("player_state"@[7] == 's');
    assert("player_local"@[7] == 'l');
    assert("player_state"@[0] == 'p');
    assert("transcode_hw"@[0] == 't');
    assert("player_local"@[0] == 'p');
    assert("progress_percent"@[0] == 'p');
    assert("transcode_reason"@[0] == 't');
    assert("video_resolution"@[0] == 'v');
}

/// The integer that a node is.
pub open spec fn opt_number(v: JsonView) -> Option<int> {
    match v {
        JsonView::Int(n) => Some(n),
        _ => None,
    }
}

/// A session says who is watching and on what: the user's name and id, and the player's name,
/// product, platform, state and whether it is local.
pub proof fn sessions_say_who_is_watching(item: JsonView, percent: Option<Seq<char>>)
    ensures
        ({
            let it = session_view(item, percent);
            let user = item.at("User"@);
            let player = item.at("Player"@);
            &&& it.text_at("user"@) == stated(user, "title"@)
            &&& user.field("id"@) is None ==> it.at("user_id"@) is Null
            &&& user.field("id"@) matches Some(id) ==> it.text_at("user_id"@) == Some(
                without_trailing(without_leading(rendered(id), '"'), '"'),
            )
            &&& it.text_at("player"@) == stated(player, "title"@)
            &&& it.text_at("player_product"@) == stated(player, "product"@)
            &&& it.text_at("player_platform"@) == stated(player, "platform"@)
            &&& it.text_at("player_state"@) == stated(player, "state"@)
            &&& it.bool_at("player_local"@) == flag_at(player, "local"@)
        }),
{
    broadcast use lemma_lookup_push;
    reveal_strlit("session_key");
    reveal_strlit("media_type");
    reveal_strlit("title");
    reveal_strlit("show_title");
    reveal_strlit("season");
    reveal_strlit("episode");
    reveal_strlit("year");
    reveal_strlit("full_title");
    reveal_strlit("library_section");
    reveal_strlit("user");
    reveal_strlit("user_id");
    reveal_strlit("player");
    reveal_strlit("player_product");
    reveal_strlit("player_platform");
    reveal_strlit("player_state");
    reveal_strlit("player_local");
    reveal_strlit("progress_ms");
    reveal_strlit("duration_ms");
    reveal_strlit("progress_percent");
    reveal_strlit("decision");
    reveal_strlit("video_decision");
    reveal_strlit("audio_decision");
    reveal_strlit("subtitle_decision");
    reveal_strlit("transcode_reason");
    reveal_strlit("transcode_progress_percent");
    reveal_strlit("transcode_throttled");
    reveal_strlit("transcode_hw");
    reveal_strlit("bandwidth_kbps");
    reveal_strlit("stream_location");
    reveal_strlit("container");
    reveal_strlit("video_resolution");
    assert("session_key"@.len() == 11);
    assert("media_type"@.len() == 10);
    assert("title"@.len() == 5);
    assert("show_title"@.len() == 10);
    assert("season"@.len() == 6);
    assert("episode"@.len() == 7);
    assert("year"@.len() == 4);
    assert("full_title"@.len() == 10);
    assert("library_section"@.len() == 15);
    assert("user"@.len() == 4);
    assert("user_id"@.len() == 7);
    assert("player"@.len() == 6);
    assert("player_product"@.len() == 14);
    assert("player_platform"@.len() == 15);
    assert("player_state"@.len() == 12);
    assert("player_local"@.len() == 12);
    assert("progress_ms"@.len() == 11);
    assert("duration_ms"@.len() == 11);
    assert("progress_percent"@.len() == 16);
    assert("decision"@.len() == 8);
    assert("video_decision"@.len() == 14);
    assert("audio_decision"@.len() == 14);
    assert("subtitle_decision"@.len() == 17);
    assert("transcode_reason"@.len() == 16);
    assert("transcode_progress_percent"@.len() == 26);
    assert("transcode_throttled"@.len() == 19);
    assert("transcode_hw"@.len() == 12);
    assert("bandwidth_kbps"@.len() == 14);
    assert("stream_location"@.len() == 15);
    assert("container"@.len() == 9);
    assert("video_resolution"@.len() == 16);
    assert("session_key"@[0] == 's');
    assert("progress_ms"@[0] == 'p');
    assert("duration_ms"@[0] == 'd');
    assert("media_type"@[0] == 'm');
    assert("show_title"@[0] == 's');
    assert("full_title"@[0] == 'f');
    assert("season"@[0] == 's');
    assert("player"@[0] == 'p');
    assert("episode"@[0] == 'e');
    assert("user_id"@[0] == 'u');
    assert("year"@[0] == 'y');
    assert("user"@[0] == 'u');
    assert("library_section"@[0] == 'l');
    assert("player_platform"@[0] == 'p');
    assert("stream_location"@[0] == 's');
    assert("player_product"@[0] == 'p');
    assert("video_decision"@[0] == 'v');
    assert("audio_decision"@[0] == 'a');
    assert("bandwidth_kbps"@[0] == 'b');
    assert("player_state"@[7] == 's');
    assert("player_local"@[7] == 'l');
    assert("player_state"@[0] == 'p');
    assert("transcode_hw"@[0] == 't');
    assert("player_local"@[0] == 'p');
    assert("progress_percent"@[0] == 'p');
    assert("transcode_reason"@[0] == 't');
    assert("video_resolution"@[0] == 'v');
}

/// A session says how far it is: where it is and how long it is in milliseconds, at the start where
/// nothing is stated, and the percentage only where its length is positive.
pub proof fn sessions_say_how_far_they_are(item: JsonView, percent: Option<Seq<char>>)
    ensures
        ({
            let it = session_view(item, percent);
            let length = measure_at(item, "duration"@);
            let at = match measure_at(item, "viewOffset"@) {
                Some(n) => n,
                None => 0,
            };
            &&& it.at("progress_ms"@) == JsonView::Int(at)
            &&& opt_number(it.at("duration_ms"@)) == length
            &&& length is Some && length.unwrap() > 0 ==> ratio_of(item) == Some(
                (at, length.unwrap()),
            ) && (percent matches Some(p) ==> it.at("progress_percent"@) == JsonView::Float(p))
            &&& length is None || length.unwrap() <= 0 ==> ratio_of(item) is None && it.at(
                "progress_percent"@,
            ) is Null
        }),
{
    broadcast use lemma_lookup_push;
    reveal_strlit("session_key");
    reveal_strlit("media_type");
    reveal_strlit("title");
    reveal_strlit("show_title");
    reveal_strlit("season");
    reveal_strlit("episode");
    reveal_strlit("year");
    reveal_strlit("full_title");
    reveal_strlit("library_section");
    reveal_strlit("user");
    reveal_strlit("user_id");
    reveal_strlit("player");
    reveal_strlit("player_product");
    reveal_strlit("player_platform");
    reveal_strlit("player_state");
    reveal_strlit("player_local");
    reveal_strlit("progress_ms");
    reveal_strlit("duration_ms");
    reveal_strlit("progress_percent");
    reveal_strlit("decision");
    reveal_strlit("video_decision");
    reveal_strlit("audio_decision");
    reveal_strlit("subtitle_decision");
    reveal_strlit("transcode_reason");
    reveal_strlit("transcode_progress_percent");
    reveal_strlit("transcode_throttled");
    reveal_strlit("transcode_hw");
    reveal_strlit("bandwidth_kbps");
    reveal_strlit("stream_location");
    reveal_strlit("container");
    reveal_strlit("video_resolution");
    assert("session_key"@.len() == 11);
    assert("media_type"@.len() == 10);
    assert("title"@.len() == 5);
    assert("show_title"@.len() == 10);
    assert("season"@.len() == 6);
    assert("episode"@.len() == 7);
    assert("year"@.len() == 4);
    assert("full_title"@.len() == 10);
    assert("library_section"@.len() == 15);
    assert("user"@.len() == 4);
    assert("user_id"@.len() == 7);
    assert("player"@.len() == 6);
    assert("player_product"@.len() == 14);
    assert("player_platform"@.len() == 15);
    assert("player_state"@.len() == 12);
    assert("player_local"@.len() == 12);
    assert("progress_ms"@.len() == 11);
    assert("duration_ms"@.len() == 11);
    assert("progress_percent"@.len() == 16);
    assert("decision"@.len() == 8);
    assert("video_decision"@.len() == 14);
    assert("audio_decision"@.len() == 14);
    assert("subtitle_decision"@.len() == 17);
    assert("transcode_reason"@.len() == 16);
    assert("transcode_progress_percent"@.len() == 26);
    assert("transcode_throttled"@.len() == 19);
    assert("transcode_hw"@.len() == 12);
    assert("bandwidth_kbps"@.len() == 14);
    assert("stream_location"@.len() == 15);
    assert("container"@.len() == 9);
    assert("video_resolution"@.len() == 16);
    assert("session_key"@[0] == 's');
    assert("progress_ms"@[0] == 'p');
    assert("duration_ms"@[0] == 'd');
    assert("media_type"@[0] == 'm');
    assert("show_title"@[0] == 's');
    assert("full_title"@[0] == 'f');
    assert("season"@[0] == 's');
    assert("player"@[0] == 'p');
    assert("episode"@[0] == 'e');
    assert("user_id"@[0] == 'u');
    assert("year"@[0] == 'y');
    assert("user"@[0] == 'u');
    assert("library_section"@[0] == 'l');
    assert("player_platform"@[0] == 'p');
    assert("stream_location"@[0] == 's');
    assert("player_product"@[0] == 'p');
    assert("video_decision"@[0] == 'v');
    assert("audio_decision"@[0] == 'a');
    assert("bandwidth_kbps"@[0] == 'b');
    assert("player_state"@[7] == 's');
    assert("player_local"@[7] == 'l');
    assert("player_state"@[0] == 'p');
    assert("transcode_hw"@[0] == 't');
    assert("player_local"@[0] == 'p');
    assert("progress_percent"@[0] == 'p');
    assert("transcode_reason"@[0] == 't');
    assert("video_resolution"@[0] == 'v');
}

/// A session says how it is delivered: the decision by its name, what is stated of each stream, why,
/// how far and whether by hardware it is transcoded, and over what it travels.
pub proof fn sessions_say_how_they_are_delivered(item: JsonView, percent: Option<Seq<char>>)
    ensures
        ({
            let it = session_view(item, percent);
            let block = item.at("TranscodeSession"@);
            let session = item.at("Session"@);
            &&& it.text_at("decision"@) == Some(
                match decision_of(item) {
                    PlaybackDecision::DirectPlay => "direct_play"@,
                    PlaybackDecision::DirectStream => "direct_stream"@,
                    PlaybackDecision::Transcode => "transcode"@,
                },
            )
            &&& it.text_at("video_decision"@) == stated(block, "videoDecision"@)
            &&& it.text_at("audio_decision"@) == stated(block, "audioDecision"@)
            &&& it.text_at("subtitle_decision"@) == stated(block, "subtitleDecision"@)
            &&& it.text_at("transcode_reason"@) == reason_of(item, decision_of(item))
            &&& it.at("transcode_progress_percent"@) == float_at_view(block, "progress"@)
            &&& it.bool_at("transcode_throttled"@) == flag_at(block, "throttled"@)
            &&& it.bool_at("transcode_hw"@) == flag_at(block, "transcodeHwRequested"@)
            &&& opt_number(it.at("bandwidth_kbps"@)) == measure_at(session, "bandwidth"@)
            &&& it.text_at("stream_location"@) == stated(session, "location"@)
        }),
{
    broadcast use lemma_lookup_push;
    reveal_strlit("session_key");
    reveal_strlit("media_type");
    reveal_strlit("title");
    reveal_strlit("show_title");
    reveal_strlit("season");
    reveal_strlit("episode");
    reveal_strlit("year");
    reveal_strlit("full_title");
    reveal_strlit("library_section");
    reveal_strlit("user");
    reveal_strlit("user_id");
    reveal_strlit("player");
    reveal_strlit("player_product");
    reveal_strlit("player_platform");
    reveal_strlit("player_state");
    reveal_strlit("player_local");
    reveal_strlit("progress_ms");
    reveal_strlit("duration_ms");
    reveal_strlit("progress_percent");
    reveal_strlit("decision");
    reveal_strlit("video_decision");
    reveal_strlit("audio_decision");
    reveal_strlit("subtitle_decision");
    reveal_strlit("transcode_reason");
    reveal_strlit("transcode_progress_percent");
    reveal_strlit("transcode_throttled");
    reveal_strlit("transcode_hw");
    reveal_strlit("bandwidth_kbps");
    reveal_strlit("stream_location");
    reveal_strlit("container");
    reveal_strlit("video_resolution");
    assert("session_key"@.len() == 11);
    assert("media_type"@.len() == 10);
    assert("title"@.len() == 5);
    assert("show_title"@.len() == 10);
    assert("season"@.len() == 6);
    assert("episode"@.len() == 7);
    assert("year"@.len() == 4);
    assert("full_title"@.len() == 10);
    assert("library_section"@.len() == 15);
    assert("user"@.len() == 4);
    assert("user_id"@.len() == 7);
    assert("player"@.len() == 6);
    assert("player_product"@.len() == 14);
    assert("player_platform"@.len() == 15);
    assert("player_state"@.len() == 12);
    assert("player_local"@.len() == 12);
    assert("progress_ms"@.len() == 11);
    assert("duration_ms"@.len() == 11);
    assert("progress_percent"@.len() == 16);
    assert("decision"@.len() == 8);
    assert("video_decision"@.len() == 14);
    assert("audio_decision"@.len() == 14);
    assert("subtitle_decision"@.len() == 17);
    assert("transcode_reason"@.len() == 16);
    assert("transcode_progress_percent"@.len() == 26);
    assert("transcode_throttled"@.len() == 19);
    assert("transcode_hw"@.len() == 12);
    assert("bandwidth_kbps"@.len() == 14);
    assert("stream_location"@.len() == 15);
    assert("container"@.len() == 9);
    assert("video_resolution"@.len() == 16);
    assert("session_key"@[0] == 's');
    assert("progress_ms"@[0] == 'p');
    assert("duration_ms"@[0] == 'd');
    assert("media_type"@[0] == 'm');
    assert("show_title"@[0] == 's');
    assert("full_title"@[0] == 'f');
    assert("season"@[0] == 's');
    assert("player"@[0] == 'p');
    assert("episode"@[0] == 'e');
    assert("user_id"@[0] == 'u');
    assert("year"@[0] == 'y');
    assert("user"@[0] == 'u');
    assert("library_section"@[0] == 'l');
    assert("player_platform"@[0] == 'p');
    assert("stream_location"@[0] == 's');
    assert("player_product"@[0] == 'p');
    assert("video_decision"@[0] == 'v');
    assert("audio_decision"@[0] == 'a');
    assert("bandwidth_kbps"@[0] == 'b');
    assert("player_state"@[7] == 's');
    assert("player_local"@[7] == 'l');
    assert("player_state"@[0] == 'p');
    assert("transcode_hw"@[0] == 't');
    assert("player_local"@[0] == 'p');
    assert("progress_percent"@[0] == 'p');
    assert("transcode_reason"@[0] == 't');
    assert("video_resolution"@[0] == 'v');
}

/// A session says the container and the resolution of its first medium.
pub proof fn sessions_say_what_the_medium_is(item: JsonView, percent: Option<Seq<char>>)
    ensures
        ({
            let it = session_view(item, percent);
            match item.at("Media"@) {
                JsonView::Array(media) => if media.len() > 0 {
                    it.text_at("container"@) == stated(media[0], "container"@) && it.text_at(
                        "video_resolution"@,
                    ) == stated(media[0], "videoResolution"@)
                } else {
                    it.at("container"@) is Null && it.at("video_resolution"@) is Null
                },
                _ => it.at("container"@) is Null && it.at("video_resolution"@) is Null,
            }
        }),
{
    broadcast use lemma_lookup_push;
    reveal_strlit("session_key");
    reveal_strlit("media_type");
    reveal_strlit("title");
    reveal_strlit("show_title");
    reveal_strlit("season");
    reveal_strlit("episode");
    reveal_strlit("year");
    reveal_strlit("full_title");
    reveal_strlit("library_section");
    reveal_strlit("user");
    reveal_strlit("user_id");
    reveal_strlit("player");
    reveal_strlit("player_product");
    reveal_strlit("player_platform");
    reveal_strlit("player_state");
    reveal_strlit("player_local");
    reveal_strlit("progress_ms");
    reveal_strlit("duration_ms");
    reveal_strlit("progress_percent");
    reveal_strlit("decision");
    reveal_strlit("video_decision");
    reveal_strlit("audio_decision");
    reveal_strlit("subtitle_decision");
    reveal_strlit("transcode_reason");
    reveal_strlit("transcode_progress_percent");
    reveal_strlit("transcode_throttled");
    reveal_strlit("transcode_hw");
    reveal_strlit("bandwidth_kbps");
    reveal_strlit("stream_location");
    reveal_strlit("container");
    reveal_strlit("video_resolution");
    assert("session_key"@.len() == 11);
    assert("media_type"@.len() == 10);
    assert("title"@.len() == 5);
    assert("show_title"@.len() == 10);
    assert("season"@.len() == 6);
    assert("episode"@.len() == 7);
    assert("year"@.len() == 4);
    assert("full_title"@.len() == 10);
    assert("library_section"@.len() == 15);
    assert("user"@.len() == 4);
    assert("user_id"@.len() == 7);
    assert("player"@.len() == 6);
    assert("player_product"@.len() == 14);
    assert("player_platform"@.len() == 15);
    assert("player_state"@.len() == 12);
    assert("player_local"@.len() == 12);
    assert("progress_ms"@.len() == 11);
    assert("duration_ms"@.len() == 11);
    assert("progress_percent"@.len() == 16);
    assert("decision"@.len() == 8);
    assert("video_decision"@.len() == 14);
    assert("audio_decision"@.len() == 14);
    assert("subtitle_decision"@.len() == 17);
    assert("transcode_reason"@.len() == 16);
    assert("transcode_progress_percent"@.len() == 26);
    assert("transcode_throttled"@.len() == 19);
    assert("transcode_hw"@.len() == 12);
    assert("bandwidth_kbps"@.len() == 14);
    assert("stream_location"@.len() == 15);
    assert("container"@.len() == 9);
    assert("video_resolution"@.len() == 16);
    assert("session_key"@[0] == 's');
    assert("progress_ms"@[0] == 'p');
    assert("duration_ms"@[0] == 'd');
    assert("media_type"@[0] == 'm');
    assert("show_title"@[0] == 's');
    assert("full_title"@[0] == 'f');
    assert("season"@[0] == 's');
    assert("player"@[0] == 'p');
    assert("episode"@[0] == 'e');
    assert("user_id"@[0] == 'u');
    assert("year"@[0] == 'y');
    assert("user"@[0] == 'u');
    assert("library_section"@[0] == 'l');
    assert("player_platform"@[0] == 'p');
    assert("stream_location"@[0] == 's');
    assert("player_product"@[0] == 'p');
    assert("video_decision"@[0] == 'v');
    assert("audio_decision"@[0] == 'a');
    assert("bandwidth_kbps"@[0] == 'b');
    assert("player_state"@[7] == 's');
    assert("player_local"@[7] == 'l');
    assert("player_state"@[0] == 'p');
    assert("transcode_hw"@[0] == 't');
    assert("player_local"@[0] == 'p');
    assert("progress_percent"@[0] == 'p');
    assert("transcode_reason"@[0] == 't');
    assert("video_resolution"@[0] == 'v');
}

// ── the answer ──────────────────────────────────────────────────────────────

/// What a payload says under a key comes from its own fields, or from the three that every payload
/// has.
proof fn lemma_payload(
    status: Seq<char>,
    message: Seq<char>,
    extra: Seq<(Seq<char>, JsonView)>,
    key: Seq<char>,
)
    ensures
        crate::media::now_playing::payload(status, message, extra).field(key) == (match lookup(
            extra,
            key,
        ) {
            Some(v) => Some(v),
            None => if key == "message"@ {
                Some(JsonView::Str(message))
            } else if key == "ok"@ {
                Some(JsonView::Bool(status == "playing"@ || status == "idle"@))
            } else if key == "status"@ {
                Some(JsonView::Str(status))
            } else {
                None
            },
        }),
{
    broadcast use lemma_lookup_push;
    reveal_strlit("status");
    reveal_strlit("ok");
    reveal_strlit("message");
    assert("status"@.len() == 6);
    assert("ok"@.len() == 2);
    assert("message"@.len() == 7);
    let base = no_fields().push(("status"@, JsonView::Str(status))).push(
        ("ok"@, JsonView::Bool(status == "playing"@ || status == "idle"@)),
    ).push(("message"@, JsonView::Str(message)));
    lemma_lookup_append(base, extra, key);
}

/// The bandwidth that some sessions state together.
pub open spec fn stated_together(sessions: Seq<JsonView>) -> int
    decreases sessions.len(),
{
    if sessions.len() == 0 {
        0
    } else {
        stated_together(sessions.drop_first()) + (match sessions[0].int_at("bandwidth_kbps"@) {
            Some(n) => n,
            None => 0,
        })
    }
}

proof fn lemma_sum(sessions: Seq<JsonView>)
    ensures
        crate::media::now_playing::bandwidth_sum(sessions) == stated_together(sessions),
    decreases sessions.len(),
{
    if sessions.len() == 1 {
        assert(sessions.drop_first() =~= Seq::<JsonView>::empty());
        assert(sessions.drop_last() =~= Seq::<JsonView>::empty());
        assert(crate::media::now_playing::bandwidth_sum(sessions.drop_last()) == 0);
        assert(stated_together(sessions.drop_first()) == 0);
    } else if sessions.len() > 1 {
        let inner = sessions.drop_first().drop_last();
        assert(inner =~= sessions.drop_last().drop_first());
        lemma_sum(sessions.drop_first());
        lemma_sum(sessions.drop_last());
        lemma_sum(inner);
    }
}

/// An answer says how many sessions there are, in words and as a number, lists them all, adds up the
/// bandwidth that they state, and holds what was learned of the server.
pub proof fn answers_say_what_is_playing(sessions: Seq<JsonView>, server: Option<JsonView>)
    ensures
        ({
            let it = ok_view(sessions, server);
            &&& it.bool_at("ok"@) == Some(true)
            &&& it.text_at("status"@) == Some(
                if sessions.len() == 0 {
                    "idle"@
                } else {
                    "playing"@
                },
            )
            &&& it.text_at("message"@) == Some(
                if sessions.len() == 0 {
                    "Plex answered: nothing is playing right now."@
                } else {
                    dec(sessions.len() as int) + " stream(s) playing right now."@
                },
            )
            &&& it.at("session_count"@) == JsonView::Int(sessions.len() as int)
            &&& it.at("sessions"@) == JsonView::Array(sessions)
            &&& it.at("server"@) == (match server {
                Some(v) => v,
                None => JsonView::Null,
            })
            &&& (forall|i: int|
                0 <= i < sessions.len() ==> (#[trigger] sessions[i]).int_at("bandwidth_kbps"@)
                    is None) ==> it.at("total_bandwidth_kbps"@) is Null
            &&& forall|i: int|
                0 <= i < sessions.len() && (#[trigger] sessions[i]).int_at("bandwidth_kbps"@)
                    is Some && i64::MIN <= stated_together(sessions) <= i64::MAX ==> it.at(
                    "total_bandwidth_kbps"@,
                ) == JsonView::Int(stated_together(sessions))
        }),
{
    broadcast use lemma_lookup_push;
    reveal_strlit("status");
    reveal_strlit("ok");
    reveal_strlit("message");
    reveal_strlit("session_count");
    reveal_strlit("sessions");
    reveal_strlit("server");
    reveal_strlit("total_bandwidth_kbps");
    assert("status"@.len() == 6);
    assert("ok"@.len() == 2);
    assert("message"@.len() == 7);
    assert("session_count"@.len() == 13);
    assert("sessions"@.len() == 8);
    assert("server"@.len() == 6);
    assert("total_bandwidth_kbps"@.len() == 20);
    assert("status"@[1] == 't');
    assert("server"@[1] == 'e');
    reveal_strlit("playing");
    reveal_strlit("idle");
    assert("playing"@.len() == 7);
    assert("idle"@.len() == 4);
    lemma_sum(sessions);
    let status = if sessions.len() == 0 {
        "idle"@
    } else {
        "playing"@
    };
    let message = if sessions.len() == 0 {
        "Plex answered: nothing is playing right now."@
    } else {
        dec(sessions.len() as int) + " stream(s) playing right now."@
    };
    let total = crate::media::now_playing::total_bandwidth(sessions);
    let extra = no_fields().push(("session_count"@, JsonView::Int(sessions.len() as int))).push(
        ("total_bandwidth_kbps"@, crate::json::int_or_null(total)),
    ).push(("sessions"@, JsonView::Array(sessions))).push(
        (
            "server"@,
            match server {
                Some(v) => v,
                None => JsonView::Null,
            },
        ),
    );
    lemma_payload(status, message, extra, "ok"@);
    lemma_payload(status, message, extra, "status"@);
    lemma_payload(status, message, extra, "message"@);
    lemma_payload(status, message, extra, "session_count"@);
    lemma_payload(status, message, extra, "sessions"@);
    lemma_payload(status, message, extra, "server"@);
    lemma_payload(status, message, extra, "total_bandwidth_kbps"@);
    assert forall|i: int|
        0 <= i < sessions.len() && (#[trigger] sessions[i]).int_at("bandwidth_kbps"@) is Some
            && i64::MIN <= stated_together(sessions) <= i64::MAX implies total == Some(
        stated_together(sessions),
    ) by {
        assert(crate::media::now_playing::stated_bandwidth(sessions[i]) is Some);
    }
    if forall|i: int|
        0 <= i < sessions.len() ==> (#[trigger] sessions[i]).int_at("bandwidth_kbps"@) is None {
        assert forall|i: int| 0 <= i < sessions.len() implies
            crate::media::now_playing::stated_bandwidth(#[trigger] sessions[i]) is None by {}
        assert(total is None);
    }
}

/// Everything that is not an answer says which kind of thing it is, what that means, and why.
pub proof fn failures_say_what_they_are(error: LiveErrorView)
    ensures
        error_view(error).bool_at("ok"@) == Some(false),
        error_view(error).text_at("status"@) == Some(
            match error {
                LiveErrorView::Unreachable(_) => "unreachable"@,
                LiveErrorView::TokenRejected(_) => "unauthorized"@,
                LiveErrorView::Malformed(_) => "malformed"@,
            },
        ),
        error_view(error).text_at("detail"@) == Some(
            match error {
                LiveErrorView::Unreachable(d) => d,
                LiveErrorView::TokenRejected(d) => d,
                LiveErrorView::Malformed(d) => d,
            },
        ),
        error_view(error).text_at("message"@) == Some(
            match error {
                LiveErrorView::Unreachable(_) => "Could not reach Plex, so what is playing is UNKNOWN - this is not the same as nothing playing."@,
                LiveErrorView::TokenRejected(_) => "Plex is up but rejected the configured token, so live activity could not be read."@,
                LiveErrorView::Malformed(_) => "Plex answered with something this client could not read, so live activity is unknown."@,
            },
        ),
        forbidden_view().text_at("status"@) == Some("forbidden"@),
        forbidden_view().bool_at("ok"@) == Some(false),
        not_configured_view().text_at("status"@) == Some("not_configured"@),
        not_configured_view().bool_at("ok"@) == Some(false),
{
    broadcast use lemma_lookup_push;
    reveal_strlit("status");
    reveal_strlit("ok");
    reveal_strlit("message");
    reveal_strlit("detail");
    assert("status"@.len() == 6);
    assert("ok"@.len() == 2);
    assert("message"@.len() == 7);
    assert("detail"@.len() == 6);
    assert("status"@[0] == 's');
    assert("detail"@[0] == 'd');
    reveal_strlit("playing");
    reveal_strlit("idle");
    reveal_strlit("forbidden");
    reveal_strlit("not_configured");
    reveal_strlit("unreachable");
    reveal_strlit("unauthorized");
    reveal_strlit("malformed");
    assert("playing"@.len() == 7);
    assert("idle"@.len() == 4);
    assert("forbidden"@.len() == 9);
    assert("not_configured"@.len() == 14);
    assert("unreachable"@.len() == 11);
    assert("unauthorized"@.len() == 12);
    assert("malformed"@.len() == 9);
    assert("forbidden"@[0] == 'f');
    assert("malformed"@[0] == 'm');
    let extra = no_fields().push(("detail"@, JsonView::Str(error.detail())));
    let message = crate::media::now_playing::failure_message(error);
    lemma_payload(error.kind(), message, extra, "ok"@);
    lemma_payload(error.kind(), message, extra, "status"@);
    lemma_payload(error.kind(), message, extra, "message"@);
    lemma_payload(error.kind(), message, extra, "detail"@);
    let refusal =
        "Live viewing activity is private to the household operator; this caller is not entitled to it."@;
    let unset = "Plex is not configured here (PLEX_URL / PLEX_TOKEN are unset)."@;
    lemma_payload("forbidden"@, refusal, Seq::empty(), "ok"@);
    lemma_payload("forbidden"@, refusal, Seq::empty(), "status"@);
    lemma_payload("not_configured"@, unset, Seq::empty(), "ok"@);
    lemma_payload("not_configured"@, unset, Seq::empty(), "status"@);
}

/// What was learned of the server is its version, that of its interface, and its identifier.
pub proof fn the_server_is_described(raw: JsonView)
    ensures
        ({
            let it = server_view(raw);
            let container = raw.at("MediaContainer"@);
            &&& it.text_at("version"@) == stated(container, "version"@)
            &&& it.text_at("api_version"@) == stated(container, "apiVersion"@)
            &&& it.text_at("machine_identifier"@) == stated(container, "machineIdentifier"@)
        }),
{
    broadcast use lemma_lookup_push;
    reveal_strlit("version");
    reveal_strlit("api_version");
    reveal_strlit("machine_identifier");
    assert("version"@.len() == 7);
    assert("api_version"@.len() == 11);
    assert("machine_identifier"@.len() == 18);
}

/// A response is read whole: where its container states a whole number that is not negative as its
/// size, and lists that many entries, all of them objects with no transcode block or with one that
/// is an object, those are the sessions.
pub proof fn readable_responses_are_read(raw: JsonView, container: JsonView, items: Seq<JsonView>)
    requires
        raw.field("MediaContainer"@) == Some(container),
        container is Object,
        container.field("Metadata"@) == Some(JsonView::Array(items)),
        container.field("size"@) is Some,
        number_at(container, "size"@) == Some(items.len() as int),
        forall|i: int|
            0 <= i < items.len() ==> (#[trigger] items[i]) is Object && (items[i].field(
                "TranscodeSession"@,
            ) matches Some(block) ==> block is Object),
    ensures
        sessions_of(raw) == Ok::<Seq<JsonView>, Seq<char>>(items),
{
    lemma_readable(items, 0);
}

proof fn lemma_readable(items: Seq<JsonView>, from: int)
    requires
        0 <= from <= items.len(),
        forall|i: int|
            0 <= i < items.len() ==> (#[trigger] items[i]) is Object && (items[i].field(
                "TranscodeSession"@,
            ) matches Some(block) ==> block is Object),
    ensures
        crate::media::now_playing::first_unreadable(items, from) is None,
    decreases items.len() - from,
{
    if from < items.len() {
        assert(items[from] is Object);
        lemma_readable(items, from + 1);
    }
}

/// A response that cannot be read says why: it has no container, or one that is no object; its list
/// is an explicit null; its size is missing, no whole number, or negative; its list is missing or no
/// list; an entry of it is no object, or carries a transcode block that is none; or the list does
/// not have the stated number of entries. The first of these that holds is named.
pub proof fn unreadable_responses_say_why(raw: JsonView)
    ensures
        ({
            let container = raw.at("MediaContainer"@);
            let size = number_at(container, "size"@);
            let list = container.field("Metadata"@);
            let said = sessions_of(raw);
            if raw.field("MediaContainer"@) is None {
                said == fault("the response from Plex had no MediaContainer"@)
            } else if !(container is Object) {
                said == fault("MediaContainer was not an object"@)
            } else if list == Some(JsonView::Null) {
                said == fault(
                    "MediaContainer.Metadata was explicitly null, which is not a shape Plex emits (it omits the key entirely when nothing is playing)"@,
                )
            } else if container.field("size"@) is None {
                said == fault(
                    "MediaContainer carried no size, and Plex states a size on every container it emits (at rest /status/sessions is exactly {\"MediaContainer\":{\"size\":0}}), so the response was altered somewhere in the path"@,
                )
            } else if size is None {
                said == fault(
                    "MediaContainer.size was "@ + rendered(container.at("size"@))
                        + ", which is not a whole number of sessions"@,
                )
            } else if size.unwrap() < 0 {
                said == fault(
                    "MediaContainer.size was "@ + dec(size.unwrap())
                        + ", and a number of sessions cannot be negative"@,
                )
            } else {
                match list {
                    None => size.unwrap() != 0 ==> said == fault(
                        "MediaContainer reported "@ + dec(size.unwrap())
                            + " session(s) but carried no Metadata list"@,
                    ),
                    Some(JsonView::Array(items)) => (forall|i: int|
                        0 <= i < items.len() ==> is_session(#[trigger] items[i])) && size.unwrap()
                        != items.len() ==> said == fault(
                        "MediaContainer reported "@ + dec(size.unwrap())
                            + " session(s) but carried "@ + dec(items.len() as int),
                    ),
                    Some(_) => said == fault("MediaContainer.Metadata was not a list"@),
                }
            }
        }),
{
    if let Some(JsonView::Array(items)) = raw.at("MediaContainer"@).field("Metadata"@) {
        if forall|i: int| 0 <= i < items.len() ==> is_session(#[trigger] items[i]) {
            assert forall|i: int| 0 <= i < items.len() implies (#[trigger] items[i]) is Object && (
            items[i].field("TranscodeSession"@) matches Some(block) ==> block is Object) by {
                assert(is_session(items[i]));
            }
            lemma_readable(items, 0);
        }
    }
}

/// What could not be read, and why.
pub open spec fn fault(why: Seq<char>) -> Result<Seq<JsonView>, Seq<char>> {
    Err(why)
}

/// Whether an entry is a session that can be read.
pub open spec fn is_session(entry: JsonView) -> bool {
    entry is Object && (entry.field("TranscodeSession"@) matches Some(block) ==> block is Object)
}

/// The first entry that is no session is named by its place, with what is wrong with it.
pub proof fn the_first_fault_is_named(raw: JsonView, items: Seq<JsonView>, i: int)
    requires
        raw.at("MediaContainer"@).field("Metadata"@) == Some(JsonView::Array(items)),
        number_at(raw.at("MediaContainer"@), "size"@) matches Some(n) && n >= 0,
        0 <= i < items.len(),
        !is_session(items[i]),
        forall|j: int| 0 <= j < i ==> is_session(#[trigger] items[j]),
    ensures
        sessions_of(raw) == fault(
            if !(items[i] is Object) {
                "MediaContainer.Metadata entry "@ + dec(i) + " was not a session object"@
            } else {
                "MediaContainer.Metadata entry "@ + dec(i) + " carried a TranscodeSession that was "@
                    + (match items[i].at("TranscodeSession"@) {
                    JsonView::Null => "null"@,
                    JsonView::Bool(_) => "a boolean"@,
                    JsonView::Int(_) => "a number"@,
                    JsonView::Float(_) => "a number"@,
                    JsonView::Str(_) => "a string"@,
                    JsonView::Array(_) => "a list"@,
                    JsonView::Object(_) => "an object"@,
                }) + ", not an object, and Plex emits neither a JSON null nor a scalar there"@
            },
        ),
{
    lemma_first_fault(items, i, 0);
}

proof fn lemma_first_fault(items: Seq<JsonView>, i: int, from: int)
    requires
        0 <= from <= i < items.len(),
        !is_session(items[i]),
        forall|j: int| 0 <= j < i ==> is_session(#[trigger] items[j]),
    ensures
        crate::media::now_playing::first_unreadable(items, from) == Some(i),
    decreases i - from,
{
    if from < i {
        assert(is_session(items[from]));
        lemma_first_fault(items, i, from + 1);
    }
}

/// Only a caller for whom both the calendar and the routine may be used is told anything; the server
/// is asked for its sessions, they are measured, it is asked about itself, and then the answer is
/// given.
pub proof fn entitled_callers_are_told(
    tool: MediaNowPlaying,
    caller: CallerContext,
    heard: LiveHeard,
)
    ensures
        !(caller.calendar() && caller.routine()) ==> tool.run_view(caller, heard)
            == NowPlayingView::Done(forbidden_view()),
        caller.calendar() && caller.routine() ==> match tool.server() {
            None => tool.run_view(caller, heard) == NowPlayingView::Done(not_configured_view()),
            Some(c) => match heard.sessions {
                None => tool.run_view(caller, heard) matches NowPlayingView::AskSessions(request)
                    && request.method == Method::Get && request.url == c.base()
                    + "/status/sessions"@,
                Some(reply) => match sessions_in(reply@) {
                    Err(e) => tool.run_view(caller, heard) == NowPlayingView::Done(error_view(e)),
                    Ok(items) => if heard.percents@.len() != items.len() {
                        tool.run_view(caller, heard) matches NowPlayingView::Measure(ratios)
                            && ratios.len() == items.len() && forall|i: int|
                            0 <= i < items.len() ==> #[trigger] ratios[i] == ratio_of(items[i])
                    } else {
                        match heard.identity {
                            None => tool.run_view(caller, heard) matches NowPlayingView::AskIdentity(
                                request,
                            ) && request.method == Method::Get && request.url == c.base()
                                + "/identity"@,
                            Some(identity) => tool.run_view(caller, heard) == NowPlayingView::Done(
                                live_answer(items, heard.percents@, identity@),
                            ),
                        }
                    },
                },
            },
        },
{
}

/// The sessions of a reply are those of the response that it carries; what could not be read is
/// malformed, and an error stays what it is.
pub proof fn sessions_come_from_the_reply(reply: ReplyView)
    ensures
        match live_reply_content(reply) {
            Err(e) => sessions_in(reply) == Err::<Seq<JsonView>, LiveErrorView>(e),
            Ok(raw) => match sessions_of(raw) {
                Ok(items) => sessions_in(reply) == Ok::<Seq<JsonView>, LiveErrorView>(items),
                Err(detail) => sessions_in(reply) == Err::<Seq<JsonView>, LiveErrorView>(
                    LiveErrorView::Malformed(detail),
                ),
            },
        },
{
    reveal(sessions_in);
}

/// The answer lists each session of the reply, in order, with the percentage in its place, and what
/// the second reply says of the server.
pub proof fn answers_list_every_session(
    items: Seq<JsonView>,
    percents: Seq<Option<String>>,
    identity: ReplyView,
)
    ensures
        live_answer(items, percents, identity) == ok_view(
            measured(items, percents),
            match live_reply_content(identity) {
                Ok(raw) => Some(server_view(raw)),
                Err(_) => None,
            },
        ),
        measured(items, percents).len() == items.len(),
        forall|i: int|
            0 <= i < items.len() ==> #[trigger] measured(items, percents)[i] == session_view(
                items[i],
                opt_text(percents[i]),
            ),
{
    reveal(live_answer);
}

} // verus!
