//! What a request for a film, a season or a series comes to, in terms of its arguments and of what
//! the services said.
use vstd::prelude::*;

use crate::http::{replies_view, HttpReply, Method, ReplyView};
use crate::json::{lemma_lookup_push, Json, JsonView};
use crate::media::clients::{library_content, reply_content, Service};
use crate::media::request::{request_answer, AddSettings, GB, MediaRequest, MutationTier};
use crate::text::{
    dec, has_substring, lowercase, opt_text, parse_int64, trimmed, trimming_twice_is_trimming_once,
};
use crate::tool::{ErrorView, Step, StepView};

verus! {

/// Whether the arguments name a title and a type.
pub open spec fn is_readable(args: JsonView) -> bool {
    &&& args.text_at("title"@) matches Some(t) && trimmed(t).len() > 0
    &&& args.text_at("media_type"@) == Some("movie"@) || args.text_at("media_type"@) == Some(
        "series"@,
    )
}

/// Whether the arguments are about a film.
pub open spec fn is_film(args: JsonView) -> bool {
    args.text_at("media_type"@) == Some("movie"@)
}

/// The title that the arguments name.
pub open spec fn asked_title(args: JsonView) -> Seq<char> {
    trimmed(args.text_at("title"@).unwrap())
}

/// Whether a quality hint speaks of something very large.
pub open spec fn hints_at_much(hint: Seq<char>) -> bool {
    has_substring(lowercase(hint), "remux"@) || has_substring(lowercase(hint), "2160p"@)
        || has_substring(lowercase(hint), "4k"@)
}

/// Whether the arguments ask for so much that a confirmation is due: the title is not settled, there
/// are several items, it is a whole series, or the download is larger than 20 gibibytes.
pub open spec fn asks_for_much(args: JsonView) -> bool {
    ||| args.bool_at("is_ambiguous"@) == Some(true)
    ||| args.at("item_count"@).uint64() matches Some(n) && n > 1
    ||| !is_film(args) && args.int_at("season"@) is None
    ||| match args.at("size_estimate_bytes"@).uint64() {
        Some(n) => n > 20 * GB,
        None => args.text_at("quality_hint"@) matches Some(h) && hints_at_much(h),
    }
}

/// Whether the caller confirms.
pub open spec fn confirms(args: JsonView) -> bool {
    args.bool_at("confirm"@) == Some(true)
}

/// The name of a library item: its `title`, else its `name`, else nothing.
pub open spec fn listed_name(item: JsonView) -> Seq<char> {
    match (item.text_at("title"@), item.text_at("name"@)) {
        (Some(t), _) => t,
        (None, Some(n)) => n,
        (None, None) => ""@,
    }
}

/// Whether a library holds a title, as the name of an item or within one, whatever the case.
pub open spec fn holds_title(items: Seq<JsonView>, title: Seq<char>) -> bool {
    exists|i: int|
        0 <= i < items.len() && has_substring(
            lowercase(listed_name(#[trigger] items[i])),
            lowercase(title),
        )
}

/// Arguments without a title, or without one of the two types, are refused before anything else is
/// looked at.
pub proof fn unreadable_requests_are_refused(
    tool: MediaRequest,
    args: JsonView,
    profile: Option<Seq<char>>,
    folder: Option<Seq<char>>,
    size_gb: Seq<char>,
    replies: Seq<ReplyView>,
)
    requires
        !is_readable(args),
    ensures
        tool.execute_view(args, profile, folder, size_gb, replies) matches StepView::Failed(
            ErrorView::InvalidArgument(message),
            None,
        ) && message == (if args.text_at("title"@) matches Some(t) && trimmed(t).len() > 0 {
            "media_type must be \"movie\" or \"series\""@
        } else {
            "title must not be empty"@
        }),
{
}

/// A request that asks for much and is not confirmed sends nothing and records nothing: it is
/// answered with what it would come to.
pub proof fn much_waits_for_confirmation(
    tool: MediaRequest,
    args: JsonView,
    profile: Option<Seq<char>>,
    folder: Option<Seq<char>>,
    size_gb: Seq<char>,
    replies: Seq<ReplyView>,
)
    requires
        is_readable(args),
        asks_for_much(args),
        !confirms(args),
    ensures
        tool.execute_view(args, profile, folder, size_gb, replies) matches StepView::Done(answer, None)
            && answer.at("structured"@).bool_at("executed"@) == Some(false)
            && answer.at("structured"@).bool_at("already_present"@) == Some(false)
            && answer.at("structured"@).text_at("tier"@) == Some("confirm"@),
{
    broadcast use lemma_lookup_push;
    lemma_answer_keys();
    lemma_sizes(args);
}

proof fn lemma_sizes(args: JsonView)
    ensures
        match args.at("size_estimate_bytes"@).uint64() {
            Some(n) => crate::media::request::estimated_size(
                crate::media::request::stated_size(args),
                args.text_at("quality_hint"@),
            ) == n,
            None => (crate::media::request::estimated_size(
                crate::media::request::stated_size(args),
                args.text_at("quality_hint"@),
            ) > 20 * GB) == (args.text_at("quality_hint"@) matches Some(h) && hints_at_much(h)),
        },
{
    reveal_strlit("remux");
    reveal_strlit("2160p");
    reveal_strlit("4k");
    assert("remux"@.len() == 5);
    assert("2160p"@.len() == 5);
    assert("4k"@.len() == 2);
    assert("remux"@[0] == 'r');
    assert("2160p"@[0] == '2');
    reveal_strlit("");
    assert(!has_substring(""@, "remux"@));
    assert(!has_substring(""@, "2160p"@));
    assert(!has_substring(""@, "4k"@));
}

proof fn lemma_answer_keys()
    ensures
        "structured"@ != "summary"@,
        "title"@ != "year"@ && "title"@ != "media_type"@ && "title"@ != "season"@ && "title"@
            != "quality_hint"@ && "title"@ != "estimated_size_bytes"@ && "title"@ != "tier"@
            && "title"@ != "executed"@ && "title"@ != "already_present"@ && "title"@ != "note"@,
        "year"@ != "media_type"@ && "year"@ != "season"@ && "year"@ != "quality_hint"@ && "year"@
            != "estimated_size_bytes"@ && "year"@ != "tier"@ && "year"@ != "executed"@ && "year"@
            != "already_present"@ && "year"@ != "note"@,
        "media_type"@ != "season"@ && "media_type"@ != "quality_hint"@ && "media_type"@
            != "estimated_size_bytes"@ && "media_type"@ != "tier"@ && "media_type"@ != "executed"@
            && "media_type"@ != "already_present"@ && "media_type"@ != "note"@,
        "season"@ != "quality_hint"@ && "season"@ != "estimated_size_bytes"@ && "season"@ != "tier"@
            && "season"@ != "executed"@ && "season"@ != "already_present"@ && "season"@ != "note"@,
        "quality_hint"@ != "estimated_size_bytes"@ && "quality_hint"@ != "tier"@ && "quality_hint"@
            != "executed"@ && "quality_hint"@ != "already_present"@ && "quality_hint"@ != "note"@,
        "estimated_size_bytes"@ != "tier"@ && "estimated_size_bytes"@ != "executed"@
            && "estimated_size_bytes"@ != "already_present"@ && "estimated_size_bytes"@ != "note"@,
        "tier"@ != "executed"@ && "tier"@ != "already_present"@ && "tier"@ != "note"@,
        "executed"@ != "already_present"@ && "executed"@ != "note"@,
        "already_present"@ != "note"@,
{
    reveal_strlit("structured");
    reveal_strlit("summary");
    reveal_strlit("title");
    reveal_strlit("year");
    reveal_strlit("media_type");
    reveal_strlit("season");
    reveal_strlit("quality_hint");
    reveal_strlit("estimated_size_bytes");
    reveal_strlit("tier");
    reveal_strlit("executed");
    reveal_strlit("already_present");
    reveal_strlit("note");
    assert("structured"@.len() == 10);
    assert("summary"@.len() == 7);
    assert("title"@.len() == 5);
    assert("year"@.len() == 4);
    assert("media_type"@.len() == 10);
    assert("season"@.len() == 6);
    assert("quality_hint"@.len() == 12);
    assert("estimated_size_bytes"@.len() == 20);
    assert("tier"@.len() == 4);
    assert("executed"@.len() == 8);
    assert("already_present"@.len() == 15);
    assert("note"@.len() == 4);
    assert("structured"@[0] == 's');
    assert("media_type"@[0] == 'm');
    assert("year"@[0] == 'y');
    assert("tier"@[0] == 't');
    assert("note"@[0] == 'n');
}

/// Any other request first looks at the library of the service that manages its type, and fails
/// where that service is not configured.
pub proof fn cleared_requests_look_first(
    tool: MediaRequest,
    args: JsonView,
    profile: Option<Seq<char>>,
    folder: Option<Seq<char>>,
    size_gb: Seq<char>,
)
    requires
        is_readable(args),
        !asks_for_much(args) || confirms(args),
    ensures
        is_film(args) ==> match tool.radarr {
            Some(c) => tool.execute_view(args, profile, folder, size_gb, Seq::empty())
                matches StepView::Send(request) && request.method == Method::Get && request.url
                == c.base() + "/api/v3/movie"@ && request.headers == seq![
                ("X-Api-Key"@, c.secret()),
            ] && request.query.len() == 0 && request.body is None,
            None => tool.execute_view(args, profile, folder, size_gb, Seq::empty())
                matches StepView::Failed(e, _) && e == ErrorView::NotConfigured(
                "RADARR_URL/RADARR_API_KEY not set"@,
            ),
        },
        !is_film(args) ==> match tool.sonarr {
            Some(c) => tool.execute_view(args, profile, folder, size_gb, Seq::empty())
                matches StepView::Send(request) && request.method == Method::Get && request.url
                == c.base() + "/api/v3/series"@ && request.headers == seq![
                ("X-Api-Key"@, c.secret()),
            ] && request.query.len() == 0 && request.body is None,
            None => tool.execute_view(args, profile, folder, size_gb, Seq::empty())
                matches StepView::Failed(e, _) && e == ErrorView::NotConfigured(
                "SONARR_URL/SONARR_API_KEY not set"@,
            ),
        },
{
    lemma_sizes(args);
    assert(Seq::<(Seq<char>, Seq<char>)>::empty().push(
        ("X-Api-Key"@, tool.radarr.unwrap().secret()),
    ) =~= seq![("X-Api-Key"@, tool.radarr.unwrap().secret())]);
    assert(Seq::<(Seq<char>, Seq<char>)>::empty().push(
        ("X-Api-Key"@, tool.sonarr.unwrap().secret()),
    ) =~= seq![("X-Api-Key"@, tool.sonarr.unwrap().secret())]);
    reveal_strlit("movie");
    reveal_strlit("series");
    assert("movie"@.len() == 5);
    assert("series"@.len() == 6);
}

/// A title that the library holds is not asked for again: the call ends, with nothing sent and
/// nothing recorded.
pub proof fn held_titles_are_not_requested(
    tool: MediaRequest,
    args: JsonView,
    profile: Option<Seq<char>>,
    folder: Option<Seq<char>>,
    size_gb: Seq<char>,
    replies: Seq<ReplyView>,
)
    requires
        is_readable(args),
        !asks_for_much(args) || confirms(args),
        replies.len() > 0,
        is_film(args) ==> tool.radarr is Some && holds_title(
            library_content(Service::Radarr, replies[0]),
            asked_title(args),
        ),
        !is_film(args) ==> tool.sonarr is Some && holds_title(
            library_content(Service::Sonarr, replies[0]),
            asked_title(args),
        ),
        lowercase(asked_title(args)).len() > 0,
    ensures
        tool.execute_view(args, profile, folder, size_gb, replies) matches StepView::Done(answer, None)
            && answer.at("structured"@).bool_at("executed"@) == Some(false)
            && answer.at("structured"@).bool_at("already_present"@) == Some(true),
{
    broadcast use lemma_lookup_push;
    lemma_answer_keys();
    lemma_sizes(args);
    reveal_strlit("movie");
    reveal_strlit("series");
    assert("movie"@.len() == 5);
    assert("series"@.len() == 6);
    let items = if is_film(args) {
        library_content(Service::Radarr, replies[0])
    } else {
        library_content(Service::Sonarr, replies[0])
    };
    lemma_presence(items, args.text_at("title"@).unwrap());
}

proof fn lemma_presence(items: Seq<JsonView>, title: Seq<char>)
    ensures
        crate::media::request::is_present(items, trimmed(title)) <==> lowercase(
            trimmed(title),
        ).len() > 0 && holds_title(items, trimmed(title)),
{
    trimming_twice_is_trimming_once(title);
    let t = trimmed(title);
    assert forall|i: int| 0 <= i < items.len() implies crate::media::request::item_name(
        #[trigger] items[i],
    ) == listed_name(items[i]) by {}
    if crate::media::request::is_present(items, t) {
        let i = choose|i: int|
            0 <= i < items.len() && has_substring(
                lowercase(crate::media::request::item_name(#[trigger] items[i])),
                lowercase(t),
            );
        assert(has_substring(lowercase(listed_name(items[i])), lowercase(t)));
    }
    if holds_title(items, t) {
        let i = choose|i: int|
            0 <= i < items.len() && has_substring(
                lowercase(listed_name(#[trigger] items[i])),
                lowercase(t),
            );
        assert(has_substring(
            lowercase(crate::media::request::item_name(items[i])),
            lowercase(t),
        ));
    }
}

/// Whether a request may go on to the addition of its title: nothing stands in its way, its service
/// is configured and has answered, and the library does not hold the title.
pub open spec fn may_be_added(tool: MediaRequest, args: JsonView, replies: Seq<ReplyView>) -> bool {
    &&& is_readable(args)
    &&& !asks_for_much(args) || confirms(args)
    &&& replies.len() > 0
    &&& is_film(args) ==> tool.radarr is Some && !holds_title(
        library_content(Service::Radarr, replies[0]),
        asked_title(args),
    )
    &&& !is_film(args) ==> tool.sonarr is Some && !holds_title(
        library_content(Service::Sonarr, replies[0]),
        asked_title(args),
    )
}

/// The id that the arguments give in the space of the managing service.
pub open spec fn asked_id(args: JsonView) -> Option<int> {
    if is_film(args) {
        args.int_at("tmdb_id"@)
    } else {
        args.int_at("tvdb_id"@)
    }
}

/// A configured value that is an integer.
pub open spec fn configured_number(raw: Option<Seq<char>>) -> Option<int> {
    match raw {
        Some(s) => parse_int64(trimmed(s)),
        None => None,
    }
}

/// A configured value that is not blank.
pub open spec fn configured_text(raw: Option<Seq<char>>) -> Option<Seq<char>> {
    match raw {
        Some(s) => if trimmed(s).len() > 0 {
            Some(trimmed(s))
        } else {
            None
        },
        None => None,
    }
}

/// What is posted adds the very film that was asked for: its id, its title and its year, with the
/// configured profile and folder, monitored and searched for.
pub proof fn the_film_that_was_asked_for_is_added(
    tool: MediaRequest,
    args: JsonView,
    profile: Option<Seq<char>>,
    folder: Option<Seq<char>>,
    size_gb: Seq<char>,
    replies: Seq<ReplyView>,
)
    requires
        may_be_added(tool, args, replies),
        replies.len() == 1,
        is_film(args),
        configured_number(profile) is Some,
        configured_text(folder) is Some,
        asked_id(args) is Some,
    ensures
        tool.execute_view(args, profile, folder, size_gb, replies) matches StepView::Send(request) && {
            &&& request.method == Method::Post
            &&& request.url == tool.radarr.unwrap().base() + "/api/v3/movie"@
            &&& request.headers == seq![("X-Api-Key"@, tool.radarr.unwrap().secret())]
            &&& request.query.len() == 0
            &&& request.body matches Some(body) && {
                &&& body.int_at("tmdbId"@) == args.int_at("tmdb_id"@)
                &&& body.text_at("title"@) == Some(asked_title(args))
                &&& body.int_at("qualityProfileId"@) == configured_number(profile)
                &&& body.text_at("rootFolderPath"@) == configured_text(folder)
                &&& body.bool_at("monitored"@) == Some(true)
                &&& body.at("addOptions"@).bool_at("searchForMovie"@) == Some(true)
                &&& body.field("year"@) == (match args.text_at("year"@) {
                    Some(y) => match parse_int64(y) {
                        Some(n) => Some(JsonView::Int(n)),
                        None => None,
                    },
                    None => None,
                })
                &&& body.field("seasons"@) is None
            }
        },
{
    broadcast use lemma_lookup_push;
    lemma_sizes(args);
    reveal_strlit("movie");
    reveal_strlit("series");
    assert("movie"@.len() == 5);
    assert("series"@.len() == 6);
    reveal_strlit("tmdbId");
    reveal_strlit("tvdbId");
    reveal_strlit("title");
    reveal_strlit("qualityProfileId");
    reveal_strlit("rootFolderPath");
    reveal_strlit("monitored");
    reveal_strlit("addOptions");
    reveal_strlit("year");
    reveal_strlit("seasons");
    reveal_strlit("searchForMovie");
    reveal_strlit("searchForMissingEpisodes");
    assert("tmdbId"@.len() == 6);
    assert("tvdbId"@.len() == 6);
    assert("title"@.len() == 5);
    assert("qualityProfileId"@.len() == 16);
    assert("rootFolderPath"@.len() == 14);
    assert("monitored"@.len() == 9);
    assert("addOptions"@.len() == 10);
    assert("year"@.len() == 4);
    assert("seasons"@.len() == 7);
    assert("searchForMovie"@.len() == 14);
    assert("searchForMissingEpisodes"@.len() == 24);
    assert("tmdbId"@[1] == 'm');
    assert("tvdbId"@[1] == 'v');
    assert("rootFolderPath"@[0] == 'r');
    assert("searchForMovie"@[0] == 's');
    lemma_presence(
        library_content(Service::Radarr, replies[0]),
        args.text_at("title"@).unwrap(),
    );
    assert(Seq::<(Seq<char>, Seq<char>)>::empty().push(
        ("X-Api-Key"@, tool.radarr.unwrap().secret()),
    ) =~= seq![("X-Api-Key"@, tool.radarr.unwrap().secret())]);
}

/// What is posted adds the very season, or series, that was asked for: its id and its title, with
/// the configured profile and folder, monitored and searched for. Where a season is named, it is the
/// one season of the request; where none is, the request names no seasons.
pub proof fn the_season_that_was_asked_for_is_added(
    tool: MediaRequest,
    args: JsonView,
    profile: Option<Seq<char>>,
    folder: Option<Seq<char>>,
    size_gb: Seq<char>,
    replies: Seq<ReplyView>,
)
    requires
        may_be_added(tool, args, replies),
        replies.len() == 1,
        !is_film(args),
        configured_number(profile) is Some,
        configured_text(folder) is Some,
        asked_id(args) is Some,
    ensures
        tool.execute_view(args, profile, folder, size_gb, replies) matches StepView::Send(request) && {
            &&& request.method == Method::Post
            &&& request.url == tool.sonarr.unwrap().base() + "/api/v3/series"@
            &&& request.headers == seq![("X-Api-Key"@, tool.sonarr.unwrap().secret())]
            &&& request.query.len() == 0
            &&& request.body matches Some(body) && {
                &&& body.int_at("tvdbId"@) == args.int_at("tvdb_id"@)
                &&& body.text_at("title"@) == Some(asked_title(args))
                &&& body.int_at("qualityProfileId"@) == configured_number(profile)
                &&& body.text_at("rootFolderPath"@) == configured_text(folder)
                &&& body.bool_at("monitored"@) == Some(true)
                &&& body.at("addOptions"@).bool_at("searchForMissingEpisodes"@) == Some(true)
                &&& body.field("year"@) is None
                &&& match args.int_at("season"@) {
                    Some(season) => body.items_at("seasons"@) matches Some(seasons) && seasons.len()
                        == 1 && seasons[0].int_at("seasonNumber"@) == Some(season)
                        && seasons[0].bool_at("monitored"@) == Some(true),
                    None => body.field("seasons"@) is None,
                }
            }
        },
{
    broadcast use lemma_lookup_push;
    lemma_sizes(args);
    reveal_strlit("movie");
    reveal_strlit("series");
    assert("movie"@.len() == 5);
    assert("series"@.len() == 6);
    reveal_strlit("tmdbId");
    reveal_strlit("tvdbId");
    reveal_strlit("title");
    reveal_strlit("qualityProfileId");
    reveal_strlit("rootFolderPath");
    reveal_strlit("monitored");
    reveal_strlit("addOptions");
    reveal_strlit("year");
    reveal_strlit("seasons");
    reveal_strlit("searchForMovie");
    reveal_strlit("searchForMissingEpisodes");
    reveal_strlit("seasonNumber");
    assert("tmdbId"@.len() == 6);
    assert("tvdbId"@.len() == 6);
    assert("title"@.len() == 5);
    assert("qualityProfileId"@.len() == 16);
    assert("rootFolderPath"@.len() == 14);
    assert("monitored"@.len() == 9);
    assert("addOptions"@.len() == 10);
    assert("year"@.len() == 4);
    assert("seasons"@.len() == 7);
    assert("searchForMovie"@.len() == 14);
    assert("searchForMissingEpisodes"@.len() == 24);
    assert("seasonNumber"@.len() == 12);
    assert("tmdbId"@[1] == 'm');
    assert("tvdbId"@[1] == 'v');
    assert("rootFolderPath"@[0] == 'r');
    assert("searchForMovie"@[0] == 's');
    lemma_presence(
        library_content(Service::Sonarr, replies[0]),
        args.text_at("title"@).unwrap(),
    );
    assert(Seq::<(Seq<char>, Seq<char>)>::empty().push(
        ("X-Api-Key"@, tool.sonarr.unwrap().secret()),
    ) =~= seq![("X-Api-Key"@, tool.sonarr.unwrap().secret())]);
}

/// The step that carries out a cleared request for a season posts that season.
pub proof fn steps_post_the_season_asked_for(
    tool: &MediaRequest,
    args: &Json,
    settings: &AddSettings,
    size_gb: &str,
    replies: &Vec<HttpReply>,
    step: Step,
)
    requires
        call_ensures(MediaRequest::execute, (tool, args, settings, size_gb, replies), step),
        may_be_added(*tool, args@, replies_view(replies@)),
        replies@.len() == 1,
        !is_film(args@),
        configured_number(opt_text(settings.quality_profile)) is Some,
        configured_text(opt_text(settings.root_folder)) is Some,
        asked_id(args@) is Some,
        args@.int_at("season"@) is Some,
    ensures
        step matches Step::Send(request) && request@.body matches Some(body) && {
            &&& body.int_at("tvdbId"@) == args@.int_at("tvdb_id"@)
            &&& body.items_at("seasons"@) matches Some(seasons) && seasons.len() == 1
                && seasons[0].int_at("seasonNumber"@) == args@.int_at("season"@)
        },
{
    the_season_that_was_asked_for_is_added(
        *tool,
        args@,
        opt_text(settings.quality_profile),
        opt_text(settings.root_folder),
        size_gb@,
        replies_view(replies@),
    );
}

/// Where a value that an addition takes is missing, nothing is posted: the call fails and names it.
pub proof fn missing_values_stop_an_addition(
    tool: MediaRequest,
    args: JsonView,
    profile: Option<Seq<char>>,
    folder: Option<Seq<char>>,
    size_gb: Seq<char>,
    replies: Seq<ReplyView>,
)
    requires
        may_be_added(tool, args, replies),
        configured_number(profile) is None || configured_text(folder) is None || asked_id(args) is None,
    ensures
        tool.execute_view(args, profile, folder, size_gb, replies) matches StepView::Failed(e, Some(audit))
            && !audit.success && audit.tool == "media_request"@ && e == (if configured_number(profile)
            is None {
            ErrorView::NotConfigured(
                (if is_film(args) {
                    "RADARR_QUALITY_PROFILE_ID"@
                } else {
                    "SONARR_QUALITY_PROFILE_ID"@
                }) + " not set (or not a valid integer)"@,
            )
        } else if configured_text(folder) is None {
            ErrorView::NotConfigured(
                (if is_film(args) {
                    "RADARR_ROOT_FOLDER_PATH"@
                } else {
                    "SONARR_ROOT_FOLDER_PATH"@
                }) + " not set"@,
            )
        } else {
            ErrorView::InvalidArgument(
                if is_film(args) {
                    "tmdb_id is required to add a movie (resolve via media_search first)"@
                } else {
                    "tvdb_id is required to add a series (resolve via media_search first)"@
                },
            )
        }),
{
    lemma_sizes(args);
    reveal_strlit("movie");
    reveal_strlit("series");
    assert("movie"@.len() == 5);
    assert("series"@.len() == 6);
    let items = if is_film(args) {
        library_content(Service::Radarr, replies[0])
    } else {
        library_content(Service::Sonarr, replies[0])
    };
    lemma_presence(items, args.text_at("title"@).unwrap());
}

/// What the managing service said to the addition.
pub open spec fn said_of_addition(args: JsonView, replies: Seq<ReplyView>) -> Result<
    JsonView,
    ErrorView,
> {
    reply_content(
        if is_film(args) {
            Service::Radarr
        } else {
            Service::Sonarr
        },
        replies[1],
    )
}

/// Whether a request was posted and answered.
pub open spec fn was_posted(
    tool: MediaRequest,
    args: JsonView,
    profile: Option<Seq<char>>,
    folder: Option<Seq<char>>,
    replies: Seq<ReplyView>,
) -> bool {
    &&& may_be_added(tool, args, replies)
    &&& configured_number(profile) is Some
    &&& configured_text(folder) is Some
    &&& asked_id(args) is Some
    &&& replies.len() > 1
}

/// Where the service took the title and tracking is configured, the tracker is told of the very same
/// title, and of its season where one was named.
pub proof fn additions_are_followed_up(
    tool: MediaRequest,
    args: JsonView,
    profile: Option<Seq<char>>,
    folder: Option<Seq<char>>,
    size_gb: Seq<char>,
    replies: Seq<ReplyView>,
)
    requires
        was_posted(tool, args, profile, folder, replies),
        replies.len() == 2,
        said_of_addition(args, replies) is Ok,
        tool.jellyseerr is Some,
    ensures
        tool.execute_view(args, profile, folder, size_gb, replies) matches StepView::Send(request) && {
            &&& request.method == Method::Post
            &&& request.url == tool.jellyseerr.unwrap().base() + "/api/v1/request"@
            &&& request.query.len() == 0
            &&& request.headers == seq![
                ("Accept"@, "application/json"@),
                ("X-Api-Key"@, tool.jellyseerr.unwrap().secret()),
            ]
            &&& request.body matches Some(body) && {
                &&& body.text_at("mediaType"@) == Some(
                    if is_film(args) {
                        "movie"@
                    } else {
                        "tv"@
                    },
                )
                &&& body.int_at("mediaId"@) == asked_id(args)
                &&& is_film(args) ==> body.field("seasons"@) is None
                &&& !is_film(args) ==> match args.int_at("season"@) {
                    Some(season) => body.items_at("seasons"@) == Some(seq![JsonView::Int(season)]),
                    None => body.field("seasons"@) == Some(JsonView::Null),
                }
            }
        },
{
    broadcast use lemma_lookup_push;
    lemma_sizes(args);
    reveal_strlit("movie");
    reveal_strlit("series");
    assert("movie"@.len() == 5);
    assert("series"@.len() == 6);
    reveal_strlit("mediaType");
    reveal_strlit("mediaId");
    reveal_strlit("seasons");
    assert("mediaType"@.len() == 9);
    assert("mediaId"@.len() == 7);
    assert("seasons"@.len() == 7);
    assert("mediaId"@[0] == 'm');
    assert("seasons"@[0] == 's');
    let items = if is_film(args) {
        library_content(Service::Radarr, replies[0])
    } else {
        library_content(Service::Sonarr, replies[0])
    };
    lemma_presence(items, args.text_at("title"@).unwrap());
    assert(Seq::<(Seq<char>, Seq<char>)>::empty().push(("Accept"@, "application/json"@)).push(
        ("X-Api-Key"@, tool.jellyseerr.unwrap().secret()),
    ) =~= seq![
        ("Accept"@, "application/json"@),
        ("X-Api-Key"@, tool.jellyseerr.unwrap().secret()),
    ]);
}

/// A request counts as carried out exactly where the service took the title; then a record says
/// which. Where the service did not, its word is the error of the call.
pub proof fn the_service_decides(
    tool: MediaRequest,
    args: JsonView,
    profile: Option<Seq<char>>,
    folder: Option<Seq<char>>,
    size_gb: Seq<char>,
    replies: Seq<ReplyView>,
)
    requires
        was_posted(tool, args, profile, folder, replies),
        tool.jellyseerr is Some && said_of_addition(args, replies) is Ok ==> replies.len() > 2,
    ensures
        match said_of_addition(args, replies) {
            Err(e) => tool.execute_view(args, profile, folder, size_gb, replies)
                matches StepView::Failed(f, Some(audit)) && f == e && !audit.success && audit.tool
                == "media_request"@ && audit.detail == "media_request failed: title="@
                + asked_title(args) + " media_type="@ + args.text_at("media_type"@).unwrap()
                + " error="@ + e.message(),
            Ok(_) => tool.execute_view(args, profile, folder, size_gb, replies)
                matches StepView::Done(answer, Some(audit)) && {
                &&& answer.at("structured"@).bool_at("executed"@) == Some(true)
                &&& answer.at("structured"@).bool_at("already_present"@) == Some(false)
                &&& audit.success
                &&& audit.tool == "media_request"@
                &&& audit.detail == "media_request executed: title="@ + asked_title(args)
                    + " media_type="@ + args.text_at("media_type"@).unwrap() + " season="@ + (
                match args.int_at("season"@) {
                    Some(season) => "Some("@ + dec(season) + ")"@,
                    None => "None"@,
                }) + " tier="@ + (if asks_for_much(args) {
                    "Confirm"@
                } else {
                    "Light"@
                }) + " size_bytes="@ + dec(
                    answer.at("structured"@).at("estimated_size_bytes"@).uint64().unwrap(),
                )
            },
        },
{
    broadcast use lemma_lookup_push;
    lemma_answer_keys();
    lemma_sizes(args);
    reveal_strlit("movie");
    reveal_strlit("series");
    assert("movie"@.len() == 5);
    assert("series"@.len() == 6);
    let items = if is_film(args) {
        library_content(Service::Radarr, replies[0])
    } else {
        library_content(Service::Sonarr, replies[0])
    };
    lemma_presence(items, args.text_at("title"@).unwrap());
}

/// Every answer to a request repeats what was asked: title, year, type, season and quality hint. It
/// estimates the size as stated, or by the hint; its tier says whether a confirmation was due.
pub proof fn answers_repeat_the_request(
    tool: MediaRequest,
    args: JsonView,
    profile: Option<Seq<char>>,
    folder: Option<Seq<char>>,
    size_gb: Seq<char>,
    replies: Seq<ReplyView>,
)
    requires
        tool.execute_view(args, profile, folder, size_gb, replies) is Done,
    ensures
        is_readable(args),
        ({
            let said = tool.execute_view(args, profile, folder, size_gb, replies)->Done_0;
            let it = said.at("structured"@);
            &&& it.text_at("title"@) == Some(asked_title(args))
            &&& it.text_at("year"@) == args.text_at("year"@)
            &&& it.text_at("media_type"@) == args.text_at("media_type"@)
            &&& it.int_at("season"@) == args.int_at("season"@)
            &&& it.text_at("quality_hint"@) == args.text_at("quality_hint"@)
            &&& it.text_at("tier"@) == Some(
                if asks_for_much(args) {
                    "confirm"@
                } else {
                    "light"@
                },
            )
            &&& it.field("note"@) == Some(JsonView::Null)
            &&& args.at("size_estimate_bytes"@).uint64() matches Some(n) ==> it.at(
                "estimated_size_bytes"@,
            ) == JsonView::Int(n)
            &&& args.at("size_estimate_bytes"@).uint64() is None ==> it.at("estimated_size_bytes"@)
                == JsonView::Int(
                match args.text_at("quality_hint"@) {
                    None => 4 * GB,
                    Some(hint) => if hints_at_much(hint) {
                        25 * GB
                    } else if has_substring(lowercase(hint), "720p"@) && !has_substring(
                        lowercase(hint),
                        "1080p"@,
                    ) {
                        2 * GB
                    } else {
                        4 * GB
                    },
                },
            )
            &&& !(it.bool_at("executed"@) == Some(true) && it.bool_at("already_present"@) == Some(
                true,
            ))
        }),
{
    broadcast use lemma_lookup_push;
    lemma_answer_keys();
    lemma_sizes(args);
    reveal_strlit("movie");
    reveal_strlit("series");
    assert("movie"@.len() == 5);
    assert("series"@.len() == 6);
    reveal_strlit("720p");
    reveal_strlit("1080p");
    assert("720p"@.len() == 4);
    assert("1080p"@.len() == 5);
    reveal_strlit("");
    assert(!has_substring(""@, "720p"@));
    assert(!has_substring(""@, "1080p"@));
}

/// What is asked for, in words: a film by its title, a season by title and number, and a series as a
/// whole.
pub open spec fn target_words(args: JsonView) -> Seq<char> {
    if is_film(args) {
        asked_title(args)
    } else {
        match args.int_at("season"@) {
            Some(season) => asked_title(args) + " season "@ + dec(season),
            None => asked_title(args) + " (whole series)"@,
        }
    }
}

/// The year in brackets, where one is given.
pub open spec fn year_words(args: JsonView) -> Seq<char> {
    match args.text_at("year"@) {
        Some(y) => " ("@ + y + ")"@,
        None => ""@,
    }
}

/// The summary of a request names what was asked for and says what became of it: it was in the
/// library, it was grabbed, or it waits for a confirmation, with its size and quality.
pub proof fn summaries_say_what_became_of_it(
    tool: MediaRequest,
    args: JsonView,
    profile: Option<Seq<char>>,
    folder: Option<Seq<char>>,
    size_gb: Seq<char>,
    replies: Seq<ReplyView>,
)
    requires
        tool.execute_view(args, profile, folder, size_gb, replies) is Done,
    ensures
        ({
            let said = tool.execute_view(args, profile, folder, size_gb, replies)->Done_0;
            let it = said.at("structured"@);
            said.text_at("summary"@) == Some(
                if it.bool_at("already_present"@) == Some(true) {
                    "\""@ + target_words(args)
                        + "\" is already in the library -- not requesting a duplicate."@
                } else if it.bool_at("executed"@) == Some(true) {
                    "Grabbed \""@ + target_words(args) + "\""@ + year_words(args) + " (~"@ + size_gb
                        + " GB) -- Radarr/Sonarr is searching indexers now."@
                } else {
                    "\""@ + target_words(args) + "\""@ + year_words(args) + " is ~"@ + size_gb
                        + " GB"@ + (match args.text_at("quality_hint"@) {
                        Some(q) => " at "@ + q,
                        None => ""@,
                    })
                        + " -- this needs confirmation before I grab it. Reply with confirm: true to proceed."@
                },
            )
        }),
{
    broadcast use lemma_lookup_push;
    lemma_answer_keys();
    lemma_sizes(args);
    reveal_strlit("movie");
    reveal_strlit("series");
    assert("movie"@.len() == 5);
    assert("series"@.len() == 6);
    reveal_strlit("");
    if let Some(q) = args.text_at("quality_hint"@) {
        assert(" at "@ + q + ""@ =~= " at "@ + q);
    }
}

/// The answer to a small request that is neither held nor made yet says that it is ready to be made.
pub proof fn small_requests_are_ready(
    title: Seq<char>,
    year: Option<Seq<char>>,
    season: Option<int>,
    quality_hint: Option<Seq<char>>,
    est_size_bytes: u64,
    size_gb: Seq<char>,
    note: Option<Seq<char>>,
)
    ensures
        ({
            let said = |media_type: Seq<char>|
                request_answer(
                    title,
                    year,
                    media_type,
                    season,
                    quality_hint,
                    est_size_bytes,
                    size_gb,
                    MutationTier::Light,
                    false,
                    false,
                    note,
                ).text_at("summary"@);
            &&& said("movie"@) == Some("\""@ + title + "\" is ready to request."@)
            &&& said("series"@) == Some(
                "\""@ + title + (match season {
                    Some(n) => " season "@ + dec(n),
                    None => " (whole series)"@,
                }) + "\" is ready to request."@,
            )
        }),
{
    broadcast use lemma_lookup_push;
    reveal_strlit("summary");
    reveal_strlit("structured");
    reveal_strlit("movie");
    reveal_strlit("series");
    assert("summary"@.len() == 7);
    assert("structured"@.len() == 10);
    assert("movie"@.len() == 5);
    assert("series"@.len() == 6);
    match season {
        Some(n) => {
            assert("\""@ + (title + " season "@ + dec(n)) =~= "\""@ + title + (" season "@ + dec(n)));
        },
        None => {
            assert("\""@ + (title + " (whole series)"@) =~= "\""@ + title + " (whole series)"@);
        },
    }
}

} // verus!
