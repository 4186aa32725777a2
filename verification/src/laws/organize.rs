//! What changing, deleting and cleaning up come to, in terms of the arguments and of what the
//! libraries list.
use vstd::prelude::*;

use crate::http::{Method, ReplyView, RequestView};
use crate::json::{lemma_lookup_push, strings_in, with_field_sets_one_field, JsonView};
use crate::laws::request::is_film;
use crate::media::clients::{library_content, reply_content, Service};
use crate::media::clients::radarr::RadarrClient;
use crate::media::clients::sonarr::SonarrClient;
use crate::media::organize::{
    all_trimmed, candidates_where, carried_out, cleanup_answer, cleanup_confirmation,
    cleanup_is_confirmed, delete_is_confirmed, item_with_id, removal_audits, titles,
    titles_with_fate, CleanupActionView, CleanupCandidate, CleanupView, Fate, MediaCleanup,
    MediaDelete, MediaOrganize, RemovedView,
};
use crate::media::request::MediaType;
use crate::text::{dec, joined, trimmed};
use crate::tool::{ErrorView, StepView};

verus! {

// ── finding the item ────────────────────────────────────────────────────────

/// The item with an id is the first that states it.
pub proof fn items_are_found_by_their_id(items: Seq<JsonView>, id: int)
    ensures
        match item_with_id(items, id) {
            Some(item) => exists|i: int|
                {
                    &&& 0 <= i < items.len()
                    &&& #[trigger] items[i] == item
                    &&& item.int_at("id"@) == Some(id)
                    &&& forall|j: int|
                        0 <= j < i ==> (#[trigger] items[j]).int_at("id"@) != Some(id)
                },
            None => forall|j: int|
                0 <= j < items.len() ==> (#[trigger] items[j]).int_at("id"@) != Some(id),
        },
    decreases items.len(),
{
    if items.len() > 0 {
        if items[0].int_at("id"@) == Some(id) {
            assert(items[0] == item_with_id(items, id).unwrap());
        } else {
            let rest = items.subrange(1, items.len() as int);
            items_are_found_by_their_id(rest, id);
            if let Some(item) = item_with_id(rest, id) {
                let i = choose|i: int|
                    {
                        &&& 0 <= i < rest.len()
                        &&& #[trigger] rest[i] == item
                        &&& item.int_at("id"@) == Some(id)
                        &&& forall|j: int|
                            0 <= j < i ==> (#[trigger] rest[j]).int_at("id"@) != Some(id)
                    };
                assert(items[i + 1] == item);
                assert forall|j: int| 0 <= j < i + 1 implies (#[trigger] items[j]).int_at("id"@)
                    != Some(id) by {
                    if j > 0 {
                        assert(rest[j - 1] == items[j]);
                    }
                }
            } else {
                assert forall|j: int| 0 <= j < items.len() implies (#[trigger] items[j]).int_at(
                    "id"@,
                ) != Some(id) by {
                    if j > 0 {
                        assert(rest[j - 1] == items[j]);
                    }
                }
            }
        }
    }
}

/// The title of an item, or nothing.
pub open spec fn title_listed(item: JsonView) -> Seq<char> {
    if item.text_at("title"@) is Some {
        item.text_at("title"@).unwrap()
    } else {
        ""@
    }
}

/// Whether the arguments name one of the two types.
pub open spec fn names_type(args: JsonView) -> bool {
    args.text_at("media_type"@) == Some("movie"@) || args.text_at("media_type"@) == Some("series"@)
}

/// The service that manages the type that the arguments name.
pub open spec fn manager(args: JsonView) -> Service {
    if is_film(args) {
        Service::Radarr
    } else {
        Service::Sonarr
    }
}

/// The error for the missing configuration of that service.
pub open spec fn unset(args: JsonView) -> ErrorView {
    ErrorView::NotConfigured(
        if is_film(args) {
            "RADARR_URL/RADARR_API_KEY not set"@
        } else {
            "SONARR_URL/SONARR_API_KEY not set"@
        },
    )
}

/// Whether that service is configured.
pub open spec fn is_managed(
    args: JsonView,
    radarr: Option<RadarrClient>,
    sonarr: Option<SonarrClient>,
) -> bool {
    if is_film(args) {
        radarr is Some
    } else {
        sonarr is Some
    }
}

/// Whether a request goes to the managing service, with its key: to its library, or to one item of
/// it.
pub open spec fn goes_to(
    request: RequestView,
    method: Method,
    args: JsonView,
    radarr: Option<RadarrClient>,
    sonarr: Option<SonarrClient>,
    item: Option<int>,
) -> bool {
    let path = match item {
        Some(id) => "/"@ + dec(id),
        None => ""@,
    };
    &&& request.method == method
    &&& is_film(args) ==> request.url == radarr.unwrap().base() + "/api/v3/movie"@ + path
        && request.headers == seq![("X-Api-Key"@, radarr.unwrap().secret())]
    &&& !is_film(args) ==> request.url == sonarr.unwrap().base() + "/api/v3/series"@ + path
        && request.headers == seq![("X-Api-Key"@, sonarr.unwrap().secret())]
}

proof fn lemma_paths(base: Seq<char>, id: int)
    ensures
        base + "/api/v3/movie"@ + ""@ == base + "/api/v3/movie"@,
        base + "/api/v3/series"@ + ""@ == base + "/api/v3/series"@,
        base + ("/api/v3/movie/"@ + dec(id)) == base + "/api/v3/movie"@ + ("/"@ + dec(id)),
        base + ("/api/v3/series/"@ + dec(id)) == base + "/api/v3/series"@ + ("/"@ + dec(id)),
{
    reveal_strlit("");
    reveal_strlit("/");
    reveal_strlit("/api/v3/movie");
    reveal_strlit("/api/v3/movie/");
    reveal_strlit("/api/v3/series");
    reveal_strlit("/api/v3/series/");
    assert("/api/v3/movie/"@ =~= "/api/v3/movie"@ + "/"@);
    assert("/api/v3/series/"@ =~= "/api/v3/series"@ + "/"@);
    assert(base + "/api/v3/movie"@ + ""@ =~= base + "/api/v3/movie"@);
    assert(base + "/api/v3/series"@ + ""@ =~= base + "/api/v3/series"@);
    assert(base + ("/api/v3/movie/"@ + dec(id)) =~= base + "/api/v3/movie"@ + ("/"@ + dec(id)));
    assert(base + ("/api/v3/series/"@ + dec(id)) =~= base + "/api/v3/series"@ + ("/"@ + dec(id)));
}

proof fn lemma_key(secret: Seq<char>)
    ensures
        Seq::<(Seq<char>, Seq<char>)>::empty().push(("X-Api-Key"@, secret)) == seq![
            ("X-Api-Key"@, secret),
        ],
{
    assert(Seq::<(Seq<char>, Seq<char>)>::empty().push(("X-Api-Key"@, secret)) =~= seq![
        ("X-Api-Key"@, secret),
    ]);
}

proof fn lemma_requests(
    args: JsonView,
    radarr: Option<RadarrClient>,
    sonarr: Option<SonarrClient>,
    id: int,
)
    ensures
        radarr matches Some(c) ==> c.base() + "/api/v3/movie"@ + ""@ == c.base() + "/api/v3/movie"@
            && c.base() + ("/api/v3/movie/"@ + dec(id)) == c.base() + "/api/v3/movie"@ + ("/"@
            + dec(id)) && Seq::<(Seq<char>, Seq<char>)>::empty().push(("X-Api-Key"@, c.secret()))
            == seq![("X-Api-Key"@, c.secret())],
        sonarr matches Some(c) ==> c.base() + "/api/v3/series"@ + ""@ == c.base()
            + "/api/v3/series"@ && c.base() + ("/api/v3/series/"@ + dec(id)) == c.base()
            + "/api/v3/series"@ + ("/"@ + dec(id)) && Seq::<(Seq<char>, Seq<char>)>::empty().push(
            ("X-Api-Key"@, c.secret()),
        ) == seq![("X-Api-Key"@, c.secret())],
{
    if let Some(c) = radarr {
        lemma_paths(c.base(), id);
        lemma_key(c.secret());
    }
    if let Some(c) = sonarr {
        lemma_paths(c.base(), id);
        lemma_key(c.secret());
    }
}

// ── changing ────────────────────────────────────────────────────────────────

/// Whether the arguments name an item, a type and a change that applies to it.
pub open spec fn names_change(args: JsonView) -> bool {
    &&& args.int_at("id"@) is Some
    &&& names_type(args)
    &&& args.text_at("action"@) == Some("monitor"@) || args.text_at("action"@) == Some("tag"@) || (
    args.text_at("action"@) == Some("add_to_collection"@) && is_film(args))
}

/// Whether a change is so broad that a confirmation is due: its target is not settled, there are
/// several, or it is a whole series.
pub open spec fn is_broad(args: JsonView) -> bool {
    ||| args.bool_at("is_ambiguous"@) == Some(true)
    ||| args.at("item_count"@).uint64() matches Some(n) && n > 1
    ||| !is_film(args) && args.int_at("season"@) is None
}

/// Arguments that do not name a change are refused, and what is missing is named.
pub proof fn unreadable_changes_are_refused(
    tool: MediaOrganize,
    args: JsonView,
    replies: Seq<ReplyView>,
)
    requires
        !names_change(args),
    ensures
        tool.execute_view(args, replies) == StepView::Failed(
            ErrorView::InvalidArgument(
                if args.int_at("id"@) is None {
                    "id is required"@
                } else if !names_type(args) {
                    "media_type must be \"movie\" or \"series\""@
                } else if args.text_at("action"@) == Some("add_to_collection"@) {
                    "add_to_collection only applies to media_type=movie"@
                } else {
                    "action must be one of \"monitor\", \"tag\", \"add_to_collection\" (got \""@ + (
                    match args.text_at("action"@) {
                        Some(a) => a,
                        None => ""@,
                    }) + "\")"@
                },
            ),
            None,
        ),
{
    reveal_strlit("movie");
    reveal_strlit("series");
    reveal_strlit("monitor");
    reveal_strlit("tag");
    reveal_strlit("add_to_collection");
    assert("movie"@.len() == 5);
    assert("series"@.len() == 6);
    assert("monitor"@.len() == 7);
    assert("tag"@.len() == 3);
    assert("add_to_collection"@.len() == 17);
    reveal_strlit("");
}

/// A broad change that is not confirmed sends nothing and records nothing.
pub proof fn broad_changes_wait_for_confirmation(
    tool: MediaOrganize,
    args: JsonView,
    replies: Seq<ReplyView>,
)
    requires
        names_change(args),
        is_broad(args),
        args.bool_at("confirm"@) != Some(true),
    ensures
        tool.execute_view(args, replies) matches StepView::Done(answer, None) && {
            let it = answer.at("structured"@);
            &&& it.int_at("id"@) == args.int_at("id"@)
            &&& it.text_at("media_type"@) == args.text_at("media_type"@)
            &&& it.text_at("action"@) == args.text_at("action"@)
            &&& it.text_at("tier"@) == Some("confirm"@)
            &&& it.bool_at("executed"@) == Some(false)
            &&& answer.text_at("summary"@) == Some(
                "This organize change is ambiguous, bulk, or whole-series-scoped -- reply with confirm: true to proceed."@,
            )
        },
{
    broadcast use lemma_lookup_push;
    reveal_strlit("summary");
    reveal_strlit("structured");
    reveal_strlit("id");
    reveal_strlit("media_type");
    reveal_strlit("action");
    reveal_strlit("tier");
    reveal_strlit("executed");
    reveal_strlit("movie");
    reveal_strlit("series");
    reveal_strlit("monitor");
    reveal_strlit("tag");
    reveal_strlit("add_to_collection");
    assert("summary"@.len() == 7);
    assert("structured"@.len() == 10);
    assert("id"@.len() == 2);
    assert("media_type"@.len() == 10);
    assert("action"@.len() == 6);
    assert("tier"@.len() == 4);
    assert("executed"@.len() == 8);
    assert("movie"@.len() == 5);
    assert("series"@.len() == 6);
    assert("monitor"@.len() == 7);
    assert("tag"@.len() == 3);
    assert("add_to_collection"@.len() == 17);
    assert("summary"@[0] == 's');
    assert("monitor"@[0] == 'm');
    assert("structured"@[0] == 's');
    assert("media_type"@[0] == 'm');
    assert("action"@[0] == 'a');
    assert("series"@[0] == 's');
}

/// Whether a change may be carried out.
pub open spec fn may_change(tool: MediaOrganize, args: JsonView) -> bool {
    &&& names_change(args)
    &&& !is_broad(args) || args.bool_at("confirm"@) == Some(true)
}

/// Any other change first looks at the library that manages its type.
pub proof fn changes_look_first(tool: MediaOrganize, args: JsonView)
    requires
        may_change(tool, args),
    ensures
        is_managed(args, tool.radarr, tool.sonarr) ==> (tool.execute_view(args, Seq::empty())
            matches StepView::Send(request) && goes_to(
            request,
            Method::Get,
            args,
            tool.radarr,
            tool.sonarr,
            None,
        ) && request.query.len() == 0 && request.body is None),
        !is_managed(args, tool.radarr, tool.sonarr) ==> tool.execute_view(args, Seq::empty())
            == StepView::Failed(unset(args), None),
{
    reveal_strlit("movie");
    reveal_strlit("series");
    reveal_strlit("monitor");
    reveal_strlit("tag");
    reveal_strlit("add_to_collection");
    assert("movie"@.len() == 5);
    assert("series"@.len() == 6);
    assert("monitor"@.len() == 7);
    assert("tag"@.len() == 3);
    assert("add_to_collection"@.len() == 17);
    lemma_requests(args, tool.radarr, tool.sonarr, 0);
}

/// The item that a change is about, as the library lists it.
pub open spec fn target(args: JsonView, replies: Seq<ReplyView>) -> Option<JsonView> {
    item_with_id(library_content(manager(args), replies[0]), args.int_at("id"@).unwrap())
}

/// The field that a change sets, and to what, where the arguments say it.
pub open spec fn new_value(args: JsonView) -> Option<(Seq<char>, JsonView)> {
    if args.text_at("action"@) == Some("monitor"@) {
        match args.bool_at("monitored"@) {
            Some(b) => Some(("monitored"@, JsonView::Bool(b))),
            None => None,
        }
    } else if args.text_at("action"@) == Some("tag"@) {
        match args.items_at("tag_ids"@) {
            Some(ids) => Some(("tags"@, JsonView::Array(ids))),
            None => None,
        }
    } else {
        match args.int_at("collection_tmdb_id"@) {
            Some(n) => Some(
                (
                    "collection"@,
                    JsonView::Object(crate::json::no_fields().push(("tmdbId"@, JsonView::Int(n)))),
                ),
            ),
            None => None,
        }
    }
}

/// An item that the library does not list is an error, and so is a change without its value; any
/// other change puts the item back as it was, with the one field set.
pub proof fn changes_set_one_field(tool: MediaOrganize, args: JsonView, replies: Seq<ReplyView>)
    requires
        may_change(tool, args),
        is_managed(args, tool.radarr, tool.sonarr),
        replies.len() == 1,
    ensures
        match target(args, replies) {
            None => tool.execute_view(args, replies) == StepView::Failed(
                ErrorView::NotFound(
                    if is_film(args) {
                        "movie id "@ + dec(args.int_at("id"@).unwrap())
                            + " not found in Radarr library"@
                    } else {
                        "series id "@ + dec(args.int_at("id"@).unwrap())
                            + " not found in Sonarr library"@
                    },
                ),
                None,
            ),
            Some(item) => match new_value(args) {
                None => tool.execute_view(args, replies) matches StepView::Failed(
                    ErrorView::InvalidArgument(message),
                    None,
                ) && message == (if args.text_at("action"@) == Some("monitor"@) {
                    "monitored (bool) is required for action=monitor"@
                } else if args.text_at("action"@) == Some("tag"@) {
                    "tag_ids (array of int) is required for action=tag"@
                } else {
                    "collection_tmdb_id (int) is required for action=add_to_collection"@
                }),
                Some((key, value)) => tool.execute_view(args, replies) matches StepView::Send(request)
                    && goes_to(
                    request,
                    Method::Put,
                    args,
                    tool.radarr,
                    tool.sonarr,
                    args.int_at("id"@),
                ) && request.query.len() == 0 && (request.body matches Some(body) && body.field(key)
                    == Some(value) && (item is Object ==> forall|other: Seq<char>|
                    other != key ==> #[trigger] body.field(other) == item.field(other))),
            },
        },
{
    reveal_strlit("movie");
    reveal_strlit("series");
    reveal_strlit("monitor");
    reveal_strlit("tag");
    reveal_strlit("add_to_collection");
    assert("movie"@.len() == 5);
    assert("series"@.len() == 6);
    assert("monitor"@.len() == 7);
    assert("tag"@.len() == 3);
    assert("add_to_collection"@.len() == 17);
    broadcast use lemma_lookup_push;
    lemma_requests(args, tool.radarr, tool.sonarr, args.int_at("id"@).unwrap());
    if let (Some(item), Some((key, value))) = (target(args, replies), new_value(args)) {
        let body = item.with_field(key, value);
        if item is Object {
            with_field_sets_one_field(item, key, value, key);
            assert forall|other: Seq<char>| other != key implies #[trigger] body.field(other)
                == item.field(other) by {
                with_field_sets_one_field(item, key, value, other);
            }
        }
    }
}

/// A change counts as made exactly where the service took it; then it is recorded, and the answer
/// names the item, the change and what the service made of it.
pub proof fn changes_count_where_taken(
    tool: MediaOrganize,
    args: JsonView,
    replies: Seq<ReplyView>,
    item: JsonView,
)
    requires
        may_change(tool, args),
        is_managed(args, tool.radarr, tool.sonarr),
        replies.len() > 1,
        target(args, replies) == Some(item),
        new_value(args) is Some,
    ensures
        match reply_content(manager(args), replies[1]) {
            Err(e) => tool.execute_view(args, replies) == StepView::Failed(e, None),
            Ok(updated) => tool.execute_view(args, replies) matches StepView::Done(answer, Some(audit))
                && {
                let it = answer.at("structured"@);
                let id = args.int_at("id"@).unwrap();
                let action = args.text_at("action"@).unwrap();
                &&& it.int_at("id"@) == args.int_at("id"@)
                &&& it.text_at("title"@) == Some(title_listed(item))
                &&& it.text_at("media_type"@) == args.text_at("media_type"@)
                &&& it.text_at("action"@) == args.text_at("action"@)
                &&& it.text_at("tier"@) == Some(
                    if is_broad(args) {
                        "confirm"@
                    } else {
                        "light"@
                    },
                )
                &&& it.bool_at("executed"@) == Some(true)
                &&& it.field("updated"@) == Some(updated)
                &&& answer.text_at("summary"@) == Some(
                    "Updated \""@ + title_listed(item) + "\" ("@ + action + ")."@,
                )
                &&& audit.success
                &&& audit.tool == "media_organize"@
                &&& audit.detail == "media_organize executed: id="@ + dec(id) + " media_type="@
                    + args.text_at("media_type"@).unwrap() + " action="@ + action + " title="@
                    + title_listed(item)
            },
        },
{
    broadcast use lemma_lookup_push;
    reveal_strlit("summary");
    reveal_strlit("structured");
    reveal_strlit("id");
    reveal_strlit("title");
    reveal_strlit("media_type");
    reveal_strlit("action");
    reveal_strlit("tier");
    reveal_strlit("executed");
    reveal_strlit("updated");
    reveal_strlit("movie");
    reveal_strlit("series");
    reveal_strlit("monitor");
    reveal_strlit("tag");
    reveal_strlit("add_to_collection");
    assert("summary"@.len() == 7);
    assert("structured"@.len() == 10);
    assert("id"@.len() == 2);
    assert("title"@.len() == 5);
    assert("media_type"@.len() == 10);
    assert("action"@.len() == 6);
    assert("tier"@.len() == 4);
    assert("executed"@.len() == 8);
    assert("updated"@.len() == 7);
    assert("movie"@.len() == 5);
    assert("series"@.len() == 6);
    assert("monitor"@.len() == 7);
    assert("tag"@.len() == 3);
    assert("add_to_collection"@.len() == 17);
    assert("summary"@[0] == 's');
    assert("updated"@[0] == 'u');
    assert("monitor"@[0] == 'm');
    assert("structured"@[0] == 's');
    assert("media_type"@[0] == 'm');
    assert("title"@[0] == 't');
    assert("movie"@[0] == 'm');
    assert("action"@[0] == 'a');
    assert("series"@[0] == 's');
}

// ── deleting ────────────────────────────────────────────────────────────────

/// Whether a confirmation spells a title out, but for white space at its ends; a blank title cannot
/// be spelled out.
pub proof fn titles_are_spelled_out(title: Seq<char>, confirmation: Option<Seq<char>>)
    ensures
        delete_is_confirmed(title, confirmation) <==> trimmed(title).len() > 0 && (
        confirmation matches Some(c) && trimmed(c) == trimmed(title)),
{
}

/// Whether the arguments name an item and a type.
pub open spec fn names_item(args: JsonView) -> bool {
    args.int_at("id"@) is Some && names_type(args)
}

/// A deletion names an item and a type, and first looks at the library that manages the type.
pub proof fn deletions_look_first(tool: MediaDelete, args: JsonView, replies: Seq<ReplyView>)
    ensures
        !names_item(args) ==> tool.execute_view(args, replies) == StepView::Failed(
            ErrorView::InvalidArgument(
                if args.int_at("id"@) is None {
                    "id is required"@
                } else {
                    "media_type must be \"movie\" or \"series\""@
                },
            ),
            None,
        ),
        names_item(args) && !is_managed(args, tool.radarr, tool.sonarr) ==> tool.execute_view(
            args,
            replies,
        ) == StepView::Failed(unset(args), None),
        names_item(args) && is_managed(args, tool.radarr, tool.sonarr) && replies.len() == 0 ==> (
        tool.execute_view(args, replies) matches StepView::Send(request) && goes_to(
            request,
            Method::Get,
            args,
            tool.radarr,
            tool.sonarr,
            None,
        ) && request.query.len() == 0 && request.body is None),
{
    reveal_strlit("movie");
    reveal_strlit("series");
    assert("movie"@.len() == 5);
    assert("series"@.len() == 6);
    lemma_requests(args, tool.radarr, tool.sonarr, 0);
}

/// Whether an answer is about the item that the arguments name, and what is said of it.
pub open spec fn is_about(
    answer: JsonView,
    args: JsonView,
    title: Option<Seq<char>>,
    executed: bool,
    summary: Seq<char>,
) -> bool {
    let it = answer.at("structured"@);
    &&& it.int_at("id"@) == args.int_at("id"@)
    &&& it.text_at("media_type"@) == args.text_at("media_type"@)
    &&& it.text_at("title"@) == title
    &&& it.bool_at("executed"@) == Some(executed)
    &&& answer.text_at("summary"@) == Some(summary)
}

/// The words for an item that is not there.
pub open spec fn absent_words(args: JsonView) -> Seq<char> {
    "Nothing to delete -- "@ + args.text_at("media_type"@).unwrap() + " id "@ + dec(
        args.int_at("id"@).unwrap(),
    ) + " is not in the library."@
}

/// Once the library was listed: an item that is not there is nothing to delete; one whose title is
/// not spelled out is named, and stays; any other is removed, with its files.
pub proof fn deletions_remove_what_is_spelled_out(
    tool: MediaDelete,
    args: JsonView,
    replies: Seq<ReplyView>,
)
    requires
        names_item(args),
        is_managed(args, tool.radarr, tool.sonarr),
        replies.len() == 1,
    ensures
        match target(args, replies) {
            None => tool.execute_view(args, replies) matches StepView::Done(answer, None)
                && is_about(answer, args, None, false, absent_words(args)) && answer.at(
                "structured"@,
            ).bool_at("already_absent"@) == Some(true),
            Some(item) => if delete_is_confirmed(
                title_listed(item),
                args.text_at("confirm_delete"@),
            ) {
                tool.execute_view(args, replies) matches StepView::Send(request) && goes_to(
                    request,
                    Method::Delete,
                    args,
                    tool.radarr,
                    tool.sonarr,
                    args.int_at("id"@),
                ) && request.query == seq![
                    ("deleteFiles"@, "true"@),
                    ("addImportExclusion"@, "false"@),
                ] && request.body is None
            } else {
                tool.execute_view(args, replies) matches StepView::Done(answer, None) && is_about(
                    answer,
                    args,
                    Some(title_listed(item)),
                    false,
                    "This will permanently delete \""@ + title_listed(item)
                        + "\" and its files. To confirm, call again with confirm_delete: \""@
                        + title_listed(item) + "\" exactly."@,
                ) && answer.at("structured"@).bool_at("requires_confirmation"@) == Some(true)
            },
        },
{
    broadcast use lemma_lookup_push;
    reveal_strlit("summary");
    reveal_strlit("structured");
    reveal_strlit("id");
    reveal_strlit("title");
    reveal_strlit("media_type");
    reveal_strlit("executed");
    reveal_strlit("already_absent");
    reveal_strlit("requires_confirmation");
    reveal_strlit("movie");
    reveal_strlit("series");
    assert("summary"@.len() == 7);
    assert("structured"@.len() == 10);
    assert("id"@.len() == 2);
    assert("title"@.len() == 5);
    assert("media_type"@.len() == 10);
    assert("executed"@.len() == 8);
    assert("already_absent"@.len() == 14);
    assert("requires_confirmation"@.len() == 21);
    assert("movie"@.len() == 5);
    assert("series"@.len() == 6);
    assert("structured"@[0] == 's');
    assert("media_type"@[0] == 'm');
    assert("title"@[0] == 't');
    assert("movie"@[0] == 'm');
    lemma_requests(args, tool.radarr, tool.sonarr, args.int_at("id"@).unwrap());
    assert(Seq::<(Seq<char>, Seq<char>)>::empty().push(("deleteFiles"@, "true"@)).push(
        ("addImportExclusion"@, "false"@),
    ) =~= seq![("deleteFiles"@, "true"@), ("addImportExclusion"@, "false"@)]);
}

/// A deletion counts exactly where the service removed the item; then it is recorded. An item that
/// turned out not to be there is nothing to delete, and any other word of the service is the error
/// of the call, and recorded as one.
pub proof fn deletions_count_where_removed(
    tool: MediaDelete,
    args: JsonView,
    replies: Seq<ReplyView>,
    item: JsonView,
)
    requires
        names_item(args),
        is_managed(args, tool.radarr, tool.sonarr),
        replies.len() > 1,
        target(args, replies) == Some(item),
        delete_is_confirmed(title_listed(item), args.text_at("confirm_delete"@)),
    ensures
        ({
            let tail = dec(args.int_at("id"@).unwrap()) + " media_type="@ + args.text_at(
                "media_type"@,
            ).unwrap() + " title="@ + title_listed(item);
            match reply_content(manager(args), replies[1]) {
                Ok(_) => tool.execute_view(args, replies) matches StepView::Done(answer, Some(audit))
                    && is_about(
                    answer,
                    args,
                    Some(title_listed(item)),
                    true,
                    "Deleted \""@ + title_listed(item) + "\" and its files."@,
                ) && audit.success && audit.tool == "media_delete"@ && audit.detail
                    == "media_delete executed: id="@ + tail,
                Err(ErrorView::NotFound(_)) => tool.execute_view(args, replies)
                    matches StepView::Done(answer, None) && is_about(
                    answer,
                    args,
                    Some(title_listed(item)),
                    false,
                    absent_words(args),
                ) && answer.at("structured"@).bool_at("already_absent"@) == Some(true),
                Err(e) => tool.execute_view(args, replies) matches StepView::Failed(f, Some(audit))
                    && f == e && !audit.success && audit.tool == "media_delete"@ && audit.detail
                    == "media_delete failed: id="@ + tail + " error="@ + e.message(),
            }
        }),
{
    broadcast use lemma_lookup_push;
    reveal_strlit("summary");
    reveal_strlit("structured");
    reveal_strlit("id");
    reveal_strlit("title");
    reveal_strlit("media_type");
    reveal_strlit("executed");
    reveal_strlit("already_absent");
    reveal_strlit("movie");
    reveal_strlit("series");
    assert("summary"@.len() == 7);
    assert("structured"@.len() == 10);
    assert("id"@.len() == 2);
    assert("title"@.len() == 5);
    assert("media_type"@.len() == 10);
    assert("executed"@.len() == 8);
    assert("already_absent"@.len() == 14);
    assert("movie"@.len() == 5);
    assert("series"@.len() == 6);
    assert("structured"@[0] == 's');
    assert("media_type"@[0] == 'm');
    assert("title"@[0] == 't');
    assert("movie"@[0] == 'm');
    let id = dec(args.int_at("id"@).unwrap());
    let kind = args.text_at("media_type"@).unwrap();
    let title = title_listed(item);
    assert("media_delete executed: id="@ + id + " media_type="@ + kind + " title="@ + title
        =~= "media_delete executed: id="@ + (id + " media_type="@ + kind + " title="@ + title));
    assert("media_delete failed: id="@ + id + " media_type="@ + kind + " title="@ + title
        =~= "media_delete failed: id="@ + (id + " media_type="@ + kind + " title="@ + title));
}

// ── cleaning up ─────────────────────────────────────────────────────────────

/// The candidates that every user has watched, and those that not every user has, each in order.
pub proof fn candidates_are_told_apart(
    a: Seq<CleanupCandidate>,
    b: Seq<CleanupCandidate>,
    c: CleanupCandidate,
    eligible: bool,
)
    ensures
        candidates_where(a + b, eligible) == candidates_where(a, eligible) + candidates_where(
            b,
            eligible,
        ),
        candidates_where(Seq::empty(), eligible).len() == 0,
        candidates_where(seq![c], eligible) == (if c.watched_by_all_users == eligible {
            seq![c]
        } else {
            Seq::empty()
        }),
    decreases b.len(),
{
    let is = |x: CleanupCandidate| x.watched_by_all_users == eligible;
    reveal(Seq::filter);
    let one = seq![c];
    assert(one.drop_last() =~= Seq::<CleanupCandidate>::empty());
    assert(one.drop_last().filter(is) =~= Seq::<CleanupCandidate>::empty());
    assert(Seq::<CleanupCandidate>::empty().push(c) =~= seq![c]);
    assert(one.last() == c);
    if b.len() == 0 {
        assert(a + b =~= a);
        assert(b.filter(is) =~= Seq::<CleanupCandidate>::empty());
        assert(a.filter(is) + b.filter(is) =~= a.filter(is));
    } else {
        assert((a + b).drop_last() =~= a + b.drop_last());
        candidates_are_told_apart(a, b.drop_last(), c, eligible);
        assert((a + b).filter(is) =~= a.filter(is) + b.filter(is));
    }
}

/// A clean-up is confirmed exactly by a list of strings that, but for their order and white space at
/// their ends, are the titles of the candidates that every user has watched; nothing confirms where
/// there are none.
pub proof fn clean_ups_are_confirmed_by_the_whole_list(
    args: JsonView,
    eligible: Seq<Seq<char>>,
    items: Seq<JsonView>,
    spelled: Seq<Seq<char>>,
)
    requires
        args.items_at("confirm_delete"@) == Some(items),
        items.len() == spelled.len(),
        forall|i: int| 0 <= i < items.len() ==> #[trigger] items[i] == JsonView::Str(spelled[i]),
    ensures
        cleanup_is_confirmed(eligible, cleanup_confirmation(args)) <==> eligible.len() > 0
            && spelled.map_values(|s: Seq<char>| trimmed(s)).to_multiset() =~= eligible.map_values(
            |s: Seq<char>| trimmed(s),
        ).to_multiset(),
{
    lemma_strings(items, spelled);
    let mine = all_trimmed(spelled);
    let theirs = all_trimmed(eligible);
    assert(mine =~= spelled.map_values(|s: Seq<char>| trimmed(s)));
    assert(theirs =~= eligible.map_values(|s: Seq<char>| trimmed(s)));
    mine.to_multiset_ensures();
    theirs.to_multiset_ensures();
    assert(forall|i: int| 0 <= i < items.len() ==> (#[trigger] items[i]).text() is Some);
}

proof fn lemma_strings(items: Seq<JsonView>, spelled: Seq<Seq<char>>)
    requires
        items.len() == spelled.len(),
        forall|i: int| 0 <= i < items.len() ==> #[trigger] items[i] == JsonView::Str(spelled[i]),
    ensures
        strings_in(items) == spelled,
    decreases items.len(),
{
    if items.len() == 0 {
        assert(spelled =~= Seq::empty());
    } else {
        lemma_strings(items.drop_last(), spelled.drop_last());
        assert(items.last() == JsonView::Str(spelled.last()));
        assert(spelled.drop_last().push(spelled.last()) =~= spelled);
    }
}

/// Without a list, or with anything but strings in it, a clean-up is not confirmed.
pub proof fn other_values_confirm_nothing(args: JsonView, eligible: Seq<Seq<char>>)
    requires
        args.items_at("confirm_delete"@) is None || exists|i: int|
            0 <= i < args.items_at("confirm_delete"@).unwrap().len() && !((
            #[trigger] args.items_at("confirm_delete"@).unwrap()[i]) is Str),
    ensures
        !cleanup_is_confirmed(eligible, cleanup_confirmation(args)),
{
    if let Some(items) = args.items_at("confirm_delete"@) {
        let i = choose|i: int| 0 <= i < items.len() && !((#[trigger] items[i]) is Str);
        assert(items[i].text() is None);
    }
}

/// Whether an answer lists some titles under a key, all of them and in order.
pub open spec fn lists_titles(it: JsonView, key: Seq<char>, all: Seq<Seq<char>>) -> bool {
    it.items_at(key) matches Some(shown) && shown.len() == all.len() && forall|k: int|
        0 <= k < shown.len() ==> #[trigger] shown[k] == JsonView::Str(all[k])
}

/// A clean-up that is not confirmed removes nothing: it names what it would remove, which is what
/// every user has watched, and what it would not. Without candidates, or without any that every user
/// has watched, it says so.
pub proof fn unconfirmed_clean_ups_only_list(
    tool: MediaCleanup,
    args: JsonView,
    candidates: Seq<CleanupCandidate>,
    replies: Seq<ReplyView>,
)
    requires
        names_type(args),
        args.field("candidates"@) is Some,
        !cleanup_is_confirmed(
            titles(candidates_where(candidates, true)),
            cleanup_confirmation(args),
        ),
    ensures
        tool.execute_view(args, Ok(candidates), replies) matches CleanupActionView::Done(
            answer,
            audits,
        ) && {
            let it = answer.at("structured"@);
            let eligible = titles(candidates_where(candidates, true));
            let flagged = titles(candidates_where(candidates, false));
            &&& audits.len() == 0
            &&& it.text_at("media_type"@) == args.text_at("media_type"@)
            &&& it.bool_at("executed"@) == Some(false)
            &&& lists_titles(it, "eligible"@, eligible)
            &&& lists_titles(it, "flagged"@, flagged)
            &&& it.bool_at("requires_confirmation"@) == (if eligible.len() > 0 {
                Some(true)
            } else {
                None
            })
            &&& answer.text_at("summary"@) == Some(
                if candidates.len() == 0 {
                    "Nothing to clean up -- no candidates supplied."@
                } else if eligible.len() == 0 {
                    "Nothing eligible to clean up -- all candidates are flagged (not watched by every user)."@
                } else {
                    "This will permanently delete "@ + dec(eligible.len() as int) + " item(s): "@
                        + joined(eligible, ", "@) + ". "@ + (if flagged.len() == 0 {
                        ""@
                    } else {
                        "("@ + dec(flagged.len() as int)
                            + " flagged as not watched by every user, will NOT be removed: "@
                            + joined(flagged, ", "@) + ") "@
                    })
                        + "To confirm, call again with confirm_delete set to exactly this list of titles."@
                },
            )
        },
{
    broadcast use lemma_lookup_push;
    reveal_strlit("summary");
    reveal_strlit("structured");
    reveal_strlit("media_type");
    reveal_strlit("executed");
    reveal_strlit("eligible");
    reveal_strlit("flagged");
    reveal_strlit("requires_confirmation");
    reveal_strlit("movie");
    reveal_strlit("series");
    assert("summary"@.len() == 7);
    assert("structured"@.len() == 10);
    assert("media_type"@.len() == 10);
    assert("executed"@.len() == 8);
    assert("eligible"@.len() == 8);
    assert("flagged"@.len() == 7);
    assert("requires_confirmation"@.len() == 21);
    assert("movie"@.len() == 5);
    assert("series"@.len() == 6);
    assert("summary"@[0] == 's');
    assert("flagged"@[0] == 'f');
    assert("structured"@[0] == 's');
    assert("media_type"@[0] == 'm');
    assert("executed"@[1] == 'x');
    assert("eligible"@[1] == 'l');
    if candidates.len() == 0 {
        assert(candidates =~= Seq::empty());
        reveal(Seq::filter);
    }
}

/// What cannot be read is refused, and what is missing is named.
pub proof fn unreadable_clean_ups_are_refused(
    tool: MediaCleanup,
    args: JsonView,
    decoded: Result<Seq<CleanupCandidate>, Seq<char>>,
    replies: Seq<ReplyView>,
)
    requires
        !names_type(args) || args.field("candidates"@) is None || decoded is Err,
    ensures
        tool.execute_view(args, decoded, replies) == CleanupActionView::Failed(
            ErrorView::InvalidArgument(
                if !names_type(args) {
                    "media_type must be \"movie\" or \"series\""@
                } else if args.field("candidates"@) is None {
                    "candidates is required"@
                } else {
                    "invalid candidates: "@ + decoded->Err_0
                },
            ),
        ),
{
    reveal_strlit("movie");
    reveal_strlit("series");
    assert("movie"@.len() == 5);
    assert("series"@.len() == 6);
}

/// A clean-up that is confirmed removes what every user has watched, one after the other and in
/// order, with its files, through the service that manages the type.
pub proof fn confirmed_clean_ups_remove_in_order(
    tool: MediaCleanup,
    args: JsonView,
    candidates: Seq<CleanupCandidate>,
    replies: Seq<ReplyView>,
)
    requires
        names_type(args),
        args.field("candidates"@) is Some,
        cleanup_is_confirmed(
            titles(candidates_where(candidates, true)),
            cleanup_confirmation(args),
        ),
        is_managed(args, tool.radarr, tool.sonarr),
        replies.len() < candidates_where(candidates, true).len(),
    ensures
        tool.execute_view(args, Ok(candidates), replies) matches CleanupActionView::Send(request)
            && goes_to(
            request,
            Method::Delete,
            args,
            tool.radarr,
            tool.sonarr,
            Some(candidates_where(candidates, true)[replies.len() as int].id as int),
        ) && request.query == seq![("deleteFiles"@, "true"@), ("addImportExclusion"@, "false"@)]
            && request.body is None,
{
    reveal_strlit("movie");
    reveal_strlit("series");
    assert("movie"@.len() == 5);
    assert("series"@.len() == 6);
    let next = candidates_where(candidates, true)[replies.len() as int];
    lemma_requests(args, tool.radarr, tool.sonarr, next.id as int);
    assert(Seq::<(Seq<char>, Seq<char>)>::empty().push(("deleteFiles"@, "true"@)).push(
        ("addImportExclusion"@, "false"@),
    ) =~= seq![("deleteFiles"@, "true"@), ("addImportExclusion"@, "false"@)]);
    if candidates.len() == 0 {
        assert(candidates =~= Seq::empty());
        reveal(Seq::filter);
    }
}

/// What became of an item: it was deleted where the service took its removal, it was not there where
/// the service does not know it, and otherwise it failed.
pub open spec fn became(args: JsonView, reply: Option<ReplyView>) -> Fate {
    match reply {
        None => Fate::Failed,
        Some(r) => match reply_content(manager(args), r) {
            Ok(_) => Fate::Deleted,
            Err(ErrorView::NotFound(_)) => Fate::Absent,
            Err(_) => Fate::Failed,
        },
    }
}

/// The items with a fate follow the items one by one.
pub proof fn fates_follow_the_items(
    args: JsonView,
    media: MediaType,
    a: Seq<RemovedView>,
    b: Seq<RemovedView>,
    item: RemovedView,
    fate: Fate,
)
    requires
        is_film(args) <==> media == MediaType::Movie,
    ensures
        titles_with_fate(media, a + b, fate) == titles_with_fate(media, a, fate) + titles_with_fate(
            media,
            b,
            fate,
        ),
        titles_with_fate(media, Seq::empty(), fate).len() == 0,
        titles_with_fate(media, seq![item], fate) == (if became(args, item.reply) == fate {
            seq![item.title]
        } else {
            Seq::empty()
        }),
    decreases b.len(),
{
    let one = seq![item];
    assert(one.drop_last() =~= Seq::<RemovedView>::empty());
    assert(titles_with_fate(media, one.drop_last(), fate) =~= Seq::<Seq<char>>::empty());
    assert(Seq::<Seq<char>>::empty().push(item.title) =~= seq![item.title]);
    if b.len() == 0 {
        assert(a + b =~= a);
        assert(titles_with_fate(media, a, fate) + titles_with_fate(media, b, fate)
            =~= titles_with_fate(media, a, fate));
    } else {
        assert((a + b).drop_last() =~= a + b.drop_last());
        fates_follow_the_items(args, media, a, b.drop_last(), item, fate);
        assert(titles_with_fate(media, a + b, fate) =~= titles_with_fate(media, a, fate)
            + titles_with_fate(media, b, fate));
    }
}

/// The records follow the items one by one: a deletion leaves one of success, a failure one that
/// says why, and an item that was not there none.
pub proof fn records_follow_the_items(
    args: JsonView,
    media: MediaType,
    a: Seq<RemovedView>,
    b: Seq<RemovedView>,
    item: RemovedView,
)
    requires
        names_type(args),
        is_film(args) <==> media == MediaType::Movie,
    ensures
        removal_audits(media, a + b) == removal_audits(media, a) + removal_audits(media, b),
        removal_audits(media, Seq::empty()).len() == 0,
        ({
            let tail = dec(item.id) + " media_type="@ + args.text_at("media_type"@).unwrap()
                + " title="@ + item.title;
            let left = removal_audits(media, seq![item]);
            match became(args, item.reply) {
                Fate::Absent => left.len() == 0,
                Fate::Deleted => left.len() == 1 && left[0].success && left[0].tool
                    == "media_cleanup"@ && left[0].detail == "media_cleanup executed: id="@ + tail,
                Fate::Failed => left.len() == 1 && !left[0].success && left[0].tool
                    == "media_cleanup"@ && left[0].detail == "media_cleanup failed: id="@ + tail
                    + " error="@ + (match item.reply {
                    None => unset(args).message(),
                    Some(r) => reply_content(manager(args), r)->Err_0.message(),
                }),
            }
        }),
    decreases b.len(),
{
    reveal_strlit("movie");
    reveal_strlit("series");
    assert("movie"@.len() == 5);
    assert("series"@.len() == 6);
    let one = seq![item];
    assert(one.drop_last() =~= Seq::<RemovedView>::empty());
    assert(removal_audits(media, one.drop_last()) =~= Seq::empty());
    if b.len() == 0 {
        assert(a + b =~= a);
        assert(removal_audits(media, a) + removal_audits(media, b) =~= removal_audits(media, a));
    } else {
        assert((a + b).drop_last() =~= a + b.drop_last());
        records_follow_the_items(args, media, a, b.drop_last(), item);
        assert(removal_audits(media, a + b) =~= removal_audits(media, a) + removal_audits(media, b));
    }
}

/// Once every removal was answered, or none can be sent, the clean-up says what became of each item:
/// deleted, not there, or failed, and what was flagged.
pub proof fn clean_ups_say_what_became_of_each(
    tool: MediaCleanup,
    args: JsonView,
    candidates: Seq<CleanupCandidate>,
    replies: Seq<ReplyView>,
    media: MediaType,
)
    requires
        names_type(args),
        is_film(args) <==> media == MediaType::Movie,
        args.field("candidates"@) is Some,
        cleanup_is_confirmed(
            titles(candidates_where(candidates, true)),
            cleanup_confirmation(args),
        ),
        is_managed(args, tool.radarr, tool.sonarr) ==> replies.len() >= candidates_where(
            candidates,
            true,
        ).len(),
    ensures
        exists|items: Seq<RemovedView>|
            {
                let eligible = candidates_where(candidates, true);
                &&& items.len() == eligible.len()
                &&& forall|i: int|
                    0 <= i < items.len() ==> (#[trigger] items[i]).id == eligible[i].id
                        && items[i].title == eligible[i].title@ && items[i].reply == (if is_managed(
                        args,
                        tool.radarr,
                        tool.sonarr,
                    ) {
                        Some(replies[i])
                    } else {
                        None
                    })
                &&& tool.execute_view(args, Ok(candidates), replies)
                    matches CleanupActionView::Done(answer, audits) && {
                    let it = answer.at("structured"@);
                    let deleted = titles_with_fate(media, items, Fate::Deleted);
                    &&& audits == #[trigger] removal_audits(media, items)
                    &&& it.text_at("media_type"@) == args.text_at("media_type"@)
                    &&& it.bool_at("executed"@) == Some(true)
                    &&& lists_titles(it, "deleted"@, deleted)
                    &&& lists_titles(
                        it,
                        "already_absent"@,
                        titles_with_fate(media, items, Fate::Absent),
                    )
                    &&& lists_titles(it, "failed"@, titles_with_fate(media, items, Fate::Failed))
                    &&& lists_titles(it, "flagged"@, titles(candidates_where(candidates, false)))
                    &&& answer.text_at("summary"@) == Some(
                        "Cleaned up "@ + dec(deleted.len() as int) + " item(s)."@,
                    )
                }
            },
{
    broadcast use lemma_lookup_push;
    reveal_strlit("summary");
    reveal_strlit("structured");
    reveal_strlit("media_type");
    reveal_strlit("executed");
    reveal_strlit("deleted");
    reveal_strlit("already_absent");
    reveal_strlit("failed");
    reveal_strlit("flagged");
    reveal_strlit("movie");
    reveal_strlit("series");
    assert("summary"@.len() == 7);
    assert("structured"@.len() == 10);
    assert("media_type"@.len() == 10);
    assert("executed"@.len() == 8);
    assert("deleted"@.len() == 7);
    assert("already_absent"@.len() == 14);
    assert("failed"@.len() == 6);
    assert("flagged"@.len() == 7);
    assert("movie"@.len() == 5);
    assert("series"@.len() == 6);
    assert("summary"@[0] == 's');
    assert("deleted"@[0] == 'd');
    assert("flagged"@[0] == 'f');
    assert("structured"@[0] == 's');
    assert("media_type"@[0] == 'm');
    assert("failed"@[0] == 'f');
    assert("series"@[0] == 's');
    let eligible = candidates_where(candidates, true);
    if candidates.len() == 0 {
        assert(candidates =~= Seq::empty());
        reveal(Seq::filter);
    }
    let removals = tool.removals_of(media, eligible);
    let items = carried_out(removals, replies);
    assert(tool.start_view(args, Ok(candidates)) == (CleanupView::Remove {
        media,
        removals,
        flagged: titles(candidates_where(candidates, false)),
    }));
    assert(tool.execute_view(args, Ok(candidates), replies) == CleanupActionView::Done(
        cleanup_answer(media, items, titles(candidates_where(candidates, false))),
        removal_audits(media, items),
    ));
}

} // verus!
