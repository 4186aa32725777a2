//! Organizing the library, and removing things from it.
//!
//! Organizing follows the tiers of requests. Removing is held to more: a single title is deleted
//! only when the caller spells out that very title, and a clean-up only when the caller spells out
//! the very list that was enumerated. What not every user has watched is never cleaned up.
use vstd::prelude::*;

use crate::http::{
    opt_request, replies_view, HttpReply, HttpRequest, Method, ReplyView, RequestView,
};
use crate::json::{
    collect_strings, jsons, no_fields, opt_int, opt_json, strings_in, text_array_view, Fields, Json,
    JsonView,
};
use crate::media::clients::{
    library_content, map_library, map_removal, map_reply, removal, removal_content, reply_content,
};
use crate::media::clients::radarr::RadarrClient;
use crate::media::clients::sonarr::SonarrClient;
use crate::media::request::{
    ask_for_library, classify_request, flag, is_set, item_count_of, item_count_view,
    library_request, media_type_of, media_type_view, tier_name, tier_name_view, tier_of, MediaType,
    MutationTier, RequestKind,
};
use crate::registry::{with_tool, InfoView, ToolInfo, ToolRegistry};
use crate::schema::{
    choice, choice_view, describe, described, described_view, list, list_view, no_texts,
    required_object, required_object_view, typed, typed_view, TextList,
};
use crate::text::{
    cat2, cat3, cat4, cat5, dec, fmt_int, fmt_nat, join, joined, opt_str, opt_text, owned,
    owned_opt, same, texts, trim, trimmed,
};
use crate::tool::{answer, speak, spoken, Audit, AuditView, ErrorView, Step, StepView, ToolError};

verus! {

// ── the library ─────────────────────────────────────────────────────────────

/// The first item with this id.
pub open spec fn item_with_id(items: Seq<JsonView>, id: int) -> Option<JsonView>
    decreases items.len(),
{
    if items.len() == 0 {
        None
    } else if items[0].int_at("id"@) == Some(id) {
        Some(items[0])
    } else {
        item_with_id(items.subrange(1, items.len() as int), id)
    }
}

/// Finds the first item with this id.
pub fn find_by_id(items: &Vec<Json>, id: i64) -> (r: Option<&Json>)
    ensures
        opt_json(r) == item_with_id(jsons(items@), id as int),
{
    let ghost view = jsons(items@);
    let mut i: usize = 0;
    assert(view.subrange(0, view.len() as int) =~= view);
    while i < items.len()
        invariant
            i <= items.len(),
            view == jsons(items@),
            item_with_id(view, id as int) == item_with_id(
                view.subrange(i as int, view.len() as int),
                id as int,
            ),
        decreases items.len() - i,
    {
        let ghost rest = view.subrange(i as int, view.len() as int);
        assert(rest[0] == items@[i as int]@);
        assert(rest.subrange(1, rest.len() as int) =~= view.subrange(i + 1, view.len() as int));
        if let Some(n) = items[i].int_at("id") {
            if n == id {
                return Some(&items[i]);
            }
        }
        i += 1;
    }
    None
}

/// What is found by id is an object.
proof fn lemma_found_is_object(items: Seq<JsonView>, id: int)
    ensures
        item_with_id(items, id) matches Some(item) ==> item is Object,
    decreases items.len(),
{
    if items.len() > 0 {
        lemma_found_is_object(items.subrange(1, items.len() as int), id);
    }
}

/// The title of an item, or nothing.
pub open spec fn item_title(item: JsonView) -> Seq<char> {
    match item.text_at("title"@) {
        Some(t) => t,
        None => ""@,
    }
}

/// The title of an item, or nothing.
pub fn title_of(item: &Json) -> (r: String)
    ensures
        r@ == item_title(item@),
{
    match item.str_at("title") {
        Some(t) => owned(t),
        None => owned(""),
    }
}

// ── organizing ──────────────────────────────────────────────────────────────

/// What an organizing call changes.
#[derive(Debug, Clone, Copy, PartialEq, Eq, Structural)]
pub enum OrganizeAction {
    /// Whether the item is monitored.
    Monitor,
    /// The item's tags.
    Tag,
    /// The collection a film belongs to.
    AddToCollection,
}

impl OrganizeAction {
    /// The name of the action.
    pub open spec fn name_view(self) -> Seq<char> {
        match self {
            OrganizeAction::Monitor => "monitor"@,
            OrganizeAction::Tag => "tag"@,
            OrganizeAction::AddToCollection => "add_to_collection"@,
        }
    }

    /// The name of the action.
    pub fn name(self) -> (r: &'static str)
        ensures
            r@ == self.name_view(),
    {
        match self {
            OrganizeAction::Monitor => "monitor",
            OrganizeAction::Tag => "tag",
            OrganizeAction::AddToCollection => "add_to_collection",
        }
    }

    /// The action with this name.
    pub open spec fn parse_view(s: Seq<char>) -> Result<OrganizeAction, ErrorView> {
        if s == "monitor"@ {
            Ok(OrganizeAction::Monitor)
        } else if s == "tag"@ {
            Ok(OrganizeAction::Tag)
        } else if s == "add_to_collection"@ {
            Ok(OrganizeAction::AddToCollection)
        } else {
            Err(
                ErrorView::InvalidArgument(
                    "action must be one of \"monitor\", \"tag\", \"add_to_collection\" (got \""@ + s
                        + "\")"@,
                ),
            )
        }
    }

    /// The action with this name.
    pub fn parse(s: &str) -> (r: Result<OrganizeAction, ToolError>)
        ensures
            match r {
                Ok(a) => OrganizeAction::parse_view(s@) == Ok::<OrganizeAction, ErrorView>(a),
                Err(e) => OrganizeAction::parse_view(s@) == Err::<OrganizeAction, ErrorView>(e@),
            },
    {
        if same(s, "monitor") {
            Ok(OrganizeAction::Monitor)
        } else if same(s, "tag") {
            Ok(OrganizeAction::Tag)
        } else if same(s, "add_to_collection") {
            Ok(OrganizeAction::AddToCollection)
        } else {
            Err(
                ToolError::InvalidArgument(
                    cat3(
                        "action must be one of \"monitor\", \"tag\", \"add_to_collection\" (got \"",
                        s,
                        "\")",
                    ),
                ),
            )
        }
    }
}

/// The kind of an organizing call: a series without a season is the whole series, and so is any
/// type that is not named.
pub open spec fn organize_kind_view(media_type: Seq<char>, season: Option<int>) -> RequestKind {
    if media_type == "movie"@ {
        RequestKind::Movie
    } else if media_type == "series"@ && season is Some {
        RequestKind::Season
    } else {
        RequestKind::Series
    }
}

/// The kind of an organizing call.
pub fn organize_kind(media_type: &str, season: Option<i64>) -> (r: RequestKind)
    ensures
        r == organize_kind_view(media_type@, opt_int(season)),
{
    if same(media_type, "movie") {
        RequestKind::Movie
    } else if same(media_type, "series") && season.is_some() {
        RequestKind::Season
    } else {
        RequestKind::Series
    }
}

/// The field that an action sets, out of the call's arguments.
pub open spec fn changed_field(action: OrganizeAction, args: JsonView) -> Result<
    (Seq<char>, JsonView),
    ErrorView,
> {
    match action {
        OrganizeAction::Monitor => match args.bool_at("monitored"@) {
            Some(b) => Ok(("monitored"@, JsonView::Bool(b))),
            None => Err(
                ErrorView::InvalidArgument("monitored (bool) is required for action=monitor"@),
            ),
        },
        OrganizeAction::Tag => match args.items_at("tag_ids"@) {
            Some(ids) => Ok(("tags"@, JsonView::Array(ids))),
            None => Err(
                ErrorView::InvalidArgument("tag_ids (array of int) is required for action=tag"@),
            ),
        },
        OrganizeAction::AddToCollection => match args.int_at("collection_tmdb_id"@) {
            Some(id) => Ok(
                (
                    "collection"@,
                    JsonView::Object(no_fields().push(("tmdbId"@, JsonView::Int(id)))),
                ),
            ),
            None => Err(
                ErrorView::InvalidArgument(
                    "collection_tmdb_id (int) is required for action=add_to_collection"@,
                ),
            ),
        },
    }
}

/// The resource to send back: the existing one with the one field changed.
pub open spec fn changed_resource(
    existing: JsonView,
    action: OrganizeAction,
    args: JsonView,
) -> Result<JsonView, ErrorView> {
    match changed_field(action, args) {
        Ok((key, value)) => Ok(existing.with_field(key, value)),
        Err(e) => Err(e),
    }
}

/// An organizing call as it was read, with its tier.
#[derive(Debug, PartialEq, Eq)]
pub struct OrganizePlan {
    pub id: i64,
    pub media: MediaType,
    pub action: OrganizeAction,
    pub tier: MutationTier,
    pub confirm: bool,
}

/// What the arguments of an organizing call ask for.
pub open spec fn organize_plan_of(args: JsonView) -> Result<OrganizePlan, ErrorView> {
    match args.int_at("id"@) {
        None => Err(ErrorView::InvalidArgument("id is required"@)),
        Some(id) => match media_type_view(args) {
            Err(e) => Err(e),
            Ok(media) => match OrganizeAction::parse_view(
                match args.text_at("action"@) {
                    Some(a) => a,
                    None => ""@,
                },
            ) {
                Err(e) => Err(e),
                Ok(action) => if action == OrganizeAction::AddToCollection && media
                    != MediaType::Movie {
                    Err(
                        ErrorView::InvalidArgument(
                            "add_to_collection only applies to media_type=movie"@,
                        ),
                    )
                } else {
                    Ok(
                        OrganizePlan {
                            id: id as i64,
                            media,
                            action,
                            tier: tier_of(
                                organize_kind_view(media.name_view(), args.int_at("season"@)),
                                is_set(args, "is_ambiguous"@),
                                item_count_view(args),
                                0,
                            ),
                            confirm: is_set(args, "confirm"@),
                        },
                    )
                },
            },
        },
    }
}

/// The organizing tool and the services it uses.
#[derive(Debug)]
pub struct MediaOrganize {
    pub radarr: Option<RadarrClient>,
    pub sonarr: Option<SonarrClient>,
}

/// The step that asks for a library, or fails where its service is not configured.
pub open spec fn library_step(
    radarr: Option<RadarrClient>,
    sonarr: Option<SonarrClient>,
    media: MediaType,
) -> StepView {
    match library_request(radarr, sonarr, media) {
        Some(request) => StepView::Send(request),
        None => StepView::Failed(media.unconfigured_view(), None),
    }
}

fn ask_library(
    radarr: &Option<RadarrClient>,
    sonarr: &Option<SonarrClient>,
    media: MediaType,
) -> (r: Step)
    ensures
        r@ == library_step(*radarr, *sonarr, media),
{
    match ask_for_library(radarr, sonarr, media) {
        Some(request) => Step::Send(request),
        None => Step::Failed(media.unconfigured(), None),
    }
}

/// The request that replaces an item.
pub open spec fn update_request(
    radarr: Option<RadarrClient>,
    sonarr: Option<SonarrClient>,
    media: MediaType,
    id: int,
    body: JsonView,
) -> Option<RequestView> {
    match media {
        MediaType::Movie => match radarr {
            Some(c) => Some(c.call_view(Method::Put, "/api/v3/movie/"@ + dec(id)).json(body)),
            None => None,
        },
        MediaType::Series => match sonarr {
            Some(c) => Some(c.call_view(Method::Put, "/api/v3/series/"@ + dec(id)).json(body)),
            None => None,
        },
    }
}

/// The request that removes an item and its files.
pub open spec fn removal_request(
    radarr: Option<RadarrClient>,
    sonarr: Option<SonarrClient>,
    media: MediaType,
    id: int,
) -> Option<RequestView> {
    match media {
        MediaType::Movie => match radarr {
            Some(c) => Some(
                c.call_view(Method::Delete, "/api/v3/movie/"@ + dec(id)).param(
                    "deleteFiles"@,
                    "true"@,
                ).param("addImportExclusion"@, "false"@),
            ),
            None => None,
        },
        MediaType::Series => match sonarr {
            Some(c) => Some(
                c.call_view(Method::Delete, "/api/v3/series/"@ + dec(id)).param(
                    "deleteFiles"@,
                    "true"@,
                ).param("addImportExclusion"@, "false"@),
            ),
            None => None,
        },
    }
}

fn ask_removal(
    radarr: &Option<RadarrClient>,
    sonarr: &Option<SonarrClient>,
    media: MediaType,
    id: i64,
) -> (r: Option<HttpRequest>)
    ensures
        opt_request(r) == removal_request(*radarr, *sonarr, media, id as int),
{
    match media {
        MediaType::Movie => match radarr {
            Some(c) => Some(c.delete_movie(id)),
            None => None,
        },
        MediaType::Series => match sonarr {
            Some(c) => Some(c.delete_series(id)),
            None => None,
        },
    }
}

/// The error for an item that is not in its library.
pub open spec fn not_in_library(media: MediaType, id: int) -> ErrorView {
    match media {
        MediaType::Movie => ErrorView::NotFound(
            "movie id "@ + dec(id) + " not found in Radarr library"@,
        ),
        MediaType::Series => ErrorView::NotFound(
            "series id "@ + dec(id) + " not found in Sonarr library"@,
        ),
    }
}

fn missing_item(media: MediaType, id: i64) -> (r: ToolError)
    ensures
        r@ == not_in_library(media, id as int),
{
    let n = fmt_int(id as i128);
    match media {
        MediaType::Movie => ToolError::NotFound(
            cat3("movie id ", n.as_str(), " not found in Radarr library"),
        ),
        MediaType::Series => ToolError::NotFound(
            cat3("series id ", n.as_str(), " not found in Sonarr library"),
        ),
    }
}

/// A step, and the title of the item it is about where one was found.
#[derive(Debug)]
pub struct Located {
    pub step: Step,
    pub title: String,
}

impl MediaOrganize {
    /// Reads the arguments of a call as [`organize_plan_of`] says.
    pub fn plan(args: &Json) -> (r: Result<OrganizePlan, ToolError>)
        ensures
            match r {
                Ok(p) => organize_plan_of(args@) == Ok::<OrganizePlan, ErrorView>(p),
                Err(e) => organize_plan_of(args@) == Err::<OrganizePlan, ErrorView>(e@),
            },
    {
        let id: i64 = match args.int_at("id") {
            Some(n) => n,
            None => {
                return Err(ToolError::invalid("id is required"));
            },
        };
        let media = match media_type_of(args) {
            Ok(m) => m,
            Err(e) => {
                return Err(e);
            },
        };
        let named = match args.str_at("action") {
            Some(a) => a,
            None => "",
        };
        let action = match OrganizeAction::parse(named) {
            Ok(a) => a,
            Err(e) => {
                return Err(e);
            },
        };
        if action == OrganizeAction::AddToCollection && media != MediaType::Movie {
            return Err(ToolError::invalid("add_to_collection only applies to media_type=movie"));
        }
        let tier = classify_request(
            organize_kind(media.name(), args.int_at("season")),
            flag(args, "is_ambiguous"),
            item_count_of(args),
            0,
        );
        Ok(OrganizePlan { id, media, action, tier, confirm: flag(args, "confirm") })
    }

    /// The resource to send back, as [`changed_resource`] says.
    pub fn build_body(existing: &Json, action: OrganizeAction, args: &Json) -> (r: Result<
        Json,
        ToolError,
    >)
        requires
            changed_field(action, args@) is Ok ==> existing@ is Object || existing@ is Null,
        ensures
            answer(r) == changed_resource(existing@, action, args@),
    {
        match action {
            OrganizeAction::Monitor => match args.bool_at("monitored") {
                Some(b) => Ok(existing.with_field("monitored", Json::Bool(b))),
                None => Err(ToolError::invalid("monitored (bool) is required for action=monitor")),
            },
            OrganizeAction::Tag => match args.array_at("tag_ids") {
                Some(_) => Ok(existing.with_field("tags", args.copy_at("tag_ids"))),
                None => Err(ToolError::invalid("tag_ids (array of int) is required for action=tag")),
            },
            OrganizeAction::AddToCollection => match args.int_at("collection_tmdb_id") {
                Some(id) => {
                    let mut collection = Fields::new();
                    collection.put("tmdbId", Json::integer(id));
                    Ok(existing.with_field("collection", collection.object()))
                },
                None => Err(
                    ToolError::invalid(
                        "collection_tmdb_id (int) is required for action=add_to_collection",
                    ),
                ),
            },
        }
    }

    /// The first step: a change that needs confirmation and has none is only answered; any other
    /// first looks at the library.
    pub open spec fn start_view(&self, plan: OrganizePlan) -> StepView {
        if plan.tier == MutationTier::Confirm && !plan.confirm {
            StepView::Done(
                spoken(
                    "This organize change is ambiguous, bulk, or whole-series-scoped -- reply with confirm: true to proceed."@,
                    JsonView::Object(
                        no_fields().push(("id"@, JsonView::Int(plan.id as int))).push(
                            ("media_type"@, JsonView::Str(plan.media.name_view())),
                        ).push(("action"@, JsonView::Str(plan.action.name_view()))).push(
                            ("tier"@, JsonView::Str("confirm"@)),
                        ).push(("executed"@, JsonView::Bool(false))),
                    ),
                ),
                None,
            )
        } else {
            library_step(self.radarr, self.sonarr, plan.media)
        }
    }

    /// Takes the first step as [`Self::start_view`] says.
    pub fn start(&self, plan: &OrganizePlan) -> (r: Step)
        ensures
            r@ == self.start_view(*plan),
    {
        if plan.tier == MutationTier::Confirm && !plan.confirm {
            let mut f = Fields::new();
            f.put("id", Json::integer(plan.id));
            f.put("media_type", Json::text(plan.media.name()));
            f.put("action", Json::text(plan.action.name()));
            f.put("tier", Json::text("confirm"));
            f.put("executed", Json::Bool(false));
            return Step::Done(
                speak(
                    "This organize change is ambiguous, bulk, or whole-series-scoped -- reply with confirm: true to proceed.",
                    f.object(),
                ),
                None,
            );
        }
        ask_library(&self.radarr, &self.sonarr, plan.media)
    }

    /// The step after the library was listed: the item is replaced by its changed resource.
    pub open spec fn on_listed_view(
        &self,
        plan: OrganizePlan,
        args: JsonView,
        items: Seq<JsonView>,
    ) -> StepView {
        match item_with_id(items, plan.id as int) {
            None => StepView::Failed(not_in_library(plan.media, plan.id as int), None),
            Some(existing) => match changed_resource(existing, plan.action, args) {
                Err(e) => StepView::Failed(e, None),
                Ok(body) => match update_request(
                    self.radarr,
                    self.sonarr,
                    plan.media,
                    plan.id as int,
                    body,
                ) {
                    Some(request) => StepView::Send(request),
                    None => StepView::Failed(plan.media.unconfigured_view(), None),
                },
            },
        }
    }

    /// Takes the step after the library was listed as [`Self::on_listed_view`] says, and gives the
    /// item's title.
    pub fn on_listed(&self, plan: &OrganizePlan, args: &Json, items: &Vec<Json>) -> (r: Located)
        ensures
            r.step@ == self.on_listed_view(*plan, args@, jsons(items@)),
            item_with_id(jsons(items@), plan.id as int) matches Some(item) ==> r.title@
                == item_title(item),
    {
        proof {
            lemma_found_is_object(jsons(items@), plan.id as int);
        }
        let existing = match find_by_id(items, plan.id) {
            Some(item) => item,
            None => {
                return Located {
                    step: Step::Failed(missing_item(plan.media, plan.id), None),
                    title: String::new(),
                };
            },
        };
        let title = title_of(existing);
        let body = match MediaOrganize::build_body(existing, plan.action, args) {
            Ok(b) => b,
            Err(e) => {
                return Located { step: Step::Failed(e, None), title };
            },
        };
        let step = match plan.media {
            MediaType::Movie => match &self.radarr {
                Some(c) => Step::Send(c.update_movie(plan.id, body)),
                None => Step::Failed(plan.media.unconfigured(), None),
            },
            MediaType::Series => match &self.sonarr {
                Some(c) => Step::Send(c.update_series(plan.id, body)),
                None => Step::Failed(plan.media.unconfigured(), None),
            },
        };
        Located { step, title }
    }

    /// The last step: success is reported and recorded only where the service took the change.
    pub open spec fn on_updated_view(
        plan: OrganizePlan,
        title: Seq<char>,
        updated: Result<JsonView, ErrorView>,
    ) -> StepView {
        match updated {
            Err(e) => StepView::Failed(e, None),
            Ok(updated) => StepView::Done(
                spoken(
                    "Updated \""@ + title + "\" ("@ + plan.action.name_view() + ")."@,
                    JsonView::Object(
                        no_fields().push(("id"@, JsonView::Int(plan.id as int))).push(
                            ("title"@, JsonView::Str(title)),
                        ).push(("media_type"@, JsonView::Str(plan.media.name_view()))).push(
                            ("action"@, JsonView::Str(plan.action.name_view())),
                        ).push(("tier"@, JsonView::Str(tier_name_view(plan.tier)))).push(
                            ("executed"@, JsonView::Bool(true)),
                        ).push(("updated"@, updated)),
                    ),
                ),
                Some(
                    AuditView {
                        tool: "media_organize"@,
                        success: true,
                        detail: "media_organize executed: id="@ + dec(plan.id as int)
                            + " media_type="@ + plan.media.name_view() + " action="@
                            + plan.action.name_view() + " title="@ + title,
                    },
                ),
            ),
        }
    }

    /// Takes the last step as [`Self::on_updated_view`] says.
    pub fn on_updated(plan: &OrganizePlan, title: &str, updated: Result<Json, ToolError>) -> (r:
        Step)
        ensures
            r@ == MediaOrganize::on_updated_view(*plan, title@, answer(updated)),
    {
        let updated = match updated {
            Ok(v) => v,
            Err(e) => {
                return Step::Failed(e, None);
            },
        };
        let n = fmt_int(plan.id as i128);
        let head = cat5(
            "media_organize executed: id=",
            n.as_str(),
            " media_type=",
            plan.media.name(),
            " action=",
        );
        let detail = cat4(head.as_str(), plan.action.name(), " title=", title);
        let summary = cat5("Updated \"", title, "\" (", plan.action.name(), ").");
        let mut f = Fields::new();
        f.put("id", Json::integer(plan.id));
        f.put("title", Json::text(title));
        f.put("media_type", Json::text(plan.media.name()));
        f.put("action", Json::text(plan.action.name()));
        f.put("tier", Json::text(tier_name(plan.tier)));
        f.put("executed", Json::Bool(true));
        f.put("updated", updated);
        Step::Done(
            speak(summary.as_str(), f.object()),
            Some(Audit { tool: owned("media_organize"), success: true, detail }),
        )
    }
}

impl MediaOrganize {
    /// Where a change stands after some replies, each to the request of the step before.
    pub open spec fn run_view(
        &self,
        plan: OrganizePlan,
        args: JsonView,
        replies: Seq<ReplyView>,
    ) -> StepView {
        let first = self.start_view(plan);
        if !(first is Send) || replies.len() == 0 {
            first
        } else {
            let items = library_content(plan.media.service_view(), replies[0]);
            let second = self.on_listed_view(plan, args, items);
            if !(second is Send) || replies.len() == 1 {
                second
            } else {
                match item_with_id(items, plan.id as int) {
                    Some(item) => MediaOrganize::on_updated_view(
                        plan,
                        item_title(item),
                        reply_content(plan.media.service_view(), replies[1]),
                    ),
                    None => second,
                }
            }
        }
    }

    /// Where a call stands after some replies.
    pub open spec fn execute_view(&self, args: JsonView, replies: Seq<ReplyView>) -> StepView {
        match organize_plan_of(args) {
            Err(e) => StepView::Failed(e, None),
            Ok(plan) => self.run_view(plan, args, replies),
        }
    }

    /// Carries a call on to its next step as [`Self::execute_view`] says. `replies` are those that
    /// came so far.
    pub fn execute(&self, args: &Json, replies: &Vec<HttpReply>) -> (r: Step)
        ensures
            r@ == self.execute_view(args@, replies_view(replies@)),
    {
        let plan = match MediaOrganize::plan(args) {
            Ok(p) => p,
            Err(e) => {
                return Step::Failed(e, None);
            },
        };
        let first = self.start(&plan);
        if !first.is_send() || replies.len() == 0 {
            return first;
        }
        let items = map_library(plan.media.service(), &replies[0]);
        let located = self.on_listed(&plan, args, &items);
        if !located.step.is_send() || replies.len() == 1 {
            return located.step;
        }
        let updated = map_reply(plan.media.service(), &replies[1]);
        MediaOrganize::on_updated(&plan, located.title.as_str(), updated)
    }
}

/// A change that needs confirmation and has none sends nothing, whatever is configured and whatever
/// a service might say.
pub proof fn unconfirmed_change_sends_nothing(
    tool: MediaOrganize,
    plan: OrganizePlan,
    args: JsonView,
    replies: Seq<ReplyView>,
)
    requires
        plan.tier == MutationTier::Confirm,
        !plan.confirm,
    ensures
        tool.run_view(plan, args, replies) matches StepView::Done(_, audit) && audit is None,
{
}

/// A change never removes anything: what it sends asks for a library or replaces one resource.
pub proof fn changes_remove_nothing(
    tool: MediaOrganize,
    plan: OrganizePlan,
    args: JsonView,
    replies: Seq<ReplyView>,
)
    ensures
        tool.run_view(plan, args, replies) matches StepView::Send(request) ==> request.method
            != Method::Delete,
{
}

// ── deleting one item ───────────────────────────────────────────────────────

/// Whether a confirmation spells out the title of what is to be deleted: white space at its ends
/// aside, letter for letter.
pub open spec fn delete_is_confirmed(target: Seq<char>, confirmation: Option<Seq<char>>) -> bool {
    confirmation matches Some(c) && trimmed(c) == trimmed(target) && trimmed(target).len() > 0
}

/// Checks a confirmation as [`delete_is_confirmed`] says.
pub fn delete_confirmed(target_title: &str, confirm_delete: Option<&str>) -> (r: bool)
    ensures
        r == delete_is_confirmed(target_title@, opt_str(confirm_delete)),
{
    match confirm_delete {
        Some(c) => same(trim(c), trim(target_title)) && !trim(target_title).is_empty(),
        None => false,
    }
}

/// A deletion as it was read.
#[derive(Debug, PartialEq, Eq)]
pub struct DeletePlan {
    pub id: i64,
    pub media: MediaType,
    pub confirm_delete: Option<String>,
}

/// The content of a [`DeletePlan`].
pub struct DeletePlanView {
    pub id: int,
    pub media: MediaType,
    pub confirm_delete: Option<Seq<char>>,
}

impl View for DeletePlan {
    type V = DeletePlanView;

    open spec fn view(&self) -> DeletePlanView {
        DeletePlanView {
            id: self.id as int,
            media: self.media,
            confirm_delete: opt_text(self.confirm_delete),
        }
    }
}

/// What the arguments of a deletion ask for.
pub open spec fn delete_plan_of(args: JsonView) -> Result<DeletePlanView, ErrorView> {
    match args.int_at("id"@) {
        None => Err(ErrorView::InvalidArgument("id is required"@)),
        Some(id) => match media_type_view(args) {
            Err(e) => Err(e),
            Ok(media) => Ok(
                DeletePlanView { id, media, confirm_delete: args.text_at("confirm_delete"@) },
            ),
        },
    }
}

/// The deletion tool and the services it uses.
#[derive(Debug)]
pub struct MediaDelete {
    pub radarr: Option<RadarrClient>,
    pub sonarr: Option<SonarrClient>,
}

impl DeletePlanView {
    /// What is said of an item that is not there.
    pub open spec fn absent_summary(self) -> Seq<char> {
        "Nothing to delete -- "@ + self.media.name_view() + " id "@ + dec(self.id)
            + " is not in the library."@
    }

    /// The answer for an item that the library does not list.
    pub open spec fn absent_answer(self) -> JsonView {
        spoken(
            self.absent_summary(),
            JsonView::Object(
                no_fields().push(("id"@, JsonView::Int(self.id))).push(
                    ("media_type"@, JsonView::Str(self.media.name_view())),
                ).push(("executed"@, JsonView::Bool(false))).push(
                    ("already_absent"@, JsonView::Bool(true)),
                ),
            ),
        )
    }

    /// The answer that names what would be deleted and asks for it to be spelled out.
    pub open spec fn confirmation_answer(self, title: Seq<char>) -> JsonView {
        spoken(
            "This will permanently delete \""@ + title
                + "\" and its files. To confirm, call again with confirm_delete: \""@ + title
                + "\" exactly."@,
            JsonView::Object(
                no_fields().push(("id"@, JsonView::Int(self.id))).push(
                    ("media_type"@, JsonView::Str(self.media.name_view())),
                ).push(("title"@, JsonView::Str(title))).push(
                    ("executed"@, JsonView::Bool(false)),
                ).push(("requires_confirmation"@, JsonView::Bool(true))),
            ),
        )
    }

    /// The common part of the records of a deletion.
    pub open spec fn audit_text(self, head: Seq<char>, title: Seq<char>) -> Seq<char> {
        head + dec(self.id) + " media_type="@ + self.media.name_view() + " title="@ + title
    }

    /// The last step: success is reported and recorded only where the service removed something.
    pub open spec fn on_deleted_view(
        self,
        title: Seq<char>,
        removed: Result<bool, ErrorView>,
    ) -> StepView {
        match removed {
            Ok(true) => StepView::Done(
                spoken(
                    "Deleted \""@ + title + "\" and its files."@,
                    JsonView::Object(
                        no_fields().push(("id"@, JsonView::Int(self.id))).push(
                            ("media_type"@, JsonView::Str(self.media.name_view())),
                        ).push(("title"@, JsonView::Str(title))).push(
                            ("executed"@, JsonView::Bool(true)),
                        ),
                    ),
                ),
                Some(
                    AuditView {
                        tool: "media_delete"@,
                        success: true,
                        detail: self.audit_text("media_delete executed: id="@, title),
                    },
                ),
            ),
            Ok(false) => StepView::Done(
                spoken(
                    self.absent_summary(),
                    JsonView::Object(
                        no_fields().push(("id"@, JsonView::Int(self.id))).push(
                            ("media_type"@, JsonView::Str(self.media.name_view())),
                        ).push(("title"@, JsonView::Str(title))).push(
                            ("executed"@, JsonView::Bool(false)),
                        ).push(("already_absent"@, JsonView::Bool(true))),
                    ),
                ),
                None,
            ),
            Err(e) => StepView::Failed(
                e,
                Some(
                    AuditView {
                        tool: "media_delete"@,
                        success: false,
                        detail: self.audit_text("media_delete failed: id="@, title) + " error="@
                            + e.message(),
                    },
                ),
            ),
        }
    }
}

impl MediaDelete {
    /// Reads the arguments of a deletion as [`delete_plan_of`] says.
    pub fn plan(args: &Json) -> (r: Result<DeletePlan, ToolError>)
        ensures
            match r {
                Ok(p) => delete_plan_of(args@) == Ok::<DeletePlanView, ErrorView>(p@),
                Err(e) => delete_plan_of(args@) == Err::<DeletePlanView, ErrorView>(e@),
            },
    {
        let id: i64 = match args.int_at("id") {
            Some(n) => n,
            None => {
                return Err(ToolError::invalid("id is required"));
            },
        };
        match media_type_of(args) {
            Ok(media) => Ok(
                DeletePlan { id, media, confirm_delete: owned_opt(args.str_at("confirm_delete")) },
            ),
            Err(e) => Err(e),
        }
    }

    /// The first step: the library is asked for the item.
    pub fn start(&self, plan: &DeletePlan) -> (r: Step)
        ensures
            r@ == library_step(self.radarr, self.sonarr, plan.media),
    {
        ask_library(&self.radarr, &self.sonarr, plan.media)
    }

    /// The step after the library was listed: the item is removed only where its title was spelled
    /// out.
    pub open spec fn on_listed_view(&self, plan: DeletePlanView, items: Seq<JsonView>) -> StepView {
        match item_with_id(items, plan.id) {
            None => StepView::Done(plan.absent_answer(), None),
            Some(existing) => if !delete_is_confirmed(item_title(existing), plan.confirm_delete) {
                StepView::Done(plan.confirmation_answer(item_title(existing)), None)
            } else {
                match removal_request(self.radarr, self.sonarr, plan.media, plan.id) {
                    Some(request) => StepView::Send(request),
                    None => StepView::Failed(plan.media.unconfigured_view(), None),
                }
            },
        }
    }

    /// Takes the step after the library was listed as [`Self::on_listed_view`] says, and gives the
    /// item's title.
    pub fn on_listed(&self, plan: &DeletePlan, items: &Vec<Json>) -> (r: Located)
        ensures
            r.step@ == self.on_listed_view(plan@, jsons(items@)),
            item_with_id(jsons(items@), plan.id as int) matches Some(item) ==> r.title@
                == item_title(item),
    {
        let n = fmt_int(plan.id as i128);
        let existing = match find_by_id(items, plan.id) {
            Some(item) => item,
            None => {
                let summary = cat5(
                    "Nothing to delete -- ",
                    plan.media.name(),
                    " id ",
                    n.as_str(),
                    " is not in the library.",
                );
                let mut f = Fields::new();
                f.put("id", Json::integer(plan.id));
                f.put("media_type", Json::text(plan.media.name()));
                f.put("executed", Json::Bool(false));
                f.put("already_absent", Json::Bool(true));
                return Located {
                    step: Step::Done(speak(summary.as_str(), f.object()), None),
                    title: String::new(),
                };
            },
        };
        let title = title_of(existing);
        let confirmation = match &plan.confirm_delete {
            Some(c) => Some(c.as_str()),
            None => None,
        };
        if !delete_confirmed(title.as_str(), confirmation) {
            let summary = cat5(
                "This will permanently delete \"",
                title.as_str(),
                "\" and its files. To confirm, call again with confirm_delete: \"",
                title.as_str(),
                "\" exactly.",
            );
            let mut f = Fields::new();
            f.put("id", Json::integer(plan.id));
            f.put("media_type", Json::text(plan.media.name()));
            f.put("title", Json::text(title.as_str()));
            f.put("executed", Json::Bool(false));
            f.put("requires_confirmation", Json::Bool(true));
            return Located { step: Step::Done(speak(summary.as_str(), f.object()), None), title };
        }
        let step = match ask_removal(&self.radarr, &self.sonarr, plan.media, plan.id) {
            Some(request) => Step::Send(request),
            None => Step::Failed(plan.media.unconfigured(), None),
        };
        Located { step, title }
    }

    /// Takes the last step as [`DeletePlanView::on_deleted_view`] says.
    pub fn on_deleted(plan: &DeletePlan, title: &str, removed: Result<bool, ToolError>) -> (r: Step)
        ensures
            r@ == plan@.on_deleted_view(title@, removal(removed)),
    {
        let n = fmt_int(plan.id as i128);
        let mut f = Fields::new();
        f.put("id", Json::integer(plan.id));
        f.put("media_type", Json::text(plan.media.name()));
        f.put("title", Json::text(title));
        match removed {
            Ok(true) => {
                let head = cat4(
                    "media_delete executed: id=",
                    n.as_str(),
                    " media_type=",
                    plan.media.name(),
                );
                let detail = cat3(head.as_str(), " title=", title);
                let summary = cat3("Deleted \"", title, "\" and its files.");
                f.put("executed", Json::Bool(true));
                Step::Done(
                    speak(summary.as_str(), f.object()),
                    Some(Audit { tool: owned("media_delete"), success: true, detail }),
                )
            },
            Ok(false) => {
                let summary = cat5(
                    "Nothing to delete -- ",
                    plan.media.name(),
                    " id ",
                    n.as_str(),
                    " is not in the library.",
                );
                f.put("executed", Json::Bool(false));
                f.put("already_absent", Json::Bool(true));
                Step::Done(speak(summary.as_str(), f.object()), None)
            },
            Err(e) => {
                let head = cat4(
                    "media_delete failed: id=",
                    n.as_str(),
                    " media_type=",
                    plan.media.name(),
                );
                let detail = cat5(head.as_str(), " title=", title, " error=", e.message());
                Step::Failed(e, Some(Audit { tool: owned("media_delete"), success: false, detail }))
            },
        }
    }
}

impl MediaDelete {
    /// Where a deletion stands after some replies, each to the request of the step before.
    pub open spec fn run_view(&self, plan: DeletePlanView, replies: Seq<ReplyView>) -> StepView {
        let first = library_step(self.radarr, self.sonarr, plan.media);
        if !(first is Send) || replies.len() == 0 {
            first
        } else {
            let items = library_content(plan.media.service_view(), replies[0]);
            let second = self.on_listed_view(plan, items);
            if !(second is Send) || replies.len() == 1 {
                second
            } else {
                match item_with_id(items, plan.id) {
                    Some(item) => plan.on_deleted_view(
                        item_title(item),
                        removal_content(plan.media.service_view(), replies[1]),
                    ),
                    None => second,
                }
            }
        }
    }

    /// Where a call stands after some replies.
    pub open spec fn execute_view(&self, args: JsonView, replies: Seq<ReplyView>) -> StepView {
        match delete_plan_of(args) {
            Err(e) => StepView::Failed(e, None),
            Ok(plan) => self.run_view(plan, replies),
        }
    }

    /// Carries a call on to its next step as [`Self::execute_view`] says. `replies` are those that
    /// came so far.
    pub fn execute(&self, args: &Json, replies: &Vec<HttpReply>) -> (r: Step)
        ensures
            r@ == self.execute_view(args@, replies_view(replies@)),
    {
        let plan = match MediaDelete::plan(args) {
            Ok(p) => p,
            Err(e) => {
                return Step::Failed(e, None);
            },
        };
        let first = self.start(&plan);
        if !first.is_send() || replies.len() == 0 {
            return first;
        }
        let items = map_library(plan.media.service(), &replies[0]);
        let located = self.on_listed(&plan, &items);
        if !located.step.is_send() || replies.len() == 1 {
            return located.step;
        }
        let removed = map_removal(plan.media.service(), &replies[1]);
        MediaDelete::on_deleted(&plan, located.title.as_str(), removed)
    }
}

/// Nothing is removed unless the caller spelled out the title under which the library lists the
/// item, and that title is not blank.
pub proof fn nothing_is_deleted_unconfirmed(
    tool: MediaDelete,
    plan: DeletePlanView,
    replies: Seq<ReplyView>,
)
    ensures
        tool.run_view(plan, replies) matches StepView::Send(request) ==> request.method
            == Method::Delete ==> {
            &&& replies.len() > 0
            &&& item_with_id(library_content(plan.media.service_view(), replies[0]), plan.id)
                matches Some(item)
            &&& plan.confirm_delete matches Some(c)
            &&& trimmed(c) == trimmed(item_title(item))
            &&& trimmed(c).len() > 0
        },
{
}

/// An item that the library does not list is nothing to delete, and no failure.
pub proof fn absent_items_are_no_failure(
    tool: MediaDelete,
    plan: DeletePlanView,
    replies: Seq<ReplyView>,
)
    requires
        library_step(tool.radarr, tool.sonarr, plan.media) is Send,
        replies.len() > 0,
        item_with_id(library_content(plan.media.service_view(), replies[0]), plan.id) is None,
    ensures
        tool.run_view(plan, replies) == StepView::Done(plan.absent_answer(), None),
{
}

/// A deletion reads its id, its type and its spelled-out title, and no other argument: in
/// particular no `confirm: true`.
pub proof fn deletion_ignores_other_arguments(a: JsonView, b: JsonView)
    requires
        a.field("id"@) == b.field("id"@),
        a.field("media_type"@) == b.field("media_type"@),
        a.field("confirm_delete"@) == b.field("confirm_delete"@),
    ensures
        delete_plan_of(a) == delete_plan_of(b),
{
}

// ── cleaning up ─────────────────────────────────────────────────────────────

/// Something that might be cleaned up. What not every user has watched is not eligible.
#[derive(Debug, PartialEq, Eq)]
pub struct CleanupCandidate {
    pub id: i64,
    pub title: String,
    pub watched_by_all_users: bool,
}

impl CleanupCandidate {
    /// A candidate as the arguments give it. One of which it is not said that every user has
    /// watched it counts as not watched by every user.
    pub fn given(id: i64, title: String, watched_by_all_users: Option<bool>) -> (r:
        CleanupCandidate)
        ensures
            r.id == id,
            r.title == title,
            r.watched_by_all_users == (watched_by_all_users == Some(true)),
    {
        CleanupCandidate { id, title, watched_by_all_users: watched_by_all_users == Some(true) }
    }
}

/// The candidates whose eligibility is `eligible`, in order.
pub open spec fn candidates_where(candidates: Seq<CleanupCandidate>, eligible: bool) -> Seq<
    CleanupCandidate,
> {
    candidates.filter(|c: CleanupCandidate| c.watched_by_all_users == eligible)
}

/// Splits candidates into those eligible for removal and those that are not, in order.
pub fn cleanup_partition<'a>(candidates: &'a [CleanupCandidate]) -> (r: (
    Vec<&'a CleanupCandidate>,
    Vec<&'a CleanupCandidate>,
))
    ensures
        r.0@.map_values(|c: &CleanupCandidate| *c) == candidates_where(candidates@, true),
        r.1@.map_values(|c: &CleanupCandidate| *c) == candidates_where(candidates@, false),
{
    let mut eligible: Vec<&'a CleanupCandidate> = Vec::new();
    let mut flagged: Vec<&'a CleanupCandidate> = Vec::new();
    let mut i: usize = 0;
    let ghost deref = |c: &CleanupCandidate| *c;
    let ghost yes = |c: CleanupCandidate| c.watched_by_all_users == true;
    let ghost no = |c: CleanupCandidate| c.watched_by_all_users == false;
    while i < candidates.len()
        invariant
            i <= candidates.len(),
            deref == (|c: &CleanupCandidate| *c),
            yes == (|c: CleanupCandidate| c.watched_by_all_users == true),
            no == (|c: CleanupCandidate| c.watched_by_all_users == false),
            eligible@.map_values(deref) =~= candidates@.take(i as int).filter(yes),
            flagged@.map_values(deref) =~= candidates@.take(i as int).filter(no),
        decreases candidates.len() - i,
    {
        let c = &candidates[i];
        proof {
            let next = candidates@.take(i + 1);
            assert(next =~= candidates@.take(i as int).push(*c));
            candidates@.take(i as int).lemma_filter_push(*c, yes);
            candidates@.take(i as int).lemma_filter_push(*c, no);
        }
        let ghost eligible_before = eligible@.map_values(deref);
        let ghost flagged_before = flagged@.map_values(deref);
        if c.watched_by_all_users {
            eligible.push(c);
            assert(eligible@.map_values(deref) =~= eligible_before.push(*c));
        } else {
            flagged.push(c);
            assert(flagged@.map_values(deref) =~= flagged_before.push(*c));
        }
        i += 1;
    }
    assert(candidates@.take(candidates@.len() as int) =~= candidates@);
    (eligible, flagged)
}

/// The titles of a list of candidates.
pub open spec fn titles(candidates: Seq<CleanupCandidate>) -> Seq<Seq<char>> {
    candidates.map_values(|c: CleanupCandidate| c.title@)
}

/// Texts with the white space at their ends removed.
pub open spec fn all_trimmed(v: Seq<Seq<char>>) -> Seq<Seq<char>> {
    v.map_values(|s: Seq<char>| trimmed(s))
}

/// Whether a confirmation spells out the very titles that are eligible: as many times each, in any
/// order, white space at their ends aside.
pub open spec fn cleanup_is_confirmed(
    eligible: Seq<Seq<char>>,
    confirmation: Option<Seq<Seq<char>>>,
) -> bool {
    confirmation matches Some(c) && c.len() > 0 && eligible.len() > 0 && all_trimmed(
        c,
    ).to_multiset() =~= all_trimmed(eligible).to_multiset()
}

/// The character views of an optional list of strings.
pub open spec fn opt_texts(v: Option<&[String]>) -> Option<Seq<Seq<char>>> {
    match v {
        Some(x) => Some(texts(x@)),
        None => None,
    }
}

fn trim_all(v: &[String]) -> (r: Vec<String>)
    ensures
        texts(r@) == all_trimmed(texts(v@)),
{
    let mut out: Vec<String> = Vec::new();
    let mut i: usize = 0;
    while i < v.len()
        invariant
            i <= v.len(),
            out.len() == i,
            forall|k: int| 0 <= k < i ==> (#[trigger] out@[k])@ == trimmed(v@[k]@),
        decreases v.len() - i,
    {
        out.push(owned(trim(v[i].as_str())));
        i += 1;
    }
    assert(texts(out@) =~= all_trimmed(texts(v@)));
    out
}

/// Whether two lists hold the same texts, as many times each.
fn same_texts(a: &Vec<String>, b: Vec<String>) -> (r: bool)
    ensures
        r == (texts(a@).to_multiset() =~= texts(b@).to_multiset()),
{
    broadcast use vstd::multiset::group_multiset_axioms;

    let ghost all = texts(b@).to_multiset();
    let ghost av = texts(a@);
    let mut left = b;
    let mut i: usize = 0;
    assert(av.take(0).to_multiset() =~= vstd::multiset::Multiset::empty()) by {
        av.take(0).to_multiset_ensures();
        assert(av.take(0).len() == 0);
    }
    while i < a.len()
        invariant
            i <= a.len(),
            av == texts(a@),
            all == texts(b@).to_multiset(),
            all =~= av.take(i as int).to_multiset().add(texts(left@).to_multiset()),
        decreases a.len() - i,
    {
        let ghost x = a@[i as int]@;
        let ghost rest = texts(left@);
        proof {
            assert(av.take(i + 1) =~= av.take(i as int).push(x));
            av.take(i as int).to_multiset_ensures();
        }
        let mut j: usize = 0;
        while j < left.len() && !same(left[j].as_str(), a[i].as_str())
            invariant
                j <= left.len(),
                i < a.len(),
                forall|k: int| 0 <= k < j ==> left@[k]@ != a@[i as int]@,
            decreases left.len() - j,
        {
            j += 1;
        }
        if j == left.len() {
            proof {
                rest.to_multiset_ensures();
                assert(!rest.contains(x));
                assert(all.count(x) == av.take(i as int).to_multiset().count(x));
                lemma_count_grows(av, i + 1, x);
                assert(av.to_multiset().count(x) > all.count(x));
            }
            return false;
        }
        let gone = left.remove(j);
        proof {
            assert(texts(left@) =~= rest.remove(j as int));
            rest.to_multiset_ensures();
            assert(rest[j as int] == x);
            assert(rest.contains(x));
            assert(all =~= av.take(i + 1).to_multiset().add(texts(left@).to_multiset()));
        }
        i += 1;
    }
    proof {
        assert(av.take(a@.len() as int) =~= av);
        texts(left@).to_multiset_ensures();
        av.to_multiset_ensures();
        if left.len() == 0 {
            assert(texts(left@).to_multiset() =~= vstd::multiset::Multiset::empty());
        } else {
            assert(all.len() == av.to_multiset().len() + texts(left@).to_multiset().len());
        }
    }
    left.len() == 0
}

proof fn lemma_count_grows(s: Seq<Seq<char>>, k: int, x: Seq<char>)
    requires
        0 <= k <= s.len(),
    ensures
        s.take(k).to_multiset().count(x) <= s.to_multiset().count(x),
    decreases s.len() - k,
{
    broadcast use vstd::multiset::group_multiset_axioms;

    if k == s.len() {
        assert(s.take(k) =~= s);
    } else {
        lemma_count_grows(s, k + 1, x);
        assert(s.take(k + 1) =~= s.take(k).push(s[k]));
        s.take(k).to_multiset_ensures();
    }
}

/// Checks a confirmation as [`cleanup_is_confirmed`] says.
pub fn cleanup_confirmed(eligible_titles: &[String], confirm_delete: Option<&[String]>) -> (r: bool)
    ensures
        r == cleanup_is_confirmed(texts(eligible_titles@), opt_texts(confirm_delete)),
{
    match confirm_delete {
        None => false,
        Some(c) => {
            if c.len() == 0 || eligible_titles.len() == 0 {
                return false;
            }
            let a = trim_all(c);
            let b = trim_all(eligible_titles);
            same_texts(&a, b)
        },
    }
}

/// What a clean-up call does next.
#[derive(Debug)]
pub enum CleanupStep {
    /// The answer is ready; nothing is removed.
    Done(Json),
    /// The call failed; nothing is removed.
    Failed(ToolError),
    /// These items are to be removed; those with the flagged titles stay.
    Remove { media: MediaType, removals: Vec<Removal>, flagged: Vec<String> },
}

/// An item to remove, and the request that does it where its service is configured.
#[derive(Debug)]
pub struct Removal {
    pub id: i64,
    pub title: String,
    pub request: Option<HttpRequest>,
}

/// The content of a [`Removal`].
pub struct RemovalView {
    pub id: int,
    pub title: Seq<char>,
    pub request: Option<RequestView>,
}

impl View for Removal {
    type V = RemovalView;

    open spec fn view(&self) -> RemovalView {
        RemovalView { id: self.id as int, title: self.title@, request: opt_request(self.request) }
    }
}

/// The content of a list of removals.
pub open spec fn removals_view(v: Seq<Removal>) -> Seq<RemovalView> {
    v.map_values(|r: Removal| r@)
}

/// The content of a [`CleanupStep`].
pub enum CleanupView {
    Done(JsonView),
    Failed(ErrorView),
    Remove { media: MediaType, removals: Seq<RemovalView>, flagged: Seq<Seq<char>> },
}

impl View for CleanupStep {
    type V = CleanupView;

    open spec fn view(&self) -> CleanupView {
        match *self {
            CleanupStep::Done(answer) => CleanupView::Done(answer@),
            CleanupStep::Failed(e) => CleanupView::Failed(e@),
            CleanupStep::Remove { media, removals, flagged } => CleanupView::Remove {
                media,
                removals: removals_view(removals@),
                flagged: texts(flagged@),
            },
        }
    }
}

/// The clean-up tool and the services it uses.
#[derive(Debug)]
pub struct MediaCleanup {
    pub radarr: Option<RadarrClient>,
    pub sonarr: Option<SonarrClient>,
}

/// The structured content of an answer to a clean-up that removed nothing.
pub open spec fn enumeration(
    media: MediaType,
    eligible: Seq<Seq<char>>,
    flagged: Seq<Seq<char>>,
) -> Seq<(Seq<char>, JsonView)> {
    no_fields().push(("media_type"@, JsonView::Str(media.name_view()))).push(
        ("executed"@, JsonView::Bool(false)),
    ).push(("eligible"@, text_array_view(eligible))).push(("flagged"@, text_array_view(flagged)))
}

/// What is said about the items that would be removed, and those that would not.
pub open spec fn enumeration_summary(eligible: Seq<Seq<char>>, flagged: Seq<Seq<char>>) -> Seq<char> {
    "This will permanently delete "@ + dec(eligible.len() as int) + " item(s): "@ + joined(
        eligible,
        ", "@,
    ) + ". "@ + (if flagged.len() == 0 {
        ""@
    } else {
        "("@ + dec(flagged.len() as int)
            + " flagged as not watched by every user, will NOT be removed: "@ + joined(
            flagged,
            ", "@,
        ) + ") "@
    })
        + "To confirm, call again with confirm_delete set to exactly this list of titles."@
}

/// Whether every value of a list is a string.
pub open spec fn all_strings(items: Seq<JsonView>) -> bool {
    forall|i: int| 0 <= i < items.len() ==> (#[trigger] items[i]).text() is Some
}

/// The confirmation that the arguments of a clean-up carry: a list of titles. A list that holds
/// anything but strings is no confirmation.
pub open spec fn cleanup_confirmation(args: JsonView) -> Option<Seq<Seq<char>>> {
    match args.items_at("confirm_delete"@) {
        Some(items) => if all_strings(items) {
            Some(strings_in(items))
        } else {
            None
        },
        None => None,
    }
}

fn only_strings(items: &Vec<Json>) -> (r: bool)
    ensures
        r == all_strings(jsons(items@)),
{
    let mut i: usize = 0;
    while i < items.len()
        invariant
            i <= items.len(),
            forall|k: int| 0 <= k < i ==> (#[trigger] jsons(items@)[k]).text() is Some,
        decreases items.len() - i,
    {
        assert(jsons(items@)[i as int] == items@[i as int]@);
        if items[i].as_str().is_none() {
            return false;
        }
        i += 1;
    }
    true
}

/// The candidates as they were decoded from the arguments, or why they could not be.
pub open spec fn decoded_view(r: Result<Vec<CleanupCandidate>, String>) -> Result<
    Seq<CleanupCandidate>,
    Seq<char>,
> {
    match r {
        Ok(v) => Ok(v@),
        Err(e) => Err(e@),
    }
}

fn copy_titles(candidates: &Vec<&CleanupCandidate>) -> (r: Vec<String>)
    ensures
        texts(r@) == titles(candidates@.map_values(|c: &CleanupCandidate| *c)),
{
    let mut out: Vec<String> = Vec::new();
    let mut i: usize = 0;
    while i < candidates.len()
        invariant
            i <= candidates.len(),
            out.len() == i,
            forall|k: int| 0 <= k < i ==> (#[trigger] out@[k])@ == candidates@[k].title@,
        decreases candidates.len() - i,
    {
        out.push(owned(candidates[i].title.as_str()));
        i += 1;
    }
    assert(texts(out@) =~= titles(candidates@.map_values(|c: &CleanupCandidate| *c)));
    out
}

fn enumerate(media: MediaType, eligible: &Vec<String>, flagged: &Vec<String>) -> (r: Fields)
    ensures
        r@ == enumeration(media, texts(eligible@), texts(flagged@)),
{
    let mut f = Fields::new();
    f.put("media_type", Json::text(media.name()));
    f.put("executed", Json::Bool(false));
    f.put("eligible", Json::text_array(eligible));
    f.put("flagged", Json::text_array(flagged));
    f
}

impl MediaCleanup {
    /// The removals of a list of candidates.
    pub open spec fn removals_of(
        &self,
        media: MediaType,
        eligible: Seq<CleanupCandidate>,
    ) -> Seq<RemovalView> {
        eligible.map_values(
            |c: CleanupCandidate|
                RemovalView {
                    id: c.id as int,
                    title: c.title@,
                    request: removal_request(self.radarr, self.sonarr, media, c.id as int),
                },
        )
    }

    /// The first step. Nothing is removed unless the confirmation spells out the eligible titles.
    pub open spec fn start_view(
        &self,
        args: JsonView,
        decoded: Result<Seq<CleanupCandidate>, Seq<char>>,
    ) -> CleanupView {
        match media_type_view(args) {
            Err(e) => CleanupView::Failed(e),
            Ok(media) => if args.field("candidates"@) is None {
                CleanupView::Failed(ErrorView::InvalidArgument("candidates is required"@))
            } else {
                match decoded {
                    Err(e) => CleanupView::Failed(
                        ErrorView::InvalidArgument("invalid candidates: "@ + e),
                    ),
                    Ok(candidates) => {
                        let eligible = candidates_where(candidates, true);
                        let flagged = titles(candidates_where(candidates, false));
                        if candidates.len() == 0 {
                            CleanupView::Done(
                                spoken(
                                    "Nothing to clean up -- no candidates supplied."@,
                                    JsonView::Object(
                                        enumeration(media, Seq::empty(), Seq::empty()),
                                    ),
                                ),
                            )
                        } else if eligible.len() == 0 {
                            CleanupView::Done(
                                spoken(
                                    "Nothing eligible to clean up -- all candidates are flagged (not watched by every user)."@,
                                    JsonView::Object(enumeration(media, Seq::empty(), flagged)),
                                ),
                            )
                        } else if !cleanup_is_confirmed(
                            titles(eligible),
                            cleanup_confirmation(args),
                        ) {
                            CleanupView::Done(
                                spoken(
                                    enumeration_summary(titles(eligible), flagged),
                                    JsonView::Object(
                                        enumeration(media, titles(eligible), flagged).push(
                                            ("requires_confirmation"@, JsonView::Bool(true)),
                                        ),
                                    ),
                                ),
                            )
                        } else {
                            CleanupView::Remove {
                                media,
                                removals: self.removals_of(media, eligible),
                                flagged,
                            }
                        }
                    },
                }
            },
        }
    }

    /// Takes the first step as [`Self::start_view`] says. `decoded` is what the argument
    /// `candidates` decodes to, and is not looked at where there is no such argument.
    pub fn start(&self, args: &Json, decoded: &Result<Vec<CleanupCandidate>, String>) -> (r:
        CleanupStep)
        ensures
            r@ == self.start_view(args@, decoded_view(*decoded)),
    {
        let media = match media_type_of(args) {
            Ok(m) => m,
            Err(e) => {
                return CleanupStep::Failed(e);
            },
        };
        if args.get("candidates").is_none() {
            return CleanupStep::Failed(ToolError::invalid("candidates is required"));
        }
        let candidates = match decoded {
            Ok(v) => v,
            Err(e) => {
                return CleanupStep::Failed(
                    ToolError::InvalidArgument(cat2("invalid candidates: ", e.as_str())),
                );
            },
        };
        let nothing: Vec<String> = Vec::new();
        assert(texts(nothing@) =~= Seq::empty());
        if candidates.len() == 0 {
            return CleanupStep::Done(
                speak(
                    "Nothing to clean up -- no candidates supplied.",
                    enumerate(media, &nothing, &nothing).object(),
                ),
            );
        }
        let (eligible, flagged) = cleanup_partition(candidates.as_slice());
        let ghost chosen = candidates_where(candidates@, true);
        let eligible_titles = copy_titles(&eligible);
        let flagged_titles = copy_titles(&flagged);
        assert(eligible@.len() == chosen.len());
        if eligible.len() == 0 {
            return CleanupStep::Done(
                speak(
                    "Nothing eligible to clean up -- all candidates are flagged (not watched by every user).",
                    enumerate(media, &nothing, &flagged_titles).object(),
                ),
            );
        }
        let listed: Option<Vec<String>> = match args.array_at("confirm_delete") {
            Some(items) => if only_strings(items) {
                Some(collect_strings(items))
            } else {
                None
            },
            None => None,
        };
        let confirmation: Option<&[String]> = match &listed {
            Some(v) => Some(v.as_slice()),
            None => None,
        };
        assert(opt_texts(confirmation) == cleanup_confirmation(args@));
        if !cleanup_confirmed(eligible_titles.as_slice(), confirmation) {
            let count = fmt_nat(eligible_titles.len() as u128);
            let list = join(&eligible_titles, ", ");
            let head = cat5(
                "This will permanently delete ",
                count.as_str(),
                " item(s): ",
                list.as_str(),
                ". ",
            );
            let note = if flagged_titles.len() == 0 {
                owned("")
            } else {
                let kept = fmt_nat(flagged_titles.len() as u128);
                let names = join(&flagged_titles, ", ");
                cat5(
                    "(",
                    kept.as_str(),
                    " flagged as not watched by every user, will NOT be removed: ",
                    names.as_str(),
                    ") ",
                )
            };
            let summary = cat3(
                head.as_str(),
                note.as_str(),
                "To confirm, call again with confirm_delete set to exactly this list of titles.",
            );
            let mut f = enumerate(media, &eligible_titles, &flagged_titles);
            f.put("requires_confirmation", Json::Bool(true));
            return CleanupStep::Done(speak(summary.as_str(), f.object()));
        }
        let mut removals: Vec<Removal> = Vec::new();
        let ghost planned = self.removals_of(media, chosen);
        let mut i: usize = 0;
        while i < eligible.len()
            invariant
                i <= eligible.len(),
                removals.len() == i,
                chosen == eligible@.map_values(|c: &CleanupCandidate| *c),
                planned == self.removals_of(media, chosen),
                forall|k: int| 0 <= k < i ==> (#[trigger] removals@[k])@ == planned[k],
            decreases eligible.len() - i,
        {
            let c = eligible[i];
            assert(chosen[i as int] == *c);
            removals.push(
                Removal {
                    id: c.id,
                    title: owned(c.title.as_str()),
                    request: ask_removal(&self.radarr, &self.sonarr, media, c.id),
                },
            );
            i += 1;
        }
        assert(removals_view(removals@) =~= planned);
        CleanupStep::Remove { media, removals, flagged: flagged_titles }
    }
}

/// A clean-up removes nothing unless the confirmation spells out the eligible titles, and then
/// exactly the candidates that every user has watched, in order.
pub proof fn cleanup_removes_exactly_the_confirmed(
    tool: MediaCleanup,
    args: JsonView,
    candidates: Seq<CleanupCandidate>,
)
    ensures
        tool.start_view(args, Ok(candidates)) matches CleanupView::Remove {
            media,
            removals,
            flagged,
        } ==> {
            let eligible = candidates_where(candidates, true);
            &&& cleanup_is_confirmed(titles(eligible), cleanup_confirmation(args))
            &&& removals.len() == eligible.len()
            &&& forall|i: int|
                0 <= i < removals.len() ==> {
                    &&& eligible[i].watched_by_all_users
                    &&& candidates.contains(eligible[i])
                    &&& (#[trigger] removals[i]).id == eligible[i].id
                    &&& removals[i].title == eligible[i].title@
                }
            &&& flagged == titles(candidates_where(candidates, false))
        },
{
    let eligible = candidates_where(candidates, true);
    let watched = |c: CleanupCandidate| c.watched_by_all_users == true;
    assert forall|i: int| 0 <= i < eligible.len() implies (#[trigger] eligible[i]).watched_by_all_users
        && candidates.contains(eligible[i]) by {
        assert(eligible == candidates.filter(watched));
        candidates.lemma_filter_pred(watched, i);
        assert(candidates.filter(watched).contains(eligible[i]));
        candidates.lemma_filter_contains_rev(watched, eligible[i]);
    }
}

/// An item that was to be removed, and the reply to its removal where one was sent.
#[derive(Debug)]
pub struct Removed<'a> {
    pub id: i64,
    pub title: &'a str,
    pub reply: Option<&'a HttpReply>,
}

/// The content of a [`Removed`].
pub struct RemovedView {
    pub id: int,
    pub title: Seq<char>,
    pub reply: Option<ReplyView>,
}

impl<'a> View for Removed<'a> {
    type V = RemovedView;

    open spec fn view(&self) -> RemovedView {
        RemovedView {
            id: self.id as int,
            title: self.title@,
            reply: match self.reply {
                Some(reply) => Some(reply@),
                None => None,
            },
        }
    }
}

/// The content of a list of items that were to be removed.
pub open spec fn removed_view(v: Seq<Removed>) -> Seq<RemovedView> {
    v.map_values(|r: Removed| r@)
}

/// What became of a removal.
pub open spec fn removed_content(media: MediaType, item: RemovedView) -> Result<bool, ErrorView> {
    match item.reply {
        Some(reply) => removal_content(media.service_view(), reply),
        None => Err(media.unconfigured_view()),
    }
}

/// Which of the three lists of a clean-up's answer an item belongs to.
#[derive(Debug, Clone, Copy, PartialEq, Eq, Structural)]
pub enum Fate {
    Deleted,
    Absent,
    Failed,
}

/// The fate of an item.
pub open spec fn fate_of(media: MediaType, item: RemovedView) -> Fate {
    match removed_content(media, item) {
        Ok(true) => Fate::Deleted,
        Ok(false) => Fate::Absent,
        Err(_) => Fate::Failed,
    }
}

/// The titles of the items with a given fate, in order.
pub open spec fn titles_with_fate(media: MediaType, items: Seq<RemovedView>, fate: Fate) -> Seq<
    Seq<char>,
>
    decreases items.len(),
{
    if items.len() == 0 {
        Seq::empty()
    } else {
        let front = titles_with_fate(media, items.drop_last(), fate);
        if fate_of(media, items.last()) == fate {
            front.push(items.last().title)
        } else {
            front
        }
    }
}

/// The record for one item: of what was deleted and of what failed, and none of what was not there.
pub open spec fn removal_audit(media: MediaType, item: RemovedView) -> Option<AuditView> {
    let tail = dec(item.id) + " media_type="@ + media.name_view() + " title="@
        + item.title;
    match removed_content(media, item) {
        Ok(true) => Some(
            AuditView {
                tool: "media_cleanup"@,
                success: true,
                detail: "media_cleanup executed: id="@ + tail,
            },
        ),
        Ok(false) => None,
        Err(e) => Some(
            AuditView {
                tool: "media_cleanup"@,
                success: false,
                detail: "media_cleanup failed: id="@ + tail + " error="@ + e.message(),
            },
        ),
    }
}

/// The records of a clean-up, in order.
pub open spec fn removal_audits(media: MediaType, items: Seq<RemovedView>) -> Seq<AuditView>
    decreases items.len(),
{
    if items.len() == 0 {
        Seq::empty()
    } else {
        let front = removal_audits(media, items.drop_last());
        match removal_audit(media, items.last()) {
            Some(a) => front.push(a),
            None => front,
        }
    }
}

/// The answer to a clean-up that was carried out.
pub open spec fn cleanup_answer(
    media: MediaType,
    items: Seq<RemovedView>,
    flagged: Seq<Seq<char>>,
) -> JsonView {
    let deleted = titles_with_fate(media, items, Fate::Deleted);
    spoken(
        "Cleaned up "@ + dec(deleted.len() as int) + " item(s)."@,
        JsonView::Object(
            no_fields().push(("media_type"@, JsonView::Str(media.name_view()))).push(
                ("executed"@, JsonView::Bool(true)),
            ).push(("deleted"@, text_array_view(deleted))).push(
                (
                    "already_absent"@,
                    text_array_view(titles_with_fate(media, items, Fate::Absent)),
                ),
            ).push(
                ("failed"@, text_array_view(titles_with_fate(media, items, Fate::Failed))),
            ).push(("flagged"@, text_array_view(flagged))),
        ),
    )
}

/// The content of a list of records.
pub open spec fn audits_view(v: Seq<Audit>) -> Seq<AuditView> {
    v.map_values(|a: Audit| a@)
}

impl MediaCleanup {
    /// The last step: the answer, and the records of what was done.
    pub fn finish(media: MediaType, items: &Vec<Removed>, flagged: &Vec<String>) -> (r: (
        Json,
        Vec<Audit>,
    ))
        ensures
            r.0@ == cleanup_answer(media, removed_view(items@), texts(flagged@)),
            audits_view(r.1@) == removal_audits(media, removed_view(items@)),
    {
        let mut deleted: Vec<String> = Vec::new();
        let mut absent: Vec<String> = Vec::new();
        let mut failed: Vec<String> = Vec::new();
        let mut audits: Vec<Audit> = Vec::new();
        let ghost view = removed_view(items@);
        let mut i: usize = 0;
        assert(view.take(0) =~= Seq::<RemovedView>::empty());
        assert(texts(deleted@) =~= Seq::<Seq<char>>::empty());
        assert(audits_view(audits@) =~= Seq::<AuditView>::empty());
        while i < items.len()
            invariant
                i <= items.len(),
                view == removed_view(items@),
                texts(deleted@) == titles_with_fate(media, view.take(i as int), Fate::Deleted),
                texts(absent@) == titles_with_fate(media, view.take(i as int), Fate::Absent),
                texts(failed@) == titles_with_fate(media, view.take(i as int), Fate::Failed),
                audits_view(audits@) == removal_audits(media, view.take(i as int)),
            decreases items.len() - i,
        {
            let item = &items[i];
            let ghost next = view.take(i + 1);
            assert(next.drop_last() =~= view.take(i as int));
            assert(next.last() == item@);
            let ghost d = texts(deleted@);
            let ghost n = texts(absent@);
            let ghost x = texts(failed@);
            let ghost w = audits_view(audits@);
            let outcome = match item.reply {
                Some(reply) => map_removal(media.service(), reply),
                None => Err(media.unconfigured()),
            };
            let id = fmt_int(item.id as i128);
            let tail = cat5(
                id.as_str(),
                " media_type=",
                media.name(),
                " title=",
                item.title,
            );
            match outcome {
                Ok(true) => {
                    let detail = cat2("media_cleanup executed: id=", tail.as_str());
                    audits.push(Audit { tool: owned("media_cleanup"), success: true, detail });
                    deleted.push(owned(item.title));
                    assert(texts(deleted@) =~= d.push(item.title@));
                },
                Ok(false) => {
                    absent.push(owned(item.title));
                    assert(texts(absent@) =~= n.push(item.title@));
                },
                Err(e) => {
                    let detail = cat4(
                        "media_cleanup failed: id=",
                        tail.as_str(),
                        " error=",
                        e.message(),
                    );
                    audits.push(Audit { tool: owned("media_cleanup"), success: false, detail });
                    failed.push(owned(item.title));
                    assert(texts(failed@) =~= x.push(item.title@));
                },
            }
            assert(audits_view(audits@) =~= (match removal_audit(media, item@) {
                Some(a) => w.push(a),
                None => w,
            }));
            i += 1;
        }
        assert(view.take(view.len() as int) =~= view);
        let count = fmt_nat(deleted.len() as u128);
        let summary = cat3("Cleaned up ", count.as_str(), " item(s).");
        let mut f = Fields::new();
        f.put("media_type", Json::text(media.name()));
        f.put("executed", Json::Bool(true));
        f.put("deleted", Json::text_array(&deleted));
        f.put("already_absent", Json::text_array(&absent));
        f.put("failed", Json::text_array(&failed));
        f.put("flagged", Json::text_array(flagged));
        (speak(summary.as_str(), f.object()), audits)
    }
}

/// Where a clean-up stands.
#[derive(Debug)]
pub enum CleanupAction {
    /// The answer is ready; the records are to be written.
    Done(Json, Vec<Audit>),
    /// Send this request and come back with the reply.
    Send(HttpRequest),
    /// The call failed; nothing was removed.
    Failed(ToolError),
}

/// The content of a [`CleanupAction`].
pub enum CleanupActionView {
    Done(JsonView, Seq<AuditView>),
    Send(RequestView),
    Failed(ErrorView),
}

impl View for CleanupAction {
    type V = CleanupActionView;

    open spec fn view(&self) -> CleanupActionView {
        match *self {
            CleanupAction::Done(answer, audits) => CleanupActionView::Done(
                answer@,
                audits_view(audits@),
            ),
            CleanupAction::Send(request) => CleanupActionView::Send(request@),
            CleanupAction::Failed(e) => CleanupActionView::Failed(e@),
        }
    }
}

/// The first of some removals, each with its reply: those that have a request were sent in order.
pub open spec fn carried_out(removals: Seq<RemovalView>, replies: Seq<ReplyView>) -> Seq<
    RemovedView,
> {
    Seq::new(
        removals.len(),
        |i: int|
            RemovedView {
                id: removals[i].id,
                title: removals[i].title,
                reply: if removals[i].request is Some && i < replies.len() {
                    Some(replies[i])
                } else {
                    None
                },
            },
    )
}

impl MediaCleanup {
    /// Where a call stands after some replies: one item is removed after the other, and where the
    /// service is not configured none can be.
    pub open spec fn execute_view(
        &self,
        args: JsonView,
        decoded: Result<Seq<CleanupCandidate>, Seq<char>>,
        replies: Seq<ReplyView>,
    ) -> CleanupActionView {
        match self.start_view(args, decoded) {
            CleanupView::Done(answer) => CleanupActionView::Done(answer, Seq::empty()),
            CleanupView::Failed(e) => CleanupActionView::Failed(e),
            CleanupView::Remove { media, removals, flagged } => {
                let done = CleanupActionView::Done(
                    cleanup_answer(media, carried_out(removals, replies), flagged),
                    removal_audits(media, carried_out(removals, replies)),
                );
                if replies.len() < removals.len() {
                    match removals[replies.len() as int].request {
                        Some(request) => CleanupActionView::Send(request),
                        None => done,
                    }
                } else {
                    done
                }
            },
        }
    }

    /// Carries a call on to its next step as [`Self::execute_view`] says. `decoded` is what the
    /// argument `candidates` decodes to, `replies` are those that came so far.
    pub fn execute(
        &self,
        args: &Json,
        decoded: &Result<Vec<CleanupCandidate>, String>,
        replies: &Vec<HttpReply>,
    ) -> (r: CleanupAction)
        ensures
            r@ == self.execute_view(args@, decoded_view(*decoded), replies_view(replies@)),
    {
        let (media, removals, flagged) = match self.start(args, decoded) {
            CleanupStep::Done(answer) => {
                let audits: Vec<Audit> = Vec::new();
                assert(audits_view(audits@) =~= Seq::<AuditView>::empty());
                return CleanupAction::Done(answer, audits);
            },
            CleanupStep::Failed(e) => {
                return CleanupAction::Failed(e);
            },
            CleanupStep::Remove { media, removals, flagged } => (media, removals, flagged),
        };
        let ghost planned = removals_view(removals@);
        if replies.len() < removals.len() {
            let next = &removals[replies.len()];
            assert(planned[replies@.len() as int] == next@);
            if let Some(request) = ask_removal(&self.radarr, &self.sonarr, media, next.id) {
                return CleanupAction::Send(request);
            }
        }
        let mut removed: Vec<Removed> = Vec::new();
        let ghost expected = carried_out(planned, replies_view(replies@));
        let mut i: usize = 0;
        while i < removals.len()
            invariant
                i <= removals.len(),
                removed.len() == i,
                planned == removals_view(removals@),
                expected == carried_out(planned, replies_view(replies@)),
                forall|k: int| 0 <= k < i ==> (#[trigger] removed@[k])@ == expected[k],
            decreases removals.len() - i,
        {
            let item = &removals[i];
            assert(planned[i as int] == item@);
            let reply = if item.request.is_some() && i < replies.len() {
                Some(&replies[i])
            } else {
                None
            };
            removed.push(Removed { id: item.id, title: item.title.as_str(), reply });
            i += 1;
        }
        assert(removed_view(removed@) =~= expected);
        let (answer, audits) = MediaCleanup::finish(media, &removed, &flagged);
        CleanupAction::Done(answer, audits)
    }
}

/// Whatever a clean-up sends removes a candidate that every user has watched, and is sent only
/// where the confirmation spells out the eligible titles.
pub proof fn cleanup_sends_confirmed_removals_only(
    tool: MediaCleanup,
    args: JsonView,
    candidates: Seq<CleanupCandidate>,
    replies: Seq<ReplyView>,
)
    ensures
        tool.execute_view(args, Ok(candidates), replies) matches CleanupActionView::Send(request)
            ==> {
            let eligible = candidates_where(candidates, true);
            &&& cleanup_is_confirmed(titles(eligible), cleanup_confirmation(args))
            &&& replies.len() < eligible.len()
            &&& eligible[replies.len() as int].watched_by_all_users
            &&& media_type_view(args) matches Ok(media)
            &&& removal_request(
                tool.radarr,
                tool.sonarr,
                media,
                eligible[replies.len() as int].id as int,
            ) == Some(request)
        },
{
    cleanup_removes_exactly_the_confirmed(tool, args, candidates);
    if let CleanupView::Remove { media, removals, flagged } = tool.start_view(args, Ok(candidates)) {
        if replies.len() < removals.len() {
            assert(removals[replies.len() as int].id == candidates_where(candidates, true)[replies.len() as int].id);
        }
    }
}

// ── registration ────────────────────────────────────────────────────────────

/// What the organizing tool says about itself.
pub open spec fn organize_info() -> InfoView {
    InfoView {
        name: "media_organize"@,
        description: "Non-destructive library organization: tag a movie/series, toggle its monitored state, or set a movie's collection. Uses the same tiered mutation safety as media_request -- a specific, unambiguous, single-item or single-season change executes immediately; anything ambiguous, bulk, or whole-series-scoped returns a confirmation payload and requires confirm: true. Never used for deletion/removal -- see media_delete and media_cleanup for those."@,
        parameters: required_object_view(
            no_fields()
                .push(("id"@, described_view("integer"@, "Radarr/Sonarr resource id of the item to organize."@)))
                .push(("title"@, described_view("string"@, "Title, for narration/audit; not used for lookup (id is authoritative)."@)))
                .push(("media_type"@, choice_view(no_texts().push("movie"@).push("series"@))))
                .push(("season"@, described_view("integer"@, "A specific season number, if this change is season-scoped. Omit for a whole-series change (always Confirm-tier)."@)))
                .push(("action"@, choice_view(no_texts().push("monitor"@).push("tag"@).push("add_to_collection"@))))
                .push(("monitored"@, described_view("boolean"@, "Required for action=monitor."@)))
                .push(("tag_ids"@, list_view(typed_view("integer"@), "Required for action=tag -- already-resolved Radarr/Sonarr tag ids."@)))
                .push(("collection_tmdb_id"@, described_view("integer"@, "Required for action=add_to_collection (movies only)."@)))
                .push(("item_count"@, described_view("integer"@, "How many discrete items this call would change at once. Defaults to 1; >1 is always Confirm-tier."@)))
                .push(("is_ambiguous"@, described_view("boolean"@, "True if the target itself is not definitively resolved. Defaults to false."@)))
                .push(("confirm"@, described_view("boolean"@, "Must be true to execute a Confirm-tier organize change."@))),
            no_texts().push("id"@).push("media_type"@).push("action"@),
        ),
    }
}

impl MediaOrganize {
    /// What this tool says about itself.
    pub fn info() -> (r: ToolInfo)
        ensures
            r@ == organize_info(),
    {
        let parameters = required_object(
            Fields::new()
                .with("id", described("integer", "Radarr/Sonarr resource id of the item to organize."))
                .with("title", described("string", "Title, for narration/audit; not used for lookup (id is authoritative)."))
                .with("media_type", choice(TextList::new().with("movie").with("series")))
                .with("season", described("integer", "A specific season number, if this change is season-scoped. Omit for a whole-series change (always Confirm-tier)."))
                .with("action", choice(TextList::new().with("monitor").with("tag").with("add_to_collection")))
                .with("monitored", described("boolean", "Required for action=monitor."))
                .with("tag_ids", list(typed("integer"), "Required for action=tag -- already-resolved Radarr/Sonarr tag ids."))
                .with("collection_tmdb_id", described("integer", "Required for action=add_to_collection (movies only)."))
                .with("item_count", described("integer", "How many discrete items this call would change at once. Defaults to 1; >1 is always Confirm-tier."))
                .with("is_ambiguous", described("boolean", "True if the target itself is not definitively resolved. Defaults to false."))
                .with("confirm", described("boolean", "Must be true to execute a Confirm-tier organize change.")),
            TextList::new().with("id").with("media_type").with("action"),
        );
        describe(
            "media_organize",
            "Non-destructive library organization: tag a movie/series, toggle its monitored state, or set a movie's collection. Uses the same tiered mutation safety as media_request -- a specific, unambiguous, single-item or single-season change executes immediately; anything ambiguous, bulk, or whole-series-scoped returns a confirmation payload and requires confirm: true. Never used for deletion/removal -- see media_delete and media_cleanup for those.",
            parameters,
        )
    }
}

/// What the deletion tool says about itself.
pub open spec fn delete_info() -> InfoView {
    InfoView {
        name: "media_delete"@,
        description: "Permanently delete a single movie or series (Radarr/Sonarr) and its files. DESTRUCTIVE -- hard-gated: the first call (no confirm_delete) returns the exact target title and does NOT delete; a follow-up call must set confirm_delete to that exact title (not a boolean) to actually remove it. A bare confirm: true never triggers a deletion. Deleting something already absent from the library is a no-op, not an error."@,
        parameters: required_object_view(
            no_fields()
                .push(("id"@, described_view("integer"@, "Radarr/Sonarr resource id of the item to delete."@)))
                .push(("media_type"@, choice_view(no_texts().push("movie"@).push("series"@))))
                .push(("confirm_delete"@, described_view("string"@, "Must exactly equal the target's title (as returned by the first, unconfirmed call) to actually delete. Omit to get the confirmation payload naming the exact target."@))),
            no_texts().push("id"@).push("media_type"@),
        ),
    }
}

impl MediaDelete {
    /// What this tool says about itself.
    pub fn info() -> (r: ToolInfo)
        ensures
            r@ == delete_info(),
    {
        let parameters = required_object(
            Fields::new()
                .with("id", described("integer", "Radarr/Sonarr resource id of the item to delete."))
                .with("media_type", choice(TextList::new().with("movie").with("series")))
                .with("confirm_delete", described("string", "Must exactly equal the target's title (as returned by the first, unconfirmed call) to actually delete. Omit to get the confirmation payload naming the exact target.")),
            TextList::new().with("id").with("media_type"),
        );
        describe(
            "media_delete",
            "Permanently delete a single movie or series (Radarr/Sonarr) and its files. DESTRUCTIVE -- hard-gated: the first call (no confirm_delete) returns the exact target title and does NOT delete; a follow-up call must set confirm_delete to that exact title (not a boolean) to actually remove it. A bare confirm: true never triggers a deletion. Deleting something already absent from the library is a no-op, not an error.",
            parameters,
        )
    }
}

/// What the clean-up tool says about itself.
pub open spec fn cleanup_info() -> InfoView {
    InfoView {
        name: "media_cleanup"@,
        description: "Bulk-remove watched media (e.g. \"clean up what I've watched\") from Radarr/Sonarr. DESTRUCTIVE -- hard-gated: the first call enumerates the EXACT titles that would be removed and deletes nothing; a follow-up call must set confirm_delete to that exact list of titles to actually remove them. Items not watched by every Plex user on a shared server are flagged and never silently removed, even when confirmed."@,
        parameters: required_object_view(
            no_fields()
                .push(("media_type"@, choice_view(no_texts().push("movie"@).push("series"@))))
                .push(("candidates"@, list_view(
                    candidate_schema_view(),
                    "Items to consider for cleanup, pre-resolved by the caller (typically from Plex watch history cross-referenced with the Radarr/Sonarr library)."@,
                )))
                .push(("confirm_delete"@, list_view(typed_view("string"@), "Must exactly equal the enumerated list of eligible titles (as returned by the first, unconfirmed call) to actually delete them."@))),
            no_texts().push("media_type"@).push("candidates"@),
        ),
    }
}

/// The schema of one candidate.
pub open spec fn candidate_schema_view() -> JsonView {
    required_object_view(
        no_fields()
            .push(("id"@, typed_view("integer"@)))
            .push(("title"@, typed_view("string"@)))
            .push(("watched_by_all_users"@, described_view("boolean"@, "False/omitted -> flagged, never removed even if confirmed (multi-user Plex safety)."@))),
        no_texts().push("id"@).push("title"@),
    )
}

fn candidate_schema() -> (r: Json)
    ensures
        r@ == candidate_schema_view(),
{
    required_object(
        Fields::new()
            .with("id", typed("integer"))
            .with("title", typed("string"))
            .with("watched_by_all_users", described("boolean", "False/omitted -> flagged, never removed even if confirmed (multi-user Plex safety).")),
        TextList::new().with("id").with("title"),
    )
}

impl MediaCleanup {
    /// What this tool says about itself.
    pub fn info() -> (r: ToolInfo)
        ensures
            r@ == cleanup_info(),
    {
        let parameters = required_object(
            Fields::new()
                .with("media_type", choice(TextList::new().with("movie").with("series")))
                .with("candidates", list(
                    candidate_schema(),
                    "Items to consider for cleanup, pre-resolved by the caller (typically from Plex watch history cross-referenced with the Radarr/Sonarr library).",
                ))
                .with("confirm_delete", list(typed("string"), "Must exactly equal the enumerated list of eligible titles (as returned by the first, unconfirmed call) to actually delete them.")),
            TextList::new().with("media_type").with("candidates"),
        );
        describe(
            "media_cleanup",
            "Bulk-remove watched media (e.g. \"clean up what I've watched\") from Radarr/Sonarr. DESTRUCTIVE -- hard-gated: the first call enumerates the EXACT titles that would be removed and deletes nothing; a follow-up call must set confirm_delete to that exact list of titles to actually remove them. Items not watched by every Plex user on a shared server are flagged and never silently removed, even when confirmed.",
            parameters,
        )
    }
}

/// Offers the organizing, deletion and clean-up tools.
pub fn register(registry: &mut ToolRegistry)
    ensures
        final(registry)@ == with_tool(
            with_tool(with_tool(old(registry)@, organize_info()), delete_info()),
            cleanup_info(),
        ),
{
    registry.register_or_replace(MediaOrganize::info());
    registry.register_or_replace(MediaDelete::info());
    registry.register_or_replace(MediaCleanup::info());
}

} // verus!
