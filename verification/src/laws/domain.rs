//! The media domain as a whole: what its tools take, which are offered, and which services are
//! configured.
use vstd::prelude::*;

use crate::json::{lemma_lookup_push, JsonView};
use crate::media::{domain_tools, status_view, MediaDomainStatus};
use crate::media::account_map::{account_in, account_of, is_account_map};
use crate::registry::{offers, position_from, registration_adds_one_name, with_tool, InfoView};
use crate::text::{has_substring, trimmed};
use crate::tool_cache::never_cached;

verus! {

/// The status says of every service whether it is configured, how many are, and how many there are.
pub proof fn the_status_names_every_service(s: MediaDomainStatus)
    ensures
        ({
            let it = status_view(s);
            let one = |b: bool|
                if b {
                    1int
                } else {
                    0int
                };
            &&& it.bool_at("radarr"@) == Some(s.radarr)
            &&& it.bool_at("sonarr"@) == Some(s.sonarr)
            &&& it.bool_at("prowlarr"@) == Some(s.prowlarr)
            &&& it.bool_at("qtor"@) == Some(s.qtor)
            &&& it.bool_at("plex"@) == Some(s.plex)
            &&& it.bool_at("<media-service>"@) == Some(s.jellyseerr)
            &&& it.bool_at("tmdb"@) == Some(s.tmdb)
            &&& it.at("total_services"@) == JsonView::Int(7)
            &&& it.at("configured_count"@) == JsonView::Int(
                one(s.radarr) + one(s.sonarr) + one(s.prowlarr) + one(s.qtor) + one(s.plex) + one(
                    s.jellyseerr,
                ) + one(s.tmdb),
            )
        }),
{
    broadcast use lemma_lookup_push;
    reveal_strlit("radarr");
    reveal_strlit("sonarr");
    reveal_strlit("prowlarr");
    reveal_strlit("qtor");
    reveal_strlit("plex");
    reveal_strlit("<media-service>");
    reveal_strlit("tmdb");
    reveal_strlit("configured_count");
    reveal_strlit("total_services");
    assert("radarr"@.len() == 6);
    assert("sonarr"@.len() == 6);
    assert("prowlarr"@.len() == 8);
    assert("qtor"@.len() == 4);
    assert("plex"@.len() == 4);
    assert("<media-service>"@.len() == 15);
    assert("tmdb"@.len() == 4);
    assert("configured_count"@.len() == 16);
    assert("total_services"@.len() == 14);
    assert("radarr"@[0] == 'r');
    assert("sonarr"@[0] == 's');
    assert("qtor"@[0] == 'q');
    assert("plex"@[0] == 'p');
    assert("tmdb"@[0] == 't');
}

/// Whether a schema is that of an object which must have some properties.
pub open spec fn takes(tool: InfoView, required: Seq<Seq<char>>) -> bool {
    &&& tool.parameters.text_at("type"@) == Some("object"@)
    &&& tool.parameters.at("properties"@) is Object
    &&& required.len() == 0 ==> tool.parameters.field("required"@) is None
    &&& required.len() > 0 ==> (tool.parameters.items_at("required"@) matches Some(items)
        && items.len() == required.len() && forall|i: int|
        0 <= i < items.len() ==> #[trigger] items[i] == JsonView::Str(required[i]))
}

/// The type of a property in a tool's schema.
pub open spec fn property_type(tool: InfoView, key: Seq<char>) -> Option<Seq<char>> {
    tool.parameters.at("properties"@).at(key).text_at("type"@)
}

/// The values that a property in a tool's schema is one of.
pub open spec fn property_choices(tool: InfoView, key: Seq<char>) -> Option<Seq<JsonView>> {
    tool.parameters.at("properties"@).at(key).items_at("enum"@)
}

/// The domain status tool is offered under its name, and says what it takes and of which type.
pub proof fn domain_status_takes_its_arguments()
    ensures
        crate::media::domain_status_info().name == "media_domain_status"@,
        takes(crate::media::domain_status_info(), Seq::empty()),
{
    broadcast use lemma_lookup_push;
    reveal_strlit("type");
    reveal_strlit("properties");
    reveal_strlit("required");
    reveal_strlit("description");
    reveal_strlit("enum");
    reveal_strlit("items");
    assert("type"@.len() == 4);
    assert("properties"@.len() == 10);
    assert("required"@.len() == 8);
    assert("description"@.len() == 11);
    assert("enum"@.len() == 4);
    assert("items"@.len() == 5);
    assert("type"@[0] == 't');
    assert("enum"@[0] == 'e');
    let info = crate::media::domain_status_info();
}

/// The search tool is offered under its name, and says what it takes and of which type.
pub proof fn search_takes_its_arguments()
    ensures
        crate::media::search::search_info().name == "media_search"@,
        takes(crate::media::search::search_info(), seq!["query"@]),
        property_type(crate::media::search::search_info(), "query"@) == Some("string"@),
{
    broadcast use lemma_lookup_push;
    reveal_strlit("type");
    reveal_strlit("properties");
    reveal_strlit("required");
    reveal_strlit("description");
    reveal_strlit("enum");
    reveal_strlit("items");
    reveal_strlit("query");
    assert("type"@.len() == 4);
    assert("properties"@.len() == 10);
    assert("required"@.len() == 8);
    assert("description"@.len() == 11);
    assert("enum"@.len() == 4);
    assert("items"@.len() == 5);
    assert("query"@.len() == 5);
    assert("type"@[0] == 't');
    assert("enum"@[0] == 'e');
    assert("items"@[0] == 'i');
    assert("query"@[0] == 'q');
    let info = crate::media::search::search_info();
}

/// The status call tool is offered under its name, and says what it takes and of which type.
pub proof fn status_takes_its_arguments()
    ensures
        crate::media::search::status_info().name == "media_status"@,
        takes(crate::media::search::status_info(), seq!["id_or_title"@]),
        property_type(crate::media::search::status_info(), "id_or_title"@) == Some("string"@),
{
    broadcast use lemma_lookup_push;
    reveal_strlit("type");
    reveal_strlit("properties");
    reveal_strlit("required");
    reveal_strlit("description");
    reveal_strlit("enum");
    reveal_strlit("items");
    reveal_strlit("id_or_title");
    assert("type"@.len() == 4);
    assert("properties"@.len() == 10);
    assert("required"@.len() == 8);
    assert("description"@.len() == 11);
    assert("enum"@.len() == 4);
    assert("items"@.len() == 5);
    assert("id_or_title"@.len() == 11);
    assert("type"@[0] == 't');
    assert("enum"@[0] == 'e');
    assert("description"@[0] == 'd');
    assert("id_or_title"@[0] == 'i');
    let info = crate::media::search::status_info();
}

/// The request tool is offered under its name, and says what it takes and of which type.
pub proof fn request_takes_its_arguments()
    ensures
        crate::media::request::request_info().name == "media_request"@,
        takes(crate::media::request::request_info(), seq!["title"@, "media_type"@]),
        property_type(crate::media::request::request_info(), "title"@) == Some("string"@),
        property_type(crate::media::request::request_info(), "media_type"@) == Some("string"@),
        property_choices(crate::media::request::request_info(), "media_type"@) matches Some(options) && options == seq![JsonView::Str("movie"@), JsonView::Str("series"@)],
        property_type(crate::media::request::request_info(), "year"@) == Some("string"@),
        property_type(crate::media::request::request_info(), "tmdb_id"@) == Some("integer"@),
        property_type(crate::media::request::request_info(), "tvdb_id"@) == Some("integer"@),
        property_type(crate::media::request::request_info(), "season"@) == Some("integer"@),
        property_type(crate::media::request::request_info(), "quality_hint"@) == Some("string"@),
        property_type(crate::media::request::request_info(), "size_estimate_bytes"@) == Some("integer"@),
        property_type(crate::media::request::request_info(), "item_count"@) == Some("integer"@),
        property_type(crate::media::request::request_info(), "is_ambiguous"@) == Some("boolean"@),
        property_type(crate::media::request::request_info(), "confirm"@) == Some("boolean"@),
{
    broadcast use lemma_lookup_push;
    reveal_strlit("type");
    reveal_strlit("properties");
    reveal_strlit("required");
    reveal_strlit("description");
    reveal_strlit("enum");
    reveal_strlit("items");
    reveal_strlit("title");
    reveal_strlit("media_type");
    reveal_strlit("year");
    reveal_strlit("tmdb_id");
    reveal_strlit("tvdb_id");
    reveal_strlit("season");
    reveal_strlit("quality_hint");
    reveal_strlit("size_estimate_bytes");
    reveal_strlit("item_count");
    reveal_strlit("is_ambiguous");
    reveal_strlit("confirm");
    assert("type"@.len() == 4);
    assert("properties"@.len() == 10);
    assert("required"@.len() == 8);
    assert("description"@.len() == 11);
    assert("enum"@.len() == 4);
    assert("items"@.len() == 5);
    assert("title"@.len() == 5);
    assert("media_type"@.len() == 10);
    assert("year"@.len() == 4);
    assert("tmdb_id"@.len() == 7);
    assert("tvdb_id"@.len() == 7);
    assert("season"@.len() == 6);
    assert("quality_hint"@.len() == 12);
    assert("size_estimate_bytes"@.len() == 19);
    assert("item_count"@.len() == 10);
    assert("is_ambiguous"@.len() == 12);
    assert("confirm"@.len() == 7);
    assert("type"@[0] == 't');
    assert("enum"@[0] == 'e');
    assert("year"@[0] == 'y');
    assert("properties"@[0] == 'p');
    assert("media_type"@[0] == 'm');
    assert("item_count"@[0] == 'i');
    assert("items"@[0] == 'i');
    assert("title"@[0] == 't');
    assert("tmdb_id"@[1] == 'm');
    assert("tvdb_id"@[1] == 'v');
    assert("tmdb_id"@[0] == 't');
    assert("confirm"@[0] == 'c');
    assert("tvdb_id"@[0] == 't');
    assert("quality_hint"@[0] == 'q');
    assert("is_ambiguous"@[0] == 'i');
    let info = crate::media::request::request_info();
    assert(property_choices(info, "media_type"@).unwrap() =~= seq![JsonView::Str("movie"@), JsonView::Str("series"@)]);
}

/// The change tool is offered under its name, and says what it takes and of which type.
pub proof fn organize_takes_its_arguments()
    ensures
        crate::media::organize::organize_info().name == "media_organize"@,
        takes(crate::media::organize::organize_info(), seq!["id"@, "media_type"@, "action"@]),
        property_type(crate::media::organize::organize_info(), "id"@) == Some("integer"@),
        property_type(crate::media::organize::organize_info(), "title"@) == Some("string"@),
        property_type(crate::media::organize::organize_info(), "media_type"@) == Some("string"@),
        property_choices(crate::media::organize::organize_info(), "media_type"@) matches Some(options) && options == seq![JsonView::Str("movie"@), JsonView::Str("series"@)],
        property_type(crate::media::organize::organize_info(), "season"@) == Some("integer"@),
        property_type(crate::media::organize::organize_info(), "action"@) == Some("string"@),
        property_choices(crate::media::organize::organize_info(), "action"@) matches Some(options) && options == seq![JsonView::Str("monitor"@), JsonView::Str("tag"@), JsonView::Str("add_to_collection"@)],
        property_type(crate::media::organize::organize_info(), "monitored"@) == Some("boolean"@),
        property_type(crate::media::organize::organize_info(), "tag_ids"@) == Some("array"@),
        property_type(crate::media::organize::organize_info(), "collection_tmdb_id"@) == Some("integer"@),
        property_type(crate::media::organize::organize_info(), "item_count"@) == Some("integer"@),
        property_type(crate::media::organize::organize_info(), "is_ambiguous"@) == Some("boolean"@),
        property_type(crate::media::organize::organize_info(), "confirm"@) == Some("boolean"@),
{
    broadcast use lemma_lookup_push;
    reveal_strlit("type");
    reveal_strlit("properties");
    reveal_strlit("required");
    reveal_strlit("description");
    reveal_strlit("enum");
    reveal_strlit("items");
    reveal_strlit("id");
    reveal_strlit("title");
    reveal_strlit("media_type");
    reveal_strlit("season");
    reveal_strlit("action");
    reveal_strlit("monitored");
    reveal_strlit("tag_ids");
    reveal_strlit("collection_tmdb_id");
    reveal_strlit("item_count");
    reveal_strlit("is_ambiguous");
    reveal_strlit("confirm");
    assert("type"@.len() == 4);
    assert("properties"@.len() == 10);
    assert("required"@.len() == 8);
    assert("description"@.len() == 11);
    assert("enum"@.len() == 4);
    assert("items"@.len() == 5);
    assert("id"@.len() == 2);
    assert("title"@.len() == 5);
    assert("media_type"@.len() == 10);
    assert("season"@.len() == 6);
    assert("action"@.len() == 6);
    assert("monitored"@.len() == 9);
    assert("tag_ids"@.len() == 7);
    assert("collection_tmdb_id"@.len() == 18);
    assert("item_count"@.len() == 10);
    assert("is_ambiguous"@.len() == 12);
    assert("confirm"@.len() == 7);
    assert("type"@[0] == 't');
    assert("enum"@[0] == 'e');
    assert("properties"@[0] == 'p');
    assert("media_type"@[0] == 'm');
    assert("item_count"@[0] == 'i');
    assert("items"@[0] == 'i');
    assert("title"@[0] == 't');
    assert("season"@[0] == 's');
    assert("action"@[0] == 'a');
    assert("tag_ids"@[0] == 't');
    assert("confirm"@[0] == 'c');
    let info = crate::media::organize::organize_info();
    assert(property_choices(info, "media_type"@).unwrap() =~= seq![JsonView::Str("movie"@), JsonView::Str("series"@)]);
    assert(property_choices(info, "action"@).unwrap() =~= seq![JsonView::Str("monitor"@), JsonView::Str("tag"@), JsonView::Str("add_to_collection"@)]);
}

/// The deletion tool is offered under its name, and says what it takes and of which type.
pub proof fn delete_takes_its_arguments()
    ensures
        crate::media::organize::delete_info().name == "media_delete"@,
        takes(crate::media::organize::delete_info(), seq!["id"@, "media_type"@]),
        property_type(crate::media::organize::delete_info(), "id"@) == Some("integer"@),
        property_type(crate::media::organize::delete_info(), "media_type"@) == Some("string"@),
        property_choices(crate::media::organize::delete_info(), "media_type"@) matches Some(options) && options == seq![JsonView::Str("movie"@), JsonView::Str("series"@)],
        property_type(crate::media::organize::delete_info(), "confirm_delete"@) == Some("string"@),
{
    broadcast use lemma_lookup_push;
    reveal_strlit("type");
    reveal_strlit("properties");
    reveal_strlit("required");
    reveal_strlit("description");
    reveal_strlit("enum");
    reveal_strlit("items");
    reveal_strlit("id");
    reveal_strlit("media_type");
    reveal_strlit("confirm_delete");
    assert("type"@.len() == 4);
    assert("properties"@.len() == 10);
    assert("required"@.len() == 8);
    assert("description"@.len() == 11);
    assert("enum"@.len() == 4);
    assert("items"@.len() == 5);
    assert("id"@.len() == 2);
    assert("media_type"@.len() == 10);
    assert("confirm_delete"@.len() == 14);
    assert("type"@[0] == 't');
    assert("enum"@[0] == 'e');
    assert("properties"@[0] == 'p');
    assert("media_type"@[0] == 'm');
    let info = crate::media::organize::delete_info();
    assert(property_choices(info, "media_type"@).unwrap() =~= seq![JsonView::Str("movie"@), JsonView::Str("series"@)]);
}

/// The clean-up tool is offered under its name, and says what it takes and of which type.
pub proof fn cleanup_takes_its_arguments()
    ensures
        crate::media::organize::cleanup_info().name == "media_cleanup"@,
        takes(crate::media::organize::cleanup_info(), seq!["media_type"@, "candidates"@]),
        property_type(crate::media::organize::cleanup_info(), "media_type"@) == Some("string"@),
        property_choices(crate::media::organize::cleanup_info(), "media_type"@) matches Some(options) && options == seq![JsonView::Str("movie"@), JsonView::Str("series"@)],
        property_type(crate::media::organize::cleanup_info(), "candidates"@) == Some("array"@),
        property_type(crate::media::organize::cleanup_info(), "confirm_delete"@) == Some("array"@),
{
    broadcast use lemma_lookup_push;
    reveal_strlit("type");
    reveal_strlit("properties");
    reveal_strlit("required");
    reveal_strlit("description");
    reveal_strlit("enum");
    reveal_strlit("items");
    reveal_strlit("media_type");
    reveal_strlit("candidates");
    reveal_strlit("confirm_delete");
    assert("type"@.len() == 4);
    assert("properties"@.len() == 10);
    assert("required"@.len() == 8);
    assert("description"@.len() == 11);
    assert("enum"@.len() == 4);
    assert("items"@.len() == 5);
    assert("media_type"@.len() == 10);
    assert("candidates"@.len() == 10);
    assert("confirm_delete"@.len() == 14);
    assert("type"@[0] == 't');
    assert("enum"@[0] == 'e');
    assert("properties"@[0] == 'p');
    assert("media_type"@[0] == 'm');
    assert("candidates"@[0] == 'c');
    let info = crate::media::organize::cleanup_info();
    assert(property_choices(info, "media_type"@).unwrap() =~= seq![JsonView::Str("movie"@), JsonView::Str("series"@)]);
}

/// The recommendation tool is offered under its name, and says what it takes and of which type.
pub proof fn recommend_takes_its_arguments()
    ensures
        crate::media::recommend::recommend_info().name == "media_recommend"@,
        takes(crate::media::recommend::recommend_info(), Seq::empty()),
        property_type(crate::media::recommend::recommend_info(), "limit"@) == Some("integer"@),
        property_type(crate::media::recommend::recommend_info(), "account_id"@) == Some("string"@),
{
    broadcast use lemma_lookup_push;
    reveal_strlit("type");
    reveal_strlit("properties");
    reveal_strlit("required");
    reveal_strlit("description");
    reveal_strlit("enum");
    reveal_strlit("items");
    reveal_strlit("limit");
    reveal_strlit("account_id");
    assert("type"@.len() == 4);
    assert("properties"@.len() == 10);
    assert("required"@.len() == 8);
    assert("description"@.len() == 11);
    assert("enum"@.len() == 4);
    assert("items"@.len() == 5);
    assert("limit"@.len() == 5);
    assert("account_id"@.len() == 10);
    assert("type"@[0] == 't');
    assert("enum"@[0] == 'e');
    assert("properties"@[0] == 'p');
    assert("account_id"@[0] == 'a');
    assert("items"@[0] == 'i');
    assert("limit"@[0] == 'l');
    let info = crate::media::recommend::recommend_info();
}

/// The continue-watching tool is offered under its name, and says what it takes and of which type.
pub proof fn on_deck_takes_its_arguments()
    ensures
        crate::media::recommend::on_deck_info().name == "media_on_deck"@,
        takes(crate::media::recommend::on_deck_info(), Seq::empty()),
{
    broadcast use lemma_lookup_push;
    reveal_strlit("type");
    reveal_strlit("properties");
    reveal_strlit("required");
    reveal_strlit("description");
    reveal_strlit("enum");
    reveal_strlit("items");
    assert("type"@.len() == 4);
    assert("properties"@.len() == 10);
    assert("required"@.len() == 8);
    assert("description"@.len() == 11);
    assert("enum"@.len() == 4);
    assert("items"@.len() == 5);
    assert("type"@[0] == 't');
    assert("enum"@[0] == 'e');
    let info = crate::media::recommend::on_deck_info();
}

/// The recent-additions tool is offered under its name, and says what it takes and of which type.
pub proof fn recently_added_takes_its_arguments()
    ensures
        crate::media::recommend::recently_added_info().name == "media_recently_added"@,
        takes(crate::media::recommend::recently_added_info(), Seq::empty()),
{
    broadcast use lemma_lookup_push;
    reveal_strlit("type");
    reveal_strlit("properties");
    reveal_strlit("required");
    reveal_strlit("description");
    reveal_strlit("enum");
    reveal_strlit("items");
    assert("type"@.len() == 4);
    assert("properties"@.len() == 10);
    assert("required"@.len() == 8);
    assert("description"@.len() == 11);
    assert("enum"@.len() == 4);
    assert("items"@.len() == 5);
    assert("type"@[0] == 't');
    assert("enum"@[0] == 'e');
    let info = crate::media::recommend::recently_added_info();
}

/// The recommendation with memory tool is offered under its name, and says what it takes and of which type.
pub proof fn taste_aware_takes_its_arguments()
    ensures
        crate::media::taste_memory::taste_aware_info().name == "media_recommend"@,
        takes(crate::media::taste_memory::taste_aware_info(), Seq::empty()),
        property_type(crate::media::taste_memory::taste_aware_info(), "limit"@) == Some("integer"@),
        property_type(crate::media::taste_memory::taste_aware_info(), "account_id"@) == Some("string"@),
{
    broadcast use lemma_lookup_push;
    reveal_strlit("type");
    reveal_strlit("properties");
    reveal_strlit("required");
    reveal_strlit("description");
    reveal_strlit("enum");
    reveal_strlit("items");
    reveal_strlit("limit");
    reveal_strlit("account_id");
    assert("type"@.len() == 4);
    assert("properties"@.len() == 10);
    assert("required"@.len() == 8);
    assert("description"@.len() == 11);
    assert("enum"@.len() == 4);
    assert("items"@.len() == 5);
    assert("limit"@.len() == 5);
    assert("account_id"@.len() == 10);
    assert("type"@[0] == 't');
    assert("enum"@[0] == 'e');
    assert("properties"@[0] == 'p');
    assert("account_id"@[0] == 'a');
    assert("items"@[0] == 'i');
    assert("limit"@[0] == 'l');
    let info = crate::media::taste_memory::taste_aware_info();
}

/// The feedback tool is offered under its name, and says what it takes and of which type.
pub proof fn feedback_takes_its_arguments()
    ensures
        crate::media::taste_memory::feedback_info().name == "media_taste_feedback"@,
        takes(crate::media::taste_memory::feedback_info(), seq!["title"@, "signal"@]),
        property_type(crate::media::taste_memory::feedback_info(), "title"@) == Some("string"@),
        property_type(crate::media::taste_memory::feedback_info(), "media_type"@) == Some("string"@),
        property_choices(crate::media::taste_memory::feedback_info(), "media_type"@) matches Some(options) && options == seq![JsonView::Str("movie"@), JsonView::Str("tv"@)],
        property_type(crate::media::taste_memory::feedback_info(), "signal"@) == Some("string"@),
        property_choices(crate::media::taste_memory::feedback_info(), "signal"@) matches Some(options) && options == seq![JsonView::Str("requested"@), JsonView::Str("watched"@), JsonView::Str("dismissed"@)],
        property_type(crate::media::taste_memory::feedback_info(), "account_id"@) == Some("string"@),
        property_type(crate::media::taste_memory::feedback_info(), "note"@) == Some("string"@),
{
    broadcast use lemma_lookup_push;
    reveal_strlit("type");
    reveal_strlit("properties");
    reveal_strlit("required");
    reveal_strlit("description");
    reveal_strlit("enum");
    reveal_strlit("items");
    reveal_strlit("title");
    reveal_strlit("media_type");
    reveal_strlit("signal");
    reveal_strlit("account_id");
    reveal_strlit("note");
    assert("type"@.len() == 4);
    assert("properties"@.len() == 10);
    assert("required"@.len() == 8);
    assert("description"@.len() == 11);
    assert("enum"@.len() == 4);
    assert("items"@.len() == 5);
    assert("title"@.len() == 5);
    assert("media_type"@.len() == 10);
    assert("signal"@.len() == 6);
    assert("account_id"@.len() == 10);
    assert("note"@.len() == 4);
    assert("type"@[0] == 't');
    assert("enum"@[0] == 'e');
    assert("note"@[0] == 'n');
    assert("properties"@[0] == 'p');
    assert("media_type"@[0] == 'm');
    assert("account_id"@[0] == 'a');
    assert("items"@[0] == 'i');
    assert("title"@[0] == 't');
    let info = crate::media::taste_memory::feedback_info();
    assert(property_choices(info, "media_type"@).unwrap() =~= seq![JsonView::Str("movie"@), JsonView::Str("tv"@)]);
    assert(property_choices(info, "signal"@).unwrap() =~= seq![JsonView::Str("requested"@), JsonView::Str("watched"@), JsonView::Str("dismissed"@)]);
}

/// The live-activity tool is offered under its name, and says what it takes and of which type.
pub proof fn now_playing_takes_its_arguments()
    ensures
        crate::media::now_playing::now_playing_info().name == "media_now_playing"@,
        takes(crate::media::now_playing::now_playing_info(), Seq::empty()),
{
    broadcast use lemma_lookup_push;
    reveal_strlit("type");
    reveal_strlit("properties");
    reveal_strlit("required");
    reveal_strlit("description");
    reveal_strlit("enum");
    reveal_strlit("items");
    assert("type"@.len() == 4);
    assert("properties"@.len() == 10);
    assert("required"@.len() == 8);
    assert("description"@.len() == 11);
    assert("enum"@.len() == 4);
    assert("items"@.len() == 5);
    assert("type"@[0] == 't');
    assert("enum"@[0] == 'e');
    let info = crate::media::now_playing::now_playing_info();
}

/// A candidate of a clean-up is an object with an id, a title and whether every user has watched it,
/// of which the last may be left out; a confirmation is a list of strings.
pub proof fn clean_up_candidates_have_three_fields()
    ensures
        ({
            let properties = crate::media::organize::cleanup_info().parameters.at("properties"@);
            let candidate = properties.at("candidates"@).at("items"@);
            &&& candidate.text_at("type"@) == Some("object"@)
            &&& candidate.at("properties"@).at("id"@).text_at("type"@) == Some("integer"@)
            &&& candidate.at("properties"@).at("title"@).text_at("type"@) == Some("string"@)
            &&& candidate.at("properties"@).at("watched_by_all_users"@).text_at("type"@) == Some(
                "boolean"@,
            )
            &&& candidate.items_at("required"@) matches Some(items) && items.len() == 2 && items[0]
                == JsonView::Str("id"@) && items[1] == JsonView::Str("title"@)
            &&& properties.at("confirm_delete"@).at("items"@).text_at("type"@) == Some("string"@)
        }),
        crate::media::organize::organize_info().parameters.at("properties"@).at("tag_ids"@).at(
            "items"@,
        ).text_at("type"@) == Some("integer"@),
{
    broadcast use lemma_lookup_push;
    reveal_strlit("type");
    reveal_strlit("properties");
    reveal_strlit("required");
    reveal_strlit("description");
    reveal_strlit("enum");
    reveal_strlit("items");
    reveal_strlit("media_type");
    reveal_strlit("candidates");
    reveal_strlit("confirm_delete");
    reveal_strlit("id");
    reveal_strlit("title");
    reveal_strlit("watched_by_all_users");
    reveal_strlit("tag_ids");
    reveal_strlit("collection_tmdb_id");
    reveal_strlit("item_count");
    reveal_strlit("is_ambiguous");
    reveal_strlit("confirm");
    reveal_strlit("monitored");
    reveal_strlit("action");
    reveal_strlit("season");
    assert("type"@.len() == 4);
    assert("properties"@.len() == 10);
    assert("required"@.len() == 8);
    assert("description"@.len() == 11);
    assert("enum"@.len() == 4);
    assert("items"@.len() == 5);
    assert("media_type"@.len() == 10);
    assert("candidates"@.len() == 10);
    assert("confirm_delete"@.len() == 14);
    assert("id"@.len() == 2);
    assert("title"@.len() == 5);
    assert("watched_by_all_users"@.len() == 20);
    assert("tag_ids"@.len() == 7);
    assert("collection_tmdb_id"@.len() == 18);
    assert("item_count"@.len() == 10);
    assert("is_ambiguous"@.len() == 12);
    assert("confirm"@.len() == 7);
    assert("monitored"@.len() == 9);
    assert("action"@.len() == 6);
    assert("season"@.len() == 6);
    assert("type"@[0] == 't');
    assert("enum"@[0] == 'e');
    assert("properties"@[0] == 'p');
    assert("media_type"@[0] == 'm');
    assert("candidates"@[0] == 'c');
    assert("item_count"@[0] == 'i');
    assert("items"@[0] == 'i');
    assert("title"@[0] == 't');
    assert("tag_ids"@[0] == 't');
    assert("confirm"@[0] == 'c');
    assert("action"@[0] == 'a');
    assert("season"@[0] == 's');
}

/// The domain offers its eleven tools, and the feedback tool where memory is switched on, besides
/// everything that was offered before.
pub proof fn the_domain_offers_its_tools(tools: Seq<InfoView>, memory: bool, name: Seq<char>)
    ensures
        offers(domain_tools(tools, memory), name) <==> offers(tools, name) || name == "media_domain_status"@ || name == "media_search"@ || name == "media_status"@ || name == "media_request"@ || name == "media_organize"@ || name == "media_delete"@ || name == "media_cleanup"@ || name == "media_recommend"@ || name == "media_on_deck"@ || name == "media_recently_added"@ || name == "media_now_playing"@ || (memory && name == "media_taste_feedback"@),
{
    let a = with_tool(tools, crate::media::domain_status_info());
    let b = with_tool(a, crate::media::search::search_info());
    let c = with_tool(b, crate::media::search::status_info());
    let d = with_tool(c, crate::media::request::request_info());
    let e = with_tool(d, crate::media::organize::organize_info());
    let f = with_tool(e, crate::media::organize::delete_info());
    let g = with_tool(f, crate::media::organize::cleanup_info());
    let h = with_tool(g, crate::media::recommend::recommend_info());
    let i = with_tool(h, crate::media::recommend::on_deck_info());
    let j = with_tool(i, crate::media::recommend::recently_added_info());
    registration_adds_one_name(tools, crate::media::domain_status_info(), name);
    registration_adds_one_name(a, crate::media::search::search_info(), name);
    registration_adds_one_name(b, crate::media::search::status_info(), name);
    registration_adds_one_name(c, crate::media::request::request_info(), name);
    registration_adds_one_name(d, crate::media::organize::organize_info(), name);
    registration_adds_one_name(e, crate::media::organize::delete_info(), name);
    registration_adds_one_name(f, crate::media::organize::cleanup_info(), name);
    registration_adds_one_name(g, crate::media::recommend::recommend_info(), name);
    registration_adds_one_name(h, crate::media::recommend::on_deck_info(), name);
    registration_adds_one_name(i, crate::media::recommend::recently_added_info(), name);
    crate::laws::taste_memory::memory_is_offered_where_switched_on(j, memory, name);
    let k = crate::media::taste_memory::registered(j, memory);
    registration_adds_one_name(k, crate::media::now_playing::now_playing_info(), name);
}

/// A registration puts a tool in the place of the one with its name, or behind all others; no other
/// tool moves or changes.
pub proof fn registrations_replace_in_place(tools: Seq<InfoView>, tool: InfoView)
    ensures
        ({
            let after = with_tool(tools, tool);
            match position_from(tools, tool.name, 0) {
                Some(p) => {
                    &&& 0 <= p < tools.len()
                    &&& tools[p].name == tool.name
                    &&& after.len() == tools.len()
                    &&& after[p] == tool
                    &&& forall|i: int|
                        0 <= i < tools.len() && i != p ==> #[trigger] after[i] == tools[i]
                },
                None => {
                    &&& after.len() == tools.len() + 1
                    &&& after[tools.len() as int] == tool
                    &&& forall|i: int|
                        0 <= i < tools.len() ==> #[trigger] after[i] == tools[i] && tools[i].name
                            != tool.name
                },
            }
        }),
{
    crate::registry::lemma_position(tools, tool.name, 0);
}

/// A result is never served again where its tool is the live one, or its name speaks of an alert, of
/// severity or of a warning; any other may be.
pub proof fn live_results_are_never_served_again(name: Seq<char>)
    ensures
        never_cached(name) <==> name == "media_now_playing"@ || has_substring(name, "alert"@)
            || has_substring(name, "severe"@) || has_substring(name, "warning"@),
{
}

/// A map in which every principal has a string that is not blank gives each the account that it
/// states; a principal that it does not name has none, and neither has anyone in any other map.
pub proof fn sound_maps_give_the_accounts_they_state(map: JsonView, principal: Seq<char>)
    ensures
        ({
            let sound = map is Object && forall|who: Seq<char>|
                (#[trigger] map.field(who)) matches Some(v) ==> (v matches JsonView::Str(s)
                    && trimmed(s).len() > 0);
            &&& !sound ==> account_in(map, principal) is None
            &&& sound ==> match map.field(principal) {
                Some(JsonView::Str(s)) => account_in(map, principal) == Some(trimmed(s)),
                _ => account_in(map, principal) is None,
            }
        }),
{
    if is_account_map(map) {
        assert forall|who: Seq<char>| (#[trigger] map.field(who)) is Some implies (
        map.field(who).unwrap() matches JsonView::Str(s) && trimmed(s).len() > 0) by {}
    } else if map is Object {
        let who = choose|who: Seq<char>|
            !((#[trigger] map.field(who)) matches Some(v)
                ==> crate::media::account_map::is_account(v));
        assert(map.field(who) is Some);
    }
}

/// A document gives an account where it is JSON and its map does; a missing or blank one gives none.
pub proof fn documents_hold_the_map(document: Option<Seq<char>>, principal: Seq<char>)
    ensures
        document is None ==> account_of(document, principal) is None,
        document matches Some(text) ==> account_of(document, principal) == (if trimmed(text).len()
            == 0 {
            None
        } else {
            match crate::json::parsed(trimmed(text)) {
                Ok(map) => account_in(map, principal),
                Err(_) => None,
            }
        }),
{
}

} // verus!
